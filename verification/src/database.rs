use vstd::prelude::*;

use crate::entry::TimetableEntry;

verus! {

/// A failure reported by the durable backend.
///
/// Every store operation first establishes its own connection; a failure to do
/// so is `Unavailable`. A failure of the statement itself, after connecting, is
/// `Read` for the select and `Write` for the insert and the delete.
#[derive(Clone, Copy, Debug, PartialEq, Eq, Structural)]
pub enum StoreError {
    Unavailable,
    Read,
    Write,
}

#[verifier::external_type_specification]
#[verifier::external_body]
pub struct ExClient(postgres::Client);

#[verifier::external_type_specification]
#[verifier::external_body]
pub struct ExPgError(postgres::Error);

#[verifier::external_type_specification]
#[verifier::external_body]
pub struct ExRow(postgres::Row);

/// Relies on postgres::Client::connect: parses the connection string and opens
/// one plaintext connection to the backend, reporting failure as an error.
#[verifier::external_body]
fn connect(conn_str: &str) -> (r: Result<postgres::Client, postgres::Error>) {
    postgres::Client::connect(conn_str, postgres::NoTls)
}

/// Relies on postgres::Client::execute: runs one statement with the given text
/// parameters ($1, $2, ...) and returns the number of rows it modified, or the
/// backend's error.
#[verifier::external_body]
fn run_statement(
    client: &mut postgres::Client,
    sql: &str,
    params: &Vec<&str>,
) -> (r: Result<u64, postgres::Error>) {
    let refs: Vec<&(dyn postgres::types::ToSql + Sync)> = params
        .iter()
        .map(|p| p as &(dyn postgres::types::ToSql + Sync))
        .collect();
    client.execute(sql, &refs)
}

/// Relies on postgres::Client::query: runs one parameterless select and
/// returns the rows the backend sent, or the backend's error.
#[verifier::external_body]
fn run_query(
    client: &mut postgres::Client,
    sql: &str,
) -> (r: Result<Vec<postgres::Row>, postgres::Error>) {
    client.query(sql, &[])
}

/// Relies on postgres::Row::try_get: decodes the column at `idx` as text,
/// returning an error (not panicking) on a missing column, a non-text column,
/// or a null value.
#[verifier::external_body]
fn row_text(row: &postgres::Row, idx: usize) -> (r: Result<String, postgres::Error>) {
    row.try_get(idx)
}

/// Relies on postgres::Row::try_get: decodes the column at `idx` as nullable
/// text, returning `None` for a null value and an error (not panicking) on a
/// missing column or a non-text column.
#[verifier::external_body]
fn row_text_opt(row: &postgres::Row, idx: usize) -> (r: Result<Option<String>, postgres::Error>) {
    row.try_get(idx)
}

/// Builds the entry a loaded row denotes. A null stored notes value (`None`)
/// is normalized to the empty string, the canonical "no notes" representation;
/// the other three fields are taken as they are.
pub fn entry_from_row_fields(
    activity: String,
    time: String,
    day: String,
    notes: Option<String>,
) -> (r: TimetableEntry)
    ensures
        r.activity == activity,
        r.time == time,
        r.day == day,
        notes matches Some(n) ==> r.notes == n,
        notes is None ==> r.notes@.len() == 0,
{
    let notes_value = match notes {
        Some(n) => n,
        None => String::new(),
    };
    TimetableEntry { activity, time, day, notes: notes_value }
}

/// Appends one durable row holding the entry's four fields. Duplicate
/// (activity, time, day) triples are permitted: no uniqueness is enforced.
///
/// Fails with `Unavailable` when no connection can be established and with
/// `Write` when the insert fails after connecting; it never reports `Read`.
pub fn insert_entry(conn_str: &str, entry: &TimetableEntry) -> (r: Result<(), StoreError>)
    ensures
        r matches Err(e) ==> e == StoreError::Unavailable || e == StoreError::Write,
{
    let mut client = match connect(conn_str) {
        Ok(c) => c,
        Err(_) => return Err(StoreError::Unavailable),
    };
    let mut params: Vec<&str> = Vec::new();
    params.push(entry.activity.as_str());
    params.push(entry.time.as_str());
    params.push(entry.day.as_str());
    params.push(entry.notes.as_str());
    match run_statement(
        &mut client,
        "INSERT INTO timetable_entries (activity, time, day, notes) VALUES ($1, $2, $3, $4)",
        &params,
    ) {
        Ok(_) => Ok(()),
        Err(_) => Err(StoreError::Write),
    }
}

/// Loads every durable row, in ascending order of the backend's row-creation
/// identifier, as entries. A row's null notes value is normalized to the empty
/// string by [`entry_from_row_fields`].
///
/// Fails with `Unavailable` when no connection can be established and with
/// `Read` when the select or the decoding of a row fails after connecting; it
/// never reports `Write`.
pub fn load_entries(conn_str: &str) -> (r: Result<Vec<TimetableEntry>, StoreError>)
    ensures
        r matches Err(e) ==> e == StoreError::Unavailable || e == StoreError::Read,
{
    let mut client = match connect(conn_str) {
        Ok(c) => c,
        Err(_) => return Err(StoreError::Unavailable),
    };
    let rows = match run_query(
        &mut client,
        "SELECT activity, time, day, notes FROM timetable_entries ORDER BY id",
    ) {
        Ok(rows) => rows,
        Err(_) => return Err(StoreError::Read),
    };
    let mut out: Vec<TimetableEntry> = Vec::new();
    let mut i: usize = 0;
    while i < rows.len()
        invariant
            i <= rows@.len(),
        decreases rows@.len() - i,
    {
        let row = &rows[i];
        let activity = match row_text(row, 0) {
            Ok(v) => v,
            Err(_) => return Err(StoreError::Read),
        };
        let time = match row_text(row, 1) {
            Ok(v) => v,
            Err(_) => return Err(StoreError::Read),
        };
        let day = match row_text(row, 2) {
            Ok(v) => v,
            Err(_) => return Err(StoreError::Read),
        };
        let notes = match row_text_opt(row, 3) {
            Ok(v) => v,
            Err(_) => return Err(StoreError::Read),
        };
        out.push(entry_from_row_fields(activity, time, day, notes));
        i += 1;
    }
    Ok(out)
}

/// Deletes every durable row whose (activity, time, day) triple matches the
/// given key exactly (case-sensitive, no normalization). Zero matching rows is
/// not an error: the operation still reports success.
///
/// Fails with `Unavailable` when no connection can be established and with
/// `Write` when the delete fails after connecting; it never reports `Read`.
pub fn delete_entry(conn_str: &str, activity: &str, time: &str, day: &str) -> (r: Result<
    (),
    StoreError,
>)
    ensures
        r matches Err(e) ==> e == StoreError::Unavailable || e == StoreError::Write,
{
    let mut client = match connect(conn_str) {
        Ok(c) => c,
        Err(_) => return Err(StoreError::Unavailable),
    };
    let mut params: Vec<&str> = Vec::new();
    params.push(activity);
    params.push(time);
    params.push(day);
    match run_statement(
        &mut client,
        "DELETE FROM timetable_entries WHERE activity = $1 AND time = $2 AND day = $3",
        &params,
    ) {
        Ok(_) => Ok(()),
        Err(_) => Err(StoreError::Write),
    }
}

} // verus!
