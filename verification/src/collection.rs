use vstd::prelude::*;

use crate::database::{StoreError, delete_entry, insert_entry, load_entries};
use crate::entry::TimetableEntry;

verus! {

/// The outcome of [`TimetableApp::add_entry`].
#[derive(Clone, Copy, Debug, PartialEq, Eq, Structural)]
pub enum AddOutcome {
    /// The candidate failed validation; nothing changed and the store was not
    /// contacted.
    Rejected,
    /// The entry was appended in memory and durably inserted.
    Added,
    /// The entry was appended in memory, but the durable insert failed with
    /// this error; a later successful reload will drop it.
    AddedLocalOnly(StoreError),
}

/// True when the day filter `d` selects entry `e`: an empty filter selects
/// every entry, a non-empty one selects exactly the entries whose `day` field
/// equals it (case-sensitive).
pub open spec fn day_selects(e: TimetableEntry, d: Seq<char>) -> bool {
    d.len() == 0 || e.day@ == d
}

/// The filtered view of the first `n` entries of `s` under the day filter `d`:
/// each selected entry paired with its index in `s`, in order of `s`.
pub open spec fn filtered_prefix(s: Seq<TimetableEntry>, d: Seq<char>, n: int) -> Seq<
    (usize, TimetableEntry),
>
    decreases n,
{
    if n <= 0 {
        Seq::empty()
    } else {
        let prev = filtered_prefix(s, d, n - 1);
        if day_selects(s[n - 1], d) {
            prev.push(((n - 1) as usize, s[n - 1]))
        } else {
            prev
        }
    }
}

/// The filtered view of all of `s` under the day filter `d`.
pub open spec fn filtered_view(s: Seq<TimetableEntry>, d: Seq<char>) -> Seq<
    (usize, TimetableEntry),
> {
    filtered_prefix(s, d, s.len() as int)
}

proof fn lemma_prefix_props(s: Seq<TimetableEntry>, d: Seq<char>, n: int)
    requires
        0 <= n <= s.len(),
        s.len() <= usize::MAX,
    ensures
        forall|k: int| 0 <= k < filtered_prefix(s, d, n).len() ==> {
            let p = #[trigger] filtered_prefix(s, d, n)[k];
            (p.0 as int) < n && s[p.0 as int] == p.1 && day_selects(p.1, d)
        },
        forall|k1: int, k2: int|
            #![trigger filtered_prefix(s, d, n)[k1], filtered_prefix(s, d, n)[k2]]
            0 <= k1 < k2 < filtered_prefix(s, d, n).len() ==> (filtered_prefix(s, d, n)[k1].0
                as int) < (filtered_prefix(s, d, n)[k2].0 as int),
        forall|j: int|
            0 <= j < n && day_selects(s[j], d) ==> exists|k: int|
                0 <= k < filtered_prefix(s, d, n).len() && (#[trigger] filtered_prefix(s, d, n)[k].0
                    as int) == j,
    decreases n,
{
    if n > 0 {
        lemma_prefix_props(s, d, n - 1);
        let prev = filtered_prefix(s, d, n - 1);
        let cur = filtered_prefix(s, d, n);
        if day_selects(s[n - 1], d) {
            assert(cur == prev.push((((n - 1) as usize), s[n - 1])));
            assert(cur[prev.len() as int].0 as int == n - 1);
            assert forall|j: int| 0 <= j < n && day_selects(s[j], d) implies exists|k: int|
                0 <= k < cur.len() && (#[trigger] cur[k].0 as int) == j by {
                if j < n - 1 {
                    let k = choose|k: int|
                        0 <= k < prev.len() && (#[trigger] prev[k].0 as int) == j;
                    assert(cur[k].0 as int == j);
                } else {
                    assert(cur[prev.len() as int].0 as int == j);
                }
            }
        } else {
            assert(cur == prev);
        }
    }
}

/// Soundness of the filter view: every returned pair carries an index that
/// dereferences, in the unfiltered sequence, to exactly the entry paired with
/// it, and that entry is selected by the day filter.
pub proof fn lemma_filter_sound(s: Seq<TimetableEntry>, d: Seq<char>)
    requires
        s.len() <= usize::MAX,
    ensures
        forall|k: int| 0 <= k < filtered_view(s, d).len() ==> {
            let p = #[trigger] filtered_view(s, d)[k];
            (p.0 as int) < s.len() && s[p.0 as int] == p.1 && day_selects(p.1, d)
        },
{
    lemma_prefix_props(s, d, s.len() as int);
}

/// Completeness of the filter view: every entry of the sequence that the day
/// filter selects appears in the view, under its original index.
pub proof fn lemma_filter_complete(s: Seq<TimetableEntry>, d: Seq<char>)
    requires
        s.len() <= usize::MAX,
    ensures
        forall|j: int|
            0 <= j < s.len() && day_selects(s[j], d) ==> exists|k: int|
                0 <= k < filtered_view(s, d).len() && (#[trigger] filtered_view(s, d)[k].0 as int)
                    == j,
{
    lemma_prefix_props(s, d, s.len() as int);
    assert(filtered_view(s, d) == filtered_prefix(s, d, s.len() as int));
}

/// The filter view preserves original order: the original indices it returns
/// are strictly increasing.
pub proof fn lemma_filter_ordered(s: Seq<TimetableEntry>, d: Seq<char>)
    requires
        s.len() <= usize::MAX,
    ensures
        forall|k1: int, k2: int|
            #![trigger filtered_view(s, d)[k1], filtered_view(s, d)[k2]]
            0 <= k1 < k2 < filtered_view(s, d).len() ==> (filtered_view(s, d)[k1].0 as int) < (
            filtered_view(s, d)[k2].0 as int),
{
    lemma_prefix_props(s, d, s.len() as int);
}

proof fn lemma_prefix_all_days(s: Seq<TimetableEntry>, n: int)
    requires
        0 <= n <= s.len(),
        s.len() <= usize::MAX,
    ensures
        filtered_prefix(s, Seq::<char>::empty(), n).len() == n,
        forall|k: int|
            0 <= k < n ==> #[trigger] filtered_prefix(s, Seq::<char>::empty(), n)[k] == ((
            k as usize,
            s[k],
            )),
    decreases n,
{
    if n > 0 {
        lemma_prefix_all_days(s, n - 1);
    }
}

/// An empty day filter selects everything: the view returns every entry,
/// paired with its own index in the unfiltered sequence.
pub proof fn lemma_filter_all_days(s: Seq<TimetableEntry>)
    requires
        s.len() <= usize::MAX,
    ensures
        filtered_view(s, Seq::<char>::empty()).len() == s.len(),
        forall|k: int|
            0 <= k < s.len() ==> #[trigger] filtered_view(s, Seq::<char>::empty())[k] == ((
            k as usize,
            s[k],
            )),
{
    lemma_prefix_all_days(s, s.len() as int);
}

/// The in-memory mirror of the stored entries, kept consistent with the
/// durable backend under local-first optimistic mutation: every mutating
/// operation updates memory first and then makes a best-effort attempt to
/// persist, and a failed store call never rolls the memory change back.
pub struct TimetableApp {
    /// The synchronized collection itself, in insertion/load order.
    pub entries: Vec<TimetableEntry>,
    /// Temporary fields holding the candidate entry under construction.
    pub new_entry: TimetableEntry,
    /// The day filter applied to the view; empty means "all days".
    pub selected_day_filter: String,
    /// The backend connection string.
    pub db_url: String,
}

impl TimetableApp {
    /// Builds the state a given initial-load outcome leads to: on success the
    /// collection is exactly the loaded sequence; on failure it starts empty
    /// and the process stays usable. The candidate entry starts blank and the
    /// day filter starts empty.
    pub fn from_loaded(db_url: String, loaded: Result<Vec<TimetableEntry>, StoreError>) -> (r: Self)
        ensures
            loaded matches Ok(v) ==> r.entries == v,
            loaded is Err ==> r.entries@.len() == 0,
            r.new_entry.is_blank(),
            r.selected_day_filter@.len() == 0,
            r.db_url == db_url,
    {
        let entries = match loaded {
            Ok(v) => v,
            Err(_) => Vec::new(),
        };
        TimetableApp {
            entries,
            new_entry: TimetableEntry::blank(),
            selected_day_filter: String::new(),
            db_url,
        }
    }

    /// Constructs the collection with an initial full load from the store:
    /// on success the collection is the stored sequence, on failure it starts
    /// empty (the failure is non-fatal; a caller that must report it can load
    /// with [`load_entries`] and build with [`Self::from_loaded`] itself).
    pub fn new(db_url: String) -> (r: Self)
        ensures
            r.new_entry.is_blank(),
            r.selected_day_filter@.len() == 0,
            r.db_url == db_url,
    {
        let loaded = load_entries(db_url.as_str());
        Self::from_loaded(db_url, loaded)
    }

    /// Resets the candidate entry to the blank entry; nothing else changes.
    pub fn clear_new_entry_fields(&mut self)
        ensures
            final(self).new_entry.is_blank(),
            final(self).entries == old(self).entries,
            final(self).selected_day_filter == old(self).selected_day_filter,
            final(self).db_url == old(self).db_url,
    {
        self.new_entry = TimetableEntry::blank();
    }

    /// Adds the candidate entry held in `new_entry`.
    ///
    /// An invalid candidate (some required field empty) is rejected: the state
    /// is left exactly as it was and the store is not contacted. A valid
    /// candidate is appended to the in-memory sequence unconditionally and the
    /// candidate fields are cleared; the durable insert is then best-effort,
    /// and its failure does not roll the append back.
    pub fn add_entry(&mut self) -> (r: AddOutcome)
        ensures
            !old(self).new_entry.is_valid() ==> *final(self) == *old(self) && r
                == AddOutcome::Rejected,
            old(self).new_entry.is_valid() ==> {
                &&& final(self).entries@ == old(self).entries@.push(old(self).new_entry)
                &&& final(self).new_entry.is_blank()
                &&& r != AddOutcome::Rejected
            },
            r == AddOutcome::Rejected <==> !old(self).new_entry.is_valid(),
            r matches AddOutcome::AddedLocalOnly(e) ==> e == StoreError::Unavailable || e
                == StoreError::Write,
            final(self).selected_day_filter == old(self).selected_day_filter,
            final(self).db_url == old(self).db_url,
    {
        if !self.new_entry.validate() {
            return AddOutcome::Rejected;
        }
        let candidate = self.new_entry.duplicate();
        self.entries.push(candidate);
        let stored = insert_entry(self.db_url.as_str(), &self.new_entry);
        self.clear_new_entry_fields();
        match stored {
            Ok(_) => AddOutcome::Added,
            Err(e) => AddOutcome::AddedLocalOnly(e),
        }
    }

    /// Removes the entry at `index`.
    ///
    /// The durable delete-by-natural-key is attempted with the entry's
    /// (activity, time, day) triple, and whatever its outcome, the entry at
    /// `index` is removed from the in-memory sequence: once removal is asked
    /// for, the entry is no longer shown, and a failed durable delete only
    /// risks the entry reappearing after a later reload.
    pub fn remove_at(&mut self, index: usize) -> (r: Result<(), StoreError>)
        requires
            index < old(self).entries@.len(),
        ensures
            final(self).entries@ == old(self).entries@.remove(index as int),
            r matches Err(e) ==> e == StoreError::Unavailable || e == StoreError::Write,
            final(self).new_entry == old(self).new_entry,
            final(self).selected_day_filter == old(self).selected_day_filter,
            final(self).db_url == old(self).db_url,
    {
        let key = self.entries[index].duplicate();
        let r = delete_entry(
            self.db_url.as_str(),
            key.activity.as_str(),
            key.time.as_str(),
            key.day.as_str(),
        );
        let _removed = self.entries.remove(index);
        r
    }

    /// Applies the outcome of a full load: on success the in-memory sequence
    /// becomes exactly the loaded sequence (the store is authoritative); on
    /// failure the prior sequence is left untouched and the error is passed
    /// through. Nothing else changes either way.
    pub fn apply_load_result(&mut self, loaded: Result<Vec<TimetableEntry>, StoreError>) -> (r:
        Result<(), StoreError>)
        ensures
            loaded matches Ok(v) ==> final(self).entries == v && r is Ok,
            loaded matches Err(e) ==> final(self).entries == old(self).entries && r == Err::<
                (),
                StoreError,
            >(e),
            final(self).new_entry == old(self).new_entry,
            final(self).selected_day_filter == old(self).selected_day_filter,
            final(self).db_url == old(self).db_url,
    {
        match loaded {
            Ok(v) => {
                self.entries = v;
                Ok(())
            },
            Err(e) => Err(e),
        }
    }

    /// Reloads the collection from the store. Only a successful load replaces
    /// the in-memory sequence; on failure the existing sequence is left
    /// byte-for-byte unchanged and the error is reported.
    pub fn reload(&mut self) -> (r: Result<(), StoreError>)
        ensures
            r matches Err(e) ==> final(self).entries == old(self).entries && (e
                == StoreError::Unavailable || e == StoreError::Read),
            final(self).new_entry == old(self).new_entry,
            final(self).selected_day_filter == old(self).selected_day_filter,
            final(self).db_url == old(self).db_url,
    {
        let loaded = load_entries(self.db_url.as_str());
        self.apply_load_result(loaded)
    }

    /// The filtered view of the collection under the day filter `day`: every
    /// selected entry, in original order, paired with its index in the
    /// unfiltered sequence — the index a caller passes back to
    /// [`Self::remove_at`]. An empty `day` selects every entry. Pure: the
    /// collection is not changed, and the view is recomputed from scratch.
    pub fn filter_by_day(&self, day: &String) -> (r: Vec<(usize, TimetableEntry)>)
        ensures
            r@ == filtered_view(self.entries@, day@),
    {
        let mut out: Vec<(usize, TimetableEntry)> = Vec::new();
        let mut i: usize = 0;
        while i < self.entries.len()
            invariant
                i <= self.entries@.len(),
                out@ == filtered_prefix(self.entries@, day@, i as int),
            decreases self.entries@.len() - i,
        {
            let e = &self.entries[i];
            if day.as_str().is_empty() || e.day == *day {
                out.push((i, e.duplicate()));
            }
            i += 1;
        }
        out
    }

    /// The filtered view under the currently selected day filter.
    pub fn filtered_entries(&self) -> (r: Vec<(usize, TimetableEntry)>)
        ensures
            r@ == filtered_view(self.entries@, self.selected_day_filter@),
    {
        self.filter_by_day(&self.selected_day_filter)
    }
}

} // verus!
