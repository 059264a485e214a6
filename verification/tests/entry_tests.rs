use timetable::TimetableEntry;
use timetable::entry_from_row_fields;

fn entry(activity: &str, time: &str, day: &str, notes: &str) -> TimetableEntry {
    TimetableEntry {
        activity: activity.to_string(),
        time: time.to_string(),
        day: day.to_string(),
        notes: notes.to_string(),
    }
}

#[test]
fn blank_entry_has_all_fields_empty() {
    let e = TimetableEntry::blank();
    assert_eq!(e.activity, "");
    assert_eq!(e.time, "");
    assert_eq!(e.day, "");
    assert_eq!(e.notes, "");
}

#[test]
fn default_entry_is_blank() {
    let e = TimetableEntry::default();
    assert_eq!(e.activity, "");
    assert_eq!(e.time, "");
    assert_eq!(e.day, "");
    assert_eq!(e.notes, "");
}

#[test]
fn validate_accepts_required_fields_present() {
    assert!(entry("Gym", "7:00", "Monday", "").validate());
    assert!(entry("Gym", "7:00", "Monday", "bring shoes").validate());
}

#[test]
fn validate_rejects_any_empty_required_field() {
    assert!(!entry("", "7:00", "Monday", "n").validate());
    assert!(!entry("Gym", "", "Monday", "n").validate());
    assert!(!entry("Gym", "7:00", "", "n").validate());
    assert!(!entry("", "", "", "").validate());
}

#[test]
fn duplicate_copies_every_field() {
    let e = entry("Gym", "7:00", "Monday", "bring shoes");
    let d = e.duplicate();
    assert_eq!(d.activity, "Gym");
    assert_eq!(d.time, "7:00");
    assert_eq!(d.day, "Monday");
    assert_eq!(d.notes, "bring shoes");
}

#[test]
fn null_notes_load_as_empty_string() {
    let e = entry_from_row_fields(
        "Gym".to_string(),
        "7:00".to_string(),
        "Monday".to_string(),
        None,
    );
    assert_eq!(e.activity, "Gym");
    assert_eq!(e.time, "7:00");
    assert_eq!(e.day, "Monday");
    assert_eq!(e.notes, "");
}

#[test]
fn present_notes_load_unchanged() {
    let e = entry_from_row_fields(
        "Gym".to_string(),
        "7:00".to_string(),
        "Monday".to_string(),
        Some("bring shoes".to_string()),
    );
    assert_eq!(e.notes, "bring shoes");
}
