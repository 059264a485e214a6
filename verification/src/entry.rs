use vstd::prelude::*;

verus! {

/// A single timetable entry: one scheduled activity with a time-of-day label,
/// a day of the week, and optional free-form notes.
///
/// `activity`, `time` and `day` must be non-empty before the entry may be
/// accepted by [`crate::TimetableApp::add_entry`]; `notes` may be empty, and an
/// empty string is the canonical "no notes" representation.
pub struct TimetableEntry {
    pub activity: String,
    pub time: String,
    pub day: String,
    pub notes: String,
}

impl TimetableEntry {
    /// An entry is valid when its activity, time and day are all non-empty.
    /// Notes are unconstrained.
    pub open spec fn is_valid(self) -> bool {
        &&& self.activity@.len() > 0
        &&& self.time@.len() > 0
        &&& self.day@.len() > 0
    }

    /// All four fields are the empty string.
    pub open spec fn is_blank(self) -> bool {
        &&& self.activity@.len() == 0
        &&& self.time@.len() == 0
        &&& self.day@.len() == 0
        &&& self.notes@.len() == 0
    }

    /// The zero-value entry used to seed input state: every field empty.
    pub fn blank() -> (r: Self)
        ensures
            r.is_blank(),
    {
        TimetableEntry {
            activity: String::new(),
            time: String::new(),
            day: String::new(),
            notes: String::new(),
        }
    }

    /// True iff the required fields (activity, time, day) are all non-empty.
    pub fn validate(&self) -> (r: bool)
        ensures
            r == self.is_valid(),
    {
        !self.activity.as_str().is_empty() && !self.time.as_str().is_empty()
            && !self.day.as_str().is_empty()
    }

    /// An owned copy of this entry, equal to it field for field.
    pub fn duplicate(&self) -> (r: Self)
        ensures
            r == *self,
    {
        TimetableEntry {
            activity: self.activity.clone(),
            time: self.time.clone(),
            day: self.day.clone(),
            notes: self.notes.clone(),
        }
    }
}

impl Default for TimetableEntry {
    /// The default entry is the blank entry.
    fn default() -> (r: Self)
        ensures
            r.is_blank(),
    {
        TimetableEntry::blank()
    }
}

} // verus!
