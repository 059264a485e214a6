mod collection;
mod database;
mod entry;

pub use collection::AddOutcome;
pub use collection::TimetableApp;
pub use collection::day_selects;
pub use collection::filtered_prefix;
pub use collection::filtered_view;
pub use collection::lemma_filter_all_days;
pub use collection::lemma_filter_complete;
pub use collection::lemma_filter_ordered;
pub use collection::lemma_filter_sound;

pub use database::StoreError;
pub use database::delete_entry;
pub use database::entry_from_row_fields;
pub use database::insert_entry;
pub use database::load_entries;
pub use entry::TimetableEntry;
