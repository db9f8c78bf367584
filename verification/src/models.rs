//! The persisted association between a calendar event and its task.

use vstd::prelude::*;

verus! {

/// One row of the mapping table: the task that mirrors a calendar event.
#[derive(Clone, Debug, PartialEq, Eq)]
pub struct CalendarMapping {
    /// Surrogate key, assigned by the store when the row is inserted.
    pub mapping_id: i32,
    /// The task's identifier, assigned by the tracker when it was created.
    pub clickup_id: String,
    /// The identity of the calendar event.
    pub calendar_id: String,
}

/// What a [`CalendarMapping`] holds.
pub struct MappingView {
    pub mapping_id: int,
    pub clickup_id: Seq<char>,
    pub calendar_id: Seq<char>,
}

impl View for CalendarMapping {
    type V = MappingView;

    open spec fn view(&self) -> MappingView {
        MappingView {
            mapping_id: self.mapping_id as int,
            clickup_id: self.clickup_id@,
            calendar_id: self.calendar_id@,
        }
    }
}

impl DeepView for CalendarMapping {
    type V = MappingView;

    open spec fn deep_view(&self) -> MappingView {
        self.view()
    }
}

} // verus!
