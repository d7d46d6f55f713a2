//! The time entry that is sent to the service.

use crate::model::{Project, Service};
use vstd::prelude::*;

verus! {

/// Minutes in one hour.
pub const MINUTES_PER_HOUR: u64 = 60;

/// A record of minutes spent on a project and service, as it is submitted.
#[derive(Clone, Debug, PartialEq, Eq)]
pub struct TimeEntry {
    pub minutes: u64,
    pub project_id: u32,
    pub service_id: u32,
    pub note: String,
}

/// What a [`TimeEntry`] is, with its note as a sequence of characters.
pub ghost struct TimeEntryView {
    pub minutes: u64,
    pub project_id: u32,
    pub service_id: u32,
    pub note: Seq<char>,
}

impl View for TimeEntry {
    type V = TimeEntryView;

    open spec fn view(&self) -> TimeEntryView {
        TimeEntryView {
            minutes: self.minutes,
            project_id: self.project_id,
            service_id: self.service_id,
            note: self.note@,
        }
    }
}

/// The entry for `hours` hours on the project and service with the given
/// identifiers.
pub open spec fn entry_for(hours: u32, project_id: u32, service_id: u32, note: Seq<char>)
    -> TimeEntryView {
    TimeEntryView {
        minutes: (hours * MINUTES_PER_HOUR) as u64,
        project_id,
        service_id,
        note,
    }
}

/// The minutes of an entry are sixty times its hours, exactly and for every
/// number of hours: nothing is cut off or wrapped around.
pub proof fn lemma_minutes_exact(hours: u32, project_id: u32, service_id: u32, note: Seq<char>)
    ensures
        entry_for(hours, project_id, service_id, note).minutes == hours * 60,
        entry_for(hours, project_id, service_id, note).project_id == project_id,
        entry_for(hours, project_id, service_id, note).service_id == service_id,
        entry_for(hours, project_id, service_id, note).note == note,
{
}

impl TimeEntry {
    /// Builds the entry for `hours` hours of `service` on `project`.
    ///
    /// The minutes are sixty times the hours, whatever the hours are; the
    /// identifiers and the note are taken over unchanged.
    pub fn new(hours: u32, project: &Project, service: &Service, note: String) -> (entry: TimeEntry)
        ensures
            entry@ == entry_for(hours, project.id, service.id, note@),
            entry.minutes == hours * 60,
    {
        let hours_wide: u64 = hours as u64;
        TimeEntry {
            minutes: hours_wide * MINUTES_PER_HOUR,
            project_id: project.id,
            service_id: service.id,
            note,
        }
    }
}

} // verus!
