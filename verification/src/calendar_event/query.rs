//! Filters and sort criteria of CalendarEvent/query.
use vstd::prelude::*;

use crate::jmap_core::query;

verus! {

/// A condition of CalendarEvent/query.
#[derive(Debug, Clone)]
#[non_exhaustive]
pub enum Filter {
    /// In one calendar (the singular form some servers use).
    InCalendar { value: String },
    /// In any of the calendars.
    InCalendars { value: Vec<String> },
    Uid { value: String },
    After { value: String },
    Before { value: String },
    Text { value: String },
    Title { value: String },
    Description { value: String },
    Location { value: String },
    Owner { value: String },
    Attendee { value: String },
}

impl Filter {
    pub fn in_calendar(value: String) -> (r: Self)
        ensures
            r == (Filter::InCalendar { value }),
    {
        Filter::InCalendar { value }
    }

    pub fn in_calendars(value: Vec<String>) -> (r: Self)
        ensures
            r == (Filter::InCalendars { value }),
    {
        Filter::InCalendars { value }
    }

    pub fn uid(value: String) -> (r: Self)
        ensures
            r == (Filter::Uid { value }),
    {
        Filter::Uid { value }
    }

    pub fn after(value: String) -> (r: Self)
        ensures
            r == (Filter::After { value }),
    {
        Filter::After { value }
    }

    pub fn before(value: String) -> (r: Self)
        ensures
            r == (Filter::Before { value }),
    {
        Filter::Before { value }
    }

    pub fn text(value: String) -> (r: Self)
        ensures
            r == (Filter::Text { value }),
    {
        Filter::Text { value }
    }

    pub fn title(value: String) -> (r: Self)
        ensures
            r == (Filter::Title { value }),
    {
        Filter::Title { value }
    }

    pub fn description(value: String) -> (r: Self)
        ensures
            r == (Filter::Description { value }),
    {
        Filter::Description { value }
    }

    pub fn location(value: String) -> (r: Self)
        ensures
            r == (Filter::Location { value }),
    {
        Filter::Location { value }
    }

    pub fn owner(value: String) -> (r: Self)
        ensures
            r == (Filter::Owner { value }),
    {
        Filter::Owner { value }
    }

    pub fn attendee(value: String) -> (r: Self)
        ensures
            r == (Filter::Attendee { value }),
    {
        Filter::Attendee { value }
    }
}

/// A property CalendarEvent/query can sort by.
#[derive(Debug, Clone, Copy, PartialEq, Eq)]
#[non_exhaustive]
pub enum Comparator {
    Start,
    Uid,
    RecurrenceId,
    Created,
    Updated,
}

impl Comparator {
    /// Sorts by `start`, ascending.
    pub fn start() -> (r: query::Comparator<Comparator>)
        ensures
            r.property == Comparator::Start,
            r.is_ascending,
            r.collation is None,
    {
        query::Comparator::new(Comparator::Start)
    }

    /// Sorts by `uid`, ascending.
    pub fn uid() -> (r: query::Comparator<Comparator>)
        ensures
            r.property == Comparator::Uid,
            r.is_ascending,
            r.collation is None,
    {
        query::Comparator::new(Comparator::Uid)
    }

    /// Sorts by `recurrence_id`, ascending.
    pub fn recurrence_id() -> (r: query::Comparator<Comparator>)
        ensures
            r.property == Comparator::RecurrenceId,
            r.is_ascending,
            r.collation is None,
    {
        query::Comparator::new(Comparator::RecurrenceId)
    }

    /// Sorts by `created`, ascending.
    pub fn created() -> (r: query::Comparator<Comparator>)
        ensures
            r.property == Comparator::Created,
            r.is_ascending,
            r.collation is None,
    {
        query::Comparator::new(Comparator::Created)
    }

    /// Sorts by `updated`, ascending.
    pub fn updated() -> (r: query::Comparator<Comparator>)
        ensures
            r.property == Comparator::Updated,
            r.is_ascending,
            r.collation is None,
    {
        query::Comparator::new(Comparator::Updated)
    }
}

} // verus!
