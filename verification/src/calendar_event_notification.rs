//! Calendar event notifications: changes to shared events made by others.
use vstd::prelude::*;

use crate::calendar_event::event::{create_id_string, create_id_text};
use crate::json::JsonValue;
use crate::jmap_core::query;
use crate::text::{opt_string_view, opt_text};
use crate::{Draft, Get};

verus! {

/// A notification of a change to a calendar event.
#[derive(Debug)]
pub struct CalendarEventNotification<State = Get> {
    pub _create_id: Option<usize>,
    pub _state: std::marker::PhantomData<State>,
    pub id: Option<String>,
    pub created: Option<String>,
    pub changed_by: Option<ChangedBy>,
    pub calendar_event_id: Option<String>,
    pub is_draft: Option<bool>,
    pub type_: Option<NotificationType>,
    pub event: Option<JsonValue>,
    pub event_patch: Option<JsonValue>,
}

/// Who made the change.
#[derive(Debug, Clone)]
pub struct ChangedBy {
    pub name: Option<String>,
    pub email: Option<String>,
    pub principal_id: Option<String>,
}

/// What happened to the event.
#[derive(Debug, Clone, Copy, PartialEq, Eq)]
#[non_exhaustive]
pub enum NotificationType {
    Created,
    Updated,
    Destroyed,
}

/// Properties of a calendar event notification.
#[derive(Debug, Clone, Copy, PartialEq, Eq, Hash)]
#[non_exhaustive]
pub enum Property {
    Id,
    Created,
    ChangedBy,
    CalendarEventId,
    IsDraft,
    Type,
    Event,
    EventPatch,
}

/// The wire name of a `Property` value.
pub open spec fn notification_property_name(p: Property) -> Seq<char> {
    match p {
        Property::Id => "id"@,
        Property::Created => "created"@,
        Property::ChangedBy => "changedBy"@,
        Property::CalendarEventId => "calendarEventId"@,
        Property::IsDraft => "isDraft"@,
        Property::Type => "type"@,
        Property::Event => "event"@,
        Property::EventPatch => "eventPatch"@,
    }
}

impl Property {
    /// The property's name on the wire.
    pub fn as_str(&self) -> (s: &'static str)
        ensures
            s@ == notification_property_name(*self),
    {
        match self {
            Property::Id => "id",
            Property::Created => "created",
            Property::ChangedBy => "changedBy",
            Property::CalendarEventId => "calendarEventId",
            Property::IsDraft => "isDraft",
            Property::Type => "type",
            Property::Event => "event",
            Property::EventPatch => "eventPatch",
        }
    }
}

impl CalendarEventNotification<Get> {
    /// The id.
    pub fn id(&self) -> (r: Option<&str>)
        ensures
            opt_text(r) == opt_string_view(self.id),
    {
        match &self.id {
            Some(s) => Some(s.as_str()),
            None => None,
        }
    }

    /// Takes the id, leaving none; an object without id gives an empty
    /// text.
    pub fn take_id(&mut self) -> (r: String)
        ensures
            match old(self).id {
                Some(s) => r == s,
                None => r@ == Seq::<char>::empty(),
            },
            *final(self) == (CalendarEventNotification { id: None, ..*old(self) }),
    {
        match self.id.take() {
            Some(s) => s,
            None => String::new(),
        }
    }

    /// When the change was made.
    pub fn created(&self) -> (r: Option<&str>)
        ensures
            opt_text(r) == opt_string_view(self.created),
    {
        match &self.created {
            Some(s) => Some(s.as_str()),
            None => None,
        }
    }

    /// Who made the change.
    pub fn changed_by(&self) -> (r: Option<&ChangedBy>)
        ensures
            r == match &self.changed_by {
                Some(v) => Some(v),
                None => None,
            },
    {
        self.changed_by.as_ref()
    }

    /// The event that changed.
    pub fn calendar_event_id(&self) -> (r: Option<&str>)
        ensures
            opt_text(r) == opt_string_view(self.calendar_event_id),
    {
        match &self.calendar_event_id {
            Some(s) => Some(s.as_str()),
            None => None,
        }
    }

    /// Whether the event is a draft.
    pub fn is_draft(&self) -> (r: Option<bool>)
        ensures
            r == self.is_draft,
    {
        self.is_draft
    }

    /// What happened to the event.
    pub fn notification_type(&self) -> (r: Option<&NotificationType>)
        ensures
            r == match &self.type_ {
                Some(v) => Some(v),
                None => None,
            },
    {
        self.type_.as_ref()
    }

    /// The event after the change.
    pub fn event(&self) -> (r: Option<&JsonValue>)
        ensures
            r == match &self.event {
                Some(v) => Some(v),
                None => None,
            },
    {
        self.event.as_ref()
    }

    /// The change, as a patch.
    pub fn event_patch(&self) -> (r: Option<&JsonValue>)
        ensures
            r == match &self.event_patch {
                Some(v) => Some(v),
                None => None,
            },
    {
        self.event_patch.as_ref()
    }
}

impl CalendarEventNotification<Draft> {
    /// A notification object for a /set request, every property left out.
    pub fn new(create_id: Option<usize>) -> (r: Self)
        ensures
            r._create_id == create_id,
            r.id is None,
            r.created is None,
            r.changed_by is None,
            r.calendar_event_id is None,
            r.is_draft is None,
            r.type_ is None,
            r.event is None,
            r.event_patch is None,
    {
        CalendarEventNotification {
            _create_id: create_id,
            _state: std::marker::PhantomData,
            id: None,
            created: None,
            changed_by: None,
            calendar_event_id: None,
            is_draft: None,
            type_: None,
            event: None,
            event_patch: None,
        }
    }

    /// The creation id `c{n}` of a new object; `None` for an update.
    pub fn create_id(&self) -> (r: Option<String>)
        ensures
            match self._create_id {
                Some(n) => r matches Some(s) && s@ == create_id_text(n),
                None => r is None,
            },
    {
        match self._create_id {
            Some(n) => Some(create_id_string(n)),
            None => None,
        }
    }
}

/// A condition of CalendarEventNotification/query.
#[derive(Debug, Clone)]
pub enum Filter {
    Type { value: String },
    CalendarEventId { value: String },
}

impl Filter {
    pub fn type_(value: String) -> (r: Self)
        ensures
            r == (Filter::Type { value }),
    {
        Filter::Type { value }
    }

    pub fn calendar_event_id(value: String) -> (r: Self)
        ensures
            r == (Filter::CalendarEventId { value }),
    {
        Filter::CalendarEventId { value }
    }
}

/// A property CalendarEventNotification/query can sort by.
#[derive(Debug, Clone, Copy, PartialEq, Eq)]
pub enum Comparator {
    Created,
}

impl Comparator {
    /// Sorts by `created`, ascending.
    pub fn created() -> (r: query::Comparator<Comparator>)
        ensures
            r.property == Comparator::Created,
            r.is_ascending,
            r.collation is None,
    {
        query::Comparator::new(Comparator::Created)
    }
}

} // verus!
