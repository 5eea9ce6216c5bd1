//! Calendars (JMAP for Calendars).
use vstd::prelude::*;

use crate::calendar_event::event::{create_id_string, create_id_text};
use crate::calendar_event::args::Alert;
use crate::jmap_core::field::{field_of, field_text, Field};
use crate::text::{opt_string_view, opt_text};
use crate::{Draft, Get};

verus! {

/// A calendar.
#[derive(Debug)]
pub struct Calendar<State = Get> {
    pub _create_id: Option<usize>,
    pub _state: std::marker::PhantomData<State>,
    pub id: Option<String>,
    pub name: Option<String>,
    pub description: Field<String>,
    pub color: Field<String>,
    pub sort_order: Option<u32>,
    pub is_subscribed: Option<bool>,
    pub is_visible: Option<bool>,
    pub is_default: Option<bool>,
    pub include_in_availability: Option<IncludeInAvailability>,
    pub default_alerts_with_time: Field<Vec<(String, Alert)>>,
    pub default_alerts_without_time: Field<Vec<(String, Alert)>>,
    pub time_zone: Field<String>,
    pub share_with: Field<Vec<(String, CalendarRights)>>,
    pub my_rights: Option<CalendarRights>,
}

/// Which events of a calendar count for the user's availability.
#[derive(Debug, Clone, Copy, PartialEq, Eq)]
#[non_exhaustive]
pub enum IncludeInAvailability {
    All,
    Attending,
    NoEvents,
}

/// What a user may do with a calendar.
#[derive(Debug, Clone, Copy, PartialEq, Eq)]
pub struct CalendarRights {
    pub may_read_free_busy: Option<bool>,
    pub may_read_items: Option<bool>,
    pub may_write_all: Option<bool>,
    pub may_write_own: Option<bool>,
    pub may_update_private: Option<bool>,
    pub may_rsvp: Option<bool>,
    pub may_share: Option<bool>,
    pub may_delete: Option<bool>,
}

/// Extra arguments of Calendar/set.
#[derive(Debug, Clone, Default)]
pub struct CalendarSetArguments {
    pub on_destroy_remove_events: Option<bool>,
    pub on_success_set_is_default: Option<String>,
}

impl CalendarSetArguments {
    /// Whether destroying a calendar destroys its events.
    pub fn on_destroy_remove_events(&mut self, remove: bool) -> (r: &mut Self)
        ensures
            *r == (CalendarSetArguments { on_destroy_remove_events: Some(remove), ..*old(self) }),
            *final(self) == *final(r),
    {
        self.on_destroy_remove_events = Some(remove);
        self
    }

    /// The calendar to make the default after a successful create or update: a creation reference such as `#c0`, or an id.
    pub fn on_success_set_is_default(&mut self, id: String) -> (r: &mut Self)
        ensures
            *r == (CalendarSetArguments { on_success_set_is_default: Some(id), ..*old(self) }),
            *final(self) == *final(r),
    {
        self.on_success_set_is_default = Some(id);
        self
    }
}

/// Properties of a calendar.
#[derive(Debug, Clone, Copy, PartialEq, Eq, Hash)]
#[non_exhaustive]
pub enum Property {
    Id,
    Name,
    Description,
    Color,
    SortOrder,
    IsSubscribed,
    IsVisible,
    IsDefault,
    IncludeInAvailability,
    DefaultAlertsWithTime,
    DefaultAlertsWithoutTime,
    TimeZone,
    ShareWith,
    MyRights,
}

/// The wire name of a `Property` value.
pub open spec fn calendar_property_name(p: Property) -> Seq<char> {
    match p {
        Property::Id => "id"@,
        Property::Name => "name"@,
        Property::Description => "description"@,
        Property::Color => "color"@,
        Property::SortOrder => "sortOrder"@,
        Property::IsSubscribed => "isSubscribed"@,
        Property::IsVisible => "isVisible"@,
        Property::IsDefault => "isDefault"@,
        Property::IncludeInAvailability => "includeInAvailability"@,
        Property::DefaultAlertsWithTime => "defaultAlertsWithTime"@,
        Property::DefaultAlertsWithoutTime => "defaultAlertsWithoutTime"@,
        Property::TimeZone => "timeZone"@,
        Property::ShareWith => "shareWith"@,
        Property::MyRights => "myRights"@,
    }
}

impl Property {
    /// The property's name on the wire.
    pub fn as_str(&self) -> (s: &'static str)
        ensures
            s@ == calendar_property_name(*self),
    {
        match self {
            Property::Id => "id",
            Property::Name => "name",
            Property::Description => "description",
            Property::Color => "color",
            Property::SortOrder => "sortOrder",
            Property::IsSubscribed => "isSubscribed",
            Property::IsVisible => "isVisible",
            Property::IsDefault => "isDefault",
            Property::IncludeInAvailability => "includeInAvailability",
            Property::DefaultAlertsWithTime => "defaultAlertsWithTime",
            Property::DefaultAlertsWithoutTime => "defaultAlertsWithoutTime",
            Property::TimeZone => "timeZone",
            Property::ShareWith => "shareWith",
            Property::MyRights => "myRights",
        }
    }
}

impl Calendar<Get> {
    /// The id.
    pub fn id(&self) -> (r: Option<&str>)
        ensures
            opt_text(r) == opt_string_view(self.id),
    {
        match &self.id {
            Some(s) => Some(s.as_str()),
            None => None,
        }
    }

    /// Takes the id, leaving none; an object without id gives an empty
    /// text.
    pub fn take_id(&mut self) -> (r: String)
        ensures
            match old(self).id {
                Some(s) => r == s,
                None => r@ == Seq::<char>::empty(),
            },
            *final(self) == (Calendar { id: None, ..*old(self) }),
    {
        match self.id.take() {
            Some(s) => s,
            None => String::new(),
        }
    }

    /// The name.
    pub fn name(&self) -> (r: Option<&str>)
        ensures
            opt_text(r) == opt_string_view(self.name),
    {
        match &self.name {
            Some(s) => Some(s.as_str()),
            None => None,
        }
    }

    /// The description: `None` when not returned, `Some(None)` when null.
    pub fn description(&self) -> (r: Option<Option<&str>>)
        ensures
            match self.description {
                Field::Omitted => r is None,
                Field::Null => r == Some(None::<&str>),
                Field::Value(s) => r matches Some(Some(t)) && t@ == s@,
            },
    {
        match &self.description {
            Field::Omitted => None,
            Field::Null => Some(None),
            Field::Value(s) => Some(Some(s.as_str())),
        }
    }

    /// The color: `None` when not returned, `Some(None)` when null.
    pub fn color(&self) -> (r: Option<Option<&str>>)
        ensures
            match self.color {
                Field::Omitted => r is None,
                Field::Null => r == Some(None::<&str>),
                Field::Value(s) => r matches Some(Some(t)) && t@ == s@,
            },
    {
        match &self.color {
            Field::Omitted => None,
            Field::Null => Some(None),
            Field::Value(s) => Some(Some(s.as_str())),
        }
    }

    /// The sort order.
    pub fn sort_order(&self) -> (r: Option<u32>)
        ensures
            r == self.sort_order,
    {
        self.sort_order
    }

    /// Whether the user is subscribed.
    pub fn is_subscribed(&self) -> (r: Option<bool>)
        ensures
            r == self.is_subscribed,
    {
        self.is_subscribed
    }

    /// Whether its events are shown.
    pub fn is_visible(&self) -> (r: Option<bool>)
        ensures
            r == self.is_visible,
    {
        self.is_visible
    }

    /// Whether it is the default calendar.
    pub fn is_default(&self) -> (r: Option<bool>)
        ensures
            r == self.is_default,
    {
        self.is_default
    }

    /// Which events count for availability.
    pub fn include_in_availability(&self) -> (r: Option<&IncludeInAvailability>)
        ensures
            r == match &self.include_in_availability {
                Some(v) => Some(v),
                None => None,
            },
    {
        self.include_in_availability.as_ref()
    }

    /// The default alerts of timed events.
    pub fn default_alerts_with_time(&self) -> (r: Option<Option<&Vec<(String, Alert)>>>)
        ensures
            r == self.default_alerts_with_time.spec_as_option(),
    {
        self.default_alerts_with_time.as_option()
    }

    /// The default alerts of all-day events.
    pub fn default_alerts_without_time(&self) -> (r: Option<Option<&Vec<(String, Alert)>>>)
        ensures
            r == self.default_alerts_without_time.spec_as_option(),
    {
        self.default_alerts_without_time.as_option()
    }

    /// The time zone: `None` when not returned, `Some(None)` when null.
    pub fn time_zone(&self) -> (r: Option<Option<&str>>)
        ensures
            match self.time_zone {
                Field::Omitted => r is None,
                Field::Null => r == Some(None::<&str>),
                Field::Value(s) => r matches Some(Some(t)) && t@ == s@,
            },
    {
        match &self.time_zone {
            Field::Omitted => None,
            Field::Null => Some(None),
            Field::Value(s) => Some(Some(s.as_str())),
        }
    }

    /// The users it is shared with and their rights.
    pub fn share_with(&self) -> (r: Option<Option<&Vec<(String, CalendarRights)>>>)
        ensures
            r == self.share_with.spec_as_option(),
    {
        self.share_with.as_option()
    }

    /// The user's rights.
    pub fn my_rights(&self) -> (r: Option<&CalendarRights>)
        ensures
            r == match &self.my_rights {
                Some(v) => Some(v),
                None => None,
            },
    {
        self.my_rights.as_ref()
    }
}

impl Calendar<Draft> {
    /// A new calendar to create, numbered `create_id` within its request,
    /// or an update of an existing one when `None`: every property left out.
    pub fn new(create_id: Option<usize>) -> (r: Self)
        ensures
            r._create_id == create_id,
            r.id is None,
            r.name is None,
            r.description is Omitted,
            r.color is Omitted,
            r.sort_order is None,
            r.is_subscribed is None,
            r.is_visible is None,
            r.is_default is None,
            r.include_in_availability is None,
            r.default_alerts_with_time is Omitted,
            r.default_alerts_without_time is Omitted,
            r.time_zone is Omitted,
            r.share_with is Omitted,
            r.my_rights is None,
    {
        Calendar {
            _create_id: create_id,
            _state: std::marker::PhantomData,
            id: None,
            name: None,
            description: Field::Omitted,
            color: Field::Omitted,
            sort_order: None,
            is_subscribed: None,
            is_visible: None,
            is_default: None,
            include_in_availability: None,
            default_alerts_with_time: Field::Omitted,
            default_alerts_without_time: Field::Omitted,
            time_zone: Field::Omitted,
            share_with: Field::Omitted,
            my_rights: None,
        }
    }

    /// The creation id `c{n}` of a new object; `None` for an update.
    pub fn create_id(&self) -> (r: Option<String>)
        ensures
            match self._create_id {
                Some(n) => r matches Some(s) && s@ == create_id_text(n),
                None => r is None,
            },
    {
        match self._create_id {
            Some(n) => Some(create_id_string(n)),
            None => None,
        }
    }

    /// Sets the name.
    pub fn name(&mut self, name: String) -> (r: &mut Self)
        ensures
            *r == (Calendar { name: Some(name), ..*old(self) }),
            *final(self) == *final(r),
    {
        self.name = Some(name);
        self
    }

    /// Sets the description, or `null` to clear it.
    pub fn description(&mut self, description: Option<String>) -> (r: &mut Self)
        ensures
            *r == (Calendar { description: field_of(description), ..*old(self) }),
            *final(self) == *final(r),
    {
        self.description = match description {
            Some(v) => Field::Value(v),
            None => Field::Null,
        };
        self
    }

    /// Sets the color, or `null` to clear it.
    pub fn color(&mut self, color: Option<String>) -> (r: &mut Self)
        ensures
            *r == (Calendar { color: field_of(color), ..*old(self) }),
            *final(self) == *final(r),
    {
        self.color = match color {
            Some(v) => Field::Value(v),
            None => Field::Null,
        };
        self
    }

    /// Sets the sort order.
    pub fn sort_order(&mut self, sort_order: u32) -> (r: &mut Self)
        ensures
            *r == (Calendar { sort_order: Some(sort_order), ..*old(self) }),
            *final(self) == *final(r),
    {
        self.sort_order = Some(sort_order);
        self
    }

    /// Sets whether the user is subscribed.
    pub fn is_subscribed(&mut self, is_subscribed: bool) -> (r: &mut Self)
        ensures
            *r == (Calendar { is_subscribed: Some(is_subscribed), ..*old(self) }),
            *final(self) == *final(r),
    {
        self.is_subscribed = Some(is_subscribed);
        self
    }

    /// Sets whether its events are shown.
    pub fn is_visible(&mut self, is_visible: bool) -> (r: &mut Self)
        ensures
            *r == (Calendar { is_visible: Some(is_visible), ..*old(self) }),
            *final(self) == *final(r),
    {
        self.is_visible = Some(is_visible);
        self
    }

    /// Sets which events count for availability.
    pub fn include_in_availability(&mut self, availability: IncludeInAvailability) -> (r: &mut Self)
        ensures
            *r == (Calendar { include_in_availability: Some(availability), ..*old(self) }),
            *final(self) == *final(r),
    {
        self.include_in_availability = Some(availability);
        self
    }

    /// Sets the default alerts of timed events, or `null`.
    pub fn default_alerts_with_time(&mut self, default_alerts_with_time: Option<Vec<(String, Alert)>>) -> (r: &mut Self)
        ensures
            *r == (Calendar { default_alerts_with_time: field_of(default_alerts_with_time), ..*old(self) }),
            *final(self) == *final(r),
    {
        self.default_alerts_with_time = match default_alerts_with_time {
            Some(v) => Field::Value(v),
            None => Field::Null,
        };
        self
    }

    /// Sets the default alerts of all-day events, or `null`.
    pub fn default_alerts_without_time(&mut self, default_alerts_without_time: Option<Vec<(String, Alert)>>) -> (r: &mut Self)
        ensures
            *r == (Calendar { default_alerts_without_time: field_of(default_alerts_without_time), ..*old(self) }),
            *final(self) == *final(r),
    {
        self.default_alerts_without_time = match default_alerts_without_time {
            Some(v) => Field::Value(v),
            None => Field::Null,
        };
        self
    }

    /// Sets the time zone, or `null`.
    pub fn time_zone(&mut self, time_zone: Option<String>) -> (r: &mut Self)
        ensures
            *r == (Calendar { time_zone: field_of(time_zone), ..*old(self) }),
            *final(self) == *final(r),
    {
        self.time_zone = match time_zone {
            Some(v) => Field::Value(v),
            None => Field::Null,
        };
        self
    }

    /// Sets the users it is shared with and their rights, or `null`.
    pub fn share_with(&mut self, share_with: Option<Vec<(String, CalendarRights)>>) -> (r: &mut Self)
        ensures
            *r == (Calendar { share_with: field_of(share_with), ..*old(self) }),
            *final(self) == *final(r),
    {
        self.share_with = match share_with {
            Some(v) => Field::Value(v),
            None => Field::Null,
        };
        self
    }
}

} // verus!
