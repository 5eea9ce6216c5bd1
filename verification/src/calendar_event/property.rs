//! JSCalendar property names of calendar events.
use vstd::prelude::*;
use vstd::string::*;

use crate::text::{str_eq, to_owned};

verus! {

/// Property names for CalendarEvent/get `properties` lists (JSCalendar, RFC 8984).
#[derive(Debug, Clone, PartialEq, Eq, Hash)]
pub enum Property {
    Id,
    Uid,
    CalendarIds,
    IsDraft,
    Title,
    Description,
    DescriptionContentType,
    Created,
    Updated,
    Start,
    Duration,
    TimeZone,
    ShowWithoutTime,
    Status,
    FreeBusyStatus,
    RecurrenceId,
    RecurrenceIdTimeZone,
    RecurrenceRules,
    RecurrenceOverrides,
    ExcludedRecurrenceRules,
    Priority,
    Color,
    Locale,
    Keywords,
    Categories,
    ProdId,
    ReplyTo,
    Participants,
    UseDefaultAlerts,
    Alerts,
    Locations,
    VirtualLocations,
    Links,
    RelatedTo,
    ExcludedDates,
    Localizations,
    Method,
    Sequence,
    /// Any property not covered by the named variants, vendor extensions
    /// among them.
    Other(String),
}

/// The name of a property on the wire.
pub open spec fn event_property_name(p: Property) -> Seq<char> {
    match p {
        Property::Id => "id"@,
        Property::Uid => "uid"@,
        Property::CalendarIds => "calendarIds"@,
        Property::IsDraft => "isDraft"@,
        Property::Title => "title"@,
        Property::Description => "description"@,
        Property::DescriptionContentType => "descriptionContentType"@,
        Property::Created => "created"@,
        Property::Updated => "updated"@,
        Property::Start => "start"@,
        Property::Duration => "duration"@,
        Property::TimeZone => "timeZone"@,
        Property::ShowWithoutTime => "showWithoutTime"@,
        Property::Status => "status"@,
        Property::FreeBusyStatus => "freeBusyStatus"@,
        Property::RecurrenceId => "recurrenceId"@,
        Property::RecurrenceIdTimeZone => "recurrenceIdTimeZone"@,
        Property::RecurrenceRules => "recurrenceRules"@,
        Property::RecurrenceOverrides => "recurrenceOverrides"@,
        Property::ExcludedRecurrenceRules => "excludedRecurrenceRules"@,
        Property::Priority => "priority"@,
        Property::Color => "color"@,
        Property::Locale => "locale"@,
        Property::Keywords => "keywords"@,
        Property::Categories => "categories"@,
        Property::ProdId => "prodId"@,
        Property::ReplyTo => "replyTo"@,
        Property::Participants => "participants"@,
        Property::UseDefaultAlerts => "useDefaultAlerts"@,
        Property::Alerts => "alerts"@,
        Property::Locations => "locations"@,
        Property::VirtualLocations => "virtualLocations"@,
        Property::Links => "links"@,
        Property::RelatedTo => "relatedTo"@,
        Property::ExcludedDates => "excludedDates"@,
        Property::Localizations => "localizations"@,
        Property::Method => "method"@,
        Property::Sequence => "sequence"@,
        Property::Other(s) => s@,
    }
}

/// The named property that a wire name stands for, if any.
pub open spec fn event_standard_property(s: Seq<char>) -> Option<Property> {
    if s == "id"@ {
        Some(Property::Id)
    } else if s == "uid"@ {
        Some(Property::Uid)
    } else if s == "calendarIds"@ {
        Some(Property::CalendarIds)
    } else if s == "isDraft"@ {
        Some(Property::IsDraft)
    } else if s == "title"@ {
        Some(Property::Title)
    } else if s == "description"@ {
        Some(Property::Description)
    } else if s == "descriptionContentType"@ {
        Some(Property::DescriptionContentType)
    } else if s == "created"@ {
        Some(Property::Created)
    } else if s == "updated"@ {
        Some(Property::Updated)
    } else if s == "start"@ {
        Some(Property::Start)
    } else if s == "duration"@ {
        Some(Property::Duration)
    } else if s == "timeZone"@ {
        Some(Property::TimeZone)
    } else if s == "showWithoutTime"@ {
        Some(Property::ShowWithoutTime)
    } else if s == "status"@ {
        Some(Property::Status)
    } else if s == "freeBusyStatus"@ {
        Some(Property::FreeBusyStatus)
    } else if s == "recurrenceId"@ {
        Some(Property::RecurrenceId)
    } else if s == "recurrenceIdTimeZone"@ {
        Some(Property::RecurrenceIdTimeZone)
    } else if s == "recurrenceRules"@ {
        Some(Property::RecurrenceRules)
    } else if s == "recurrenceOverrides"@ {
        Some(Property::RecurrenceOverrides)
    } else if s == "excludedRecurrenceRules"@ {
        Some(Property::ExcludedRecurrenceRules)
    } else if s == "priority"@ {
        Some(Property::Priority)
    } else if s == "color"@ {
        Some(Property::Color)
    } else if s == "locale"@ {
        Some(Property::Locale)
    } else if s == "keywords"@ {
        Some(Property::Keywords)
    } else if s == "categories"@ {
        Some(Property::Categories)
    } else if s == "prodId"@ {
        Some(Property::ProdId)
    } else if s == "replyTo"@ {
        Some(Property::ReplyTo)
    } else if s == "participants"@ {
        Some(Property::Participants)
    } else if s == "useDefaultAlerts"@ {
        Some(Property::UseDefaultAlerts)
    } else if s == "alerts"@ {
        Some(Property::Alerts)
    } else if s == "locations"@ {
        Some(Property::Locations)
    } else if s == "virtualLocations"@ {
        Some(Property::VirtualLocations)
    } else if s == "links"@ {
        Some(Property::Links)
    } else if s == "relatedTo"@ {
        Some(Property::RelatedTo)
    } else if s == "excludedDates"@ {
        Some(Property::ExcludedDates)
    } else if s == "localizations"@ {
        Some(Property::Localizations)
    } else if s == "method"@ {
        Some(Property::Method)
    } else if s == "sequence"@ {
        Some(Property::Sequence)
    } else {
        None
    }
}

/// The property named by a wire name.
pub open spec fn event_property_name_parses_to(s: Seq<char>, p: Property) -> bool {
    match event_standard_property(s) {
        Some(q) => p == q,
        None => p matches Property::Other(o) && o@ == s,
    }
}

impl Property {
    /// The property's name on the wire.
    pub fn as_str(&self) -> (s: &str)
        ensures
            s@ == event_property_name(*self),
    {
        match self {
            Property::Id => "id",
            Property::Uid => "uid",
            Property::CalendarIds => "calendarIds",
            Property::IsDraft => "isDraft",
            Property::Title => "title",
            Property::Description => "description",
            Property::DescriptionContentType => "descriptionContentType",
            Property::Created => "created",
            Property::Updated => "updated",
            Property::Start => "start",
            Property::Duration => "duration",
            Property::TimeZone => "timeZone",
            Property::ShowWithoutTime => "showWithoutTime",
            Property::Status => "status",
            Property::FreeBusyStatus => "freeBusyStatus",
            Property::RecurrenceId => "recurrenceId",
            Property::RecurrenceIdTimeZone => "recurrenceIdTimeZone",
            Property::RecurrenceRules => "recurrenceRules",
            Property::RecurrenceOverrides => "recurrenceOverrides",
            Property::ExcludedRecurrenceRules => "excludedRecurrenceRules",
            Property::Priority => "priority",
            Property::Color => "color",
            Property::Locale => "locale",
            Property::Keywords => "keywords",
            Property::Categories => "categories",
            Property::ProdId => "prodId",
            Property::ReplyTo => "replyTo",
            Property::Participants => "participants",
            Property::UseDefaultAlerts => "useDefaultAlerts",
            Property::Alerts => "alerts",
            Property::Locations => "locations",
            Property::VirtualLocations => "virtualLocations",
            Property::Links => "links",
            Property::RelatedTo => "relatedTo",
            Property::ExcludedDates => "excludedDates",
            Property::Localizations => "localizations",
            Property::Method => "method",
            Property::Sequence => "sequence",
            Property::Other(s) => s.as_str(),
        }
    }

    /// The property that a wire name stands for: a named variant, or
    /// `Other` holding the name.
    pub fn from(s: &str) -> (p: Property)
        ensures
            event_property_name_parses_to(s@, p),
    {
        if str_eq(s, "id") {
            Property::Id
        } else if str_eq(s, "uid") {
            Property::Uid
        } else if str_eq(s, "calendarIds") {
            Property::CalendarIds
        } else if str_eq(s, "isDraft") {
            Property::IsDraft
        } else if str_eq(s, "title") {
            Property::Title
        } else if str_eq(s, "description") {
            Property::Description
        } else if str_eq(s, "descriptionContentType") {
            Property::DescriptionContentType
        } else if str_eq(s, "created") {
            Property::Created
        } else if str_eq(s, "updated") {
            Property::Updated
        } else if str_eq(s, "start") {
            Property::Start
        } else if str_eq(s, "duration") {
            Property::Duration
        } else if str_eq(s, "timeZone") {
            Property::TimeZone
        } else if str_eq(s, "showWithoutTime") {
            Property::ShowWithoutTime
        } else if str_eq(s, "status") {
            Property::Status
        } else if str_eq(s, "freeBusyStatus") {
            Property::FreeBusyStatus
        } else if str_eq(s, "recurrenceId") {
            Property::RecurrenceId
        } else if str_eq(s, "recurrenceIdTimeZone") {
            Property::RecurrenceIdTimeZone
        } else if str_eq(s, "recurrenceRules") {
            Property::RecurrenceRules
        } else if str_eq(s, "recurrenceOverrides") {
            Property::RecurrenceOverrides
        } else if str_eq(s, "excludedRecurrenceRules") {
            Property::ExcludedRecurrenceRules
        } else if str_eq(s, "priority") {
            Property::Priority
        } else if str_eq(s, "color") {
            Property::Color
        } else if str_eq(s, "locale") {
            Property::Locale
        } else if str_eq(s, "keywords") {
            Property::Keywords
        } else if str_eq(s, "categories") {
            Property::Categories
        } else if str_eq(s, "prodId") {
            Property::ProdId
        } else if str_eq(s, "replyTo") {
            Property::ReplyTo
        } else if str_eq(s, "participants") {
            Property::Participants
        } else if str_eq(s, "useDefaultAlerts") {
            Property::UseDefaultAlerts
        } else if str_eq(s, "alerts") {
            Property::Alerts
        } else if str_eq(s, "locations") {
            Property::Locations
        } else if str_eq(s, "virtualLocations") {
            Property::VirtualLocations
        } else if str_eq(s, "links") {
            Property::Links
        } else if str_eq(s, "relatedTo") {
            Property::RelatedTo
        } else if str_eq(s, "excludedDates") {
            Property::ExcludedDates
        } else if str_eq(s, "localizations") {
            Property::Localizations
        } else if str_eq(s, "method") {
            Property::Method
        } else if str_eq(s, "sequence") {
            Property::Sequence
        } else {
            Property::Other(to_owned(s))
        }
    }
}

/// Law: the name of the property that a wire name stands for is that
/// wire name.
pub proof fn law_event_property_name_parse_then_render(s: Seq<char>, p: Property)
    requires
        event_property_name_parses_to(s, p),
    ensures
        event_property_name(p) == s,
{
}

/// Law: a named property's wire name stands for that property; for `Other`
/// the same holds unless its text is the wire name of a named property.
pub proof fn law_event_property_name_render_then_parse(p: Property)
    ensures
        !(p is Other) ==> event_standard_property(event_property_name(p)) == Some(p),
        p matches Property::Other(o) ==> (event_standard_property(o@) is None <==> event_property_name_parses_to(o@, p)),
{
    // The standard names, each once: names of different lengths differ by
    // length, names of one length at the character asserted below.
    reveal_strlit("id");
    reveal_strlit("uid");
    reveal_strlit("calendarIds");
    reveal_strlit("isDraft");
    reveal_strlit("title");
    reveal_strlit("description");
    reveal_strlit("descriptionContentType");
    reveal_strlit("created");
    reveal_strlit("updated");
    reveal_strlit("start");
    reveal_strlit("duration");
    reveal_strlit("timeZone");
    reveal_strlit("showWithoutTime");
    reveal_strlit("status");
    reveal_strlit("freeBusyStatus");
    reveal_strlit("recurrenceId");
    reveal_strlit("recurrenceIdTimeZone");
    reveal_strlit("recurrenceRules");
    reveal_strlit("recurrenceOverrides");
    reveal_strlit("excludedRecurrenceRules");
    reveal_strlit("priority");
    reveal_strlit("color");
    reveal_strlit("locale");
    reveal_strlit("keywords");
    reveal_strlit("categories");
    reveal_strlit("prodId");
    reveal_strlit("replyTo");
    reveal_strlit("participants");
    reveal_strlit("useDefaultAlerts");
    reveal_strlit("alerts");
    reveal_strlit("locations");
    reveal_strlit("virtualLocations");
    reveal_strlit("links");
    reveal_strlit("relatedTo");
    reveal_strlit("excludedDates");
    reveal_strlit("localizations");
    reveal_strlit("method");
    reveal_strlit("sequence");
    assert("calendarIds"@[0] != "description"@[0]);
    assert("isDraft"@[0] != "created"@[0]);
    assert("isDraft"@[0] != "updated"@[0]);
    assert("isDraft"@[0] != "replyTo"@[0]);
    assert("title"@[0] != "start"@[0]);
    assert("title"@[0] != "color"@[0]);
    assert("title"@[0] != "links"@[0]);
    assert("created"@[0] != "updated"@[0]);
    assert("created"@[0] != "replyTo"@[0]);
    assert("updated"@[0] != "replyTo"@[0]);
    assert("start"@[0] != "color"@[0]);
    assert("start"@[0] != "links"@[0]);
    assert("duration"@[0] != "timeZone"@[0]);
    assert("duration"@[0] != "priority"@[0]);
    assert("duration"@[0] != "keywords"@[0]);
    assert("duration"@[0] != "sequence"@[0]);
    assert("timeZone"@[0] != "priority"@[0]);
    assert("timeZone"@[0] != "keywords"@[0]);
    assert("timeZone"@[0] != "sequence"@[0]);
    assert("showWithoutTime"@[0] != "recurrenceRules"@[0]);
    assert("status"@[0] != "locale"@[0]);
    assert("status"@[0] != "prodId"@[0]);
    assert("status"@[0] != "alerts"@[0]);
    assert("status"@[0] != "method"@[0]);
    assert("recurrenceId"@[0] != "participants"@[0]);
    assert("priority"@[0] != "keywords"@[0]);
    assert("priority"@[0] != "sequence"@[0]);
    assert("color"@[0] != "links"@[0]);
    assert("locale"@[0] != "prodId"@[0]);
    assert("locale"@[0] != "alerts"@[0]);
    assert("locale"@[0] != "method"@[0]);
    assert("keywords"@[0] != "sequence"@[0]);
    assert("prodId"@[0] != "alerts"@[0]);
    assert("prodId"@[0] != "method"@[0]);
    assert("useDefaultAlerts"@[0] != "virtualLocations"@[0]);
    assert("alerts"@[0] != "method"@[0]);
    assert("locations"@[0] != "relatedTo"@[0]);
    assert("excludedDates"@[0] != "localizations"@[0]);
    assert("id"@.len() == 2);
    assert("uid"@.len() == 3);
    assert("calendarIds"@.len() == 11);
    assert("isDraft"@.len() == 7);
    assert("title"@.len() == 5);
    assert("description"@.len() == 11);
    assert("descriptionContentType"@.len() == 22);
    assert("created"@.len() == 7);
    assert("updated"@.len() == 7);
    assert("start"@.len() == 5);
    assert("duration"@.len() == 8);
    assert("timeZone"@.len() == 8);
    assert("showWithoutTime"@.len() == 15);
    assert("status"@.len() == 6);
    assert("freeBusyStatus"@.len() == 14);
    assert("recurrenceId"@.len() == 12);
    assert("recurrenceIdTimeZone"@.len() == 20);
    assert("recurrenceRules"@.len() == 15);
    assert("recurrenceOverrides"@.len() == 19);
    assert("excludedRecurrenceRules"@.len() == 23);
    assert("priority"@.len() == 8);
    assert("color"@.len() == 5);
    assert("locale"@.len() == 6);
    assert("keywords"@.len() == 8);
    assert("categories"@.len() == 10);
    assert("prodId"@.len() == 6);
    assert("replyTo"@.len() == 7);
    assert("participants"@.len() == 12);
    assert("useDefaultAlerts"@.len() == 16);
    assert("alerts"@.len() == 6);
    assert("locations"@.len() == 9);
    assert("virtualLocations"@.len() == 16);
    assert("links"@.len() == 5);
    assert("relatedTo"@.len() == 9);
    assert("excludedDates"@.len() == 13);
    assert("localizations"@.len() == 13);
    assert("method"@.len() == 6);
    assert("sequence"@.len() == 8);
    match p {
        Property::Id => {},
        Property::Uid => {},
        Property::CalendarIds => {},
        Property::IsDraft => {},
        Property::Title => {},
        Property::Description => {},
        Property::DescriptionContentType => {},
        Property::Created => {},
        Property::Updated => {},
        Property::Start => {},
        Property::Duration => {},
        Property::TimeZone => {},
        Property::ShowWithoutTime => {},
        Property::Status => {},
        Property::FreeBusyStatus => {},
        Property::RecurrenceId => {},
        Property::RecurrenceIdTimeZone => {},
        Property::RecurrenceRules => {},
        Property::RecurrenceOverrides => {},
        Property::ExcludedRecurrenceRules => {},
        Property::Priority => {},
        Property::Color => {},
        Property::Locale => {},
        Property::Keywords => {},
        Property::Categories => {},
        Property::ProdId => {},
        Property::ReplyTo => {},
        Property::Participants => {},
        Property::UseDefaultAlerts => {},
        Property::Alerts => {},
        Property::Locations => {},
        Property::VirtualLocations => {},
        Property::Links => {},
        Property::RelatedTo => {},
        Property::ExcludedDates => {},
        Property::Localizations => {},
        Property::Method => {},
        Property::Sequence => {},
        Property::Other(_) => {},
    }
}

} // verus!
