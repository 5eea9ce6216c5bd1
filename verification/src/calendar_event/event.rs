//! Calendar events: JSCalendar objects (RFC 8984) held as their property
//! maps, so that every property the server sends, extensions included, is
//! kept.
use vstd::prelude::*;
use vstd::string::*;

use crate::json::{
    array_member, bool_member, get_array, get_bool, get_nullable_object, get_nullable_text, get_number,
    get_object, get_text, nullable_object_member, nullable_text_member, number_member, object_member,
    opt_deref, opt_opt_deref, opt_opt_str_view, opt_str_view, text_member, true_set, true_set_of, JsonMap,
    JsonValue,
};
use crate::text::{bounded_decimal, decimal, lemma_decimal_round_trip, opt_string_view, parse_decimal, push_decimal, views};
use crate::{Draft, Get};

verus! {

/// A calendar event backed by its JSCalendar property map.
#[derive(Debug)]
pub struct CalendarEvent<State = Get> {
    pub _create_id: Option<usize>,
    pub _state: std::marker::PhantomData<State>,
    /// The properties, standard and vendor-defined alike.
    pub properties: JsonMap,
}

/// The creation id of an object created in a /set request: `c` and its
/// number.
pub open spec fn create_id_text(n: usize) -> Seq<char> {
    "c"@ + decimal(n as nat)
}

/// The JSON value of an optional text: the string, or `null`.
pub open spec fn text_or_null(v: Option<String>) -> JsonValue {
    match v {
        Some(s) => JsonValue::String(s),
        None => JsonValue::Null,
    }
}

/// The JSON value of an optional object: the object, or `null`.
pub open spec fn object_or_null(v: Option<JsonMap>) -> JsonValue {
    match v {
        Some(m) => JsonValue::Object(m),
        None => JsonValue::Null,
    }
}

/// The JSON string or `null` for an optional text.
pub fn text_value(v: Option<String>) -> (r: JsonValue)
    ensures
        r == text_or_null(v),
{
    match v {
        Some(s) => JsonValue::String(s),
        None => JsonValue::Null,
    }
}

/// The JSON number for a small integer.
pub fn number_value(n: u32) -> (r: JsonValue)
    ensures
        r matches JsonValue::Number(t) && t@ == decimal(n as nat),
{
    let mut t = String::new();
    push_decimal(&mut t, n as usize);
    assert(t@ =~= decimal(n as nat));
    JsonValue::Number(t)
}

/// The creation id `c{n}`.
pub fn create_id_string(n: usize) -> (r: String)
    ensures
        r@ == create_id_text(n),
{
    let mut s = String::from_str("c");
    push_decimal(&mut s, n);
    proof {
        reveal_strlit("c");
    }
    s
}

impl CalendarEvent<Get> {
    /// The event's id.
    pub fn id(&self) -> (r: Option<&str>)
        requires
            self.properties.wf(),
        ensures
            opt_str_view(r) == text_member(self.properties@, "id"@),
    {
        get_text(&self.properties, "id")
    }

    /// Takes the event's id out of its properties: the text where it is a
    /// string, else an empty text (a non-string id is taken out too).
    pub fn take_id(&mut self) -> (r: String)
        requires
            old(self).properties.wf(),
        ensures
            final(self).properties.wf(),
            final(self).properties@ == old(self).properties@.remove("id"@),
            final(self)._create_id == old(self)._create_id,
            match text_member(old(self).properties@, "id"@) {
                Some(t) => r@ == t,
                None => r@ == Seq::<char>::empty(),
            },
    {
        match self.properties.remove("id") {
            Some(JsonValue::String(s)) => s,
            _ => String::new(),
        }
    }

    /// The `uid` property, where it is a string.
    pub fn uid(&self) -> (r: Option<&str>)
        requires
            self.properties.wf(),
        ensures
            opt_str_view(r) == text_member(self.properties@, "uid"@),
    {
        get_text(&self.properties, "uid")
    }

    /// The `title` property, where it is a string.
    pub fn title(&self) -> (r: Option<&str>)
        requires
            self.properties.wf(),
        ensures
            opt_str_view(r) == text_member(self.properties@, "title"@),
    {
        get_text(&self.properties, "title")
    }

    /// The `description` property, where it is a string.
    pub fn description(&self) -> (r: Option<&str>)
        requires
            self.properties.wf(),
        ensures
            opt_str_view(r) == text_member(self.properties@, "description"@),
    {
        get_text(&self.properties, "description")
    }

    /// The `descriptionContentType` property, where it is a string.
    pub fn description_content_type(&self) -> (r: Option<&str>)
        requires
            self.properties.wf(),
        ensures
            opt_str_view(r) == text_member(self.properties@, "descriptionContentType"@),
    {
        get_text(&self.properties, "descriptionContentType")
    }

    /// The `created` property, where it is a string.
    pub fn created(&self) -> (r: Option<&str>)
        requires
            self.properties.wf(),
        ensures
            opt_str_view(r) == text_member(self.properties@, "created"@),
    {
        get_text(&self.properties, "created")
    }

    /// The `updated` property, where it is a string.
    pub fn updated(&self) -> (r: Option<&str>)
        requires
            self.properties.wf(),
        ensures
            opt_str_view(r) == text_member(self.properties@, "updated"@),
    {
        get_text(&self.properties, "updated")
    }

    /// The `start` property, where it is a string.
    pub fn start(&self) -> (r: Option<&str>)
        requires
            self.properties.wf(),
        ensures
            opt_str_view(r) == text_member(self.properties@, "start"@),
    {
        get_text(&self.properties, "start")
    }

    /// The `duration` property, where it is a string.
    pub fn duration(&self) -> (r: Option<&str>)
        requires
            self.properties.wf(),
        ensures
            opt_str_view(r) == text_member(self.properties@, "duration"@),
    {
        get_text(&self.properties, "duration")
    }

    /// The `status` property, where it is a string.
    pub fn status(&self) -> (r: Option<&str>)
        requires
            self.properties.wf(),
        ensures
            opt_str_view(r) == text_member(self.properties@, "status"@),
    {
        get_text(&self.properties, "status")
    }

    /// The `freeBusyStatus` property, where it is a string.
    pub fn free_busy_status(&self) -> (r: Option<&str>)
        requires
            self.properties.wf(),
        ensures
            opt_str_view(r) == text_member(self.properties@, "freeBusyStatus"@),
    {
        get_text(&self.properties, "freeBusyStatus")
    }

    /// The `recurrenceId` property, where it is a string.
    pub fn recurrence_id(&self) -> (r: Option<&str>)
        requires
            self.properties.wf(),
        ensures
            opt_str_view(r) == text_member(self.properties@, "recurrenceId"@),
    {
        get_text(&self.properties, "recurrenceId")
    }

    /// The `prodId` property, where it is a string.
    pub fn prod_id(&self) -> (r: Option<&str>)
        requires
            self.properties.wf(),
        ensures
            opt_str_view(r) == text_member(self.properties@, "prodId"@),
    {
        get_text(&self.properties, "prodId")
    }

    /// The `method` property, where it is a string.
    pub fn method(&self) -> (r: Option<&str>)
        requires
            self.properties.wf(),
        ensures
            opt_str_view(r) == text_member(self.properties@, "method"@),
    {
        get_text(&self.properties, "method")
    }

    /// The `timeZone` property: `Some(None)` where it is `null`.
    pub fn time_zone(&self) -> (r: Option<Option<&str>>)
        requires
            self.properties.wf(),
        ensures
            opt_opt_str_view(r) == nullable_text_member(self.properties@, "timeZone"@),
    {
        get_nullable_text(&self.properties, "timeZone")
    }

    /// The `color` property: `Some(None)` where it is `null`.
    pub fn color(&self) -> (r: Option<Option<&str>>)
        requires
            self.properties.wf(),
        ensures
            opt_opt_str_view(r) == nullable_text_member(self.properties@, "color"@),
    {
        get_nullable_text(&self.properties, "color")
    }

    /// The `locale` property: `Some(None)` where it is `null`.
    pub fn locale(&self) -> (r: Option<Option<&str>>)
        requires
            self.properties.wf(),
        ensures
            opt_opt_str_view(r) == nullable_text_member(self.properties@, "locale"@),
    {
        get_nullable_text(&self.properties, "locale")
    }

    /// The `showWithoutTime` property, where it is a boolean.
    pub fn show_without_time(&self) -> (r: Option<bool>)
        requires
            self.properties.wf(),
        ensures
            r == bool_member(self.properties@, "showWithoutTime"@),
    {
        get_bool(&self.properties, "showWithoutTime")
    }

    /// The `useDefaultAlerts` property, where it is a boolean.
    pub fn use_default_alerts(&self) -> (r: Option<bool>)
        requires
            self.properties.wf(),
        ensures
            r == bool_member(self.properties@, "useDefaultAlerts"@),
    {
        get_bool(&self.properties, "useDefaultAlerts")
    }

    /// The `recurrenceRules` property, where it is an array.
    pub fn recurrence_rules(&self) -> (r: Option<&Vec<JsonValue>>)
        requires
            self.properties.wf(),
        ensures
            opt_deref(r) == array_member(self.properties@, "recurrenceRules"@),
    {
        get_array(&self.properties, "recurrenceRules")
    }

    /// The `excludedRecurrenceRules` property, where it is an array.
    pub fn excluded_recurrence_rules(&self) -> (r: Option<&Vec<JsonValue>>)
        requires
            self.properties.wf(),
        ensures
            opt_deref(r) == array_member(self.properties@, "excludedRecurrenceRules"@),
    {
        get_array(&self.properties, "excludedRecurrenceRules")
    }

    /// The `calendarIds` property, where it is an object.
    pub fn calendar_ids(&self) -> (r: Option<&JsonMap>)
        requires
            self.properties.wf(),
        ensures
            opt_deref(r) == object_member(self.properties@, "calendarIds"@),
    {
        get_object(&self.properties, "calendarIds")
    }

    /// The `recurrenceOverrides` property, where it is an object.
    pub fn recurrence_overrides(&self) -> (r: Option<&JsonMap>)
        requires
            self.properties.wf(),
        ensures
            opt_deref(r) == object_member(self.properties@, "recurrenceOverrides"@),
    {
        get_object(&self.properties, "recurrenceOverrides")
    }

    /// The `keywords` property, where it is an object.
    pub fn keywords(&self) -> (r: Option<&JsonMap>)
        requires
            self.properties.wf(),
        ensures
            opt_deref(r) == object_member(self.properties@, "keywords"@),
    {
        get_object(&self.properties, "keywords")
    }

    /// The `categories` property, where it is an object.
    pub fn categories(&self) -> (r: Option<&JsonMap>)
        requires
            self.properties.wf(),
        ensures
            opt_deref(r) == object_member(self.properties@, "categories"@),
    {
        get_object(&self.properties, "categories")
    }

    /// The `replyTo` property, where it is an object.
    pub fn reply_to(&self) -> (r: Option<&JsonMap>)
        requires
            self.properties.wf(),
        ensures
            opt_deref(r) == object_member(self.properties@, "replyTo"@),
    {
        get_object(&self.properties, "replyTo")
    }

    /// The `participants` property, where it is an object.
    pub fn participants(&self) -> (r: Option<&JsonMap>)
        requires
            self.properties.wf(),
        ensures
            opt_deref(r) == object_member(self.properties@, "participants"@),
    {
        get_object(&self.properties, "participants")
    }

    /// The `locations` property, where it is an object.
    pub fn locations(&self) -> (r: Option<&JsonMap>)
        requires
            self.properties.wf(),
        ensures
            opt_deref(r) == object_member(self.properties@, "locations"@),
    {
        get_object(&self.properties, "locations")
    }

    /// The `virtualLocations` property, where it is an object.
    pub fn virtual_locations(&self) -> (r: Option<&JsonMap>)
        requires
            self.properties.wf(),
        ensures
            opt_deref(r) == object_member(self.properties@, "virtualLocations"@),
    {
        get_object(&self.properties, "virtualLocations")
    }

    /// The `links` property, where it is an object.
    pub fn links(&self) -> (r: Option<&JsonMap>)
        requires
            self.properties.wf(),
        ensures
            opt_deref(r) == object_member(self.properties@, "links"@),
    {
        get_object(&self.properties, "links")
    }

    /// The `alerts` property: `Some(None)` where it is `null`.
    pub fn alerts(&self) -> (r: Option<Option<&JsonMap>>)
        requires
            self.properties.wf(),
        ensures
            opt_opt_deref(r) == nullable_object_member(self.properties@, "alerts"@),
    {
        get_nullable_object(&self.properties, "alerts")
    }

    /// The `priority` property, where it is a whole number from 0 to 255.
    pub fn priority(&self) -> (r: Option<u8>)
        requires
            self.properties.wf(),
        ensures
            r == match number_member(self.properties@, "priority"@) {
                Some(t) => match bounded_decimal(t, 255) {
                    Some(n) => Some(n as u8),
                    None => None,
                },
                None => None,
            },
    {
        match get_number(&self.properties, "priority") {
            Some(t) => match parse_decimal(t, 255) {
                Some(n) => Some(n as u8),
                None => None,
            },
            None => None,
        }
    }

    /// The `sequence` property, where it is a whole number that fits 32 bits.
    pub fn sequence(&self) -> (r: Option<u32>)
        requires
            self.properties.wf(),
        ensures
            r == match number_member(self.properties@, "sequence"@) {
                Some(t) => match bounded_decimal(t, u32::MAX as nat) {
                    Some(n) => Some(n as u32),
                    None => None,
                },
                None => None,
            },
    {
        match get_number(&self.properties, "sequence") {
            Some(t) => match parse_decimal(t, 4294967295) {
                Some(n) => Some(n as u32),
                None => None,
            },
            None => None,
        }
    }

    /// Any property by name, extension properties included.
    pub fn property(&self, name: &str) -> (r: Option<&JsonValue>)
        requires
            self.properties.wf(),
        ensures
            opt_deref(r) == if self.properties@.contains_key(name@) {
                Some(self.properties@[name@])
            } else {
                None
            },
    {
        self.properties.get(name)
    }

    /// The whole property map.
    pub fn as_properties(&self) -> (r: &JsonMap)
        ensures
            r == &self.properties,
    {
        &self.properties
    }
}

impl CalendarEvent<Draft> {
    /// A new event to create, numbered `create_id` within its request, or
    /// an update of an existing one when `None`.
    pub fn new(create_id: Option<usize>) -> (r: Self)
        ensures
            r._create_id == create_id,
            r.properties.wf(),
            r.properties@ == Map::<Seq<char>, JsonValue>::empty(),
    {
        CalendarEvent { _create_id: create_id, _state: std::marker::PhantomData, properties: JsonMap::new() }
    }

    /// The creation id `c{n}` of a new event; `None` for an update.
    pub fn create_id(&self) -> (r: Option<String>)
        ensures
            match self._create_id {
                Some(n) => r matches Some(s) && s@ == create_id_text(n),
                None => r is None,
            },
    {
        match self._create_id {
            Some(n) => Some(create_id_string(n)),
            None => None,
        }
    }

    /// Sets the event's unique identifier.
    pub fn uid(&mut self, uid: String) -> (r: &mut Self)
        requires
            old(self).properties.wf(),
        ensures
            r.properties.wf(),
            r.properties@ == old(self).properties@.insert("uid"@, JsonValue::String(uid)),
            r._create_id == old(self)._create_id,
            *final(self) == *final(r),
    {
        self.properties.insert(String::from_str("uid"), JsonValue::String(uid));
        self
    }

    /// Sets the title.
    pub fn title(&mut self, title: String) -> (r: &mut Self)
        requires
            old(self).properties.wf(),
        ensures
            r.properties.wf(),
            r.properties@ == old(self).properties@.insert("title"@, JsonValue::String(title)),
            r._create_id == old(self)._create_id,
            *final(self) == *final(r),
    {
        self.properties.insert(String::from_str("title"), JsonValue::String(title));
        self
    }

    /// Sets the description.
    pub fn description(&mut self, description: String) -> (r: &mut Self)
        requires
            old(self).properties.wf(),
        ensures
            r.properties.wf(),
            r.properties@ == old(self).properties@.insert("description"@, JsonValue::String(description)),
            r._create_id == old(self)._create_id,
            *final(self) == *final(r),
    {
        self.properties.insert(String::from_str("description"), JsonValue::String(description));
        self
    }

    /// Sets the media type of the description.
    pub fn description_content_type(&mut self, description_content_type: String) -> (r: &mut Self)
        requires
            old(self).properties.wf(),
        ensures
            r.properties.wf(),
            r.properties@ == old(self).properties@.insert("descriptionContentType"@, JsonValue::String(description_content_type)),
            r._create_id == old(self)._create_id,
            *final(self) == *final(r),
    {
        self.properties.insert(String::from_str("descriptionContentType"), JsonValue::String(description_content_type));
        self
    }

    /// Sets the start (local date-time).
    pub fn start(&mut self, start: String) -> (r: &mut Self)
        requires
            old(self).properties.wf(),
        ensures
            r.properties.wf(),
            r.properties@ == old(self).properties@.insert("start"@, JsonValue::String(start)),
            r._create_id == old(self)._create_id,
            *final(self) == *final(r),
    {
        self.properties.insert(String::from_str("start"), JsonValue::String(start));
        self
    }

    /// Sets the duration.
    pub fn duration(&mut self, duration: String) -> (r: &mut Self)
        requires
            old(self).properties.wf(),
        ensures
            r.properties.wf(),
            r.properties@ == old(self).properties@.insert("duration"@, JsonValue::String(duration)),
            r._create_id == old(self)._create_id,
            *final(self) == *final(r),
    {
        self.properties.insert(String::from_str("duration"), JsonValue::String(duration));
        self
    }

    /// Sets the status.
    pub fn status(&mut self, status: String) -> (r: &mut Self)
        requires
            old(self).properties.wf(),
        ensures
            r.properties.wf(),
            r.properties@ == old(self).properties@.insert("status"@, JsonValue::String(status)),
            r._create_id == old(self)._create_id,
            *final(self) == *final(r),
    {
        self.properties.insert(String::from_str("status"), JsonValue::String(status));
        self
    }

    /// Sets how the event counts for free/busy.
    pub fn free_busy_status(&mut self, free_busy_status: String) -> (r: &mut Self)
        requires
            old(self).properties.wf(),
        ensures
            r.properties.wf(),
            r.properties@ == old(self).properties@.insert("freeBusyStatus"@, JsonValue::String(free_busy_status)),
            r._create_id == old(self)._create_id,
            *final(self) == *final(r),
    {
        self.properties.insert(String::from_str("freeBusyStatus"), JsonValue::String(free_busy_status));
        self
    }

    /// Sets the time zone, or `null` for a floating time.
    pub fn time_zone(&mut self, time_zone: Option<String>) -> (r: &mut Self)
        requires
            old(self).properties.wf(),
        ensures
            r.properties.wf(),
            r.properties@ == old(self).properties@.insert("timeZone"@, text_or_null(time_zone)),
            r._create_id == old(self)._create_id,
            *final(self) == *final(r),
    {
        self.properties.insert(String::from_str("timeZone"), text_value(time_zone));
        self
    }

    /// Sets the color, or `null` to clear it.
    pub fn color(&mut self, color: Option<String>) -> (r: &mut Self)
        requires
            old(self).properties.wf(),
        ensures
            r.properties.wf(),
            r.properties@ == old(self).properties@.insert("color"@, text_or_null(color)),
            r._create_id == old(self)._create_id,
            *final(self) == *final(r),
    {
        self.properties.insert(String::from_str("color"), text_value(color));
        self
    }

    /// Sets the language tag, or `null` to clear it.
    pub fn locale(&mut self, locale: Option<String>) -> (r: &mut Self)
        requires
            old(self).properties.wf(),
        ensures
            r.properties.wf(),
            r.properties@ == old(self).properties@.insert("locale"@, text_or_null(locale)),
            r._create_id == old(self)._create_id,
            *final(self) == *final(r),
    {
        self.properties.insert(String::from_str("locale"), text_value(locale));
        self
    }

    /// Sets whether the time of day is shown.
    pub fn show_without_time(&mut self, show_without_time: bool) -> (r: &mut Self)
        requires
            old(self).properties.wf(),
        ensures
            r.properties.wf(),
            r.properties@ == old(self).properties@.insert("showWithoutTime"@, JsonValue::Bool(show_without_time)),
            r._create_id == old(self)._create_id,
            *final(self) == *final(r),
    {
        self.properties.insert(String::from_str("showWithoutTime"), JsonValue::Bool(show_without_time));
        self
    }

    /// Sets whether the calendar's default alerts apply.
    pub fn use_default_alerts(&mut self, use_default_alerts: bool) -> (r: &mut Self)
        requires
            old(self).properties.wf(),
        ensures
            r.properties.wf(),
            r.properties@ == old(self).properties@.insert("useDefaultAlerts"@, JsonValue::Bool(use_default_alerts)),
            r._create_id == old(self)._create_id,
            *final(self) == *final(r),
    {
        self.properties.insert(String::from_str("useDefaultAlerts"), JsonValue::Bool(use_default_alerts));
        self
    }

    /// Sets the recurrence rules.
    pub fn recurrence_rules(&mut self, rules: Vec<JsonValue>) -> (r: &mut Self)
        requires
            old(self).properties.wf(),
        ensures
            r.properties.wf(),
            r.properties@ == old(self).properties@.insert("recurrenceRules"@, JsonValue::Array(rules)),
            r._create_id == old(self)._create_id,
            *final(self) == *final(r),
    {
        self.properties.insert(String::from_str("recurrenceRules"), JsonValue::Array(rules));
        self
    }

    /// Sets the excluded recurrence rules.
    pub fn excluded_recurrence_rules(&mut self, rules: Vec<JsonValue>) -> (r: &mut Self)
        requires
            old(self).properties.wf(),
        ensures
            r.properties.wf(),
            r.properties@ == old(self).properties@.insert("excludedRecurrenceRules"@, JsonValue::Array(rules)),
            r._create_id == old(self)._create_id,
            *final(self) == *final(r),
    {
        self.properties.insert(String::from_str("excludedRecurrenceRules"), JsonValue::Array(rules));
        self
    }

    /// Sets the recurrence overrides.
    pub fn recurrence_overrides(&mut self, recurrence_overrides: JsonMap) -> (r: &mut Self)
        requires
            old(self).properties.wf(),
        ensures
            r.properties.wf(),
            r.properties@ == old(self).properties@.insert("recurrenceOverrides"@, JsonValue::Object(recurrence_overrides)),
            r._create_id == old(self)._create_id,
            *final(self) == *final(r),
    {
        self.properties.insert(String::from_str("recurrenceOverrides"), JsonValue::Object(recurrence_overrides));
        self
    }

    /// Sets the keywords.
    pub fn keywords(&mut self, keywords: JsonMap) -> (r: &mut Self)
        requires
            old(self).properties.wf(),
        ensures
            r.properties.wf(),
            r.properties@ == old(self).properties@.insert("keywords"@, JsonValue::Object(keywords)),
            r._create_id == old(self)._create_id,
            *final(self) == *final(r),
    {
        self.properties.insert(String::from_str("keywords"), JsonValue::Object(keywords));
        self
    }

    /// Sets the categories.
    pub fn categories(&mut self, categories: JsonMap) -> (r: &mut Self)
        requires
            old(self).properties.wf(),
        ensures
            r.properties.wf(),
            r.properties@ == old(self).properties@.insert("categories"@, JsonValue::Object(categories)),
            r._create_id == old(self)._create_id,
            *final(self) == *final(r),
    {
        self.properties.insert(String::from_str("categories"), JsonValue::Object(categories));
        self
    }

    /// Sets the reply-to methods.
    pub fn reply_to(&mut self, reply_to: JsonMap) -> (r: &mut Self)
        requires
            old(self).properties.wf(),
        ensures
            r.properties.wf(),
            r.properties@ == old(self).properties@.insert("replyTo"@, JsonValue::Object(reply_to)),
            r._create_id == old(self)._create_id,
            *final(self) == *final(r),
    {
        self.properties.insert(String::from_str("replyTo"), JsonValue::Object(reply_to));
        self
    }

    /// Sets the participants.
    pub fn participants(&mut self, participants: JsonMap) -> (r: &mut Self)
        requires
            old(self).properties.wf(),
        ensures
            r.properties.wf(),
            r.properties@ == old(self).properties@.insert("participants"@, JsonValue::Object(participants)),
            r._create_id == old(self)._create_id,
            *final(self) == *final(r),
    {
        self.properties.insert(String::from_str("participants"), JsonValue::Object(participants));
        self
    }

    /// Sets the locations.
    pub fn locations(&mut self, locations: JsonMap) -> (r: &mut Self)
        requires
            old(self).properties.wf(),
        ensures
            r.properties.wf(),
            r.properties@ == old(self).properties@.insert("locations"@, JsonValue::Object(locations)),
            r._create_id == old(self)._create_id,
            *final(self) == *final(r),
    {
        self.properties.insert(String::from_str("locations"), JsonValue::Object(locations));
        self
    }

    /// Sets the virtual locations.
    pub fn virtual_locations(&mut self, virtual_locations: JsonMap) -> (r: &mut Self)
        requires
            old(self).properties.wf(),
        ensures
            r.properties.wf(),
            r.properties@ == old(self).properties@.insert("virtualLocations"@, JsonValue::Object(virtual_locations)),
            r._create_id == old(self)._create_id,
            *final(self) == *final(r),
    {
        self.properties.insert(String::from_str("virtualLocations"), JsonValue::Object(virtual_locations));
        self
    }

    /// Sets the links.
    pub fn links(&mut self, links: JsonMap) -> (r: &mut Self)
        requires
            old(self).properties.wf(),
        ensures
            r.properties.wf(),
            r.properties@ == old(self).properties@.insert("links"@, JsonValue::Object(links)),
            r._create_id == old(self)._create_id,
            *final(self) == *final(r),
    {
        self.properties.insert(String::from_str("links"), JsonValue::Object(links));
        self
    }

    /// Sets the alerts, or `null` to remove them.
    pub fn alerts(&mut self, alerts: Option<JsonMap>) -> (r: &mut Self)
        requires
            old(self).properties.wf(),
        ensures
            r.properties.wf(),
            r.properties@ == old(self).properties@.insert("alerts"@, object_or_null(alerts)),
            r._create_id == old(self)._create_id,
            *final(self) == *final(r),
    {
        self.properties.insert(String::from_str("alerts"), match alerts {
            Some(a) => JsonValue::Object(a),
            None => JsonValue::Null,
        });
        self
    }

    /// Sets the priority (0 to 9).
    pub fn priority(&mut self, priority: u8) -> (r: &mut Self)
        requires
            old(self).properties.wf(),
        ensures
            r.properties.wf(),
            r.properties@.dom() == old(self).properties@.dom().insert("priority"@),
            r.properties@.remove("priority"@) == old(self).properties@.remove("priority"@),
            r.properties@["priority"@] matches JsonValue::Number(t) && t@ == decimal(priority as nat),
            r._create_id == old(self)._create_id,
            *final(self) == *final(r),
    {
        self.properties.insert(String::from_str("priority"), number_value(priority as u32));
        self
    }

    /// Sets the calendars that the event belongs to: each id set to `true`.
    pub fn calendar_ids(&mut self, calendar_ids: Vec<String>) -> (r: &mut Self)
        requires
            old(self).properties.wf(),
        ensures
            r.properties.wf(),
            r.properties@.dom() == old(self).properties@.dom().insert("calendarIds"@),
            r.properties@.remove("calendarIds"@) == old(self).properties@.remove("calendarIds"@),
            r.properties@["calendarIds"@] matches JsonValue::Object(m) && m.wf() && m@ == true_set(views(calendar_ids@)),
            r._create_id == old(self)._create_id,
            *final(self) == *final(r),
    {
        self.properties.insert(String::from_str("calendarIds"), JsonValue::Object(true_set_of(calendar_ids)));
        self
    }

    /// Adds the event to a calendar (`set`) or takes it out (`null`),
    /// leaving its other calendars; the `calendarIds` object is made where
    /// there is none. A `calendarIds` member that is not an object is left
    /// as it is.
    pub fn calendar_id(&mut self, calendar_id: String, set: bool) -> (r: &mut Self)
        requires
            old(self).properties.wf(),
            old(self).properties@.contains_key("calendarIds"@) ==> (old(self).properties@["calendarIds"@] matches JsonValue::Object(m) ==> m.wf()),
        ensures
            r.properties.wf(),
            r.properties@.dom() == old(self).properties@.dom().insert("calendarIds"@),
            r.properties@.remove("calendarIds"@) == old(self).properties@.remove("calendarIds"@),
            ({
                let v = if set { JsonValue::Bool(true) } else { JsonValue::Null };
                if old(self).properties@.contains_key("calendarIds"@) {
                    match old(self).properties@["calendarIds"@] {
                        JsonValue::Object(m0) => r.properties@["calendarIds"@] matches JsonValue::Object(m) && m.wf() && m@ == m0@.insert(calendar_id@, v),
                        other => r.properties@["calendarIds"@] == other,
                    }
                } else {
                    r.properties@["calendarIds"@] matches JsonValue::Object(m) && m.wf() && m@ == Map::<Seq<char>, JsonValue>::empty().insert(calendar_id@, v)
                }
            }),
            r._create_id == old(self)._create_id,
            *final(self) == *final(r),
    {
        let existing = self.properties.remove("calendarIds");
        let mut ids = match existing {
            Some(v) => v,
            None => JsonValue::Object(JsonMap::new()),
        };
        match ids.as_object_mut() {
            Some(m) => {
                m.insert(calendar_id, if set { JsonValue::Bool(true) } else { JsonValue::Null });
            },
            None => {},
        }
        self.properties.insert(String::from_str("calendarIds"), ids);
        proof {
            reveal_strlit("calendarIds");
        }
        self
    }

    /// Sets any property by name: extension properties, or standard ones
    /// without a method of their own.
    pub fn set_property(&mut self, name: String, value: JsonValue) -> (r: &mut Self)
        requires
            old(self).properties.wf(),
        ensures
            r.properties.wf(),
            r.properties@ == old(self).properties@.insert(name@, value),
            r._create_id == old(self)._create_id,
            *final(self) == *final(r),
    {
        self.properties.insert(name, value);
        self
    }
}

/// Any property, extension properties included, written by `set_property`
/// is read back by `property`, and every other property is kept as it was.
pub proof fn law_event_property_write_then_read(
    props: Map<Seq<char>, JsonValue>,
    name: Seq<char>,
    value: JsonValue,
    other: Seq<char>,
)
    requires
        other != name,
    ensures
        props.insert(name, value).contains_key(name),
        props.insert(name, value)[name] == value,
        props.insert(name, value).contains_key(other) == props.contains_key(other),
        props.contains_key(other) ==> props.insert(name, value)[other] == props[other],
{
}

/// A priority written by the draft setter, as the setter leaves it in the
/// property map, is read back by the getter.
pub proof fn law_event_priority_write_then_read(props: Map<Seq<char>, JsonValue>, priority: u8)
    requires
        props.contains_key("priority"@),
        props["priority"@] matches JsonValue::Number(t) && t@ == decimal(priority as nat),
    ensures
        number_member(props, "priority"@) == Some(decimal(priority as nat)),
        bounded_decimal(decimal(priority as nat), 255) == Some(priority as nat),
{
    lemma_decimal_round_trip(priority as nat);
}

/// A nullable text property (time zone, color, locale) reads back what was
/// written: the text, or `null` as `Some(None)`, which is not the same as a
/// missing property; other properties are left as they were.
pub proof fn law_event_nullable_text_write_then_read(
    props: Map<Seq<char>, JsonValue>,
    name: Seq<char>,
    value: Option<String>,
    other: Seq<char>,
)
    requires
        other != name,
    ensures
        nullable_text_member(props.insert(name, text_or_null(value)), name) == Some(opt_string_view(value)),
        nullable_text_member(props.insert(name, text_or_null(value)), other) == nullable_text_member(props, other),
{
}

/// Alerts written as an object or `null` read back the same way.
pub proof fn law_event_alerts_write_then_read(props: Map<Seq<char>, JsonValue>, alerts: Option<JsonMap>)
    ensures
        nullable_object_member(props.insert("alerts"@, object_or_null(alerts)), "alerts"@) == Some(alerts),
{
}

/// A text property written by a draft setter is read back by the getter of
/// the same name; other properties are left as they were.
pub proof fn law_event_text_write_then_read(props: Map<Seq<char>, JsonValue>, name: Seq<char>, value: String, other: Seq<char>)
    requires
        other != name,
    ensures
        text_member(props.insert(name, JsonValue::String(value)), name) == Some(value@),
        text_member(props.insert(name, JsonValue::String(value)), other) == text_member(props, other),
        object_member(props.insert(name, JsonValue::String(value)), other) == object_member(props, other),
{
}

} // verus!
