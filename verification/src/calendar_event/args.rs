//! Arguments of CalendarEvent/get, /set and /query, and the JSCalendar
//! alert types.
use vstd::prelude::*;

use crate::json::JsonMap;

verus! {

/// Extra arguments of CalendarEvent/get.
#[derive(Debug, Clone, Default)]
pub struct GetArguments {
    pub recurrence_overrides_before: Option<String>,
    pub recurrence_overrides_after: Option<String>,
    pub reduce_participants: Option<bool>,
    pub time_zone: Option<String>,
}

impl GetArguments {
    /// Only recurrence overrides before this date-time.
    pub fn recurrence_overrides_before(&mut self, before: String) -> (r: &mut Self)
        ensures
            *r == (GetArguments { recurrence_overrides_before: Some(before), ..*old(self) }),
            *final(self) == *final(r),
    {
        self.recurrence_overrides_before = Some(before);
        self
    }

    /// Only recurrence overrides after this date-time.
    pub fn recurrence_overrides_after(&mut self, after: String) -> (r: &mut Self)
        ensures
            *r == (GetArguments { recurrence_overrides_after: Some(after), ..*old(self) }),
            *final(self) == *final(r),
    {
        self.recurrence_overrides_after = Some(after);
        self
    }

    /// Whether to return only the participants relevant to the user.
    pub fn reduce_participants(&mut self, reduce: bool) -> (r: &mut Self)
        ensures
            *r == (GetArguments { reduce_participants: Some(reduce), ..*old(self) }),
            *final(self) == *final(r),
    {
        self.reduce_participants = Some(reduce);
        self
    }

    /// The time zone for floating times.
    pub fn time_zone(&mut self, tz: String) -> (r: &mut Self)
        ensures
            *r == (GetArguments { time_zone: Some(tz), ..*old(self) }),
            *final(self) == *final(r),
    {
        self.time_zone = Some(tz);
        self
    }
}

/// Extra arguments of CalendarEvent/set.
#[derive(Debug, Clone, Default)]
pub struct SetArguments {
    pub send_scheduling_messages: Option<bool>,
}

impl SetArguments {
    /// Whether the server sends scheduling messages to participants.
    pub fn send_scheduling_messages(&mut self, send: bool) -> (r: &mut Self)
        ensures
            *r == (SetArguments { send_scheduling_messages: Some(send), ..*old(self) }),
            *final(self) == *final(r),
    {
        self.send_scheduling_messages = Some(send);
        self
    }
}

/// Extra arguments of CalendarEvent/query.
#[derive(Debug, Clone, Default)]
pub struct QueryArguments {
    pub expand_recurrences: Option<bool>,
    pub time_zone: Option<String>,
}

impl QueryArguments {
    /// Whether recurring events are expanded into their instances.
    pub fn expand_recurrences(&mut self, expand: bool) -> (r: &mut Self)
        ensures
            *r == (QueryArguments { expand_recurrences: Some(expand), ..*old(self) }),
            *final(self) == *final(r),
    {
        self.expand_recurrences = Some(expand);
        self
    }

    /// The time zone for floating times.
    pub fn time_zone(&mut self, tz: String) -> (r: &mut Self)
        ensures
            *r == (QueryArguments { time_zone: Some(tz), ..*old(self) }),
            *final(self) == *final(r),
    {
        self.time_zone = Some(tz);
        self
    }
}

/// A JSCalendar alert (RFC 8984 §4.5.2).
#[derive(Debug)]
pub struct Alert {
    pub type_: Option<String>,
    pub trigger: AlertTrigger,
    pub action: Option<AlertAction>,
    pub acknowledged: Option<String>,
    pub related_to: Option<JsonMap>,
}

/// When an alert fires.
#[derive(Debug, Clone)]
pub enum AlertTrigger {
    /// At an offset from the start or end of the event.
    OffsetTrigger { offset: String, relative_to: Option<RelativeTo> },
    /// At a fixed time.
    AbsoluteTrigger { when: String },
    /// A trigger of a kind this library does not know.
    UnknownTrigger {},
}

/// How an alert is delivered.
#[derive(Debug, Clone, Copy, PartialEq, Eq)]
pub enum AlertAction {
    Display,
    Email,
}

/// What an offset trigger is relative to.
#[derive(Debug, Clone, Copy, PartialEq, Eq)]
pub enum RelativeTo {
    Start,
    End,
}

} // verus!
