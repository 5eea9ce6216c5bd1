//! A JMAP (JSON Meta Application Protocol) client library: request and
//! response models, object builders and accessors, and the URL templates of
//! a JMAP session.
use vstd::prelude::*;

pub mod calendar;
pub mod calendar_event;
pub mod calendar_event_notification;
pub mod address_book;
pub mod assoc;
pub mod blob;
pub mod client;
pub mod event_source;
pub mod contact_card;
pub mod json;
pub mod naming;
pub mod participant_identity;
pub mod principal;
pub mod quota;
pub mod jmap_core;
pub mod text;

use crate::jmap_core::transport::TransportError;
use crate::text::str_eq;

verus! {

/// The JMAP data types, as push notifications and event-source URLs name them.
#[derive(Debug, Clone, Copy, PartialEq, Eq, Hash)]
#[non_exhaustive]
pub enum DataType {
    Email,
    EmailDelivery,
    EmailSubmission,
    Mailbox,
    Thread,
    Identity,
    Core,
    PushSubscription,
    SearchSnippet,
    VacationResponse,
    Mdn,
    Quota,
    SieveScript,
    Calendar,
    CalendarEvent,
    CalendarEventNotification,
    AddressBook,
    ContactCard,
    FileNode,
    Principal,
    ShareNotification,
    ParticipantIdentity,
    CalendarAlert,
}

/// The name of a data type on the wire.
pub open spec fn data_type_name(t: DataType) -> Seq<char> {
    match t {
        DataType::Email => "Email"@,
        DataType::EmailDelivery => "EmailDelivery"@,
        DataType::EmailSubmission => "EmailSubmission"@,
        DataType::Mailbox => "Mailbox"@,
        DataType::Thread => "Thread"@,
        DataType::Identity => "Identity"@,
        DataType::Core => "Core"@,
        DataType::PushSubscription => "PushSubscription"@,
        DataType::SearchSnippet => "SearchSnippet"@,
        DataType::VacationResponse => "VacationResponse"@,
        DataType::Mdn => "MDN"@,
        DataType::Quota => "Quota"@,
        DataType::SieveScript => "SieveScript"@,
        DataType::Calendar => "Calendar"@,
        DataType::CalendarEvent => "CalendarEvent"@,
        DataType::CalendarEventNotification => "CalendarEventNotification"@,
        DataType::AddressBook => "AddressBook"@,
        DataType::ContactCard => "ContactCard"@,
        DataType::FileNode => "FileNode"@,
        DataType::Principal => "Principal"@,
        DataType::ShareNotification => "ShareNotification"@,
        DataType::ParticipantIdentity => "ParticipantIdentity"@,
        DataType::CalendarAlert => "CalendarAlert"@,
    }
}

impl DataType {

    /// The data type that a wire name names, where it names one.
    pub fn from_name(name: &str) -> (r: Option<DataType>)
        ensures
            match r {
                Some(d) => data_type_name(d) == name@,
                None => forall|d: DataType| data_type_name(d) != name@,
            },
    {
        if str_eq(name, "Email") {
            Some(DataType::Email)
        } else if str_eq(name, "EmailDelivery") {
            Some(DataType::EmailDelivery)
        } else if str_eq(name, "EmailSubmission") {
            Some(DataType::EmailSubmission)
        } else if str_eq(name, "Mailbox") {
            Some(DataType::Mailbox)
        } else if str_eq(name, "Thread") {
            Some(DataType::Thread)
        } else if str_eq(name, "Identity") {
            Some(DataType::Identity)
        } else if str_eq(name, "Core") {
            Some(DataType::Core)
        } else if str_eq(name, "PushSubscription") {
            Some(DataType::PushSubscription)
        } else if str_eq(name, "SearchSnippet") {
            Some(DataType::SearchSnippet)
        } else if str_eq(name, "VacationResponse") {
            Some(DataType::VacationResponse)
        } else if str_eq(name, "MDN") {
            Some(DataType::Mdn)
        } else if str_eq(name, "Quota") {
            Some(DataType::Quota)
        } else if str_eq(name, "SieveScript") {
            Some(DataType::SieveScript)
        } else if str_eq(name, "Calendar") {
            Some(DataType::Calendar)
        } else if str_eq(name, "CalendarEvent") {
            Some(DataType::CalendarEvent)
        } else if str_eq(name, "CalendarEventNotification") {
            Some(DataType::CalendarEventNotification)
        } else if str_eq(name, "AddressBook") {
            Some(DataType::AddressBook)
        } else if str_eq(name, "ContactCard") {
            Some(DataType::ContactCard)
        } else if str_eq(name, "FileNode") {
            Some(DataType::FileNode)
        } else if str_eq(name, "Principal") {
            Some(DataType::Principal)
        } else if str_eq(name, "ShareNotification") {
            Some(DataType::ShareNotification)
        } else if str_eq(name, "ParticipantIdentity") {
            Some(DataType::ParticipantIdentity)
        } else if str_eq(name, "CalendarAlert") {
            Some(DataType::CalendarAlert)
        } else {
            None
        }
    }
    /// The name of the data type on the wire (what `Display` writes).
    pub fn as_str(&self) -> (s: &'static str)
        ensures
            s@ == data_type_name(*self),
    {
        proof {
            reveal_strlit("Email");
            reveal_strlit("EmailDelivery");
            reveal_strlit("EmailSubmission");
            reveal_strlit("Mailbox");
            reveal_strlit("Thread");
            reveal_strlit("Identity");
            reveal_strlit("Core");
            reveal_strlit("PushSubscription");
            reveal_strlit("SearchSnippet");
            reveal_strlit("VacationResponse");
            reveal_strlit("MDN");
            reveal_strlit("Quota");
            reveal_strlit("SieveScript");
            reveal_strlit("Calendar");
            reveal_strlit("CalendarEvent");
            reveal_strlit("CalendarEventNotification");
            reveal_strlit("AddressBook");
            reveal_strlit("ContactCard");
            reveal_strlit("FileNode");
            reveal_strlit("Principal");
            reveal_strlit("ShareNotification");
            reveal_strlit("ParticipantIdentity");
            reveal_strlit("CalendarAlert");
        }
        match self {
            DataType::Email => "Email",
            DataType::EmailDelivery => "EmailDelivery",
            DataType::EmailSubmission => "EmailSubmission",
            DataType::Mailbox => "Mailbox",
            DataType::Thread => "Thread",
            DataType::Identity => "Identity",
            DataType::Core => "Core",
            DataType::PushSubscription => "PushSubscription",
            DataType::SearchSnippet => "SearchSnippet",
            DataType::VacationResponse => "VacationResponse",
            DataType::Mdn => "MDN",
            DataType::Quota => "Quota",
            DataType::SieveScript => "SieveScript",
            DataType::Calendar => "Calendar",
            DataType::CalendarEvent => "CalendarEvent",
            DataType::CalendarEventNotification => "CalendarEventNotification",
            DataType::AddressBook => "AddressBook",
            DataType::ContactCard => "ContactCard",
            DataType::FileNode => "FileNode",
            DataType::Principal => "Principal",
            DataType::ShareNotification => "ShareNotification",
            DataType::ParticipantIdentity => "ParticipantIdentity",
            DataType::CalendarAlert => "CalendarAlert",
        }
    }
}

/// A calendar alert pushed by the server.
#[derive(Debug, Clone, PartialEq, Eq)]
pub struct CalendarAlert {
    pub account_id: String,
    pub calendar_event_id: String,
    pub uid: String,
    pub recurrence_id: Option<String>,
    pub alert_id: String,
}

/// Marker for objects as the server returns them.
#[derive(Debug, Clone, Copy)]
pub struct Get;

/// Marker for objects being created or updated (`/set` requests).
#[derive(Debug, Clone, Copy)]
pub struct Draft;

/// A JMAP method-level error (RFC 8620 §3.6.2): its `type` and optional
/// `description`.
#[derive(Debug, Clone)]
pub struct MethodError {
    pub error_type: String,
    pub description: Option<String>,
}

/// A request-level problem report (RFC 7807 / RFC 8620 §3.6.1).
#[derive(Debug, Clone)]
pub struct ProblemDetails {
    pub problem_type: String,
    pub status: Option<u32>,
    pub title: Option<String>,
    pub detail: Option<String>,
    pub limit: Option<String>,
}

/// Errors of the library.
#[derive(Debug)]
#[non_exhaustive]
pub enum Error {
    Transport(TransportError),
    Parse(String),
    Internal(String),
    Problem(ProblemDetails),
    Method(MethodError),
    CallNotFound(String),
    IdNotFound(String),
    NotParsable(String),
}

impl Error {
    /// The error for a failed transport: a problem report where the HTTP
    /// response came with a body that reads as one (`problem`, read from
    /// `error.body`), else the transport error itself.
    pub fn from_transport(error: TransportError, problem: Option<ProblemDetails>) -> (r: Error)
        ensures
            match (error.body, problem) {
                (Some(_), Some(p)) => r == Error::Problem(p),
                _ => r == Error::Transport(error),
            },
    {
        match (&error.body, problem) {
            (Some(_), Some(p)) => Error::Problem(p),
            _ => Error::Transport(error),
        }
    }
}

/// `Result` with the library's error.
pub type Result<T> = std::result::Result<T, Error>;

} // verus!
