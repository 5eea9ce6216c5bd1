//! JMAP capabilities, identified by their URNs.
use vstd::prelude::*;

verus! {

/// A JMAP capability identified by its URN.
pub trait Capability {
    /// The capability's URN.
    spec fn spec_uri() -> Seq<char>;

    fn uri() -> (s: &'static str)
        ensures
            s@ == Self::spec_uri(),
    ;
}

} // verus!

verus! {

/// The `urn:ietf:params:jmap:core` capability.
pub struct Core;

impl Capability for Core {
    open spec fn spec_uri() -> Seq<char> {
        "urn:ietf:params:jmap:core"@
    }

    fn uri() -> (s: &'static str) {
        "urn:ietf:params:jmap:core"
    }
}

/// The `urn:ietf:params:jmap:mail` capability.
pub struct Mail;

impl Capability for Mail {
    open spec fn spec_uri() -> Seq<char> {
        "urn:ietf:params:jmap:mail"@
    }

    fn uri() -> (s: &'static str) {
        "urn:ietf:params:jmap:mail"
    }
}

/// The `urn:ietf:params:jmap:submission` capability.
pub struct Submission;

impl Capability for Submission {
    open spec fn spec_uri() -> Seq<char> {
        "urn:ietf:params:jmap:submission"@
    }

    fn uri() -> (s: &'static str) {
        "urn:ietf:params:jmap:submission"
    }
}

/// The `urn:ietf:params:jmap:vacationresponse` capability.
pub struct VacationResponseCap;

impl Capability for VacationResponseCap {
    open spec fn spec_uri() -> Seq<char> {
        "urn:ietf:params:jmap:vacationresponse"@
    }

    fn uri() -> (s: &'static str) {
        "urn:ietf:params:jmap:vacationresponse"
    }
}

/// The `urn:ietf:params:jmap:contacts` capability.
pub struct Contacts;

impl Capability for Contacts {
    open spec fn spec_uri() -> Seq<char> {
        "urn:ietf:params:jmap:contacts"@
    }

    fn uri() -> (s: &'static str) {
        "urn:ietf:params:jmap:contacts"
    }
}

/// The `urn:ietf:params:jmap:contacts:parse` capability.
pub struct ContactsParse;

impl Capability for ContactsParse {
    open spec fn spec_uri() -> Seq<char> {
        "urn:ietf:params:jmap:contacts:parse"@
    }

    fn uri() -> (s: &'static str) {
        "urn:ietf:params:jmap:contacts:parse"
    }
}

/// The `urn:ietf:params:jmap:calendars` capability.
pub struct Calendars;

impl Capability for Calendars {
    open spec fn spec_uri() -> Seq<char> {
        "urn:ietf:params:jmap:calendars"@
    }

    fn uri() -> (s: &'static str) {
        "urn:ietf:params:jmap:calendars"
    }
}

/// The `urn:ietf:params:jmap:calendars:parse` capability.
pub struct CalendarsParse;

impl Capability for CalendarsParse {
    open spec fn spec_uri() -> Seq<char> {
        "urn:ietf:params:jmap:calendars:parse"@
    }

    fn uri() -> (s: &'static str) {
        "urn:ietf:params:jmap:calendars:parse"
    }
}

/// The `urn:ietf:params:jmap:blob` capability.
pub struct Blob;

impl Capability for Blob {
    open spec fn spec_uri() -> Seq<char> {
        "urn:ietf:params:jmap:blob"@
    }

    fn uri() -> (s: &'static str) {
        "urn:ietf:params:jmap:blob"
    }
}

/// The `urn:ietf:params:jmap:quota` capability.
pub struct Quota;

impl Capability for Quota {
    open spec fn spec_uri() -> Seq<char> {
        "urn:ietf:params:jmap:quota"@
    }

    fn uri() -> (s: &'static str) {
        "urn:ietf:params:jmap:quota"
    }
}

/// The `urn:ietf:params:jmap:websocket` capability.
pub struct WebSocket;

impl Capability for WebSocket {
    open spec fn spec_uri() -> Seq<char> {
        "urn:ietf:params:jmap:websocket"@
    }

    fn uri() -> (s: &'static str) {
        "urn:ietf:params:jmap:websocket"
    }
}

/// The `urn:ietf:params:jmap:sieve` capability.
pub struct Sieve;

impl Capability for Sieve {
    open spec fn spec_uri() -> Seq<char> {
        "urn:ietf:params:jmap:sieve"@
    }

    fn uri() -> (s: &'static str) {
        "urn:ietf:params:jmap:sieve"
    }
}

/// The `urn:ietf:params:jmap:principals` capability.
pub struct Principals;

impl Capability for Principals {
    open spec fn spec_uri() -> Seq<char> {
        "urn:ietf:params:jmap:principals"@
    }

    fn uri() -> (s: &'static str) {
        "urn:ietf:params:jmap:principals"
    }
}

/// The `urn:ietf:params:jmap:principals:owner` capability.
pub struct PrincipalsOwner;

impl Capability for PrincipalsOwner {
    open spec fn spec_uri() -> Seq<char> {
        "urn:ietf:params:jmap:principals:owner"@
    }

    fn uri() -> (s: &'static str) {
        "urn:ietf:params:jmap:principals:owner"
    }
}

} // verus!
