//! Laws that tie the wire names of the library together: capability URNs
//! and the kinds a session reads them as, method names and the
//! capabilities they need, and data-type names and the URNs, properties
//! and events that are named after them.
use vstd::prelude::*;
use vstd::string::*;

use crate::blob::manage::{BlobGetRequest, BlobLookupRequest, BlobUploadRequest};
use crate::calendar_event::parse::CalendarEventParseRequest;
use crate::calendar_event::property::{event_property_name, Property as EventProperty};
use crate::contact_card::property::{card_property_name, Property as CardProperty};
use crate::event_source::{event_kind_of, EventType};
use crate::jmap_core::capability::{
    Blob, Calendars, CalendarsParse, Capability, Contacts, ContactsParse, Core, Mail, Principals, Quota, Sieve, Submission,
    VacationResponseCap, WebSocket,
};
use crate::jmap_core::method::JmapMethod;
use crate::jmap_core::session::{capability_kind_of, CapabilityKind};
use crate::{data_type_name, DataType};

verus! {

/// An ASCII letter in lower case; other characters as they are.
pub open spec fn ascii_lower(c: char) -> char {
    if 'A' <= c && c <= 'Z' {
        ((c as u32) + 32) as char
    } else {
        c
    }
}

/// A text in lower case.
pub open spec fn lower(s: Seq<char>) -> Seq<char> {
    s.map_values(|c: char| ascii_lower(c))
}

/// A text with its first letter in lower case (`AddressBook` becomes
/// `addressBook`).
pub open spec fn lower_first(s: Seq<char>) -> Seq<char> {
    if s.len() == 0 {
        s
    } else {
        s.update(0, ascii_lower(s[0]))
    }
}

/// The URN of a capability defined for JMAP: `urn:ietf:params:jmap:` and its
/// name.
pub open spec fn jmap_urn(name: Seq<char>) -> Seq<char> {
    "urn:ietf:params:jmap:"@ + name
}

/// `name` is a method name made of the object `object`, a slash and the
/// verb `verb`.
pub open spec fn method_named(name: Seq<char>, object: Seq<char>, verb: Seq<char>) -> bool {
    &&& name == object + "/"@ + verb
    &&& object.len() > 0
    &&& verb.len() > 0
    &&& !object.contains('/')
}

/// Law: the session reads each capability URN that the library requests
/// as the kind of that capability, and reads a URN as `Other` exactly when
/// it is none of them.
pub proof fn law_capability_urns_read_as_their_kinds()
    ensures
        capability_kind_of(Core::spec_uri()) == CapabilityKind::Core,
        capability_kind_of(Mail::spec_uri()) == CapabilityKind::Mail,
        capability_kind_of(Submission::spec_uri()) == CapabilityKind::Submission,
        capability_kind_of(WebSocket::spec_uri()) == CapabilityKind::WebSocket,
        capability_kind_of(Sieve::spec_uri()) == CapabilityKind::Sieve,
        capability_kind_of(Quota::spec_uri()) == CapabilityKind::Quota,
        capability_kind_of(Blob::spec_uri()) == CapabilityKind::Blob,
        capability_kind_of(Calendars::spec_uri()) == CapabilityKind::Calendars,
        capability_kind_of(Contacts::spec_uri()) == CapabilityKind::Contacts,
        capability_kind_of(Principals::spec_uri()) == CapabilityKind::Principals,
        forall|uri: Seq<char>|
            #![trigger capability_kind_of(uri)]
            capability_kind_of(uri) == CapabilityKind::Other <==> {
                &&& uri != Core::spec_uri()
                &&& uri != Mail::spec_uri()
                &&& uri != Submission::spec_uri()
                &&& uri != WebSocket::spec_uri()
                &&& uri != Sieve::spec_uri()
                &&& uri != Quota::spec_uri()
                &&& uri != Blob::spec_uri()
                &&& uri != Calendars::spec_uri()
                &&& uri != Contacts::spec_uri()
                &&& uri != Principals::spec_uri()
            },
{
    reveal_strlit("urn:ietf:params:jmap:core");
    reveal_strlit("urn:ietf:params:jmap:mail");
    reveal_strlit("urn:ietf:params:jmap:submission");
    reveal_strlit("urn:ietf:params:jmap:websocket");
    reveal_strlit("urn:ietf:params:jmap:sieve");
    reveal_strlit("urn:ietf:params:jmap:quota");
    reveal_strlit("urn:ietf:params:jmap:blob");
    reveal_strlit("urn:ietf:params:jmap:calendars");
    reveal_strlit("urn:ietf:params:jmap:contacts");
    reveal_strlit("urn:ietf:params:jmap:principals");
    assert("urn:ietf:params:jmap:core"@[21] != "urn:ietf:params:jmap:mail"@[21]);
    assert("urn:ietf:params:jmap:core"@.len() != "urn:ietf:params:jmap:submission"@.len());
    assert("urn:ietf:params:jmap:core"@.len() != "urn:ietf:params:jmap:websocket"@.len());
    assert("urn:ietf:params:jmap:core"@.len() != "urn:ietf:params:jmap:sieve"@.len());
    assert("urn:ietf:params:jmap:core"@.len() != "urn:ietf:params:jmap:quota"@.len());
    assert("urn:ietf:params:jmap:core"@[21] != "urn:ietf:params:jmap:blob"@[21]);
    assert("urn:ietf:params:jmap:core"@.len() != "urn:ietf:params:jmap:calendars"@.len());
    assert("urn:ietf:params:jmap:core"@.len() != "urn:ietf:params:jmap:contacts"@.len());
    assert("urn:ietf:params:jmap:core"@.len() != "urn:ietf:params:jmap:principals"@.len());
    assert("urn:ietf:params:jmap:mail"@.len() != "urn:ietf:params:jmap:submission"@.len());
    assert("urn:ietf:params:jmap:mail"@.len() != "urn:ietf:params:jmap:websocket"@.len());
    assert("urn:ietf:params:jmap:mail"@.len() != "urn:ietf:params:jmap:sieve"@.len());
    assert("urn:ietf:params:jmap:mail"@.len() != "urn:ietf:params:jmap:quota"@.len());
    assert("urn:ietf:params:jmap:mail"@[21] != "urn:ietf:params:jmap:blob"@[21]);
    assert("urn:ietf:params:jmap:mail"@.len() != "urn:ietf:params:jmap:calendars"@.len());
    assert("urn:ietf:params:jmap:mail"@.len() != "urn:ietf:params:jmap:contacts"@.len());
    assert("urn:ietf:params:jmap:mail"@.len() != "urn:ietf:params:jmap:principals"@.len());
    assert("urn:ietf:params:jmap:submission"@.len() != "urn:ietf:params:jmap:websocket"@.len());
    assert("urn:ietf:params:jmap:submission"@.len() != "urn:ietf:params:jmap:sieve"@.len());
    assert("urn:ietf:params:jmap:submission"@.len() != "urn:ietf:params:jmap:quota"@.len());
    assert("urn:ietf:params:jmap:submission"@.len() != "urn:ietf:params:jmap:blob"@.len());
    assert("urn:ietf:params:jmap:submission"@.len() != "urn:ietf:params:jmap:calendars"@.len());
    assert("urn:ietf:params:jmap:submission"@.len() != "urn:ietf:params:jmap:contacts"@.len());
    assert("urn:ietf:params:jmap:submission"@[21] != "urn:ietf:params:jmap:principals"@[21]);
    assert("urn:ietf:params:jmap:websocket"@.len() != "urn:ietf:params:jmap:sieve"@.len());
    assert("urn:ietf:params:jmap:websocket"@.len() != "urn:ietf:params:jmap:quota"@.len());
    assert("urn:ietf:params:jmap:websocket"@.len() != "urn:ietf:params:jmap:blob"@.len());
    assert("urn:ietf:params:jmap:websocket"@[21] != "urn:ietf:params:jmap:calendars"@[21]);
    assert("urn:ietf:params:jmap:websocket"@.len() != "urn:ietf:params:jmap:contacts"@.len());
    assert("urn:ietf:params:jmap:websocket"@.len() != "urn:ietf:params:jmap:principals"@.len());
    assert("urn:ietf:params:jmap:sieve"@[21] != "urn:ietf:params:jmap:quota"@[21]);
    assert("urn:ietf:params:jmap:sieve"@.len() != "urn:ietf:params:jmap:blob"@.len());
    assert("urn:ietf:params:jmap:sieve"@.len() != "urn:ietf:params:jmap:calendars"@.len());
    assert("urn:ietf:params:jmap:sieve"@.len() != "urn:ietf:params:jmap:contacts"@.len());
    assert("urn:ietf:params:jmap:sieve"@.len() != "urn:ietf:params:jmap:principals"@.len());
    assert("urn:ietf:params:jmap:quota"@.len() != "urn:ietf:params:jmap:blob"@.len());
    assert("urn:ietf:params:jmap:quota"@.len() != "urn:ietf:params:jmap:calendars"@.len());
    assert("urn:ietf:params:jmap:quota"@.len() != "urn:ietf:params:jmap:contacts"@.len());
    assert("urn:ietf:params:jmap:quota"@.len() != "urn:ietf:params:jmap:principals"@.len());
    assert("urn:ietf:params:jmap:blob"@.len() != "urn:ietf:params:jmap:calendars"@.len());
    assert("urn:ietf:params:jmap:blob"@.len() != "urn:ietf:params:jmap:contacts"@.len());
    assert("urn:ietf:params:jmap:blob"@.len() != "urn:ietf:params:jmap:principals"@.len());
    assert("urn:ietf:params:jmap:calendars"@.len() != "urn:ietf:params:jmap:contacts"@.len());
    assert("urn:ietf:params:jmap:calendars"@.len() != "urn:ietf:params:jmap:principals"@.len());
    assert("urn:ietf:params:jmap:contacts"@.len() != "urn:ietf:params:jmap:principals"@.len());
}

/// Law: the names of the methods that the library calls are pairwise
/// distinct, and each is its object, a slash and a verb. The blob methods
/// act on the object whose lower-case name is their capability's; the
/// calendar-event parse method acts on calendar events, and its verb is
/// what its capability adds to the calendars capability, as the contacts
/// parse capability adds it to the contacts capability.
pub proof fn law_method_names()
    ensures
        BlobUploadRequest::spec_name() != BlobGetRequest::spec_name(),
        BlobUploadRequest::spec_name() != BlobLookupRequest::spec_name(),
        BlobGetRequest::spec_name() != BlobLookupRequest::spec_name(),
        BlobUploadRequest::spec_name() != CalendarEventParseRequest::spec_name(),
        BlobGetRequest::spec_name() != CalendarEventParseRequest::spec_name(),
        BlobLookupRequest::spec_name() != CalendarEventParseRequest::spec_name(),
        exists|o: Seq<char>, v: Seq<char>|
            method_named(BlobUploadRequest::spec_name(), o, v) && jmap_urn(lower(o))
                == <BlobUploadRequest as JmapMethod>::Cap::spec_uri(),
        exists|o: Seq<char>, v: Seq<char>|
            method_named(BlobGetRequest::spec_name(), o, v) && jmap_urn(lower(o))
                == <BlobGetRequest as JmapMethod>::Cap::spec_uri(),
        exists|o: Seq<char>, v: Seq<char>|
            method_named(BlobLookupRequest::spec_name(), o, v) && jmap_urn(lower(o))
                == <BlobLookupRequest as JmapMethod>::Cap::spec_uri(),
        exists|v: Seq<char>|
            method_named(CalendarEventParseRequest::spec_name(), data_type_name(DataType::CalendarEvent), v)
                && <CalendarEventParseRequest as JmapMethod>::Cap::spec_uri() == Calendars::spec_uri() + ":"@ + v
                && ContactsParse::spec_uri() == Contacts::spec_uri() + ":"@ + v,
{
    reveal_strlit("Blob/upload");
    reveal_strlit("Blob/get");
    reveal_strlit("Blob/lookup");
    reveal_strlit("CalendarEvent/parse");
    reveal_strlit("CalendarEvent");
    reveal_strlit("urn:ietf:params:jmap:blob");
    reveal_strlit("urn:ietf:params:jmap:calendars");
    reveal_strlit("urn:ietf:params:jmap:calendars:parse");
    reveal_strlit("urn:ietf:params:jmap:");
    reveal_strlit("/");
    reveal_strlit(":");
    assert("Blob/upload"@.len() != "Blob/get"@.len());
    assert("Blob/upload"@[5] != "Blob/lookup"@[5]);
    assert("Blob/get"@.len() != "Blob/lookup"@.len());
    assert("Blob/upload"@.len() != "CalendarEvent/parse"@.len());
    assert("Blob/get"@.len() != "CalendarEvent/parse"@.len());
    assert("Blob/lookup"@.len() != "CalendarEvent/parse"@.len());
    let blob = seq!['B', 'l', 'o', 'b'];
    assert(lower(blob) =~= seq!['b', 'l', 'o', 'b']);
    assert(jmap_urn(lower(blob)) =~= "urn:ietf:params:jmap:blob"@);
    let upload = seq!['u', 'p', 'l', 'o', 'a', 'd'];
    let get = seq!['g', 'e', 't'];
    let lookup = seq!['l', 'o', 'o', 'k', 'u', 'p'];
    assert("Blob/upload"@ =~= blob + "/"@ + upload);
    assert("Blob/get"@ =~= blob + "/"@ + get);
    assert("Blob/lookup"@ =~= blob + "/"@ + lookup);
    assert(!blob.contains('/')) by {
        assert forall|i: int| 0 <= i < blob.len() implies blob[i] != '/' by {}
    }
    assert(method_named(BlobUploadRequest::spec_name(), blob, upload));
    assert(method_named(BlobGetRequest::spec_name(), blob, get));
    assert(method_named(BlobLookupRequest::spec_name(), blob, lookup));
    let parse = seq!['p', 'a', 'r', 's', 'e'];
    let event = "CalendarEvent"@;
    assert("CalendarEvent/parse"@ =~= event + "/"@ + parse);
    assert(!event.contains('/')) by {
        assert forall|i: int| 0 <= i < event.len() implies event[i] != '/' by {}
    }
    assert(method_named(CalendarEventParseRequest::spec_name(), data_type_name(DataType::CalendarEvent), parse));
    assert("urn:ietf:params:jmap:calendars:parse"@ =~= "urn:ietf:params:jmap:calendars"@ + ":"@ + parse);
    reveal_strlit("urn:ietf:params:jmap:contacts");
    reveal_strlit("urn:ietf:params:jmap:contacts:parse");
    assert("urn:ietf:params:jmap:contacts:parse"@ =~= "urn:ietf:params:jmap:contacts"@ + ":"@ + parse);
}

/// Law: the data types are named as the capabilities, properties and
/// events that are named after them: the core, quota and vacation-response
/// capabilities carry the lower-case name of their data type, the calendars
/// and principals capabilities its plural; the properties that list the
/// calendars of an event and the address books of a card are the data
/// type's name with a lower-case first letter and `Ids`; the event that
/// carries a calendar alert is named so too.
pub proof fn law_data_type_names()
    ensures
        jmap_urn(lower(data_type_name(DataType::Core))) == Core::spec_uri(),
        jmap_urn(lower(data_type_name(DataType::Quota))) == Quota::spec_uri(),
        jmap_urn(lower(data_type_name(DataType::VacationResponse))) == VacationResponseCap::spec_uri(),
        jmap_urn(lower(data_type_name(DataType::Calendar)) + "s"@) == Calendars::spec_uri(),
        jmap_urn(lower(data_type_name(DataType::Principal)) + "s"@) == Principals::spec_uri(),
        event_property_name(EventProperty::CalendarIds) == lower_first(data_type_name(DataType::Calendar)) + "Ids"@,
        card_property_name(CardProperty::AddressBookIds) == lower_first(data_type_name(DataType::AddressBook)) + "Ids"@,
        event_kind_of(lower_first(data_type_name(DataType::CalendarAlert))) == Some(EventType::CalendarAlert),
{
    reveal_strlit("urn:ietf:params:jmap:");
    reveal_strlit("urn:ietf:params:jmap:core");
    reveal_strlit("urn:ietf:params:jmap:quota");
    reveal_strlit("urn:ietf:params:jmap:vacationresponse");
    reveal_strlit("urn:ietf:params:jmap:calendars");
    reveal_strlit("urn:ietf:params:jmap:principals");
    reveal_strlit("Core");
    reveal_strlit("Quota");
    reveal_strlit("VacationResponse");
    reveal_strlit("Calendar");
    reveal_strlit("Principal");
    reveal_strlit("AddressBook");
    reveal_strlit("CalendarAlert");
    reveal_strlit("calendarIds");
    reveal_strlit("addressBookIds");
    reveal_strlit("calendarAlert");
    reveal_strlit("state");
    reveal_strlit("ping");
    reveal_strlit("s");
    reveal_strlit("Ids");
    assert(lower("Core"@) =~= "core"@) by {
        reveal_strlit("core");
    }
    assert(jmap_urn(lower("Core"@)) =~= "urn:ietf:params:jmap:core"@) by {
        reveal_strlit("core");
    }
    assert(jmap_urn(lower("Quota"@)) =~= "urn:ietf:params:jmap:quota"@);
    assert(jmap_urn(lower("VacationResponse"@)) =~= "urn:ietf:params:jmap:vacationresponse"@);
    assert(jmap_urn(lower("Calendar"@) + "s"@) =~= "urn:ietf:params:jmap:calendars"@);
    assert(jmap_urn(lower("Principal"@) + "s"@) =~= "urn:ietf:params:jmap:principals"@);
    assert(lower_first("Calendar"@) + "Ids"@ =~= "calendarIds"@);
    assert(lower_first("AddressBook"@) + "Ids"@ =~= "addressBookIds"@);
    assert(lower_first("CalendarAlert"@) =~= "calendarAlert"@);
    assert("calendarAlert"@.len() != "state"@.len());
    assert("calendarAlert"@.len() != "ping"@.len());
}

} // verus!
