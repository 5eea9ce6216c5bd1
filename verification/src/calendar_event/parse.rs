//! CalendarEvent/parse: calendar events read from iCalendar blobs.
use vstd::prelude::*;
use vstd::string::*;

use crate::assoc::position_named;
use crate::calendar_event::event::CalendarEvent;
use crate::calendar_event::property::Property;
use crate::jmap_core::capability::CalendarsParse;
use crate::jmap_core::method::JmapMethod;
use crate::jmap_core::parse::{opt_contains, opt_distinct, opt_list_view, opt_names, opt_views, take_from_opt};
use crate::text::to_owned;
use crate::Error;

verus! {

/// A CalendarEvent/parse request: the blobs to parse, and the properties to
/// return.
#[derive(Debug, Clone)]
pub struct CalendarEventParseRequest {
    pub account_id: String,
    pub blob_ids: Vec<String>,
    pub properties: Option<Vec<Property>>,
}

impl JmapMethod for CalendarEventParseRequest {
    type Cap = CalendarsParse;

    open spec fn spec_name() -> Seq<char> {
        "CalendarEvent/parse"@
    }

    fn name() -> (s: &'static str) {
        "CalendarEvent/parse"
    }
}

impl CalendarEventParseRequest {
    pub fn new(account_id: &str) -> (r: Self)
        ensures
            r.account_id@ == account_id@,
            r.blob_ids@.len() == 0,
            r.properties is None,
    {
        CalendarEventParseRequest { account_id: to_owned(account_id), blob_ids: Vec::new(), properties: None }
    }

    /// Sets the blobs to parse.
    pub fn blob_ids(&mut self, blob_ids: Vec<String>) -> (r: &mut Self)
        ensures
            *r == (CalendarEventParseRequest { blob_ids, ..*old(self) }),
            *final(self) == *final(r),
    {
        self.blob_ids = blob_ids;
        self
    }

    /// Sets the properties to return.
    pub fn properties(&mut self, properties: Vec<Property>) -> (r: &mut Self)
        ensures
            *r == (CalendarEventParseRequest { properties: Some(properties), ..*old(self) }),
            *final(self) == *final(r),
    {
        self.properties = Some(properties);
        self
    }
}

/// The response of CalendarEvent/parse: the events parsed from each blob.
#[derive(Debug)]
pub struct CalendarEventParseResponse {
    pub account_id: String,
    pub parsed: Option<Vec<(String, Vec<CalendarEvent>)>>,
    pub not_parsable: Option<Vec<String>>,
    pub not_found: Option<Vec<String>>,
}

/// The message for a blob that could not be parsed.
pub open spec fn not_parsable_message(blob_id: Seq<char>) -> Seq<char> {
    "blobId "@ + blob_id + " is not parsable."@
}

/// The message for a blob that the server does not report on.
pub open spec fn blob_not_found_message(blob_id: Seq<char>) -> Seq<char> {
    "blobId "@ + blob_id + " not found."@
}

impl CalendarEventParseResponse {
    /// The blob ids of the parsed events are pairwise distinct.
    pub open spec fn wf(&self) -> bool {
        opt_distinct(self.parsed)
    }

    pub fn account_id(&self) -> (r: &str)
        ensures
            r@ == self.account_id@,
    {
        self.account_id.as_str()
    }

    /// Takes out the events parsed from a blob; fails where the blob could
    /// not be parsed or was not reported on.
    pub fn parsed(&mut self, blob_id: &str) -> (r: crate::Result<Vec<CalendarEvent>>)
        ensures
            opt_names(old(self).parsed).contains(blob_id@) ==> {
                let l = old(self).parsed->0@;
                let p = position_named(l, blob_id@);
                &&& r == Ok::<Vec<CalendarEvent>, Error>(l[p].1)
                &&& final(self).parsed matches Some(nl) && nl@ == l.remove(p)
            },
            !opt_names(old(self).parsed).contains(blob_id@) ==> {
                &&& opt_list_view(final(self).parsed) == opt_list_view(old(self).parsed)
                &&& if opt_views(old(self).not_parsable).contains(blob_id@) {
                    r matches Err(Error::Internal(m)) && m@ == not_parsable_message(blob_id@)
                } else {
                    r matches Err(Error::Internal(m)) && m@ == blob_not_found_message(blob_id@)
                }
            },
            final(self).account_id == old(self).account_id,
            final(self).not_parsable == old(self).not_parsable,
            final(self).not_found == old(self).not_found,
            old(self).wf() ==> final(self).wf() && !opt_names(final(self).parsed).contains(blob_id@),
    {
        if let Some(result) = take_from_opt(&mut self.parsed, blob_id) {
            Ok(result)
        } else if opt_contains(&self.not_parsable, blob_id) {
            let mut m = String::from_str("blobId ");
            m.append(blob_id);
            m.append(" is not parsable.");
            Err(Error::Internal(m))
        } else {
            let mut m = String::from_str("blobId ");
            m.append(blob_id);
            m.append(" not found.");
            Err(Error::Internal(m))
        }
    }

    /// The parsed events, by blob id.
    pub fn parsed_list(&self) -> (r: Option<&Vec<(String, Vec<CalendarEvent>)>>)
        ensures
            r == match &self.parsed {
                Some(l) => Some(l),
                None => None,
            },
    {
        self.parsed.as_ref()
    }

    /// The blobs that could not be parsed.
    pub fn not_parsable(&self) -> (r: Option<&Vec<String>>)
        ensures
            r == match &self.not_parsable {
                Some(l) => Some(l),
                None => None,
            },
    {
        self.not_parsable.as_ref()
    }

    /// The blobs that were not found.
    pub fn not_found(&self) -> (r: Option<&Vec<String>>)
        ensures
            r == match &self.not_found {
                Some(l) => Some(l),
                None => None,
            },
    {
        self.not_found.as_ref()
    }
}

} // verus!
