//! Session resource: capability descriptions and URL templates.
use vstd::prelude::*;
use vstd::string::*;

use crate::assoc::{get_named, lemma_distinct_position, names_distinct, names_of, position_named};
use crate::json::{opt_deref, JsonValue};
use crate::text::{opt_string_view, opt_text, str_eq, to_owned, views};
use crate::Error;

verus! {

/// A parser for the names of the parameters of a URL template.
pub trait URLParser: Sized {
    /// What `parse` returns for a parameter name.
    spec fn spec_parse(value: Seq<char>) -> Option<Self>;

    fn parse(value: &str) -> (r: Option<Self>)
        ensures
            r == Self::spec_parse(value@),
    ;
}

/// A piece of a URL template: literal text or a `{parameter}`.
#[non_exhaustive]
pub enum URLPart<T: URLParser> {
    Value(String),
    Parameter(T),
}

/// A piece of a URL template as the template's text gives it: literal text,
/// or a parameter's name together with what the name parses to.
pub enum TemplatePart<T> {
    Text(Seq<char>),
    Param(Seq<char>, T),
}

/// Why a URL template was refused.
pub enum TemplateError {
    /// A `{name}` whose name the parameter parser does not know.
    InvalidParameter(Seq<char>),
    /// Unbalanced braces, an empty `{}`, or an unclosed parameter.
    InvalidUrl,
}

/// The scan of a URL template from position `i` on: `parts` are the pieces
/// found so far, `buf` the text read since the last brace, and `in_param`
/// whether a `{` was read after the last `}`.
pub open spec fn scan_template<T: URLParser>(
    url: Seq<char>,
    i: nat,
    parts: Seq<TemplatePart<T>>,
    buf: Seq<char>,
    in_param: bool,
) -> Result<Seq<TemplatePart<T>>, TemplateError>
    decreases url.len() - i,
{
    if i >= url.len() {
        if buf.len() == 0 {
            Ok(parts)
        } else if !in_param {
            Ok(parts.push(TemplatePart::Text(buf)))
        } else {
            Err(TemplateError::InvalidUrl)
        }
    } else {
        let ch = url[i as int];
        if ch == '{' {
            let next = if buf.len() > 0 { parts.push(TemplatePart::Text(buf)) } else { parts };
            scan_template(url, i + 1, next, Seq::empty(), true)
        } else if ch == '}' {
            if in_param && buf.len() > 0 {
                match T::spec_parse(buf) {
                    Some(p) => scan_template(
                        url,
                        i + 1,
                        parts.push(TemplatePart::Param(buf, p)),
                        Seq::empty(),
                        false,
                    ),
                    None => Err(TemplateError::InvalidParameter(buf)),
                }
            } else {
                Err(TemplateError::InvalidUrl)
            }
        } else {
            scan_template(url, i + 1, parts, buf.push(ch), in_param)
        }
    }
}

/// The pieces of a URL template, or why it is refused.
pub open spec fn parse_template<T: URLParser>(url: Seq<char>) -> Result<
    Seq<TemplatePart<T>>,
    TemplateError,
> {
    scan_template(url, 0, Seq::empty(), Seq::empty(), false)
}

/// The text a template piece stands for: the literal text, or the name of
/// the parameter.
pub open spec fn part_text<T>(p: TemplatePart<T>) -> Seq<char> {
    match p {
        TemplatePart::Text(t) => t,
        TemplatePart::Param(n, _) => n,
    }
}

/// The texts of the pieces, one after the other.
pub open spec fn flatten_parts<T>(ps: Seq<TemplatePart<T>>) -> Seq<char>
    decreases ps.len(),
{
    if ps.len() == 0 {
        Seq::empty()
    } else {
        flatten_parts(ps.drop_last()) + part_text(ps.last())
    }
}

/// Whether a character is a template brace.
pub open spec fn is_brace(c: char) -> bool {
    c == '{' || c == '}'
}

/// A text with its braces left out.
pub open spec fn strip_braces(s: Seq<char>) -> Seq<char>
    decreases s.len(),
{
    if s.len() == 0 {
        Seq::empty()
    } else if is_brace(s.last()) {
        strip_braces(s.drop_last())
    } else {
        strip_braces(s.drop_last()).push(s.last())
    }
}

/// Every piece has a non-empty text without braces.
pub open spec fn parts_are_clean<T>(ps: Seq<TemplatePart<T>>) -> bool {
    forall|k: int|
        0 <= k < ps.len() ==> #[trigger] part_text(ps[k]).len() > 0 && forall|j: int|
            0 <= j < part_text(ps[k]).len() ==> !is_brace(part_text(ps[k])[j])
}

proof fn lemma_flatten_push<T>(ps: Seq<TemplatePart<T>>, p: TemplatePart<T>)
    ensures
        flatten_parts(ps.push(p)) == flatten_parts(ps) + part_text(p),
{
    assert(ps.push(p).drop_last() =~= ps);
}

proof fn lemma_scan_keeps_text<T: URLParser>(
    url: Seq<char>,
    i: nat,
    parts: Seq<TemplatePart<T>>,
    buf: Seq<char>,
    in_param: bool,
)
    requires
        i <= url.len(),
        flatten_parts(parts) + buf == strip_braces(url.subrange(0, i as int)),
        parts_are_clean(parts),
        forall|j: int| 0 <= j < buf.len() ==> !is_brace(buf[j]),
    ensures
        scan_template::<T>(url, i, parts, buf, in_param) matches Ok(r) ==> flatten_parts(r)
            == strip_braces(url) && parts_are_clean(r),
    decreases url.len() - i,
{
    if i >= url.len() {
        assert(url.subrange(0, i as int) =~= url);
        if buf.len() > 0 && !in_param {
            lemma_flatten_push(parts, TemplatePart::<T>::Text(buf));
            let r = parts.push(TemplatePart::<T>::Text(buf));
            assert forall|k: int| 0 <= k < r.len() implies #[trigger] part_text(r[k]).len() > 0
                && forall|j: int| 0 <= j < part_text(r[k]).len() ==> !is_brace(part_text(r[k])[j]) by {
                if k < parts.len() {
                    assert(r[k] == parts[k]);
                }
            }
        } else if buf.len() == 0 {
            assert(flatten_parts(parts) + buf =~= flatten_parts(parts));
        }
    } else {
        let ch = url[i as int];
        assert(url.subrange(0, i + 1 as int).drop_last() =~= url.subrange(0, i as int));
        assert(url.subrange(0, i + 1 as int).last() == ch);
        if ch == '{' {
            let next = if buf.len() > 0 { parts.push(TemplatePart::<T>::Text(buf)) } else { parts };
            if buf.len() > 0 {
                lemma_flatten_push(parts, TemplatePart::<T>::Text(buf));
                assert forall|k: int| 0 <= k < next.len() implies #[trigger] part_text(next[k]).len() > 0
                    && forall|j: int| 0 <= j < part_text(next[k]).len() ==> !is_brace(part_text(next[k])[j]) by {
                    if k < parts.len() {
                        assert(next[k] == parts[k]);
                    }
                }
            }
            assert(flatten_parts(next) + Seq::<char>::empty() =~= flatten_parts(parts) + buf);
            lemma_scan_keeps_text::<T>(url, i + 1, next, Seq::empty(), true);
        } else if ch == '}' {
            if in_param && buf.len() > 0 {
                match T::spec_parse(buf) {
                    Some(p) => {
                        let next = parts.push(TemplatePart::Param(buf, p));
                        lemma_flatten_push(parts, TemplatePart::Param(buf, p));
                        assert forall|k: int| 0 <= k < next.len() implies #[trigger] part_text(next[k]).len() > 0
                            && forall|j: int| 0 <= j < part_text(next[k]).len() ==> !is_brace(part_text(next[k])[j]) by {
                            if k < parts.len() {
                                assert(next[k] == parts[k]);
                            }
                        }
                        assert(flatten_parts(next) + Seq::<char>::empty() =~= flatten_parts(parts) + buf);
                        lemma_scan_keeps_text::<T>(url, i + 1, next, Seq::empty(), false);
                    },
                    None => {},
                }
            }
        } else {
            assert(flatten_parts(parts) + buf.push(ch) =~= (flatten_parts(parts) + buf).push(ch));
            lemma_scan_keeps_text::<T>(url, i + 1, parts, buf.push(ch), in_param);
        }
    }
}

/// Law: a URL template that parses is its pieces' texts with the braces
/// around the parameter names added; so the pieces' texts, one after the
/// other, are the template with its braces left out, and no piece is empty
/// or holds a brace.
pub proof fn law_template_parts_spell_the_url<T: URLParser>(url: Seq<char>)
    ensures
        parse_template::<T>(url) matches Ok(r) ==> flatten_parts(r) == strip_braces(url)
            && parts_are_clean(r),
{
    assert(url.subrange(0, 0) =~= Seq::<char>::empty());
    assert(flatten_parts(Seq::<TemplatePart<T>>::empty()) + Seq::<char>::empty() =~= Seq::<char>::empty());
    lemma_scan_keeps_text::<T>(url, 0, Seq::empty(), Seq::empty(), false);
}

/// An executable piece matches a template piece: same text, or the
/// parameter that the template's name parses to.
pub open spec fn part_matches<T: URLParser>(part: URLPart<T>, tp: TemplatePart<T>) -> bool {
    match (part, tp) {
        (URLPart::Value(s), TemplatePart::Text(t)) => s@ == t,
        (URLPart::Parameter(p), TemplatePart::Param(_, q)) => p == q,
        _ => false,
    }
}

/// The message of the error for a URL template with an unknown parameter.
pub open spec fn invalid_parameter_message(name: Seq<char>, url: Seq<char>) -> Seq<char> {
    "Invalid parameter '"@ + name + "' in URL: "@ + url
}

/// The message of the error for a malformed URL template.
pub open spec fn invalid_url_message(url: Seq<char>) -> Seq<char> {
    "Invalid URL: "@ + url
}

fn invalid_url(url: &str) -> (e: Error)
    ensures
        e matches Error::Internal(m) && m@ == invalid_url_message(url@),
{
    let mut m = String::from_str("Invalid URL: ");
    m.append(url);
    Error::Internal(m)
}

fn invalid_parameter(name: &str, url: &str) -> (e: Error)
    ensures
        e matches Error::Internal(m) && m@ == invalid_parameter_message(name@, url@),
{
    let mut m = String::from_str("Invalid parameter '");
    m.append(name);
    m.append("' in URL: ");
    m.append(url);
    Error::Internal(m)
}

impl<T: URLParser> URLPart<T> {
    /// Splits a URL template such as `https://x/{accountId}/` into literal
    /// text and parameters.
    pub fn parse(url: &str) -> (r: crate::Result<Vec<URLPart<T>>>)
        ensures
            match parse_template::<T>(url@) {
                Ok(tps) => r matches Ok(parts) && parts@.len() == tps.len() && forall|k: int|
                    0 <= k < tps.len() ==> #[trigger] part_matches(parts@[k], tps[k]),
                Err(TemplateError::InvalidParameter(name)) => r matches Err(Error::Internal(m))
                    && m@ == invalid_parameter_message(name, url@),
                Err(TemplateError::InvalidUrl) => r matches Err(Error::Internal(m)) && m@
                    == invalid_url_message(url@),
            },
    {
        let n = url.unicode_len();
        let mut parts: Vec<URLPart<T>> = Vec::new();
        let ghost mut tparts: Seq<TemplatePart<T>> = Seq::empty();
        let mut start: usize = 0;
        let mut in_parameter = false;
        let mut i: usize = 0;
        assert(url@.subrange(0, 0) =~= Seq::<char>::empty());
        while i < n
            invariant
                n == url@.len(),
                start <= i <= n,
                parts@.len() == tparts.len(),
                forall|k: int| 0 <= k < tparts.len() ==> #[trigger] part_matches(parts@[k], tparts[k]),
                parse_template::<T>(url@) == scan_template::<T>(
                    url@,
                    i as nat,
                    tparts,
                    url@.subrange(start as int, i as int),
                    in_parameter,
                ),
            decreases n - i,
        {
            let ch = url.get_char(i);
            let ghost buf = url@.subrange(start as int, i as int);
            if ch == '{' {
                if start < i {
                    let value = url.substring_char(start, i);
                    parts.push(URLPart::Value(String::from_str(value)));
                    proof {
                        tparts = tparts.push(TemplatePart::Text(buf));
                    }
                }
                in_parameter = true;
                start = i + 1;
                assert(url@.subrange(start as int, start as int) =~= Seq::<char>::empty());
            } else if ch == '}' {
                if in_parameter && start < i {
                    let name = url.substring_char(start, i);
                    match T::parse(name) {
                        Some(p) => {
                            parts.push(URLPart::Parameter(p));
                            proof {
                                tparts = tparts.push(TemplatePart::Param(buf, p));
                            }
                        },
                        None => {
                            return Err(invalid_parameter(name, url));
                        },
                    }
                } else {
                    return Err(invalid_url(url));
                }
                in_parameter = false;
                start = i + 1;
                assert(url@.subrange(start as int, start as int) =~= Seq::<char>::empty());
            } else {
                assert(url@.subrange(start as int, i + 1) =~= buf.push(ch));
            }
            i = i + 1;
        }
        if start < n {
            if !in_parameter {
                let value = url.substring_char(start, n);
                parts.push(URLPart::Value(String::from_str(value)));
                proof {
                    tparts = tparts.push(TemplatePart::Text(url@.subrange(start as int, n as int)));
                }
            } else {
                return Err(invalid_url(url));
            }
        }
        Ok(parts)
    }
}

} // verus!

verus! {

/// Limits of the core capability (RFC 8620 §2).
#[derive(Debug, Clone, Default)]
pub struct CoreCapabilities {
    pub max_size_upload: usize,
    pub max_concurrent_upload: usize,
    pub max_size_request: usize,
    pub max_concurrent_requests: usize,
    pub max_calls_in_request: usize,
    pub max_objects_in_get: usize,
    pub max_objects_in_set: usize,
    pub collation_algorithms: Vec<String>,
}

impl CoreCapabilities {
    /// The `max_size_upload` limit.
    pub fn max_size_upload(&self) -> (r: usize)
        ensures
            r == self.max_size_upload,
    {
        self.max_size_upload
    }

    /// The `max_concurrent_upload` limit.
    pub fn max_concurrent_upload(&self) -> (r: usize)
        ensures
            r == self.max_concurrent_upload,
    {
        self.max_concurrent_upload
    }

    /// The `max_size_request` limit.
    pub fn max_size_request(&self) -> (r: usize)
        ensures
            r == self.max_size_request,
    {
        self.max_size_request
    }

    /// The `max_concurrent_requests` limit.
    pub fn max_concurrent_requests(&self) -> (r: usize)
        ensures
            r == self.max_concurrent_requests,
    {
        self.max_concurrent_requests
    }

    /// The `max_calls_in_request` limit.
    pub fn max_calls_in_request(&self) -> (r: usize)
        ensures
            r == self.max_calls_in_request,
    {
        self.max_calls_in_request
    }

    /// The `max_objects_in_get` limit.
    pub fn max_objects_in_get(&self) -> (r: usize)
        ensures
            r == self.max_objects_in_get,
    {
        self.max_objects_in_get
    }

    /// The `max_objects_in_set` limit.
    pub fn max_objects_in_set(&self) -> (r: usize)
        ensures
            r == self.max_objects_in_set,
    {
        self.max_objects_in_set
    }

    /// The collation algorithms the server supports.
    pub fn collation_algorithms(&self) -> (r: &Vec<String>)
        ensures
            r == &self.collation_algorithms,
    {
        &self.collation_algorithms
    }
}

/// The WebSocket capability (RFC 8887).
#[derive(Debug, Clone)]
pub struct WebSocketCapabilities {
    pub url: String,
    pub supports_push: bool,
}

impl WebSocketCapabilities {
    /// The WebSocket URL.
    pub fn url(&self) -> (r: &str)
        ensures
            r@ == self.url@,
    {
        self.url.as_str()
    }

    /// Whether the server pushes over the WebSocket.
    pub fn supports_push(&self) -> (r: bool)
        ensures
            r == self.supports_push,
    {
        self.supports_push
    }
}

/// The Sieve capability.
#[derive(Debug, Clone, Default)]
pub struct SieveCapabilities {
    pub implementation: Option<String>,
    pub max_script_name: Option<usize>,
    pub max_script_size: Option<usize>,
    pub max_scripts: Option<usize>,
    pub max_redirects: Option<usize>,
    pub extensions: Vec<String>,
    pub notification_methods: Option<Vec<String>>,
    pub ext_lists: Option<Vec<String>>,
}

impl SieveCapabilities {
    /// The longest script name allowed; 512 where the server gives none.
    pub fn max_script_name_size(&self) -> (r: usize)
        ensures
            r == match self.max_script_name {
                Some(n) => n,
                None => 512,
            },
    {
        match self.max_script_name {
            Some(n) => n,
            None => 512,
        }
    }

    /// The largest script allowed.
    pub fn max_script_size(&self) -> (r: Option<usize>)
        ensures
            r == self.max_script_size,
    {
        self.max_script_size
    }

    /// The most scripts allowed.
    pub fn max_number_scripts(&self) -> (r: Option<usize>)
        ensures
            r == self.max_scripts,
    {
        self.max_scripts
    }

    /// The most redirects a script may make.
    pub fn max_number_redirects(&self) -> (r: Option<usize>)
        ensures
            r == self.max_redirects,
    {
        self.max_redirects
    }

    /// The Sieve extensions supported.
    pub fn sieve_extensions(&self) -> (r: &Vec<String>)
        ensures
            r == &self.extensions,
    {
        &self.extensions
    }

    /// The notification methods supported.
    pub fn notification_methods(&self) -> (r: Option<&Vec<String>>)
        ensures
            r == match &self.notification_methods {
                Some(v) => Some(v),
                None => None,
            },
    {
        self.notification_methods.as_ref()
    }

    /// The external lists supported.
    pub fn external_lists(&self) -> (r: Option<&Vec<String>>)
        ensures
            r == match &self.ext_lists {
                Some(v) => Some(v),
                None => None,
            },
    {
        self.ext_lists.as_ref()
    }
}

/// The quota capability (RFC 9425): its presence is all it says.
#[derive(Debug, Clone)]
pub struct QuotaCapabilities {}

/// The blob capability (RFC 9404).
#[derive(Debug, Clone)]
pub struct BlobCapabilities {
    pub max_size_blob_set: Option<u64>,
    pub supported_digest_algorithms: Vec<String>,
    pub supported_type_names: Vec<String>,
}

impl BlobCapabilities {
    /// The largest blob Blob/upload may make.
    pub fn max_size_blob_set(&self) -> (r: Option<u64>)
        ensures
            r == self.max_size_blob_set,
    {
        self.max_size_blob_set
    }

    /// The digest algorithms Blob/get supports.
    pub fn supported_digest_algorithms(&self) -> (r: &Vec<String>)
        ensures
            r == &self.supported_digest_algorithms,
    {
        &self.supported_digest_algorithms
    }

    /// The type names Blob/lookup supports.
    pub fn supported_type_names(&self) -> (r: &Vec<String>)
        ensures
            r == &self.supported_type_names,
    {
        &self.supported_type_names
    }
}

/// The calendars capability.
#[derive(Debug, Clone)]
pub struct CalendarsCapabilities {
    pub may_create_calendar: bool,
    pub max_calendars_per_event: Option<usize>,
}

impl CalendarsCapabilities {
    /// Whether the user may create calendars.
    pub fn may_create_calendar(&self) -> (r: bool)
        ensures
            r == self.may_create_calendar,
    {
        self.may_create_calendar
    }

    /// The most calendars an event may be in.
    pub fn max_calendars_per_event(&self) -> (r: Option<usize>)
        ensures
            r == self.max_calendars_per_event,
    {
        self.max_calendars_per_event
    }
}

/// The contacts capability (RFC 9610).
#[derive(Debug, Clone)]
pub struct ContactsCapabilities {
    pub may_create_address_book: bool,
    pub max_address_books_per_card: Option<usize>,
}

impl ContactsCapabilities {
    /// Whether the user may create address books.
    pub fn may_create_address_book(&self) -> (r: bool)
        ensures
            r == self.may_create_address_book,
    {
        self.may_create_address_book
    }

    /// The most address books a card may be in.
    pub fn max_address_books_per_card(&self) -> (r: Option<usize>)
        ensures
            r == self.max_address_books_per_card,
    {
        self.max_address_books_per_card
    }
}

/// The principals capability (RFC 9670).
#[derive(Debug, Clone)]
pub struct PrincipalsCapabilities {
    pub current_user_principal_id: Option<String>,
    pub account_id_for_principal: Option<String>,
}

impl PrincipalsCapabilities {
    /// The principal of the user.
    pub fn current_user_principal_id(&self) -> (r: Option<&str>)
        ensures
            opt_text(r) == opt_string_view(self.current_user_principal_id),
    {
        match &self.current_user_principal_id {
            Some(s) => Some(s.as_str()),
            None => None,
        }
    }

    /// The account that holds the principals.
    pub fn account_id_for_principal(&self) -> (r: Option<&str>)
        ensures
            opt_text(r) == opt_string_view(self.account_id_for_principal),
    {
        match &self.account_id_for_principal {
            Some(s) => Some(s.as_str()),
            None => None,
        }
    }
}

/// A capability without data.
#[derive(Debug, Clone)]
pub struct EmptyCapabilities {}

/// A capability's data, of the kind that its URN names.
#[derive(Debug)]
#[non_exhaustive]
pub enum Capabilities {
    Core(CoreCapabilities),
    /// The mail capability (RFC 8621), as the server sent its data.
    Mail(JsonValue),
    /// The submission capability (RFC 8621), as the server sent its data.
    Submission(JsonValue),
    WebSocket(WebSocketCapabilities),
    Sieve(SieveCapabilities),
    Quota(QuotaCapabilities),
    Blob(BlobCapabilities),
    Calendars(CalendarsCapabilities),
    Contacts(ContactsCapabilities),
    Principals(PrincipalsCapabilities),
    /// A capability of another kind, or data that does not read as its
    /// kind: the data as it came.
    Other(JsonValue),
}

/// The kind of data a capability URN carries.
#[derive(Debug, Clone, Copy, PartialEq, Eq)]
pub enum CapabilityKind {
    Core,
    Mail,
    Submission,
    WebSocket,
    Sieve,
    Quota,
    Blob,
    Calendars,
    Contacts,
    Principals,
    Other,
}

/// The kind of data that a capability URN carries.
pub open spec fn capability_kind_of(uri: Seq<char>) -> CapabilityKind {
    if uri == "urn:ietf:params:jmap:core"@ {
        CapabilityKind::Core
    } else if uri == "urn:ietf:params:jmap:mail"@ {
        CapabilityKind::Mail
    } else if uri == "urn:ietf:params:jmap:submission"@ {
        CapabilityKind::Submission
    } else if uri == "urn:ietf:params:jmap:websocket"@ {
        CapabilityKind::WebSocket
    } else if uri == "urn:ietf:params:jmap:sieve"@ {
        CapabilityKind::Sieve
    } else if uri == "urn:ietf:params:jmap:quota"@ {
        CapabilityKind::Quota
    } else if uri == "urn:ietf:params:jmap:blob"@ {
        CapabilityKind::Blob
    } else if uri == "urn:ietf:params:jmap:calendars"@ {
        CapabilityKind::Calendars
    } else if uri == "urn:ietf:params:jmap:contacts"@ {
        CapabilityKind::Contacts
    } else if uri == "urn:ietf:params:jmap:principals"@ {
        CapabilityKind::Principals
    } else {
        CapabilityKind::Other
    }
}

/// The kind of data that a capability URN carries: how a session's
/// capability map is read, entry by entry (data that does not read as its
/// kind is kept as `Other`).
pub fn capability_kind(uri: &str) -> (k: CapabilityKind)
    ensures
        k == capability_kind_of(uri@),
{
    if str_eq(uri, "urn:ietf:params:jmap:core") {
        CapabilityKind::Core
    } else if str_eq(uri, "urn:ietf:params:jmap:mail") {
        CapabilityKind::Mail
    } else if str_eq(uri, "urn:ietf:params:jmap:submission") {
        CapabilityKind::Submission
    } else if str_eq(uri, "urn:ietf:params:jmap:websocket") {
        CapabilityKind::WebSocket
    } else if str_eq(uri, "urn:ietf:params:jmap:sieve") {
        CapabilityKind::Sieve
    } else if str_eq(uri, "urn:ietf:params:jmap:quota") {
        CapabilityKind::Quota
    } else if str_eq(uri, "urn:ietf:params:jmap:blob") {
        CapabilityKind::Blob
    } else if str_eq(uri, "urn:ietf:params:jmap:calendars") {
        CapabilityKind::Calendars
    } else if str_eq(uri, "urn:ietf:params:jmap:contacts") {
        CapabilityKind::Contacts
    } else if str_eq(uri, "urn:ietf:params:jmap:principals") {
        CapabilityKind::Principals
    } else {
        CapabilityKind::Other
    }
}

/// The session resource (RFC 8620 §2).
#[derive(Debug)]
pub struct Session {
    pub capabilities: Vec<(String, Capabilities)>,
    pub accounts: Vec<(String, Account)>,
    pub primary_accounts: Vec<(String, String)>,
    pub username: String,
    pub api_url: String,
    pub download_url: String,
    pub upload_url: String,
    pub event_source_url: String,
    pub state: String,
}

/// An account of a session.
#[derive(Debug)]
pub struct Account {
    pub name: String,
    pub is_personal: bool,
    pub is_read_only: bool,
    pub account_capabilities: Vec<(String, Capabilities)>,
}

/// The data of the capability named `uri` in a capability list, where
/// there is one.
pub open spec fn capability_of(caps: Seq<(String, Capabilities)>, uri: Seq<char>) -> Option<Capabilities> {
    if names_of(caps).contains(uri) {
        Some(caps[position_named(caps, uri)].1)
    } else {
        None
    }
}

/// The names of the entries, copied.
pub fn entry_names<T>(v: &Vec<(String, T)>) -> (r: Vec<String>)
    ensures
        views(r@) == names_of(v@),
{
    let mut r: Vec<String> = Vec::new();
    let mut i: usize = 0;
    while i < v.len()
        invariant
            i <= v@.len(),
            r@.len() == i,
            views(r@) == names_of(v@).subrange(0, i as int),
        decreases v@.len() - i,
    {
        let ghost prev = r@;
        r.push(to_owned(v[i].0.as_str()));
        assert forall|k: int| 0 <= k < r@.len() implies #[trigger] views(r@)[k] == names_of(v@).subrange(0, i + 1 as int)[k] by {
            if k < i {
                assert(r@[k] == prev[k]);
                assert(views(prev)[k] == names_of(v@).subrange(0, i as int)[k]);
            }
        }
        assert(views(r@) =~= names_of(v@).subrange(0, i + 1 as int));
        i = i + 1;
    }
    assert(names_of(v@).subrange(0, v@.len() as int) =~= names_of(v@));
    r
}

/// The account that requests use when none is named: the primary account
/// of the core capability, else the first primary account listed, else the
/// first account listed; none where the session lists no account.
pub open spec fn default_account_of(s: Session) -> Option<Seq<char>> {
    if names_of(s.primary_accounts@).contains("urn:ietf:params:jmap:core"@) {
        Some(s.primary_accounts@[position_named(s.primary_accounts@, "urn:ietf:params:jmap:core"@)].1@)
    } else if s.primary_accounts@.len() > 0 {
        Some(s.primary_accounts@[0].1@)
    } else if s.accounts@.len() > 0 {
        Some(s.accounts@[0].0@)
    } else {
        None
    }
}

impl Session {
    /// Capability URNs, account ids and the URNs of the primary-account map
    /// occur once each, and so do each account's capability URNs, as in the
    /// JSON objects they come from.
    pub open spec fn wf(&self) -> bool {
        &&& names_distinct(self.capabilities@)
        &&& names_distinct(self.accounts@)
        &&& names_distinct(self.primary_accounts@)
        &&& forall|i: int| 0 <= i < self.accounts@.len() ==> (#[trigger] self.accounts@[i]).1.wf()
    }

    /// The account that requests use when none is named.
    pub fn default_account_id(&self) -> (r: Option<&str>)
        ensures
            opt_text(r) == default_account_of(*self),
    {
        match get_named(&self.primary_accounts, "urn:ietf:params:jmap:core") {
            Some(id) => Some(id.as_str()),
            None => {
                if self.primary_accounts.len() > 0 {
                    Some(self.primary_accounts[0].1.as_str())
                } else if self.accounts.len() > 0 {
                    Some(self.accounts[0].0.as_str())
                } else {
                    None
                }
            },
        }
    }

    /// Law: in a well-formed session each capability that is listed is the
    /// one that `capability` finds under its URN.
    pub proof fn law_capability_lookup_is_unique(&self, i: int)
        requires
            self.wf(),
            0 <= i < self.capabilities@.len(),
        ensures
            capability_of(self.capabilities@, self.capabilities@[i].0@) == Some(self.capabilities@[i].1),
    {
        lemma_distinct_position(self.capabilities@, i);
    }

    /// The URNs of the capabilities the server offers.
    pub fn capabilities(&self) -> (r: Vec<String>)
        ensures
            views(r@) == names_of(self.capabilities@),
    {
        entry_names(&self.capabilities)
    }

    /// The data of a capability.
    pub fn capability(&self, capability: &str) -> (r: Option<&Capabilities>)
        ensures
            opt_deref(r) == capability_of(self.capabilities@, capability@),
    {
        get_named(&self.capabilities, capability)
    }

    /// Whether the server offers a capability.
    pub fn has_capability(&self, capability: &str) -> (r: bool)
        ensures
            r == names_of(self.capabilities@).contains(capability@),
    {
        get_named(&self.capabilities, capability).is_some()
    }

    /// The data of the `urn:ietf:params:jmap:websocket` capability, where it reads as such.
    pub fn websocket_capabilities(&self) -> (r: Option<&WebSocketCapabilities>)
        ensures
            match capability_of(self.capabilities@, "urn:ietf:params:jmap:websocket"@) {
                Some(Capabilities::WebSocket(c)) => r == Some(&c),
                _ => r is None,
            },
    {
        match get_named(&self.capabilities, "urn:ietf:params:jmap:websocket") {
            Some(Capabilities::WebSocket(c)) => Some(c),
            _ => None,
        }
    }

    /// The data of the `urn:ietf:params:jmap:core` capability, where it reads as such.
    pub fn core_capabilities(&self) -> (r: Option<&CoreCapabilities>)
        ensures
            match capability_of(self.capabilities@, "urn:ietf:params:jmap:core"@) {
                Some(Capabilities::Core(c)) => r == Some(&c),
                _ => r is None,
            },
    {
        match get_named(&self.capabilities, "urn:ietf:params:jmap:core") {
            Some(Capabilities::Core(c)) => Some(c),
            _ => None,
        }
    }

    /// The data of the `urn:ietf:params:jmap:mail` capability.
    pub fn mail_capabilities(&self) -> (r: Option<&JsonValue>)
        ensures
            match capability_of(self.capabilities@, "urn:ietf:params:jmap:mail"@) {
                Some(Capabilities::Mail(c)) => r == Some(&c),
                _ => r is None,
            },
    {
        match get_named(&self.capabilities, "urn:ietf:params:jmap:mail") {
            Some(Capabilities::Mail(c)) => Some(c),
            _ => None,
        }
    }

    /// The data of the `urn:ietf:params:jmap:submission` capability.
    pub fn submission_capabilities(&self) -> (r: Option<&JsonValue>)
        ensures
            match capability_of(self.capabilities@, "urn:ietf:params:jmap:submission"@) {
                Some(Capabilities::Submission(c)) => r == Some(&c),
                _ => r is None,
            },
    {
        match get_named(&self.capabilities, "urn:ietf:params:jmap:submission") {
            Some(Capabilities::Submission(c)) => Some(c),
            _ => None,
        }
    }

    /// The data of the `urn:ietf:params:jmap:sieve` capability, where it reads as such.
    pub fn sieve_capabilities(&self) -> (r: Option<&SieveCapabilities>)
        ensures
            match capability_of(self.capabilities@, "urn:ietf:params:jmap:sieve"@) {
                Some(Capabilities::Sieve(c)) => r == Some(&c),
                _ => r is None,
            },
    {
        match get_named(&self.capabilities, "urn:ietf:params:jmap:sieve") {
            Some(Capabilities::Sieve(c)) => Some(c),
            _ => None,
        }
    }

    /// The data of the `urn:ietf:params:jmap:quota` capability, where it reads as such.
    pub fn quota_capabilities(&self) -> (r: Option<&QuotaCapabilities>)
        ensures
            match capability_of(self.capabilities@, "urn:ietf:params:jmap:quota"@) {
                Some(Capabilities::Quota(c)) => r == Some(&c),
                _ => r is None,
            },
    {
        match get_named(&self.capabilities, "urn:ietf:params:jmap:quota") {
            Some(Capabilities::Quota(c)) => Some(c),
            _ => None,
        }
    }

    /// The data of the `urn:ietf:params:jmap:blob` capability, where it reads as such.
    pub fn blob_capabilities(&self) -> (r: Option<&BlobCapabilities>)
        ensures
            match capability_of(self.capabilities@, "urn:ietf:params:jmap:blob"@) {
                Some(Capabilities::Blob(c)) => r == Some(&c),
                _ => r is None,
            },
    {
        match get_named(&self.capabilities, "urn:ietf:params:jmap:blob") {
            Some(Capabilities::Blob(c)) => Some(c),
            _ => None,
        }
    }

    /// The data of the `urn:ietf:params:jmap:calendars` capability, where it reads as such.
    pub fn calendars_capabilities(&self) -> (r: Option<&CalendarsCapabilities>)
        ensures
            match capability_of(self.capabilities@, "urn:ietf:params:jmap:calendars"@) {
                Some(Capabilities::Calendars(c)) => r == Some(&c),
                _ => r is None,
            },
    {
        match get_named(&self.capabilities, "urn:ietf:params:jmap:calendars") {
            Some(Capabilities::Calendars(c)) => Some(c),
            _ => None,
        }
    }

    /// The data of the `urn:ietf:params:jmap:contacts` capability, where it reads as such.
    pub fn contacts_capabilities(&self) -> (r: Option<&ContactsCapabilities>)
        ensures
            match capability_of(self.capabilities@, "urn:ietf:params:jmap:contacts"@) {
                Some(Capabilities::Contacts(c)) => r == Some(&c),
                _ => r is None,
            },
    {
        match get_named(&self.capabilities, "urn:ietf:params:jmap:contacts") {
            Some(Capabilities::Contacts(c)) => Some(c),
            _ => None,
        }
    }

    /// The data of the `urn:ietf:params:jmap:principals` capability, where it reads as such.
    pub fn principals_capabilities(&self) -> (r: Option<&PrincipalsCapabilities>)
        ensures
            match capability_of(self.capabilities@, "urn:ietf:params:jmap:principals"@) {
                Some(Capabilities::Principals(c)) => r == Some(&c),
                _ => r is None,
            },
    {
        match get_named(&self.capabilities, "urn:ietf:params:jmap:principals") {
            Some(Capabilities::Principals(c)) => Some(c),
            _ => None,
        }
    }

    /// The ids of the accounts the user can reach.
    pub fn accounts(&self) -> (r: Vec<String>)
        ensures
            views(r@) == names_of(self.accounts@),
    {
        entry_names(&self.accounts)
    }

    /// An account by id.
    pub fn account(&self, account: &str) -> (r: Option<&Account>)
        ensures
            names_of(self.accounts@).contains(account@) ==> r == Some(&self.accounts@[position_named(self.accounts@, account@)].1),
            !names_of(self.accounts@).contains(account@) ==> r is None,
    {
        get_named(&self.accounts, account)
    }

    /// The primary account of each capability.
    pub fn primary_accounts(&self) -> (r: &Vec<(String, String)>)
        ensures
            r == &self.primary_accounts,
    {
        &self.primary_accounts
    }

    pub fn username(&self) -> (r: &str)
        ensures
            r@ == self.username@,
    {
        self.username.as_str()
    }

    pub fn api_url(&self) -> (r: &str)
        ensures
            r@ == self.api_url@,
    {
        self.api_url.as_str()
    }

    pub fn download_url(&self) -> (r: &str)
        ensures
            r@ == self.download_url@,
    {
        self.download_url.as_str()
    }

    pub fn upload_url(&self) -> (r: &str)
        ensures
            r@ == self.upload_url@,
    {
        self.upload_url.as_str()
    }

    pub fn event_source_url(&self) -> (r: &str)
        ensures
            r@ == self.event_source_url@,
    {
        self.event_source_url.as_str()
    }

    pub fn state(&self) -> (r: &str)
        ensures
            r@ == self.state@,
    {
        self.state.as_str()
    }
}

impl Account {
    /// The account's capability URNs occur once each.
    pub open spec fn wf(&self) -> bool {
        names_distinct(self.account_capabilities@)
    }

    pub fn name(&self) -> (r: &str)
        ensures
            r@ == self.name@,
    {
        self.name.as_str()
    }

    /// Whether the account is the user's own.
    pub fn is_personal(&self) -> (r: bool)
        ensures
            r == self.is_personal,
    {
        self.is_personal
    }

    /// Whether the account is read-only.
    pub fn is_read_only(&self) -> (r: bool)
        ensures
            r == self.is_read_only,
    {
        self.is_read_only
    }

    /// The URNs of the capabilities of the account.
    pub fn capabilities(&self) -> (r: Vec<String>)
        ensures
            views(r@) == names_of(self.account_capabilities@),
    {
        entry_names(&self.account_capabilities)
    }

    /// The account's data for a capability.
    pub fn capability(&self, capability: &str) -> (r: Option<&Capabilities>)
        ensures
            opt_deref(r) == capability_of(self.account_capabilities@, capability@),
    {
        get_named(&self.account_capabilities, capability)
    }
}

} // verus!
