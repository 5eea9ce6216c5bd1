//! Client-side URL templates of a JMAP session: the parameters that the
//! download, upload and event-source URLs name, and the URLs built from them.
use vstd::prelude::*;

use crate::jmap_core::session::URLParser;
use crate::text::{decimal, push_decimal, str_eq};
use crate::{data_type_name, DataType};
use crate::jmap_core::session::URLPart;
use vstd::string::*;

verus! {

/// The parameters of the URL templates of a session (RFC 8620 §2).
#[derive(Debug, Clone, Copy, PartialEq, Eq)]
pub enum URLParameter {
    AccountId,
    BlobId,
    Name,
    Type,
    Types,
    CloseAfter,
    Ping,
}

impl URLParser for URLParameter {
    open spec fn spec_parse(value: Seq<char>) -> Option<URLParameter> {
        if value == "accountId"@ {
            Some(URLParameter::AccountId)
        } else if value == "blobId"@ {
            Some(URLParameter::BlobId)
        } else if value == "name"@ {
            Some(URLParameter::Name)
        } else if value == "type"@ {
            Some(URLParameter::Type)
        } else if value == "types"@ {
            Some(URLParameter::Types)
        } else if value == "closeafter"@ {
            Some(URLParameter::CloseAfter)
        } else if value == "ping"@ {
            Some(URLParameter::Ping)
        } else {
            None
        }
    }

    fn parse(value: &str) -> (r: Option<URLParameter>) {
        if str_eq(value, "accountId") {
            Some(URLParameter::AccountId)
        } else if str_eq(value, "blobId") {
            Some(URLParameter::BlobId)
        } else if str_eq(value, "name") {
            Some(URLParameter::Name)
        } else if str_eq(value, "type") {
            Some(URLParameter::Type)
        } else if str_eq(value, "types") {
            Some(URLParameter::Types)
        } else if str_eq(value, "closeafter") {
            Some(URLParameter::CloseAfter)
        } else if str_eq(value, "ping") {
            Some(URLParameter::Ping)
        } else {
            None
        }
    }
}

} // verus!

verus! {

/// The text that one piece of a URL template contributes to a URL:
/// literal text as it is, and for each parameter what `value` gives it.
pub open spec fn url_piece(part: URLPart<URLParameter>, value: spec_fn(URLParameter) -> Seq<char>) -> Seq<char> {
    match part {
        URLPart::Value(s) => s@,
        URLPart::Parameter(p) => value(p),
    }
}

/// The upload URL's value of each parameter: the account id for
/// `{accountId}`, nothing for the others.
pub open spec fn upload_param_value(account_id: Seq<char>) -> spec_fn(URLParameter) -> Seq<char> {
    |p: URLParameter| if p == URLParameter::AccountId { account_id } else { Seq::empty() }
}

/// The URL that a template gives when each parameter takes its value.
pub open spec fn expand_url(parts: Seq<URLPart<URLParameter>>, value: spec_fn(URLParameter) -> Seq<char>) -> Seq<char>
    decreases parts.len(),
{
    if parts.len() == 0 {
        Seq::empty()
    } else {
        expand_url(parts.drop_last(), value) + url_piece(parts.last(), value)
    }
}

proof fn lemma_expand_url_push(parts: Seq<URLPart<URLParameter>>, p: URLPart<URLParameter>, value: spec_fn(URLParameter) -> Seq<char>)
    ensures
        expand_url(parts.push(p), value) == expand_url(parts, value) + url_piece(p, value),
{
    assert(parts.push(p).drop_last() =~= parts);
}

/// The upload URL of an account, from the session's upload URL template.
pub fn upload_url(parts: &Vec<URLPart<URLParameter>>, account_id: &str) -> (r: String)
    ensures
        r@ == expand_url(parts@, upload_param_value(account_id@)),
{
    let ghost value = upload_param_value(account_id@);
    let mut url = String::new();
    let mut i: usize = 0;
    while i < parts.len()
        invariant
            i <= parts@.len(),
            value == upload_param_value(account_id@),
            url@ == expand_url(parts@.subrange(0, i as int), value),
        decreases parts@.len() - i,
    {
        proof {
            assert(parts@.subrange(0, i + 1 as int) =~= parts@.subrange(0, i as int).push(parts@[i as int]));
            lemma_expand_url_push(parts@.subrange(0, i as int), parts@[i as int], value);
        }
        match &parts[i] {
            URLPart::Value(v) => url.append(v.as_str()),
            URLPart::Parameter(URLParameter::AccountId) => url.append(account_id),
            URLPart::Parameter(_) => {
                assert(url@ + Seq::<char>::empty() =~= url@);
            },
        }
        i = i + 1;
    }
    assert(parts@.subrange(0, parts@.len() as int) =~= parts@);
    url
}

} // verus!

verus! {

/// Data type names joined with commas.
pub open spec fn join_type_names(ts: Seq<DataType>) -> Seq<char>
    decreases ts.len(),
{
    if ts.len() == 0 {
        Seq::empty()
    } else if ts.len() == 1 {
        data_type_name(ts[0])
    } else {
        join_type_names(ts.drop_last()) + ","@ + data_type_name(ts.last())
    }
}

/// What one piece of the event-source URL template contributes, when
/// `types` are the data types still to be written: `{types}` gives those
/// types joined by commas, or `*` when there are none to write; `{closeafter}`
/// gives `state` or `no`; `{ping}` the interval in decimal, or `0`.
pub open spec fn event_source_piece(
    part: URLPart<URLParameter>,
    types: Option<Seq<DataType>>,
    close_after_state: bool,
    ping: Option<u32>,
) -> Seq<char> {
    match part {
        URLPart::Value(s) => s@,
        URLPart::Parameter(URLParameter::Types) => match types {
            Some(t) => join_type_names(t),
            None => "*"@,
        },
        URLPart::Parameter(URLParameter::CloseAfter) => if close_after_state {
            "state"@
        } else {
            "no"@
        },
        URLPart::Parameter(URLParameter::Ping) => match ping {
            Some(p) => decimal(p as nat),
            None => "0"@,
        },
        URLPart::Parameter(_) => Seq::empty(),
    }
}

/// The event-source URL that a template gives. The list of types is
/// written at the first `{types}` only; a later `{types}` gives `*`.
pub open spec fn event_source_url_of(
    parts: Seq<URLPart<URLParameter>>,
    types: Option<Seq<DataType>>,
    close_after_state: bool,
    ping: Option<u32>,
) -> Seq<char>
    decreases parts.len(),
{
    if parts.len() == 0 {
        Seq::empty()
    } else {
        let rest_types = if parts[0] matches URLPart::Parameter(URLParameter::Types) {
            None
        } else {
            types
        };
        event_source_piece(parts[0], types, close_after_state, ping) + event_source_url_of(
            parts.drop_first(),
            rest_types,
            close_after_state,
            ping,
        )
    }
}

/// The view of an optional list of data types.
pub open spec fn types_view(types: Option<Vec<DataType>>) -> Option<Seq<DataType>> {
    match types {
        Some(v) => Some(v@),
        None => None,
    }
}

/// Data type names joined with commas.
pub fn join_types(types: &Vec<DataType>) -> (r: String)
    ensures
        r@ == join_type_names(types@),
{
    let mut r = String::new();
    let mut i: usize = 0;
    while i < types.len()
        invariant
            i <= types@.len(),
            r@ == join_type_names(types@.subrange(0, i as int)),
        decreases types@.len() - i,
    {
        let ghost prev = types@.subrange(0, i as int);
        assert(types@.subrange(0, i + 1 as int).drop_last() =~= prev);
        if i > 0 {
            r.append(",");
            proof {
                reveal_strlit(",");
            }
        } else {
            assert(r@ =~= Seq::<char>::empty());
        }
        r.append(types[i].as_str());
        i = i + 1;
    }
    assert(types@.subrange(0, types@.len() as int) =~= types@);
    r
}

/// The event-source URL (RFC 8620 §7.3) from the session's template: the
/// data types to be notified of (all when `None`), whether to close after
/// the first state change, and the ping interval.
pub fn event_source_url(
    parts: &Vec<URLPart<URLParameter>>,
    types: Option<Vec<DataType>>,
    close_after_state: bool,
    ping: Option<u32>,
) -> (r: String)
    ensures
        r@ == event_source_url_of(parts@, types_view(types), close_after_state, ping),
{
    let ghost all_types = types_view(types);
    let mut types = types;
    let mut url = String::new();
    let mut i: usize = 0;
    let n = parts.len();
    assert(parts@.subrange(0, n as int) =~= parts@);
    while i < n
        invariant
            n == parts@.len(),
            i <= n,
            url@ + event_source_url_of(parts@.subrange(i as int, n as int), types_view(types), close_after_state, ping)
                == event_source_url_of(parts@, all_types, close_after_state, ping),
        decreases n - i,
    {
        let ghost rest = parts@.subrange(i as int, n as int);
        assert(rest[0] == parts@[i as int]);
        assert(rest.drop_first() =~= parts@.subrange(i + 1 as int, n as int));
        let ghost before = url@;
        let ghost tv = types_view(types);
        match &parts[i] {
            URLPart::Value(v) => {
                url.append(v.as_str());
            },
            URLPart::Parameter(URLParameter::Types) => {
                match types.take() {
                    Some(t) => {
                        let joined = join_types(&t);
                        url.append(joined.as_str());
                    },
                    None => {
                        url.append("*");
                    },
                }
            },
            URLPart::Parameter(URLParameter::CloseAfter) => {
                if close_after_state {
                    url.append("state");
                } else {
                    url.append("no");
                }
            },
            URLPart::Parameter(URLParameter::Ping) => {
                match ping {
                    Some(p) => {
                        push_decimal(&mut url, p as usize);
                    },
                    None => {
                        url.append("0");
                    },
                }
            },
            URLPart::Parameter(_) => {},
        }
        assert(url@ =~= before + event_source_piece(parts@[i as int], tv, close_after_state, ping));
        i = i + 1;
    }
    assert(parts@.subrange(n as int, n as int) =~= Seq::<URLPart<URLParameter>>::empty());
    assert(url@ + Seq::<char>::empty() =~= url@);
    url
}

} // verus!
