//! Responses to request batches, read out call by call.
use vstd::prelude::*;
use vstd::string::*;

use crate::jmap_core::request::CallHandle;
use crate::text::{copy_string, str_eq};
use crate::{Error, MethodError};

verus! {

/// The envelope of a response as it came back (RFC 8620 §3.4).
#[derive(Debug)]
pub struct RawResponse<T> {
    pub method_responses: Vec<T>,
    pub created_ids: Option<Vec<(String, String)>>,
    pub session_state: String,
}

impl<T> RawResponse<T> {
    /// The method responses, in order.
    pub fn unwrap_method_responses(self) -> (r: Vec<T>)
        ensures
            r == self.method_responses,
    {
        self.method_responses
    }

    /// The session state that the server reported.
    pub fn session_state(&self) -> (r: &str)
        ensures
            r@ == self.session_state@,
    {
        self.session_state.as_str()
    }
}

/// The outcome of one method call: its result as JSON text, or the method
/// error that the server reported.
#[derive(Debug)]
pub enum RawCallResult {
    Success(String),
    Error(MethodError),
}

/// One entry of `methodResponses` as it came back: the method's name, its
/// arguments as JSON text, the call id, and, where the name is `error`, the
/// reading of the arguments as a method error: the error, or the message of
/// the reader that could not read them (`None` where nothing was read).
#[derive(Debug)]
pub struct MethodResponseEntry {
    pub method_name: String,
    pub data: String,
    pub call_id: String,
    pub error: Option<Result<MethodError, String>>,
}

/// A response to a batch, from which results are taken by call handle.
#[derive(Debug)]
pub struct Response {
    pub raw: Vec<(String, RawCallResult, String)>,
    pub session_state: String,
    pub created_ids: Option<Vec<(String, String)>>,
}

/// The call ids of the entries of a response, in order.
pub open spec fn call_ids(raw: Seq<(String, RawCallResult, String)>) -> Seq<Seq<char>> {
    raw.map_values(|e: (String, RawCallResult, String)| e.2@)
}

/// `p` is the first position of `id` in `ids`.
pub open spec fn first_position(ids: Seq<Seq<char>>, id: Seq<char>, p: int) -> bool {
    &&& 0 <= p < ids.len()
    &&& ids[p] == id
    &&& forall|k: int| 0 <= k < p ==> ids[k] != id
}

/// The first position of `id` in `ids`, where there is one.
pub open spec fn position_of(ids: Seq<Seq<char>>, id: Seq<char>) -> int {
    choose|p: int| first_position(ids, id, p)
}

/// What `get` returns for the entry it takes out.
pub open spec fn get_outcome(entry: (String, RawCallResult, String), r: crate::Result<String>) -> bool {
    match entry.1 {
        RawCallResult::Success(data) => r == Ok::<String, Error>(data),
        RawCallResult::Error(e) => r matches Err(Error::Method(m)) && m == e,
    }
}

/// Why an entry cannot be taken into a response, where it cannot: an entry
/// named `error` whose arguments did not read as a method error, with the
/// reader's message (a fixed message where nothing was read).
pub open spec fn entry_failure(e: MethodResponseEntry) -> Option<Seq<char>> {
    if e.method_name@ == "error"@ {
        match e.error {
            Some(Ok(_)) => None,
            Some(Err(m)) => Some(m@),
            None => Some(bad_method_error_message()),
        }
    } else {
        None
    }
}

/// The method error that an entry describes (meaningful where it does).
pub open spec fn described_error(e: MethodResponseEntry) -> MethodError {
    match e.error {
        Some(Ok(m)) => m,
        _ => MethodError { error_type: e.method_name, description: None },
    }
}

/// Every entry named `error` describes a method error.
pub open spec fn errors_are_described(entries: Seq<MethodResponseEntry>) -> bool {
    forall|k: int| 0 <= k < entries.len() ==> entry_failure(#[trigger] entries[k]) is None
}

/// Whether a method name is the one that marks a method error.
pub fn is_error_response(method_name: &str) -> (r: bool)
    ensures
        r == (method_name@ == "error"@),
{
    str_eq(method_name, "error")
}

/// The message of the error for an `error` response without a method error.
pub open spec fn bad_method_error_message() -> Seq<char> {
    "invalid method error"@
}

impl Response {
    pub open spec fn spec_session_state(&self) -> Seq<char> {
        self.session_state@
    }

    pub open spec fn spec_created_ids(&self) -> Option<Vec<(String, String)>> {
        self.created_ids
    }

    /// A response made of its entries, the session state and the created ids.
    pub fn new(
        raw: Vec<(String, RawCallResult, String)>,
        session_state: String,
        created_ids: Option<Vec<(String, String)>>,
    ) -> (r: Response)
        ensures
            r.raw == raw,
            r.spec_session_state() == session_state@,
            r.spec_created_ids() == created_ids,
    {
        Response { raw, session_state, created_ids }
    }

    /// A response from the entries of `methodResponses`: an entry named
    /// `error` is a method error, any other a result. Fails at the first
    /// `error` entry that does not describe a method error, with the message
    /// of the reader that could not read it.
    pub fn from_method_responses(
        entries: Vec<MethodResponseEntry>,
        session_state: String,
        created_ids: Option<Vec<(String, String)>>,
    ) -> (r: crate::Result<Response>)
        ensures
            errors_are_described(entries@) <==> r is Ok,
            r matches Ok(resp) ==> {
                &&& resp.raw@.len() == entries@.len()
                &&& resp.spec_session_state() == session_state@
                &&& resp.spec_created_ids() == created_ids
                &&& forall|k: int| 0 <= k < entries@.len() ==> {
                    &&& (#[trigger] resp.raw@[k]).0@ == entries@[k].method_name@
                    &&& resp.raw@[k].2@ == entries@[k].call_id@
                    &&& if entries@[k].method_name@ == "error"@ {
                        resp.raw@[k].1 == RawCallResult::Error(described_error(entries@[k]))
                    } else {
                        resp.raw@[k].1 == RawCallResult::Success(entries@[k].data)
                    }
                }
            },
            r matches Err(e) ==> exists|k: int| {
                &&& 0 <= k < entries@.len()
                &&& forall|j: int| 0 <= j < k ==> entry_failure(#[trigger] entries@[j]) is None
                &&& entry_failure(#[trigger] entries@[k]) matches Some(m)
                &&& e matches Error::Parse(t) && t@ == m
            },
    {
        proof {
            reveal_strlit("invalid method error");
        }
        let mut raw: Vec<(String, RawCallResult, String)> = Vec::new();
        let ghost all = entries@;
        let mut rest = entries;
        let n = rest.len();
        let mut i: usize = 0;
        while i < n
            invariant
                n == all.len(),
                all == entries@,
                i <= n,
                rest@ == all.subrange(i as int, n as int),
                raw@.len() == i,
                forall|k: int| 0 <= k < i ==> entry_failure(#[trigger] all[k]) is None,
                forall|k: int| 0 <= k < i ==> {
                    &&& (#[trigger] raw@[k]).0@ == all[k].method_name@
                    &&& raw@[k].2@ == all[k].call_id@
                    &&& if all[k].method_name@ == "error"@ {
                        raw@[k].1 == RawCallResult::Error(described_error(all[k]))
                    } else {
                        raw@[k].1 == RawCallResult::Success(all[k].data)
                    }
                },
            decreases n - i,
        {
            let entry = rest.remove(0);
            assert(entry == all[i as int]);
            assert(rest@ =~= all.subrange(i + 1 as int, n as int));
            let result = if is_error_response(entry.method_name.as_str()) {
                match entry.error {
                    Some(Ok(e)) => RawCallResult::Error(e),
                    Some(Err(m)) => {
                        assert(entry_failure(all[i as int]) is Some);
                        assert(!errors_are_described(all));
                        return Err(Error::Parse(m));
                    },
                    None => {
                        assert(entry_failure(all[i as int]) is Some);
                        assert(!errors_are_described(all));
                        return Err(Error::Parse(String::from_str("invalid method error")));
                    },
                }
            } else {
                RawCallResult::Success(entry.data)
            };
            raw.push((entry.method_name, result, entry.call_id));
            i = i + 1;
        }
        Ok(Response { raw, session_state, created_ids })
    }

    /// Takes out the result of the call that `handle` names: its JSON text
    /// where the call succeeded, its method error where it failed. The entry
    /// leaves the response (the last entry takes its place), so a second
    /// call for the same handle finds nothing.
    pub fn get(&mut self, handle: &CallHandle) -> (r: crate::Result<String>)
        ensures
            !call_ids(old(self).raw@).contains(handle.call_id@) ==> {
                &&& r matches Err(Error::CallNotFound(id)) && id@ == handle.call_id@
                &&& final(self).raw == old(self).raw
            },
            call_ids(old(self).raw@).contains(handle.call_id@) ==> {
                let p = position_of(call_ids(old(self).raw@), handle.call_id@);
                &&& first_position(call_ids(old(self).raw@), handle.call_id@, p)
                &&& final(self).raw@ == old(self).raw@.update(p, old(self).raw@.last()).drop_last()
                &&& get_outcome(old(self).raw@[p], r)
            },
            final(self).session_state == old(self).session_state,
            final(self).created_ids == old(self).created_ids,
    {
        let n = self.raw.len();
        let mut i: usize = 0;
        while i < n
            invariant
                n == self.raw@.len(),
                i <= n,
                *self == *old(self),
                forall|k: int| 0 <= k < i ==> call_ids(self.raw@)[k] != handle.call_id@,
            decreases n - i,
        {
            if str_eq(self.raw[i].2.as_str(), handle.call_id.as_str()) {
                let ghost ids = call_ids(self.raw@);
                assert(first_position(ids, handle.call_id@, i as int));
                assert(ids.contains(handle.call_id@));
                proof {
                    let p = position_of(ids, handle.call_id@);
                    assert(first_position(ids, handle.call_id@, p));
                    if p < i {
                    } else if p > i {
                        assert(ids[i as int] == handle.call_id@);
                    }
                    assert(p == i);
                }
                let (_, result, _) = self.raw.swap_remove(i);
                return match result {
                    RawCallResult::Success(data) => Ok(data),
                    RawCallResult::Error(e) => Err(Error::Method(e)),
                };
            }
            i = i + 1;
        }
        proof {
            let ids = call_ids(self.raw@);
            if ids.contains(handle.call_id@) {
                let k = choose|k: int| 0 <= k < ids.len() && ids[k] == handle.call_id@;
                assert(ids[k] != handle.call_id@);
            }
        }
        Err(Error::CallNotFound(copy_string(&handle.call_id)))
    }

    /// The session state that the server reported.
    pub fn session_state(&self) -> (r: &str)
        ensures
            r@ == self.session_state@,
    {
        self.session_state.as_str()
    }

    /// The ids that the server gave to objects created by id reference.
    pub fn created_ids(&self) -> (r: Option<&Vec<(String, String)>>)
        ensures
            r == match &self.created_ids {
                Some(v) => Some(v),
                None => None,
            },
    {
        self.created_ids.as_ref()
    }
}

} // verus!

verus! {

/// A text that occurs in a sequence has a first position there.
pub proof fn lemma_first_position_exists(ids: Seq<Seq<char>>, id: Seq<char>)
    requires
        ids.contains(id),
    ensures
        first_position(ids, id, position_of(ids, id)),
    decreases ids.len(),
{
    let front = ids.drop_last();
    if front.contains(id) {
        lemma_first_position_exists(front, id);
        let q = position_of(front, id);
        assert forall|k: int| 0 <= k < q implies ids[k] != id by {
            assert(front[k] == ids[k]);
        }
        assert(first_position(ids, id, q));
    } else {
        let q = ids.len() - 1;
        assert forall|k: int| 0 <= k < q implies ids[k] != id by {
            assert(front[k] == ids[k]);
        }
        if ids[q] != id {
            let k = choose|k: int| 0 <= k < ids.len() && ids[k] == id;
            assert(front[k] == ids[k]);
        }
        assert(first_position(ids, id, q));
    }
}

/// Law: taking out the entry at `p` leaves the other entries, one fewer in
/// number, each as often as before.
pub proof fn law_get_removes_one_entry(raw: Seq<(String, RawCallResult, String)>, p: int)
    requires
        0 <= p < raw.len(),
    ensures
        ({
            let after = raw.update(p, raw.last()).drop_last();
            &&& after.len() == raw.len() - 1
            &&& after.to_multiset() == raw.to_multiset().remove(raw[p])
        }),
{
    broadcast use vstd::multiset::group_multiset_axioms;
    broadcast use vstd::seq_lib::to_multiset_build, vstd::seq_lib::to_multiset_update;

    let upd = raw.update(p, raw.last());
    let after = upd.drop_last();
    assert(upd =~= after.push(raw.last()));
    assert(upd.to_multiset() == raw.to_multiset().insert(raw.last()).remove(raw[p]));
    assert(after.push(raw.last()).to_multiset() == after.to_multiset().insert(raw.last()));
    assert(raw.contains(raw[p]));
    vstd::seq_lib::to_multiset_contains(raw, raw[p]);
    assert forall|v| #[trigger] after.to_multiset().count(v) == raw.to_multiset().remove(raw[p]).count(v) by {
        assert(after.to_multiset().insert(raw.last()).count(v) == raw.to_multiset().insert(raw.last()).remove(raw[p]).count(v));
    }
    assert(after.to_multiset() =~= raw.to_multiset().remove(raw[p]));
}

/// Law: when the call ids of a response are distinct, taking out the result
/// of a call leaves no entry for that call: a second `get` with the same
/// handle fails with `CallNotFound`.
pub proof fn law_get_consumes_entry(raw: Seq<(String, RawCallResult, String)>, id: Seq<char>)
    requires
        call_ids(raw).no_duplicates(),
        call_ids(raw).contains(id),
    ensures
        !call_ids(raw.update(position_of(call_ids(raw), id), raw.last()).drop_last()).contains(id),
{
    let ids = call_ids(raw);
    lemma_first_position_exists(ids, id);
    let p = position_of(ids, id);
    assert(first_position(ids, id, p));
    let after = raw.update(p, raw.last()).drop_last();
    if call_ids(after).contains(id) {
        let j = choose|j: int| 0 <= j < call_ids(after).len() && call_ids(after)[j] == id;
        if j == p {
            assert(after[j] == raw.last());
            assert(ids[raw.len() - 1] == id);
            assert(raw.len() - 1 != p);
        } else {
            assert(after[j] == raw[j]);
            assert(ids[j] == id);
        }
    }
}

} // verus!
