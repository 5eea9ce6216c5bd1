//! Request batches: method calls with their call ids, and the capabilities
//! that the batch uses.
use vstd::prelude::*;
use vstd::string::*;

use crate::jmap_core::capability::Capability;
use crate::jmap_core::method::JmapMethod;
use crate::text::{contains_str, copy_string, decimal, lemma_prefixed_decimal_injective, push_decimal, to_owned, views};

verus! {

/// A handle to a method call in a request batch: its call id and the
/// method's name.
#[derive(Debug, Clone)]
pub struct CallHandle {
    pub call_id: String,
    pub method_name: String,
}

/// A JMAP result reference (RFC 8620 §3.7).
#[derive(Debug, Clone)]
pub struct ResultReference {
    pub result_of: String,
    pub name: String,
    pub path: String,
}

impl CallHandle {
    /// A result reference to a path in this call's response, such as `/ids`.
    pub fn result_reference(&self, path: &str) -> (r: ResultReference)
        ensures
            r.result_of@ == self.call_id@,
            r.name@ == self.method_name@,
            r.path@ == path@,
    {
        ResultReference {
            result_of: copy_string(&self.call_id),
            name: copy_string(&self.method_name),
            path: to_owned(path),
        }
    }
}

/// A method call stored in a batch: the method's name, its arguments as
/// JSON text, and its call id.
#[derive(Debug, Clone)]
pub struct RawMethodCall {
    pub name: String,
    pub arguments: String,
    pub call_id: String,
}

/// The URN of the core capability, which every request uses.
pub open spec fn core_uri() -> Seq<char> {
    "urn:ietf:params:jmap:core"@
}

/// The call id of the `k`-th method call of a batch: `s` and `k` in decimal.
pub open spec fn call_id_of(k: nat) -> Seq<char> {
    "s"@ + decimal(k)
}

/// A JMAP request batch.
pub struct Request {
    pub account_id: String,
    pub using: Vec<String>,
    pub method_calls: Vec<RawMethodCall>,
    pub created_ids: Option<Vec<(String, String)>>,
}

impl Request {
    /// The account that the batch's calls address by default.
    pub closed spec fn spec_account_id(&self) -> Seq<char> {
        self.account_id@
    }

    /// The batch is well formed: it uses the core capability first, no
    /// capability twice, and the `k`-th call has call id `s{k}`.
    pub open spec fn wf(&self) -> bool {
        &&& views(self.using@).len() > 0
        &&& views(self.using@)[0] == core_uri()
        &&& views(self.using@).no_duplicates()
        &&& forall|k: int|
            0 <= k < self.method_calls@.len() ==> #[trigger] self.method_calls@[k].call_id@
                == call_id_of(k as nat)
    }

    /// An empty batch for the given default account.
    pub fn new(default_account_id: &str) -> (r: Request)
        ensures
            r.wf(),
            r.spec_account_id() == default_account_id@,
            views(r.using@) == seq![core_uri()],
            r.method_calls@.len() == 0,
            r.created_ids is None,
    {
        let mut using = Vec::new();
        using.push(String::from_str("urn:ietf:params:jmap:core"));
        proof {
            reveal_strlit("urn:ietf:params:jmap:core");
            assert(views(using@) =~= seq![core_uri()]);
        }
        Request {
            account_id: to_owned(default_account_id),
            using,
            method_calls: Vec::new(),
            created_ids: None,
        }
    }

    /// The batch addressed to another account by default.
    pub fn account_id(self, account_id: &str) -> (r: Request)
        ensures
            r.spec_account_id() == account_id@,
            r.using == self.using,
            r.method_calls == self.method_calls,
            r.created_ids == self.created_ids,
    {
        Request { account_id: to_owned(account_id), ..self }
    }

    /// The default account id of the batch.
    pub fn default_account_id(&self) -> (r: &str)
        ensures
            r@ == self.spec_account_id(),
    {
        self.account_id.as_str()
    }

    /// Adds a capability URN to the `using` list, unless it is there.
    pub fn add_capability_uri(&mut self, uri: &str)
        requires
            old(self).wf(),
        ensures
            final(self).wf(),
            views(final(self).using@) == if views(old(self).using@).contains(uri@) {
                views(old(self).using@)
            } else {
                views(old(self).using@).push(uri@)
            },
            final(self).method_calls == old(self).method_calls,
            final(self).spec_account_id() == old(self).spec_account_id(),
            final(self).created_ids == old(self).created_ids,
    {
        if !contains_str(&self.using, uri) {
            let ghost before = views(self.using@);
            self.using.push(to_owned(uri));
            proof {
                assert(views(self.using@) =~= before.push(uri@));
                assert(views(self.using@)[0] == before[0]);
                assert forall|i: int, j: int|
                    0 <= i < j < views(self.using@).len() implies views(self.using@)[i] != views(self.using@)[j] by {
                    if j == before.len() {
                        assert(before[i] == views(self.using@)[i]);
                        assert(before.contains(before[i]));
                    }
                }
            }
        }
    }

    /// Adds a capability to the `using` list, unless it is there.
    pub fn add_capability<C: Capability>(&mut self)
        requires
            old(self).wf(),
        ensures
            final(self).wf(),
            views(final(self).using@) == if views(old(self).using@).contains(C::spec_uri()) {
                views(old(self).using@)
            } else {
                views(old(self).using@).push(C::spec_uri())
            },
            final(self).method_calls == old(self).method_calls,
            final(self).spec_account_id() == old(self).spec_account_id(),
            final(self).created_ids == old(self).created_ids,
    {
        self.add_capability_uri(C::uri());
    }

    /// Adds a method call to the batch: the method's name, the URN of the
    /// capability it needs (added to `using` unless there), and its
    /// arguments as JSON text. The call gets the id `s{n}`, `n` being the
    /// number of calls before it.
    pub fn call_raw(&mut self, method_name: &str, capability_uri: &str, arguments: String) -> (handle: CallHandle)
        requires
            old(self).wf(),
            old(self).method_calls@.len() < usize::MAX,
        ensures
            final(self).wf(),
            handle.call_id@ == call_id_of(old(self).method_calls@.len()),
            handle.method_name@ == method_name@,
            final(self).method_calls@.len() == old(self).method_calls@.len() + 1,
            final(self).method_calls@.drop_last() == old(self).method_calls@,
            final(self).method_calls@.last().name@ == method_name@,
            final(self).method_calls@.last().arguments == arguments,
            final(self).method_calls@.last().call_id@ == handle.call_id@,
            views(final(self).using@) == if views(old(self).using@).contains(capability_uri@) {
                views(old(self).using@)
            } else {
                views(old(self).using@).push(capability_uri@)
            },
            final(self).spec_account_id() == old(self).spec_account_id(),
            final(self).created_ids == old(self).created_ids,
    {
        let n = self.method_calls.len();
        let mut call_id = String::from_str("s");
        push_decimal(&mut call_id, n);
        proof {
            reveal_strlit("s");
        }
        self.add_capability_uri(capability_uri);
        let ghost before = self.method_calls@;
        self.method_calls.push(RawMethodCall {
            name: to_owned(method_name),
            arguments,
            call_id: copy_string(&call_id),
        });
        proof {
            assert(self.method_calls@.drop_last() =~= before);
            assert forall|k: int| 0 <= k < self.method_calls@.len() implies #[trigger] self.method_calls@[k].call_id@
                == call_id_of(k as nat) by {
                if k < before.len() {
                    assert(self.method_calls@[k] == before[k]);
                }
            }
        }
        CallHandle { call_id, method_name: to_owned(method_name) }
    }
}

impl Request {
    /// Adds a call of method `M`, with its arguments as JSON text; the
    /// capability that `M` needs is added to `using`.
    pub fn call<M: JmapMethod>(&mut self, arguments: String) -> (handle: CallHandle)
        requires
            old(self).wf(),
            old(self).method_calls@.len() < usize::MAX,
        ensures
            final(self).wf(),
            handle.call_id@ == call_id_of(old(self).method_calls@.len()),
            handle.method_name@ == M::spec_name(),
            final(self).method_calls@.len() == old(self).method_calls@.len() + 1,
            final(self).method_calls@.drop_last() == old(self).method_calls@,
            final(self).method_calls@.last().name@ == M::spec_name(),
            final(self).method_calls@.last().arguments == arguments,
            final(self).method_calls@.last().call_id@ == handle.call_id@,
            views(final(self).using@) == if views(old(self).using@).contains(M::Cap::spec_uri()) {
                views(old(self).using@)
            } else {
                views(old(self).using@).push(M::Cap::spec_uri())
            },
            final(self).spec_account_id() == old(self).spec_account_id(),
            final(self).created_ids == old(self).created_ids,
    {
        self.call_raw(M::name(), M::Cap::uri(), arguments)
    }
}

/// Law: the calls of a well-formed batch have pairwise distinct call ids,
/// so each handle picks out exactly one call of the batch.
pub proof fn law_call_ids_are_unique(r: &Request)
    requires
        r.wf(),
    ensures
        forall|i: int, j: int|
            0 <= i < j < r.method_calls@.len() ==> r.method_calls@[i].call_id@
                != r.method_calls@[j].call_id@,
{
    assert forall|i: int, j: int| 0 <= i < j < r.method_calls@.len() implies r.method_calls@[i].call_id@
        != r.method_calls@[j].call_id@ by {
        assert(r.method_calls@[i].call_id@ == call_id_of(i as nat));
        assert(r.method_calls@[j].call_id@ == call_id_of(j as nat));
        if call_id_of(i as nat) == call_id_of(j as nat) {
            lemma_prefixed_decimal_injective("s"@, i as nat, j as nat);
        }
    }
}

/// Law: adding a capability that the batch already uses changes nothing,
/// so adding one twice is adding it once.
pub proof fn law_add_capability_idempotent(using: Seq<Seq<char>>, uri: Seq<char>)
    ensures
        ({
            let once = if using.contains(uri) { using } else { using.push(uri) };
            let twice = if once.contains(uri) { once } else { once.push(uri) };
            twice == once
        }),
{
    if !using.contains(uri) {
        assert(using.push(uri)[using.len() as int] == uri);
        assert(using.push(uri).contains(uri));
    }
}

} // verus!
