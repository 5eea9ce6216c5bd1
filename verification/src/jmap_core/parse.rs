//! Responses of the /parse methods.
use vstd::prelude::*;

use crate::assoc::{
    first_named, law_take_named_consumes, lemma_first_named_exists, lemma_remove_keeps_distinct, names_distinct, names_of,
    position_named, take_named,
};
use crate::text::{contains_str, to_owned, views};
use crate::Error;

verus! {

/// The response of a /parse method: the objects parsed from each blob, and
/// the blobs that could not be parsed or were not found.
#[derive(Debug, Clone)]
pub struct ParseResponse<T> {
    pub account_id: String,
    pub parsed: Option<Vec<(String, T)>>,
    pub not_parsable: Option<Vec<String>>,
    pub not_found: Option<Vec<String>>,
}

/// The names of an optional list of entries (none when absent).
pub open spec fn opt_names<T>(v: Option<Vec<(String, T)>>) -> Seq<Seq<char>> {
    match v {
        Some(l) => names_of(l@),
        None => Seq::empty(),
    }
}

/// The entries of an optional list.
pub open spec fn opt_list_view<T>(v: Option<Vec<(String, T)>>) -> Option<Seq<(String, T)>> {
    match v {
        Some(l) => Some(l@),
        None => None,
    }
}

/// The texts of an optional list of strings (none when absent).
pub open spec fn opt_views(v: Option<Vec<String>>) -> Seq<Seq<char>> {
    match v {
        Some(l) => views(l@),
        None => Seq::empty(),
    }
}

/// An optional list whose names are pairwise distinct (an absent list has
/// none).
pub open spec fn opt_distinct<T>(v: Option<Vec<(String, T)>>) -> bool {
    match v {
        Some(l) => names_distinct(l@),
        None => true,
    }
}

/// Taking an entry out of an optional list with distinct names keeps them
/// distinct and leaves no entry of the name taken.
pub proof fn lemma_take_from_opt_distinct<T>(
    before: Option<Vec<(String, T)>>,
    after: Option<Vec<(String, T)>>,
    key: Seq<char>,
)
    requires
        opt_distinct(before),
        opt_names(before).contains(key) ==> (after matches Some(nl) && nl@ == before->0@.remove(
            position_named(before->0@, key),
        )),
        !opt_names(before).contains(key) ==> opt_list_view(after) == opt_list_view(before),
    ensures
        opt_distinct(after),
        !opt_names(after).contains(key),
{
    if opt_names(before).contains(key) {
        let l = before->0@;
        lemma_first_named_exists(l, key);
        lemma_remove_keeps_distinct(l, position_named(l, key));
        law_take_named_consumes(l, key);
    } else {
        match after {
            Some(nl) => {
                assert(before matches Some(ol) && ol@ == nl@);
            },
            None => {},
        }
    }
}

/// Takes the first entry named `key` out of an optional list.
pub fn take_from_opt<T>(v: &mut Option<Vec<(String, T)>>, key: &str) -> (r: Option<T>)
    ensures
        opt_names(*old(v)).contains(key@) ==> {
            let l = old(v)->0@;
            let p = position_named(l, key@);
            &&& first_named(l, key@, p)
            &&& r == Some(l[p].1)
            &&& *final(v) matches Some(nl) && nl@ == l.remove(p)
        },
        !opt_names(*old(v)).contains(key@) ==> r is None && opt_list_view(*final(v)) == opt_list_view(*old(v)),
        opt_distinct(*old(v)) ==> opt_distinct(*final(v)) && !opt_names(*final(v)).contains(key@),
{
    let ghost before = *v;
    let r = match v {
        Some(l) => take_named(l, key),
        None => None,
    };
    proof {
        if opt_distinct(before) {
            lemma_take_from_opt_distinct(before, *v, key@);
        }
    }
    r
}

/// Whether an optional list of strings holds a text.
pub fn opt_contains(v: &Option<Vec<String>>, s: &str) -> (r: bool)
    ensures
        r == opt_views(*v).contains(s@),
{
    match v {
        Some(l) => contains_str(l, s),
        None => false,
    }
}

impl<T> ParseResponse<T> {
    /// The blob ids of the parsed objects are pairwise distinct.
    pub open spec fn wf(&self) -> bool {
        opt_distinct(self.parsed)
    }

    pub fn account_id(&self) -> (r: &str)
        ensures
            r@ == self.account_id@,
    {
        self.account_id.as_str()
    }

    /// Takes out the objects parsed from a blob. Fails with `NotParsable`
    /// where the server could not parse the blob, and `IdNotFound` where it
    /// does not report on it.
    pub fn parsed(&mut self, blob_id: &str) -> (r: crate::Result<T>)
        ensures
            opt_names(old(self).parsed).contains(blob_id@) ==> {
                let l = old(self).parsed->0@;
                let p = position_named(l, blob_id@);
                &&& r == Ok::<T, Error>(l[p].1)
                &&& final(self).parsed matches Some(nl) && nl@ == l.remove(p)
            },
            !opt_names(old(self).parsed).contains(blob_id@) ==> {
                &&& opt_list_view(final(self).parsed) == opt_list_view(old(self).parsed)
                &&& if opt_views(old(self).not_parsable).contains(blob_id@) {
                    r matches Err(Error::NotParsable(id)) && id@ == blob_id@
                } else {
                    r matches Err(Error::IdNotFound(id)) && id@ == blob_id@
                }
            },
            final(self).account_id == old(self).account_id,
            final(self).not_parsable == old(self).not_parsable,
            final(self).not_found == old(self).not_found,
            old(self).wf() ==> final(self).wf() && !opt_names(final(self).parsed).contains(blob_id@),
    {
        if let Some(result) = take_from_opt(&mut self.parsed, blob_id) {
            Ok(result)
        } else if opt_contains(&self.not_parsable, blob_id) {
            Err(Error::NotParsable(to_owned(blob_id)))
        } else {
            Err(Error::IdNotFound(to_owned(blob_id)))
        }
    }

    /// The parsed objects, by blob id.
    pub fn parsed_list(&self) -> (r: Option<&Vec<(String, T)>>)
        ensures
            r == match &self.parsed {
                Some(l) => Some(l),
                None => None,
            },
    {
        self.parsed.as_ref()
    }

    /// The blobs that could not be parsed.
    pub fn not_parsable(&self) -> (r: Option<&Vec<String>>)
        ensures
            r == match &self.not_parsable {
                Some(l) => Some(l),
                None => None,
            },
    {
        self.not_parsable.as_ref()
    }

    /// The blobs that were not found.
    pub fn not_found(&self) -> (r: Option<&Vec<String>>)
        ensures
            r == match &self.not_found {
                Some(l) => Some(l),
                None => None,
            },
    {
        self.not_found.as_ref()
    }
}

} // verus!
