//! Blob/upload, Blob/get and Blob/lookup (RFC 9404).
use vstd::prelude::*;
use vstd::string::*;

use crate::assoc::{get_named, names_of, position_named};
use crate::jmap_core::capability::Blob;
use crate::jmap_core::method::JmapMethod;
use crate::jmap_core::parse::{opt_distinct, opt_list_view, opt_names, take_from_opt};
use crate::json::{get_text, opt_str_view, text_member, JsonMap};
use crate::text::{decimal, lemma_prefixed_decimal_injective, push_decimal, to_owned, views};
use crate::Error;

verus! {

// ---- Blob/upload ----

/// A Blob/upload request: the blobs to create, by creation id.
#[derive(Debug)]
pub struct BlobUploadRequest {
    pub account_id: String,
    pub create: Vec<(String, BlobUploadCreate)>,
}

/// A blob to create: its data sources, joined in order, and its media type.
#[derive(Debug)]
pub struct BlobUploadCreate {
    pub data: Vec<DataSource>,
    pub type_: Option<String>,
}

/// A source of blob data (RFC 9404 §4.1).
#[derive(Debug)]
#[non_exhaustive]
pub enum DataSource {
    /// A range of an existing blob.
    Blob(DataSourceBlob),
    /// Inline text.
    Text(DataSourceText),
    /// Inline base64-encoded data.
    Base64(DataSourceBase64),
}

/// A range of an existing blob as a data source.
#[derive(Debug)]
pub struct DataSourceBlob {
    pub blob_id: String,
    pub offset: Option<u64>,
    pub length: Option<u64>,
}

/// Inline text as a data source.
#[derive(Debug)]
pub struct DataSourceText {
    pub value: String,
}

/// Inline base64-encoded data as a data source.
#[derive(Debug)]
pub struct DataSourceBase64 {
    pub value: String,
}

/// A blob that Blob/upload created.
#[derive(Debug, Clone)]
pub struct BlobUploadCreated {
    pub id: String,
    pub type_: Option<String>,
    pub size: Option<u64>,
}

/// The creation id of the `n`-th blob of an upload request: `b{n}`.
pub open spec fn blob_create_id(n: nat) -> Seq<char> {
    "b"@ + decimal(n)
}

impl JmapMethod for BlobUploadRequest {
    type Cap = Blob;

    open spec fn spec_name() -> Seq<char> {
        "Blob/upload"@
    }

    fn name() -> (s: &'static str) {
        "Blob/upload"
    }
}

impl BlobUploadRequest {
    /// The `k`-th blob to create has creation id `b{k}`.
    pub open spec fn wf(&self) -> bool {
        forall|k: int| 0 <= k < self.create@.len() ==> (#[trigger] self.create@[k]).0@ == blob_create_id(k as nat)
    }

    pub fn new(account_id: &str) -> (r: Self)
        ensures
            r.wf(),
            r.account_id@ == account_id@,
            r.create@.len() == 0,
    {
        BlobUploadRequest { account_id: to_owned(account_id), create: Vec::new() }
    }

    /// Adds a blob to create and returns its creation id, `b{n}` for the
    /// `n` blobs added before it.
    pub fn create_with_sources(&mut self, data: Vec<DataSource>, type_: Option<String>) -> (id: String)
        requires
            old(self).wf(),
        ensures
            final(self).wf(),
            id@ == blob_create_id(old(self).create@.len()),
            final(self).create@.len() == old(self).create@.len() + 1,
            final(self).create@.drop_last() == old(self).create@,
            final(self).create@.last().0@ == id@,
            final(self).create@.last().1 == (BlobUploadCreate { data, type_ }),
            final(self).account_id == old(self).account_id,
    {
        let n = self.create.len();
        let mut id = String::from_str("b");
        push_decimal(&mut id, n);
        proof {
            reveal_strlit("b");
        }
        let ghost before = self.create@;
        self.create.push((to_owned(id.as_str()), BlobUploadCreate { data, type_ }));
        proof {
            assert(self.create@.drop_last() =~= before);
            assert forall|k: int| 0 <= k < self.create@.len() implies (#[trigger] self.create@[k]).0@ == blob_create_id(k as nat) by {
                if k < before.len() {
                    assert(self.create@[k] == before[k]);
                }
            }
        }
        id
    }

    /// Adds a blob made of inline text; returns its creation id.
    pub fn create_from_text(&mut self, text: String, type_: Option<String>) -> (id: String)
        requires
            old(self).wf(),
        ensures
            final(self).wf(),
            id@ == blob_create_id(old(self).create@.len()),
            final(self).create@.len() == old(self).create@.len() + 1,
            final(self).create@.drop_last() == old(self).create@,
            final(self).create@.last().0@ == id@,
            final(self).create@.last().1.data@ == seq![DataSource::Text(DataSourceText { value: text })],
            final(self).create@.last().1.type_ == type_,
            final(self).account_id == old(self).account_id,
    {
        let mut data = Vec::new();
        data.push(DataSource::Text(DataSourceText { value: text }));
        assert(data@ =~= seq![DataSource::Text(DataSourceText { value: text })]);
        self.create_with_sources(data, type_)
    }

    /// Adds a blob made of inline base64 data; returns its creation id.
    pub fn create_from_base64(&mut self, base64: String, type_: Option<String>) -> (id: String)
        requires
            old(self).wf(),
        ensures
            final(self).wf(),
            id@ == blob_create_id(old(self).create@.len()),
            final(self).create@.len() == old(self).create@.len() + 1,
            final(self).create@.drop_last() == old(self).create@,
            final(self).create@.last().0@ == id@,
            final(self).create@.last().1.data@ == seq![DataSource::Base64(DataSourceBase64 { value: base64 })],
            final(self).create@.last().1.type_ == type_,
            final(self).account_id == old(self).account_id,
    {
        let mut data = Vec::new();
        data.push(DataSource::Base64(DataSourceBase64 { value: base64 }));
        assert(data@ =~= seq![DataSource::Base64(DataSourceBase64 { value: base64 })]);
        self.create_with_sources(data, type_)
    }

    /// Adds a blob made of a range of an existing blob; returns its
    /// creation id.
    pub fn create_from_blob(
        &mut self,
        blob_id: String,
        offset: Option<u64>,
        length: Option<u64>,
        type_: Option<String>,
    ) -> (id: String)
        requires
            old(self).wf(),
        ensures
            final(self).wf(),
            id@ == blob_create_id(old(self).create@.len()),
            final(self).create@.len() == old(self).create@.len() + 1,
            final(self).create@.drop_last() == old(self).create@,
            final(self).create@.last().0@ == id@,
            final(self).create@.last().1.data@ == seq![DataSource::Blob(DataSourceBlob { blob_id, offset, length })],
            final(self).create@.last().1.type_ == type_,
            final(self).account_id == old(self).account_id,
    {
        let mut data = Vec::new();
        data.push(DataSource::Blob(DataSourceBlob { blob_id, offset, length }));
        assert(data@ =~= seq![DataSource::Blob(DataSourceBlob { blob_id, offset, length })]);
        self.create_with_sources(data, type_)
    }
}

/// Law: the blobs of a well-formed upload request have pairwise distinct
/// creation ids, so no blob added replaces another.
pub proof fn law_blob_create_ids_are_unique(r: &BlobUploadRequest)
    requires
        r.wf(),
    ensures
        names_of(r.create@).no_duplicates(),
{
    assert forall|i: int, j: int| 0 <= i < names_of(r.create@).len() && 0 <= j < names_of(r.create@).len() && i != j
        implies names_of(r.create@)[i] != names_of(r.create@)[j] by {
        assert(r.create@[i].0@ == blob_create_id(i as nat));
        assert(r.create@[j].0@ == blob_create_id(j as nat));
        if blob_create_id(i as nat) == blob_create_id(j as nat) {
            lemma_prefixed_decimal_injective("b"@, i as nat, j as nat);
        }
    }
}

/// The response of Blob/upload: the blobs created and those not created,
/// by creation id. A blob not created comes with the error as text.
#[derive(Debug)]
pub struct BlobUploadResponse {
    pub account_id: String,
    pub created: Option<Vec<(String, BlobUploadCreated)>>,
    pub not_created: Option<Vec<(String, String)>>,
}

/// The message for a blob that the server did not create.
pub open spec fn not_created_message(id: Seq<char>, error: Seq<char>) -> Seq<char> {
    "Blob "@ + id + " not created: "@ + error
}

impl BlobUploadResponse {
    /// The creation ids of the blobs created, and of those not created, are
    /// pairwise distinct.
    pub open spec fn wf(&self) -> bool {
        opt_distinct(self.created) && opt_distinct(self.not_created)
    }

    pub fn account_id(&self) -> (r: &str)
        ensures
            r@ == self.account_id@,
    {
        self.account_id.as_str()
    }

    /// Takes out the blob created under a creation id. Fails with
    /// `NotParsable` where the server reports it not created, and with
    /// `IdNotFound` where it reports nothing of it.
    pub fn created(&mut self, id: &str) -> (r: crate::Result<BlobUploadCreated>)
        ensures
            opt_names(old(self).created).contains(id@) ==> {
                let l = old(self).created->0@;
                let p = position_named(l, id@);
                &&& r == Ok::<BlobUploadCreated, Error>(l[p].1)
                &&& final(self).created matches Some(nl) && nl@ == l.remove(p)
            },
            !opt_names(old(self).created).contains(id@) ==> {
                &&& opt_list_view(final(self).created) == opt_list_view(old(self).created)
                &&& if opt_names(old(self).not_created).contains(id@) {
                    let l = old(self).not_created->0@;
                    let p = position_named(l, id@);
                    r matches Err(Error::NotParsable(m)) && m@ == not_created_message(id@, l[p].1@)
                } else {
                    r matches Err(Error::IdNotFound(m)) && m@ == id@
                }
            },
            final(self).account_id == old(self).account_id,
            final(self).not_created == old(self).not_created,
            old(self).wf() ==> final(self).wf() && !opt_names(final(self).created).contains(id@),
    {
        let taken = take_from_opt(&mut self.created, id);
        if let Some(result) = taken {
            return Ok(result);
        }
        let error = match &self.not_created {
            Some(l) => get_named(l, id),
            None => None,
        };
        match error {
            Some(e) => {
                let mut m = String::from_str("Blob ");
                m.append(id);
                m.append(" not created: ");
                m.append(e.as_str());
                Err(Error::NotParsable(m))
            },
            None => Err(Error::IdNotFound(to_owned(id))),
        }
    }

    /// The creation ids of the blobs created.
    pub fn created_ids(&self) -> (r: Option<Vec<String>>)
        ensures
            match self.created {
                Some(l) => r matches Some(ids) && views(ids@) == names_of(l@),
                None => r is None,
            },
    {
        match &self.created {
            Some(l) => {
                let mut ids: Vec<String> = Vec::new();
                let mut i: usize = 0;
                while i < l.len()
                    invariant
                        i <= l@.len(),
                        ids@.len() == i,
                        views(ids@) == names_of(l@).subrange(0, i as int),
                    decreases l@.len() - i,
                {
                    let ghost prev = ids@;
                    ids.push(to_owned(l[i].0.as_str()));
                    assert(ids@ == prev.push(ids@.last()));
                    assert forall|k: int| 0 <= k < ids@.len() implies #[trigger] views(ids@)[k] == names_of(l@).subrange(0, i + 1 as int)[k] by {
                        if k < i {
                            assert(ids@[k] == prev[k]);
                            assert(views(prev)[k] == names_of(l@).subrange(0, i as int)[k]);
                        }
                    }
                    assert(views(ids@) =~= names_of(l@).subrange(0, i + 1 as int));
                    i = i + 1;
                }
                assert(names_of(l@).subrange(0, l@.len() as int) =~= names_of(l@));
                Some(ids)
            },
            None => None,
        }
    }
}

// ---- Blob/get ----

/// A Blob/get request: the blobs to read, the properties to return (such as
/// `data:asText`, `digest:sha-256`, `size`), and a byte range that applies
/// to every blob.
#[derive(Debug, Clone)]
pub struct BlobGetRequest {
    pub account_id: String,
    pub ids: Vec<String>,
    pub properties: Option<Vec<String>>,
    pub offset: Option<u64>,
    pub length: Option<u64>,
}

impl JmapMethod for BlobGetRequest {
    type Cap = Blob;

    open spec fn spec_name() -> Seq<char> {
        "Blob/get"@
    }

    fn name() -> (s: &'static str) {
        "Blob/get"
    }
}

impl BlobGetRequest {
    pub fn new(account_id: &str) -> (r: Self)
        ensures
            r.account_id@ == account_id@,
            r.ids@.len() == 0,
            r.properties is None,
            r.offset is None,
            r.length is None,
    {
        BlobGetRequest { account_id: to_owned(account_id), ids: Vec::new(), properties: None, offset: None, length: None }
    }

    /// Adds blob ids to read, after those already there.
    pub fn ids(&mut self, ids: Vec<String>) -> (r: &mut Self)
        ensures
            r.ids@ == old(self).ids@ + ids@,
            r.account_id == old(self).account_id,
            r.properties == old(self).properties,
            r.offset == old(self).offset,
            r.length == old(self).length,
            *final(self) == *final(r),
    {
        let mut ids = ids;
        self.ids.append(&mut ids);
        self
    }

    /// Sets the properties to return.
    pub fn properties(&mut self, properties: Vec<String>) -> (r: &mut Self)
        ensures
            r.properties == Some(properties),
            r.account_id == old(self).account_id,
            r.ids == old(self).ids,
            r.offset == old(self).offset,
            r.length == old(self).length,
            *final(self) == *final(r),
    {
        self.properties = Some(properties);
        self
    }

    /// Sets the byte offset for every blob.
    pub fn offset(&mut self, offset: u64) -> (r: &mut Self)
        ensures
            r.offset == Some(offset),
            r.account_id == old(self).account_id,
            r.ids == old(self).ids,
            r.properties == old(self).properties,
            r.length == old(self).length,
            *final(self) == *final(r),
    {
        self.offset = Some(offset);
        self
    }

    /// Sets the byte length for every blob.
    pub fn length(&mut self, length: u64) -> (r: &mut Self)
        ensures
            r.length == Some(length),
            r.account_id == old(self).account_id,
            r.ids == old(self).ids,
            r.properties == old(self).properties,
            r.offset == old(self).offset,
            *final(self) == *final(r),
    {
        self.length = Some(length);
        self
    }
}

/// One blob of a Blob/get response: its id, size and flags, and its other
/// properties (`data:asText`, `data:asBase64`, `digest:<algorithm>`) by name.
#[derive(Debug)]
pub struct BlobGetResult {
    pub id: String,
    pub size: Option<u64>,
    pub is_encoding_problem: Option<bool>,
    pub is_truncated: Option<bool>,
    pub properties: JsonMap,
}

impl BlobGetResult {
    /// The blob's data as text (`data:asText`).
    pub fn data_as_text(&self) -> (r: Option<&str>)
        requires
            self.properties.wf(),
        ensures
            opt_str_view(r) == text_member(self.properties@, "data:asText"@),
    {
        get_text(&self.properties, "data:asText")
    }

    /// The blob's data in base64 (`data:asBase64`).
    pub fn data_as_base64(&self) -> (r: Option<&str>)
        requires
            self.properties.wf(),
        ensures
            opt_str_view(r) == text_member(self.properties@, "data:asBase64"@),
    {
        get_text(&self.properties, "data:asBase64")
    }

    /// The blob's digest under an algorithm, such as `sha-256`, read from
    /// the property `digest:<algorithm>`.
    pub fn digest(&self, algorithm: &str) -> (r: Option<&str>)
        requires
            self.properties.wf(),
        ensures
            opt_str_view(r) == text_member(self.properties@, "digest:"@ + algorithm@),
    {
        let mut key = String::from_str("digest:");
        key.append(algorithm);
        get_text(&self.properties, key.as_str())
    }
}

/// The response of Blob/get.
#[derive(Debug)]
pub struct BlobGetResponse {
    pub account_id: String,
    pub list: Vec<BlobGetResult>,
    pub not_found: Option<Vec<String>>,
}

impl BlobGetResponse {
    pub fn account_id(&self) -> (r: &str)
        ensures
            r@ == self.account_id@,
    {
        self.account_id.as_str()
    }

    /// The blobs read.
    pub fn list(&self) -> (r: &Vec<BlobGetResult>)
        ensures
            r == &self.list,
    {
        &self.list
    }

    /// Takes the blobs read, leaving the list empty.
    pub fn take_list(&mut self) -> (r: Vec<BlobGetResult>)
        ensures
            r@ == old(self).list@,
            final(self).list@.len() == 0,
            final(self).account_id == old(self).account_id,
            final(self).not_found == old(self).not_found,
    {
        let mut list = Vec::new();
        std::mem::swap(&mut list, &mut self.list);
        list
    }

    /// The ids of the blobs that were not found.
    pub fn not_found(&self) -> (r: Option<&Vec<String>>)
        ensures
            r == match &self.not_found {
                Some(l) => Some(l),
                None => None,
            },
    {
        self.not_found.as_ref()
    }
}

// ---- Blob/lookup ----

/// A Blob/lookup request: which objects of the given types reference the
/// given blobs. The request must use the capabilities that define the
/// types.
#[derive(Debug, Clone)]
pub struct BlobLookupRequest {
    pub account_id: String,
    pub type_names: Vec<String>,
    pub ids: Vec<String>,
}

impl JmapMethod for BlobLookupRequest {
    type Cap = Blob;

    open spec fn spec_name() -> Seq<char> {
        "Blob/lookup"@
    }

    fn name() -> (s: &'static str) {
        "Blob/lookup"
    }
}

impl BlobLookupRequest {
    pub fn new(account_id: &str) -> (r: Self)
        ensures
            r.account_id@ == account_id@,
            r.type_names@.len() == 0,
            r.ids@.len() == 0,
    {
        BlobLookupRequest { account_id: to_owned(account_id), type_names: Vec::new(), ids: Vec::new() }
    }

    /// Sets the type names to search (such as `Email`).
    pub fn type_names(&mut self, type_names: Vec<String>) -> (r: &mut Self)
        ensures
            r.type_names == type_names,
            r.account_id == old(self).account_id,
            r.ids == old(self).ids,
            *final(self) == *final(r),
    {
        self.type_names = type_names;
        self
    }

    /// Sets the blob ids to look up.
    pub fn ids(&mut self, ids: Vec<String>) -> (r: &mut Self)
        ensures
            r.ids == ids,
            r.account_id == old(self).account_id,
            r.type_names == old(self).type_names,
            *final(self) == *final(r),
    {
        self.ids = ids;
        self
    }
}

/// One blob of a Blob/lookup response: for each type name, the ids of the
/// objects that reference the blob.
#[derive(Debug, Clone)]
pub struct BlobLookupResult {
    pub id: String,
    pub matched_ids: Vec<(String, Vec<String>)>,
}

/// The response of Blob/lookup.
#[derive(Debug, Clone)]
pub struct BlobLookupResponse {
    pub account_id: String,
    pub list: Vec<BlobLookupResult>,
    pub not_found: Option<Vec<String>>,
}

impl BlobLookupResponse {
    pub fn account_id(&self) -> (r: &str)
        ensures
            r@ == self.account_id@,
    {
        self.account_id.as_str()
    }

    /// The blobs looked up.
    pub fn list(&self) -> (r: &Vec<BlobLookupResult>)
        ensures
            r == &self.list,
    {
        &self.list
    }

    /// Takes the blobs looked up, leaving the list empty.
    pub fn take_list(&mut self) -> (r: Vec<BlobLookupResult>)
        ensures
            r@ == old(self).list@,
            final(self).list@.len() == 0,
            final(self).account_id == old(self).account_id,
            final(self).not_found == old(self).not_found,
    {
        let mut list = Vec::new();
        std::mem::swap(&mut list, &mut self.list);
        list
    }

    /// The ids of the blobs that were not found.
    pub fn not_found(&self) -> (r: Option<&Vec<String>>)
        ensures
            r == match &self.not_found {
                Some(l) => Some(l),
                None => None,
            },
    {
        self.not_found.as_ref()
    }
}

} // verus!
