//! Contact cards: JSContact objects (RFC 9553) held as their property maps,
//! so that every property the server sends, extensions included, is kept.
use vstd::prelude::*;
use vstd::string::*;

use crate::calendar_event::event::{create_id_string, create_id_text};
use crate::json::{get_object, get_text, object_member, opt_deref, opt_str_view, text_member, true_set, true_set_of, JsonMap, JsonValue};
use crate::text::views;
use crate::{Draft, Get};

verus! {

/// A contact card backed by its JSContact property map.
#[derive(Debug)]
pub struct ContactCard<State = Get> {
    pub _create_id: Option<usize>,
    pub _state: std::marker::PhantomData<State>,
    /// The properties, standard and vendor-defined alike.
    pub properties: JsonMap,
}

impl ContactCard<Get> {
    /// The card's id.
    pub fn id(&self) -> (r: Option<&str>)
        requires
            self.properties.wf(),
        ensures
            opt_str_view(r) == text_member(self.properties@, "id"@),
    {
        get_text(&self.properties, "id")
    }

    /// Takes the card's id out of its properties: the text where it is a
    /// string, else an empty text (a non-string id is taken out too).
    pub fn take_id(&mut self) -> (r: String)
        requires
            old(self).properties.wf(),
        ensures
            final(self).properties.wf(),
            final(self).properties@ == old(self).properties@.remove("id"@),
            final(self)._create_id == old(self)._create_id,
            match text_member(old(self).properties@, "id"@) {
                Some(t) => r@ == t,
                None => r@ == Seq::<char>::empty(),
            },
    {
        match self.properties.remove("id") {
            Some(JsonValue::String(s)) => s,
            _ => String::new(),
        }
    }

    /// The `uid` property, where it is a string.
    pub fn uid(&self) -> (r: Option<&str>)
        requires
            self.properties.wf(),
        ensures
            opt_str_view(r) == text_member(self.properties@, "uid"@),
    {
        get_text(&self.properties, "uid")
    }

    /// The `kind` property, where it is a string.
    pub fn kind(&self) -> (r: Option<&str>)
        requires
            self.properties.wf(),
        ensures
            opt_str_view(r) == text_member(self.properties@, "kind"@),
    {
        get_text(&self.properties, "kind")
    }

    /// The `created` property, where it is a string.
    pub fn created(&self) -> (r: Option<&str>)
        requires
            self.properties.wf(),
        ensures
            opt_str_view(r) == text_member(self.properties@, "created"@),
    {
        get_text(&self.properties, "created")
    }

    /// The `updated` property, where it is a string.
    pub fn updated(&self) -> (r: Option<&str>)
        requires
            self.properties.wf(),
        ensures
            opt_str_view(r) == text_member(self.properties@, "updated"@),
    {
        get_text(&self.properties, "updated")
    }

    /// The `addressBookIds` property, where it is an object.
    pub fn address_book_ids(&self) -> (r: Option<&JsonMap>)
        requires
            self.properties.wf(),
        ensures
            opt_deref(r) == object_member(self.properties@, "addressBookIds"@),
    {
        get_object(&self.properties, "addressBookIds")
    }

    /// The `name` property, where it is an object.
    pub fn name(&self) -> (r: Option<&JsonMap>)
        requires
            self.properties.wf(),
        ensures
            opt_deref(r) == object_member(self.properties@, "name"@),
    {
        get_object(&self.properties, "name")
    }

    /// The `nicknames` property, where it is an object.
    pub fn nicknames(&self) -> (r: Option<&JsonMap>)
        requires
            self.properties.wf(),
        ensures
            opt_deref(r) == object_member(self.properties@, "nicknames"@),
    {
        get_object(&self.properties, "nicknames")
    }

    /// The `emails` property, where it is an object.
    pub fn emails(&self) -> (r: Option<&JsonMap>)
        requires
            self.properties.wf(),
        ensures
            opt_deref(r) == object_member(self.properties@, "emails"@),
    {
        get_object(&self.properties, "emails")
    }

    /// The `phones` property, where it is an object.
    pub fn phones(&self) -> (r: Option<&JsonMap>)
        requires
            self.properties.wf(),
        ensures
            opt_deref(r) == object_member(self.properties@, "phones"@),
    {
        get_object(&self.properties, "phones")
    }

    /// The `addresses` property, where it is an object.
    pub fn addresses(&self) -> (r: Option<&JsonMap>)
        requires
            self.properties.wf(),
        ensures
            opt_deref(r) == object_member(self.properties@, "addresses"@),
    {
        get_object(&self.properties, "addresses")
    }

    /// The `organizations` property, where it is an object.
    pub fn organizations(&self) -> (r: Option<&JsonMap>)
        requires
            self.properties.wf(),
        ensures
            opt_deref(r) == object_member(self.properties@, "organizations"@),
    {
        get_object(&self.properties, "organizations")
    }

    /// The `onlineServices` property, where it is an object.
    pub fn online_services(&self) -> (r: Option<&JsonMap>)
        requires
            self.properties.wf(),
        ensures
            opt_deref(r) == object_member(self.properties@, "onlineServices"@),
    {
        get_object(&self.properties, "onlineServices")
    }

    /// The `notes` property, where it is an object.
    pub fn notes(&self) -> (r: Option<&JsonMap>)
        requires
            self.properties.wf(),
        ensures
            opt_deref(r) == object_member(self.properties@, "notes"@),
    {
        get_object(&self.properties, "notes")
    }

    /// The `media` property, where it is an object.
    pub fn media(&self) -> (r: Option<&JsonMap>)
        requires
            self.properties.wf(),
        ensures
            opt_deref(r) == object_member(self.properties@, "media"@),
    {
        get_object(&self.properties, "media")
    }

    /// Any property by name, extension properties included.
    pub fn property(&self, name: &str) -> (r: Option<&JsonValue>)
        requires
            self.properties.wf(),
        ensures
            opt_deref(r) == if self.properties@.contains_key(name@) {
                Some(self.properties@[name@])
            } else {
                None
            },
    {
        self.properties.get(name)
    }

    /// The whole property map.
    pub fn as_properties(&self) -> (r: &JsonMap)
        ensures
            r == &self.properties,
    {
        &self.properties
    }
}

impl ContactCard<Draft> {
    /// A new card to create, numbered `create_id` within its request, or an
    /// update of an existing one when `None`.
    pub fn new(create_id: Option<usize>) -> (r: Self)
        ensures
            r._create_id == create_id,
            r.properties.wf(),
            r.properties@ == Map::<Seq<char>, JsonValue>::empty(),
    {
        ContactCard { _create_id: create_id, _state: std::marker::PhantomData, properties: JsonMap::new() }
    }

    /// The creation id `c{n}` of a new card; `None` for an update.
    pub fn create_id(&self) -> (r: Option<String>)
        ensures
            match self._create_id {
                Some(n) => r matches Some(s) && s@ == create_id_text(n),
                None => r is None,
            },
    {
        match self._create_id {
            Some(n) => Some(create_id_string(n)),
            None => None,
        }
    }

    /// Sets the card's unique identifier.
    pub fn uid(&mut self, uid: String) -> (r: &mut Self)
        requires
            old(self).properties.wf(),
        ensures
            r.properties.wf(),
            r.properties@ == old(self).properties@.insert("uid"@, JsonValue::String(uid)),
            r._create_id == old(self)._create_id,
            *final(self) == *final(r),
    {
        self.properties.insert(String::from_str("uid"), JsonValue::String(uid));
        self
    }

    /// Sets the kind of entity the card describes.
    pub fn kind(&mut self, kind: String) -> (r: &mut Self)
        requires
            old(self).properties.wf(),
        ensures
            r.properties.wf(),
            r.properties@ == old(self).properties@.insert("kind"@, JsonValue::String(kind)),
            r._create_id == old(self)._create_id,
            *final(self) == *final(r),
    {
        self.properties.insert(String::from_str("kind"), JsonValue::String(kind));
        self
    }

    /// Sets the full name.
    pub fn full_name(&mut self, full_name: String) -> (r: &mut Self)
        requires
            old(self).properties.wf(),
        ensures
            r.properties.wf(),
            r.properties@ == old(self).properties@.insert("fullName"@, JsonValue::String(full_name)),
            r._create_id == old(self)._create_id,
            *final(self) == *final(r),
    {
        self.properties.insert(String::from_str("fullName"), JsonValue::String(full_name));
        self
    }

    /// Sets the structured name.
    pub fn name(&mut self, name: JsonMap) -> (r: &mut Self)
        requires
            old(self).properties.wf(),
        ensures
            r.properties.wf(),
            r.properties@ == old(self).properties@.insert("name"@, JsonValue::Object(name)),
            r._create_id == old(self)._create_id,
            *final(self) == *final(r),
    {
        self.properties.insert(String::from_str("name"), JsonValue::Object(name));
        self
    }

    /// Sets the email addresses.
    pub fn emails(&mut self, emails: JsonMap) -> (r: &mut Self)
        requires
            old(self).properties.wf(),
        ensures
            r.properties.wf(),
            r.properties@ == old(self).properties@.insert("emails"@, JsonValue::Object(emails)),
            r._create_id == old(self)._create_id,
            *final(self) == *final(r),
    {
        self.properties.insert(String::from_str("emails"), JsonValue::Object(emails));
        self
    }

    /// Sets the phone numbers.
    pub fn phones(&mut self, phones: JsonMap) -> (r: &mut Self)
        requires
            old(self).properties.wf(),
        ensures
            r.properties.wf(),
            r.properties@ == old(self).properties@.insert("phones"@, JsonValue::Object(phones)),
            r._create_id == old(self)._create_id,
            *final(self) == *final(r),
    {
        self.properties.insert(String::from_str("phones"), JsonValue::Object(phones));
        self
    }

    /// Sets the addresses.
    pub fn addresses(&mut self, addresses: JsonMap) -> (r: &mut Self)
        requires
            old(self).properties.wf(),
        ensures
            r.properties.wf(),
            r.properties@ == old(self).properties@.insert("addresses"@, JsonValue::Object(addresses)),
            r._create_id == old(self)._create_id,
            *final(self) == *final(r),
    {
        self.properties.insert(String::from_str("addresses"), JsonValue::Object(addresses));
        self
    }

    /// Sets the organizations.
    pub fn organizations(&mut self, organizations: JsonMap) -> (r: &mut Self)
        requires
            old(self).properties.wf(),
        ensures
            r.properties.wf(),
            r.properties@ == old(self).properties@.insert("organizations"@, JsonValue::Object(organizations)),
            r._create_id == old(self)._create_id,
            *final(self) == *final(r),
    {
        self.properties.insert(String::from_str("organizations"), JsonValue::Object(organizations));
        self
    }

    /// Sets the online services.
    pub fn online_services(&mut self, online_services: JsonMap) -> (r: &mut Self)
        requires
            old(self).properties.wf(),
        ensures
            r.properties.wf(),
            r.properties@ == old(self).properties@.insert("onlineServices"@, JsonValue::Object(online_services)),
            r._create_id == old(self)._create_id,
            *final(self) == *final(r),
    {
        self.properties.insert(String::from_str("onlineServices"), JsonValue::Object(online_services));
        self
    }

    /// Sets the notes.
    pub fn notes(&mut self, notes: JsonMap) -> (r: &mut Self)
        requires
            old(self).properties.wf(),
        ensures
            r.properties.wf(),
            r.properties@ == old(self).properties@.insert("notes"@, JsonValue::Object(notes)),
            r._create_id == old(self)._create_id,
            *final(self) == *final(r),
    {
        self.properties.insert(String::from_str("notes"), JsonValue::Object(notes));
        self
    }

    /// Sets the address books that the card belongs to: each id set to `true`.
    pub fn address_book_ids(&mut self, address_book_ids: Vec<String>) -> (r: &mut Self)
        requires
            old(self).properties.wf(),
        ensures
            r.properties.wf(),
            r.properties@.dom() == old(self).properties@.dom().insert("addressBookIds"@),
            r.properties@.remove("addressBookIds"@) == old(self).properties@.remove("addressBookIds"@),
            r.properties@["addressBookIds"@] matches JsonValue::Object(m) && m.wf() && m@ == true_set(views(address_book_ids@)),
            r._create_id == old(self)._create_id,
            *final(self) == *final(r),
    {
        self.properties.insert(String::from_str("addressBookIds"), JsonValue::Object(true_set_of(address_book_ids)));
        self
    }

    /// Sets whether the card is in an address book (`true` or `false`),
    /// leaving its other address books; the `addressBookIds` object is made
    /// where there is none. An `addressBookIds` member that is not an object
    /// is left as it is.
    pub fn address_book_id(&mut self, address_book_id: String, set: bool) -> (r: &mut Self)
        requires
            old(self).properties.wf(),
            old(self).properties@.contains_key("addressBookIds"@) ==> (old(self).properties@["addressBookIds"@] matches JsonValue::Object(m) ==> m.wf()),
        ensures
            r.properties.wf(),
            r.properties@.dom() == old(self).properties@.dom().insert("addressBookIds"@),
            r.properties@.remove("addressBookIds"@) == old(self).properties@.remove("addressBookIds"@),
            if old(self).properties@.contains_key("addressBookIds"@) {
                match old(self).properties@["addressBookIds"@] {
                    JsonValue::Object(m0) => r.properties@["addressBookIds"@] matches JsonValue::Object(m) && m.wf() && m@ == m0@.insert(address_book_id@, JsonValue::Bool(set)),
                    other => r.properties@["addressBookIds"@] == other,
                }
            } else {
                r.properties@["addressBookIds"@] matches JsonValue::Object(m) && m.wf() && m@ == Map::<Seq<char>, JsonValue>::empty().insert(address_book_id@, JsonValue::Bool(set))
            },
            r._create_id == old(self)._create_id,
            *final(self) == *final(r),
    {
        let existing = self.properties.remove("addressBookIds");
        let mut ids = match existing {
            Some(v) => v,
            None => JsonValue::Object(JsonMap::new()),
        };
        match ids.as_object_mut() {
            Some(m) => {
                m.insert(address_book_id, JsonValue::Bool(set));
            },
            None => {},
        }
        self.properties.insert(String::from_str("addressBookIds"), ids);
        proof {
            reveal_strlit("addressBookIds");
        }
        self
    }

    /// Sets any property by name: extension properties, or standard ones
    /// without a method of their own.
    pub fn set_property(&mut self, name: String, value: JsonValue) -> (r: &mut Self)
        requires
            old(self).properties.wf(),
        ensures
            r.properties.wf(),
            r.properties@ == old(self).properties@.insert(name@, value),
            r._create_id == old(self)._create_id,
            *final(self) == *final(r),
    {
        self.properties.insert(name, value);
        self
    }
}

/// Law: writing a text property and reading it back gives the text, and
/// leaves every other property, vendor extensions included, as it was.
pub proof fn law_card_text_write_then_read(props: Map<Seq<char>, JsonValue>, name: Seq<char>, value: String, other: Seq<char>)
    requires
        other != name,
    ensures
        text_member(props.insert(name, JsonValue::String(value)), name) == Some(value@),
        text_member(props.insert(name, JsonValue::String(value)), other) == text_member(props, other),
        object_member(props.insert(name, JsonValue::String(value)), other) == object_member(props, other),
{
}

} // verus!
