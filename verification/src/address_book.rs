//! Address books (RFC 9610 §2).
use vstd::prelude::*;

use crate::calendar_event::event::{create_id_string, create_id_text};
use crate::jmap_core::field::{field_of, field_text, Field};
use crate::text::{opt_string_view, opt_text};
use crate::{Draft, Get};

verus! {

/// An address book.
#[derive(Debug)]
pub struct AddressBook<State = Get> {
    pub _create_id: Option<usize>,
    pub _state: std::marker::PhantomData<State>,
    pub id: Option<String>,
    pub name: Option<String>,
    pub description: Field<String>,
    pub sort_order: Option<u32>,
    pub is_default: Option<bool>,
    pub is_subscribed: Option<bool>,
    pub share_with: Field<Vec<(String, AddressBookRights)>>,
    pub my_rights: Option<AddressBookRights>,
}

/// What a user may do with an address book.
#[derive(Debug, Clone, Copy, PartialEq, Eq)]
pub struct AddressBookRights {
    pub may_read: Option<bool>,
    pub may_write: Option<bool>,
    pub may_share: Option<bool>,
    pub may_delete: Option<bool>,
}

/// Extra arguments of AddressBook/set.
#[derive(Debug, Clone, Default)]
pub struct AddressBookSetArguments {
    pub on_destroy_remove_contents: Option<bool>,
    pub on_success_set_is_default: Option<String>,
}

impl AddressBookSetArguments {
    /// Whether destroying an address book destroys its cards.
    pub fn on_destroy_remove_contents(&mut self, remove: bool) -> (r: &mut Self)
        ensures
            *r == (AddressBookSetArguments { on_destroy_remove_contents: Some(remove), ..*old(self) }),
            *final(self) == *final(r),
    {
        self.on_destroy_remove_contents = Some(remove);
        self
    }

    /// The address book to make the default after a successful create or update: a creation reference such as `#c0`, or an id.
    pub fn on_success_set_is_default(&mut self, id: String) -> (r: &mut Self)
        ensures
            *r == (AddressBookSetArguments { on_success_set_is_default: Some(id), ..*old(self) }),
            *final(self) == *final(r),
    {
        self.on_success_set_is_default = Some(id);
        self
    }
}

/// Properties of an address book.
#[derive(Debug, Clone, Copy, PartialEq, Eq, Hash)]
#[non_exhaustive]
pub enum Property {
    Id,
    Name,
    Description,
    SortOrder,
    IsDefault,
    IsSubscribed,
    ShareWith,
    MyRights,
}

/// The wire name of a `Property` value.
pub open spec fn address_book_property_name(p: Property) -> Seq<char> {
    match p {
        Property::Id => "id"@,
        Property::Name => "name"@,
        Property::Description => "description"@,
        Property::SortOrder => "sortOrder"@,
        Property::IsDefault => "isDefault"@,
        Property::IsSubscribed => "isSubscribed"@,
        Property::ShareWith => "shareWith"@,
        Property::MyRights => "myRights"@,
    }
}

impl Property {
    /// The property's name on the wire.
    pub fn as_str(&self) -> (s: &'static str)
        ensures
            s@ == address_book_property_name(*self),
    {
        match self {
            Property::Id => "id",
            Property::Name => "name",
            Property::Description => "description",
            Property::SortOrder => "sortOrder",
            Property::IsDefault => "isDefault",
            Property::IsSubscribed => "isSubscribed",
            Property::ShareWith => "shareWith",
            Property::MyRights => "myRights",
        }
    }
}

impl AddressBook<Get> {
    /// The id.
    pub fn id(&self) -> (r: Option<&str>)
        ensures
            opt_text(r) == opt_string_view(self.id),
    {
        match &self.id {
            Some(s) => Some(s.as_str()),
            None => None,
        }
    }

    /// Takes the id, leaving none; an object without id gives an empty
    /// text.
    pub fn take_id(&mut self) -> (r: String)
        ensures
            match old(self).id {
                Some(s) => r == s,
                None => r@ == Seq::<char>::empty(),
            },
            *final(self) == (AddressBook { id: None, ..*old(self) }),
    {
        match self.id.take() {
            Some(s) => s,
            None => String::new(),
        }
    }

    /// The name.
    pub fn name(&self) -> (r: Option<&str>)
        ensures
            opt_text(r) == opt_string_view(self.name),
    {
        match &self.name {
            Some(s) => Some(s.as_str()),
            None => None,
        }
    }

    /// The description, where it has one.
    pub fn description(&self) -> (r: Option<&str>)
        ensures
            opt_text(r) == field_text(self.description),
    {
        match &self.description {
            Field::Value(s) => Some(s.as_str()),
            _ => None,
        }
    }

    /// The description in its three states.
    pub fn description_field(&self) -> (r: &Field<String>)
        ensures
            r == &self.description,
    {
        &self.description
    }

    /// The sort order.
    pub fn sort_order(&self) -> (r: Option<u32>)
        ensures
            r == self.sort_order,
    {
        self.sort_order
    }

    /// Whether it is the default address book.
    pub fn is_default(&self) -> (r: Option<bool>)
        ensures
            r == self.is_default,
    {
        self.is_default
    }

    /// Whether the user is subscribed to it.
    pub fn is_subscribed(&self) -> (r: Option<bool>)
        ensures
            r == self.is_subscribed,
    {
        self.is_subscribed
    }

    /// The rights of the users it is shared with, where set.
    pub fn share_with(&self) -> (r: Option<&Vec<(String, AddressBookRights)>>)
        ensures
            r == match &self.share_with {
                Field::Value(v) => Some(v),
                _ => None,
            },
    {
        self.share_with.as_value()
    }

    /// The sharing in its three states.
    pub fn share_with_field(&self) -> (r: &Field<Vec<(String, AddressBookRights)>>)
        ensures
            r == &self.share_with,
    {
        &self.share_with
    }

    /// The user's rights.
    pub fn my_rights(&self) -> (r: Option<&AddressBookRights>)
        ensures
            r == match &self.my_rights {
                Some(v) => Some(v),
                None => None,
            },
    {
        self.my_rights.as_ref()
    }
}

impl AddressBook<Draft> {
    /// A new address book to create, numbered `create_id` within its
    /// request, or an update of an existing one when `None`: every property
    /// left out.
    pub fn new(create_id: Option<usize>) -> (r: Self)
        ensures
            r._create_id == create_id,
            r.id is None,
            r.name is None,
            r.description is Omitted,
            r.sort_order is None,
            r.is_default is None,
            r.is_subscribed is None,
            r.share_with is Omitted,
            r.my_rights is None,
    {
        AddressBook {
            _create_id: create_id,
            _state: std::marker::PhantomData,
            id: None,
            name: None,
            description: Field::Omitted,
            sort_order: None,
            is_default: None,
            is_subscribed: None,
            share_with: Field::Omitted,
            my_rights: None,
        }
    }

    /// The creation id `c{n}` of a new object; `None` for an update.
    pub fn create_id(&self) -> (r: Option<String>)
        ensures
            match self._create_id {
                Some(n) => r matches Some(s) && s@ == create_id_text(n),
                None => r is None,
            },
    {
        match self._create_id {
            Some(n) => Some(create_id_string(n)),
            None => None,
        }
    }

    /// Sets the name.
    pub fn name(&mut self, name: String) -> (r: &mut Self)
        ensures
            *r == (AddressBook { name: Some(name), ..*old(self) }),
            *final(self) == *final(r),
    {
        self.name = Some(name);
        self
    }

    /// Sets the description, or `null` to clear it.
    pub fn description(&mut self, description: Option<String>) -> (r: &mut Self)
        ensures
            *r == (AddressBook { description: field_of(description), ..*old(self) }),
            *final(self) == *final(r),
    {
        self.description = match description {
            Some(v) => Field::Value(v),
            None => Field::Null,
        };
        self
    }

    /// Sets the sort order.
    pub fn sort_order(&mut self, sort_order: u32) -> (r: &mut Self)
        ensures
            *r == (AddressBook { sort_order: Some(sort_order), ..*old(self) }),
            *final(self) == *final(r),
    {
        self.sort_order = Some(sort_order);
        self
    }

    /// Sets whether the user is subscribed.
    pub fn is_subscribed(&mut self, is_subscribed: bool) -> (r: &mut Self)
        ensures
            *r == (AddressBook { is_subscribed: Some(is_subscribed), ..*old(self) }),
            *final(self) == *final(r),
    {
        self.is_subscribed = Some(is_subscribed);
        self
    }

    /// Sets the users it is shared with and their rights, or `null` to stop sharing.
    pub fn share_with(&mut self, share_with: Option<Vec<(String, AddressBookRights)>>) -> (r: &mut Self)
        ensures
            *r == (AddressBook { share_with: field_of(share_with), ..*old(self) }),
            *final(self) == *final(r),
    {
        self.share_with = match share_with {
            Some(v) => Field::Value(v),
            None => Field::Null,
        };
        self
    }
}

} // verus!
