//! JSContact property names of contact cards.
use vstd::prelude::*;
use vstd::string::*;

use crate::text::{str_eq, to_owned};

verus! {

/// Property names for ContactCard/get `properties` lists (JSContact, RFC 9553).
#[derive(Debug, Clone, PartialEq, Eq, Hash)]
pub enum Property {
    Id,
    Uid,
    AddressBookIds,
    Kind,
    FullName,
    Name,
    Nicknames,
    Emails,
    Phones,
    Addresses,
    Organizations,
    OnlineServices,
    Notes,
    Media,
    Created,
    Updated,
    /// Any property not covered by the named variants, vendor extensions
    /// among them.
    Other(String),
}

/// The name of a property on the wire.
pub open spec fn card_property_name(p: Property) -> Seq<char> {
    match p {
        Property::Id => "id"@,
        Property::Uid => "uid"@,
        Property::AddressBookIds => "addressBookIds"@,
        Property::Kind => "kind"@,
        Property::FullName => "fullName"@,
        Property::Name => "name"@,
        Property::Nicknames => "nicknames"@,
        Property::Emails => "emails"@,
        Property::Phones => "phones"@,
        Property::Addresses => "addresses"@,
        Property::Organizations => "organizations"@,
        Property::OnlineServices => "onlineServices"@,
        Property::Notes => "notes"@,
        Property::Media => "media"@,
        Property::Created => "created"@,
        Property::Updated => "updated"@,
        Property::Other(s) => s@,
    }
}

/// The named property that a wire name stands for, if any.
pub open spec fn card_standard_property(s: Seq<char>) -> Option<Property> {
    if s == "id"@ {
        Some(Property::Id)
    } else if s == "uid"@ {
        Some(Property::Uid)
    } else if s == "addressBookIds"@ {
        Some(Property::AddressBookIds)
    } else if s == "kind"@ {
        Some(Property::Kind)
    } else if s == "fullName"@ {
        Some(Property::FullName)
    } else if s == "name"@ {
        Some(Property::Name)
    } else if s == "nicknames"@ {
        Some(Property::Nicknames)
    } else if s == "emails"@ {
        Some(Property::Emails)
    } else if s == "phones"@ {
        Some(Property::Phones)
    } else if s == "addresses"@ {
        Some(Property::Addresses)
    } else if s == "organizations"@ {
        Some(Property::Organizations)
    } else if s == "onlineServices"@ {
        Some(Property::OnlineServices)
    } else if s == "notes"@ {
        Some(Property::Notes)
    } else if s == "media"@ {
        Some(Property::Media)
    } else if s == "created"@ {
        Some(Property::Created)
    } else if s == "updated"@ {
        Some(Property::Updated)
    } else {
        None
    }
}

/// The property named by a wire name.
pub open spec fn card_property_name_parses_to(s: Seq<char>, p: Property) -> bool {
    match card_standard_property(s) {
        Some(q) => p == q,
        None => p matches Property::Other(o) && o@ == s,
    }
}

impl Property {
    /// The property's name on the wire.
    pub fn as_str(&self) -> (s: &str)
        ensures
            s@ == card_property_name(*self),
    {
        match self {
            Property::Id => "id",
            Property::Uid => "uid",
            Property::AddressBookIds => "addressBookIds",
            Property::Kind => "kind",
            Property::FullName => "fullName",
            Property::Name => "name",
            Property::Nicknames => "nicknames",
            Property::Emails => "emails",
            Property::Phones => "phones",
            Property::Addresses => "addresses",
            Property::Organizations => "organizations",
            Property::OnlineServices => "onlineServices",
            Property::Notes => "notes",
            Property::Media => "media",
            Property::Created => "created",
            Property::Updated => "updated",
            Property::Other(s) => s.as_str(),
        }
    }

    /// The property that a wire name stands for: a named variant, or
    /// `Other` holding the name.
    pub fn from(s: &str) -> (p: Property)
        ensures
            card_property_name_parses_to(s@, p),
    {
        if str_eq(s, "id") {
            Property::Id
        } else if str_eq(s, "uid") {
            Property::Uid
        } else if str_eq(s, "addressBookIds") {
            Property::AddressBookIds
        } else if str_eq(s, "kind") {
            Property::Kind
        } else if str_eq(s, "fullName") {
            Property::FullName
        } else if str_eq(s, "name") {
            Property::Name
        } else if str_eq(s, "nicknames") {
            Property::Nicknames
        } else if str_eq(s, "emails") {
            Property::Emails
        } else if str_eq(s, "phones") {
            Property::Phones
        } else if str_eq(s, "addresses") {
            Property::Addresses
        } else if str_eq(s, "organizations") {
            Property::Organizations
        } else if str_eq(s, "onlineServices") {
            Property::OnlineServices
        } else if str_eq(s, "notes") {
            Property::Notes
        } else if str_eq(s, "media") {
            Property::Media
        } else if str_eq(s, "created") {
            Property::Created
        } else if str_eq(s, "updated") {
            Property::Updated
        } else {
            Property::Other(to_owned(s))
        }
    }
}

/// Law: the name of the property that a wire name stands for is that
/// wire name.
pub proof fn law_card_property_name_parse_then_render(s: Seq<char>, p: Property)
    requires
        card_property_name_parses_to(s, p),
    ensures
        card_property_name(p) == s,
{
}

/// Law: a named property's wire name stands for that property; for `Other`
/// the same holds unless its text is the wire name of a named property.
pub proof fn law_card_property_name_render_then_parse(p: Property)
    ensures
        !(p is Other) ==> card_standard_property(card_property_name(p)) == Some(p),
        p matches Property::Other(o) ==> (card_standard_property(o@) is None <==> card_property_name_parses_to(o@, p)),
{
    // The standard names, each once: names of different lengths differ by
    // length, names of one length at the character asserted below.
    reveal_strlit("id");
    reveal_strlit("uid");
    reveal_strlit("addressBookIds");
    reveal_strlit("kind");
    reveal_strlit("fullName");
    reveal_strlit("name");
    reveal_strlit("nicknames");
    reveal_strlit("emails");
    reveal_strlit("phones");
    reveal_strlit("addresses");
    reveal_strlit("organizations");
    reveal_strlit("onlineServices");
    reveal_strlit("notes");
    reveal_strlit("media");
    reveal_strlit("created");
    reveal_strlit("updated");
    assert("addressBookIds"@[0] != "onlineServices"@[0]);
    assert("kind"@[0] != "name"@[0]);
    assert("nicknames"@[0] != "addresses"@[0]);
    assert("emails"@[0] != "phones"@[0]);
    assert("notes"@[0] != "media"@[0]);
    assert("created"@[0] != "updated"@[0]);
    assert("id"@.len() == 2);
    assert("uid"@.len() == 3);
    assert("addressBookIds"@.len() == 14);
    assert("kind"@.len() == 4);
    assert("fullName"@.len() == 8);
    assert("name"@.len() == 4);
    assert("nicknames"@.len() == 9);
    assert("emails"@.len() == 6);
    assert("phones"@.len() == 6);
    assert("addresses"@.len() == 9);
    assert("organizations"@.len() == 13);
    assert("onlineServices"@.len() == 14);
    assert("notes"@.len() == 5);
    assert("media"@.len() == 5);
    assert("created"@.len() == 7);
    assert("updated"@.len() == 7);
    match p {
        Property::Id => {},
        Property::Uid => {},
        Property::AddressBookIds => {},
        Property::Kind => {},
        Property::FullName => {},
        Property::Name => {},
        Property::Nicknames => {},
        Property::Emails => {},
        Property::Phones => {},
        Property::Addresses => {},
        Property::Organizations => {},
        Property::OnlineServices => {},
        Property::Notes => {},
        Property::Media => {},
        Property::Created => {},
        Property::Updated => {},
        Property::Other(_) => {},
    }
}

} // verus!
