//! Filters and sort criteria of ContactCard/query.
use vstd::prelude::*;

use crate::jmap_core::query;

verus! {

/// A condition of ContactCard/query (RFC 9610 §3.3.1).
#[derive(Debug, Clone)]
pub enum Filter {
    InAddressBook { value: String },
    Uid { value: String },
    HasMember { value: String },
    Kind { value: String },
    CreatedBefore { value: String },
    CreatedAfter { value: String },
    UpdatedBefore { value: String },
    UpdatedAfter { value: String },
    Text { value: String },
    Name { value: String },
    NameGiven { value: String },
    NameSurname { value: String },
    NameSurname2 { value: String },
    Nickname { value: String },
    Organization { value: String },
    Email { value: String },
    Phone { value: String },
    OnlineService { value: String },
    Address { value: String },
    Note { value: String },
}

impl Filter {
    pub fn in_address_book(value: String) -> (r: Self)
        ensures
            r == (Filter::InAddressBook { value }),
    {
        Filter::InAddressBook { value }
    }

    pub fn uid(value: String) -> (r: Self)
        ensures
            r == (Filter::Uid { value }),
    {
        Filter::Uid { value }
    }

    pub fn has_member(value: String) -> (r: Self)
        ensures
            r == (Filter::HasMember { value }),
    {
        Filter::HasMember { value }
    }

    pub fn kind(value: String) -> (r: Self)
        ensures
            r == (Filter::Kind { value }),
    {
        Filter::Kind { value }
    }

    pub fn created_before(value: String) -> (r: Self)
        ensures
            r == (Filter::CreatedBefore { value }),
    {
        Filter::CreatedBefore { value }
    }

    pub fn created_after(value: String) -> (r: Self)
        ensures
            r == (Filter::CreatedAfter { value }),
    {
        Filter::CreatedAfter { value }
    }

    pub fn updated_before(value: String) -> (r: Self)
        ensures
            r == (Filter::UpdatedBefore { value }),
    {
        Filter::UpdatedBefore { value }
    }

    pub fn updated_after(value: String) -> (r: Self)
        ensures
            r == (Filter::UpdatedAfter { value }),
    {
        Filter::UpdatedAfter { value }
    }

    pub fn text(value: String) -> (r: Self)
        ensures
            r == (Filter::Text { value }),
    {
        Filter::Text { value }
    }

    pub fn name(value: String) -> (r: Self)
        ensures
            r == (Filter::Name { value }),
    {
        Filter::Name { value }
    }

    pub fn name_given(value: String) -> (r: Self)
        ensures
            r == (Filter::NameGiven { value }),
    {
        Filter::NameGiven { value }
    }

    pub fn name_surname(value: String) -> (r: Self)
        ensures
            r == (Filter::NameSurname { value }),
    {
        Filter::NameSurname { value }
    }

    pub fn name_surname2(value: String) -> (r: Self)
        ensures
            r == (Filter::NameSurname2 { value }),
    {
        Filter::NameSurname2 { value }
    }

    pub fn nickname(value: String) -> (r: Self)
        ensures
            r == (Filter::Nickname { value }),
    {
        Filter::Nickname { value }
    }

    pub fn organization(value: String) -> (r: Self)
        ensures
            r == (Filter::Organization { value }),
    {
        Filter::Organization { value }
    }

    pub fn email(value: String) -> (r: Self)
        ensures
            r == (Filter::Email { value }),
    {
        Filter::Email { value }
    }

    pub fn phone(value: String) -> (r: Self)
        ensures
            r == (Filter::Phone { value }),
    {
        Filter::Phone { value }
    }

    pub fn online_service(value: String) -> (r: Self)
        ensures
            r == (Filter::OnlineService { value }),
    {
        Filter::OnlineService { value }
    }

    pub fn address(value: String) -> (r: Self)
        ensures
            r == (Filter::Address { value }),
    {
        Filter::Address { value }
    }

    pub fn note(value: String) -> (r: Self)
        ensures
            r == (Filter::Note { value }),
    {
        Filter::Note { value }
    }
}

/// A property ContactCard/query can sort by.
#[derive(Debug, Clone, Copy, PartialEq, Eq)]
pub enum Comparator {
    Created,
    Updated,
    NameGiven,
    NameSurname,
    NameSurname2,
}

impl Comparator {
    /// Sorts by `created`, ascending.
    pub fn created() -> (r: query::Comparator<Comparator>)
        ensures
            r.property == Comparator::Created,
            r.is_ascending,
            r.collation is None,
    {
        query::Comparator::new(Comparator::Created)
    }

    /// Sorts by `updated`, ascending.
    pub fn updated() -> (r: query::Comparator<Comparator>)
        ensures
            r.property == Comparator::Updated,
            r.is_ascending,
            r.collation is None,
    {
        query::Comparator::new(Comparator::Updated)
    }

    /// Sorts by `name_given`, ascending.
    pub fn name_given() -> (r: query::Comparator<Comparator>)
        ensures
            r.property == Comparator::NameGiven,
            r.is_ascending,
            r.collation is None,
    {
        query::Comparator::new(Comparator::NameGiven)
    }

    /// Sorts by `name_surname`, ascending.
    pub fn name_surname() -> (r: query::Comparator<Comparator>)
        ensures
            r.property == Comparator::NameSurname,
            r.is_ascending,
            r.collation is None,
    {
        query::Comparator::new(Comparator::NameSurname)
    }

    /// Sorts by `name_surname2`, ascending.
    pub fn name_surname2() -> (r: query::Comparator<Comparator>)
        ensures
            r.property == Comparator::NameSurname2,
            r.is_ascending,
            r.collation is None,
    {
        query::Comparator::new(Comparator::NameSurname2)
    }
}

} // verus!
