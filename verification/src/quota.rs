//! Quotas (RFC 9425).
use vstd::prelude::*;

use crate::jmap_core::field::{field_text, Field};
use crate::jmap_core::query;
use crate::text::{opt_string_view, opt_text};
use crate::{Draft, Get};

verus! {

/// A quota: a limit on storage or on a count of objects.
#[derive(Debug)]
pub struct Quota<State = Get> {
    pub _create_id: Option<usize>,
    pub _state: std::marker::PhantomData<State>,
    pub id: Option<String>,
    pub resource_type: Option<String>,
    pub used: Option<u64>,
    pub hard_limit: Option<u64>,
    pub scope: Option<String>,
    pub name: Option<String>,
    pub types: Option<Vec<String>>,
    pub warn_limit: Field<u64>,
    pub soft_limit: Field<u64>,
    pub description: Field<String>,
}

/// Properties of a quota.
#[derive(Debug, Clone, Copy, PartialEq, Eq, Hash)]
#[non_exhaustive]
pub enum Property {
    Id,
    ResourceType,
    Used,
    HardLimit,
    Scope,
    Name,
    Types,
    WarnLimit,
    SoftLimit,
    Description,
}

/// The wire name of a `Property` value.
pub open spec fn quota_property_name(p: Property) -> Seq<char> {
    match p {
        Property::Id => "id"@,
        Property::ResourceType => "resourceType"@,
        Property::Used => "used"@,
        Property::HardLimit => "hardLimit"@,
        Property::Scope => "scope"@,
        Property::Name => "name"@,
        Property::Types => "types"@,
        Property::WarnLimit => "warnLimit"@,
        Property::SoftLimit => "softLimit"@,
        Property::Description => "description"@,
    }
}

impl Property {
    /// The property's name on the wire.
    pub fn as_str(&self) -> (s: &'static str)
        ensures
            s@ == quota_property_name(*self),
    {
        match self {
            Property::Id => "id",
            Property::ResourceType => "resourceType",
            Property::Used => "used",
            Property::HardLimit => "hardLimit",
            Property::Scope => "scope",
            Property::Name => "name",
            Property::Types => "types",
            Property::WarnLimit => "warnLimit",
            Property::SoftLimit => "softLimit",
            Property::Description => "description",
        }
    }
}

impl Quota<Get> {
    /// The id.
    pub fn id(&self) -> (r: Option<&str>)
        ensures
            opt_text(r) == opt_string_view(self.id),
    {
        match &self.id {
            Some(s) => Some(s.as_str()),
            None => None,
        }
    }

    /// Takes the id, leaving none; an object without id gives an empty
    /// text.
    pub fn take_id(&mut self) -> (r: String)
        ensures
            match old(self).id {
                Some(s) => r == s,
                None => r@ == Seq::<char>::empty(),
            },
            *final(self) == (Quota { id: None, ..*old(self) }),
    {
        match self.id.take() {
            Some(s) => s,
            None => String::new(),
        }
    }

    /// What is counted (`count` or `octets`).
    pub fn resource_type(&self) -> (r: Option<&str>)
        ensures
            opt_text(r) == opt_string_view(self.resource_type),
    {
        match &self.resource_type {
            Some(s) => Some(s.as_str()),
            None => None,
        }
    }

    /// How much is used.
    pub fn used(&self) -> (r: Option<u64>)
        ensures
            r == self.used,
    {
        self.used
    }

    /// The limit that cannot be exceeded.
    pub fn hard_limit(&self) -> (r: Option<u64>)
        ensures
            r == self.hard_limit,
    {
        self.hard_limit
    }

    /// Whom the quota applies to.
    pub fn scope(&self) -> (r: Option<&str>)
        ensures
            opt_text(r) == opt_string_view(self.scope),
    {
        match &self.scope {
            Some(s) => Some(s.as_str()),
            None => None,
        }
    }

    /// The name.
    pub fn name(&self) -> (r: Option<&str>)
        ensures
            opt_text(r) == opt_string_view(self.name),
    {
        match &self.name {
            Some(s) => Some(s.as_str()),
            None => None,
        }
    }

    /// The data types that the quota counts.
    pub fn types(&self) -> (r: Option<&Vec<String>>)
        ensures
            r == match &self.types {
                Some(v) => Some(v),
                None => None,
            },
    {
        self.types.as_ref()
    }

    /// The level at which the user is warned, where set.
    pub fn warn_limit(&self) -> (r: Option<u64>)
        ensures
            r == match self.warn_limit {
                Field::Value(v) => Some(v),
                _ => None,
            },
    {
        match &self.warn_limit {
            Field::Value(v) => Some(*v),
            _ => None,
        }
    }

    /// The level at which the user is warned, in its three states.
    pub fn warn_limit_field(&self) -> (r: &Field<u64>)
        ensures
            r == &self.warn_limit,
    {
        &self.warn_limit
    }

    /// The level past which the user is warned more strongly, where set.
    pub fn soft_limit(&self) -> (r: Option<u64>)
        ensures
            r == match self.soft_limit {
                Field::Value(v) => Some(v),
                _ => None,
            },
    {
        match &self.soft_limit {
            Field::Value(v) => Some(*v),
            _ => None,
        }
    }

    /// The level past which the user is warned more strongly, in its three states.
    pub fn soft_limit_field(&self) -> (r: &Field<u64>)
        ensures
            r == &self.soft_limit,
    {
        &self.soft_limit
    }

    /// The description, where it has one.
    pub fn description(&self) -> (r: Option<&str>)
        ensures
            opt_text(r) == field_text(self.description),
    {
        match &self.description {
            Field::Value(s) => Some(s.as_str()),
            _ => None,
        }
    }

    /// The description in its three states.
    pub fn description_field(&self) -> (r: &Field<String>)
        ensures
            r == &self.description,
    {
        &self.description
    }
}

impl Quota<Draft> {
    /// A quota object for a /set request, every property left out (quotas
    /// are read-only).
    pub fn new(create_id: Option<usize>) -> (r: Self)
        ensures
            r._create_id == create_id,
            r.id is None,
            r.resource_type is None,
            r.used is None,
            r.hard_limit is None,
            r.scope is None,
            r.name is None,
            r.types is None,
            r.warn_limit is Omitted,
            r.soft_limit is Omitted,
            r.description is Omitted,
    {
        Quota {
            _create_id: create_id,
            _state: std::marker::PhantomData,
            id: None,
            resource_type: None,
            used: None,
            hard_limit: None,
            scope: None,
            name: None,
            types: None,
            warn_limit: Field::Omitted,
            soft_limit: Field::Omitted,
            description: Field::Omitted,
        }
    }

    /// Quotas are not created: no creation id.
    pub fn create_id(&self) -> (r: Option<String>)
        ensures
            r is None,
    {
        None
    }
}

/// A condition of Quota/query.
#[derive(Debug, Clone)]
#[non_exhaustive]
pub enum Filter {
    Name { value: String },
    Scope { value: String },
    ResourceType { value: String },
    Type { value: String },
}

impl Filter {
    pub fn name(value: String) -> (r: Self)
        ensures
            r == (Filter::Name { value }),
    {
        Filter::Name { value }
    }

    pub fn scope(value: String) -> (r: Self)
        ensures
            r == (Filter::Scope { value }),
    {
        Filter::Scope { value }
    }

    pub fn resource_type(value: String) -> (r: Self)
        ensures
            r == (Filter::ResourceType { value }),
    {
        Filter::ResourceType { value }
    }

    pub fn type_(value: String) -> (r: Self)
        ensures
            r == (Filter::Type { value }),
    {
        Filter::Type { value }
    }
}

/// A property Quota/query can sort by.
#[derive(Debug, Clone, Copy, PartialEq, Eq)]
#[non_exhaustive]
pub enum Comparator {
    Name,
    Used,
}

impl Comparator {
    /// Sorts by `name`, ascending.
    pub fn name() -> (r: query::Comparator<Comparator>)
        ensures
            r.property == Comparator::Name,
            r.is_ascending,
            r.collation is None,
    {
        query::Comparator::new(Comparator::Name)
    }

    /// Sorts by `used`, ascending.
    pub fn used() -> (r: query::Comparator<Comparator>)
        ensures
            r.property == Comparator::Used,
            r.is_ascending,
            r.collation is None,
    {
        query::Comparator::new(Comparator::Used)
    }
}

} // verus!
