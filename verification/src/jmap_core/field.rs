//! Three-state properties: omitted, explicitly null, or a value.
use vstd::prelude::*;

verus! {

/// A JMAP property that is either not included, explicitly `null`, or set
/// to a value.
#[derive(Debug, Clone, PartialEq, Eq, Hash)]
pub enum Field<T> {
    /// Not included (not requested, or not to be changed).
    Omitted,
    /// Explicitly `null`.
    Null,
    /// Set to a value.
    Value(T),
}

impl<T> Field<T> {
    /// The field as the property not included.
    pub fn default() -> (r: Self)
        ensures
            r is Omitted,
    {
        Field::Omitted
    }

    /// Whether the field is `Omitted`.
    pub fn is_omitted(&self) -> (r: bool)
        ensures
            r == self is Omitted,
    {
        match self {
            Field::Omitted => true,
            _ => false,
        }
    }

    /// Whether the field is `Null`.
    pub fn is_null(&self) -> (r: bool)
        ensures
            r == self is Null,
    {
        match self {
            Field::Null => true,
            _ => false,
        }
    }

    /// The value, where there is one.
    pub fn as_value(&self) -> (r: Option<&T>)
        ensures
            match self {
                Field::Value(v) => r == Some(v),
                _ => r is None,
            },
    {
        match self {
            Field::Value(v) => Some(v),
            _ => None,
        }
    }

    /// The field as nested options: `None` when omitted, `Some(None)` when
    /// null, `Some(Some(v))` for a value.
    pub fn as_option(&self) -> (r: Option<Option<&T>>)
        ensures
            match self {
                Field::Omitted => r is None,
                Field::Null => r == Some(None::<&T>),
                Field::Value(v) => r == Some(Some(v)),
            },
    {
        match self {
            Field::Omitted => None,
            Field::Null => Some(None),
            Field::Value(v) => Some(Some(v)),
        }
    }

    /// Applies `f` to the value, keeping `Omitted` and `Null`.
    pub fn map<U, F: FnOnce(T) -> U>(self, f: F) -> (r: Field<U>)
        requires
            self matches Field::Value(v) ==> f.requires((v,)),
        ensures
            field_mapped(self, f, r),
    {
        match self {
            Field::Omitted => Field::Omitted,
            Field::Null => Field::Null,
            Field::Value(v) => Field::Value(f(v)),
        }
    }
}

/// `r` is `f` mapped by `g`: `Omitted` and `Null` stay, and a value becomes
/// one that `g` may return for it.
pub open spec fn field_mapped<T, U, F: FnOnce(T) -> U>(f: Field<T>, g: F, r: Field<U>) -> bool {
    match f {
        Field::Omitted => r is Omitted,
        Field::Null => r is Null,
        Field::Value(v) => r matches Field::Value(u) && g.ensures((v,), u),
    }
}

/// The text of a string field, where it has a value.
pub open spec fn field_text(f: Field<String>) -> Option<Seq<char>> {
    match f {
        Field::Value(s) => Some(s@),
        _ => None,
    }
}

/// The field that an optional value sets: the value, or `null`.
pub open spec fn field_of<T>(v: Option<T>) -> Field<T> {
    match v {
        Some(x) => Field::Value(x),
        None => Field::Null,
    }
}

impl<T> Field<T> {
    /// The field as nested options, as `as_option` gives it.
    pub open spec fn spec_as_option(&self) -> Option<Option<&T>> {
        match self {
            Field::Omitted => None,
            Field::Null => Some(None),
            Field::Value(v) => Some(Some(v)),
        }
    }
}

/// Whether a field is `Omitted` (such a property is left out when written).
pub fn field_is_omitted<T>(field: &Field<T>) -> (r: bool)
    ensures
        r == field is Omitted,
{
    field.is_omitted()
}

/// Law: a field is in exactly one of its three states, and `as_option`
/// tells them apart: omitted is `None`, null is `Some(None)`, a value is
/// `Some(Some(v))`.
pub proof fn law_field_states<T>(f: Field<T>)
    ensures
        (f is Omitted) as int + (f is Null) as int + (f is Value) as int == 1,
{
}

/// Law: mapping a field with a function that gives back its argument
/// leaves the field as it was.
pub proof fn law_field_map_identity<T, F: FnOnce(T) -> T>(f: Field<T>, g: F, r: Field<T>)
    requires
        field_mapped(f, g, r),
        forall|x: T, y: T| #[trigger] g.ensures((x,), y) ==> y == x,
    ensures
        r == f,
{
}

} // verus!
