//! Typed identifiers.
use vstd::prelude::*;

use crate::text::{copy_string, str_eq, to_owned};

verus! {

/// A JMAP identifier tagged with the kind of object it names.
#[derive(Debug, Hash)]
pub struct Id<T: ?Sized>(pub String, pub std::marker::PhantomData<T>);

impl<T: ?Sized> Id<T> {
    /// An identifier with the given text.
    pub fn new(id: &str) -> (r: Self)
        ensures
            r.0@ == id@,
    {
        Id(to_owned(id), std::marker::PhantomData)
    }

    /// The identifier's text.
    pub fn as_str(&self) -> (r: &str)
        ensures
            r@ == self.0@,
    {
        self.0.as_str()
    }

    /// The identifier's text, as a new string.
    pub fn to_string(&self) -> (r: String)
        ensures
            r@ == self.0@,
    {
        copy_string(&self.0)
    }

    /// The identifier's text, taking the identifier.
    pub fn into_string(self) -> (r: String)
        ensures
            r == self.0,
    {
        self.0
    }
}

impl<T: ?Sized> Clone for Id<T> {
    fn clone(&self) -> (r: Self)
        ensures
            r.0@ == self.0@,
    {
        Id(copy_string(&self.0), std::marker::PhantomData)
    }
}

impl<T: ?Sized> PartialEq for Id<T> {
    fn eq(&self, other: &Self) -> (r: bool) {
        str_eq(self.0.as_str(), other.0.as_str())
    }
}

impl<T: ?Sized> vstd::std_specs::cmp::PartialEqSpecImpl for Id<T> {
    open spec fn obeys_eq_spec() -> bool {
        true
    }

    open spec fn eq_spec(&self, other: &Self) -> bool {
        self.0@ == other.0@
    }
}

impl<T: ?Sized> Eq for Id<T> {
}

impl<T: ?Sized> From<String> for Id<T> {
    fn from(s: String) -> (r: Self) {
        Id(s, std::marker::PhantomData)
    }
}

impl<T: ?Sized> vstd::std_specs::convert::FromSpecImpl<String> for Id<T> {
    open spec fn obeys_from_spec() -> bool {
        true
    }

    open spec fn from_spec(s: String) -> Self {
        Id(s, std::marker::PhantomData)
    }
}

impl<'a, T: ?Sized> From<&'a str> for Id<T> {
    fn from(s: &'a str) -> (r: Self)
        ensures
            r.0@ == s@,
    {
        Id(to_owned(s), std::marker::PhantomData)
    }
}

/// A string slice gives an identifier with its text; which `String` holds
/// it is not fixed by the text, so the conversion is stated by the `ensures`
/// of `from` rather than as an equation.
impl<'a, T: ?Sized> vstd::std_specs::convert::FromSpecImpl<&'a str> for Id<T> {
    open spec fn obeys_from_spec() -> bool {
        false
    }

    open spec fn from_spec(s: &'a str) -> Self {
        choose|r: Id<T>| r.0@ == s@
    }
}

impl<T: ?Sized> AsRef<str> for Id<T> {
    fn as_ref(&self) -> (r: &str) {
        self.0.as_str()
    }
}

/// Marker for account ids (never made: it only tags identifiers).
pub struct Account {
    _private: (),
}

/// Marker for blob ids.
pub struct BlobMarker {
    _private: (),
}

/// Marker for state tokens.
pub struct StateMarker {
    _private: (),
}

/// An account id.
pub type AccountId = Id<Account>;

/// A blob id.
pub type BlobId = Id<BlobMarker>;

/// A state token.
pub type State = Id<StateMarker>;

} // verus!
