//! Sort comparators of /query methods (RFC 8620 §5.5).
use vstd::prelude::*;

use crate::text::to_owned;

verus! {

/// A sort criterion: the property to sort by, the direction, and an
/// optional collation algorithm.
#[derive(Debug, Clone)]
pub struct Comparator<A> {
    pub property: A,
    pub is_ascending: bool,
    pub collation: Option<String>,
}

impl<A> Comparator<A> {
    /// Sorts by `property`, ascending (the protocol's default).
    pub fn new(property: A) -> (r: Self)
        ensures
            r.property == property,
            r.is_ascending,
            r.collation is None,
    {
        Comparator { property, is_ascending: true, collation: None }
    }

    /// Sorts in descending order.
    pub fn descending(self) -> (r: Self)
        ensures
            r == (Comparator { is_ascending: false, ..self }),
    {
        Comparator { is_ascending: false, ..self }
    }

    /// Sorts in ascending order.
    pub fn ascending(self) -> (r: Self)
        ensures
            r == (Comparator { is_ascending: true, ..self }),
    {
        Comparator { is_ascending: true, ..self }
    }

    /// Compares with the given collation algorithm.
    pub fn collation(self, collation: &str) -> (r: Self)
        ensures
            r.property == self.property,
            r.is_ascending == self.is_ascending,
            r.collation matches Some(c) && c@ == collation@,
    {
        Comparator { collation: Some(to_owned(collation)), ..self }
    }
}

} // verus!
