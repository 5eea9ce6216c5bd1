//! JMAP method calls: their wire names and the capabilities they need.
use vstd::prelude::*;

use crate::jmap_core::capability::Capability;

verus! {

/// A JMAP method call type, such as `Blob/get`: its wire name and the
/// capability it needs.
pub trait JmapMethod {
    /// The capability that the method needs.
    type Cap: Capability;

    /// The method's wire name.
    spec fn spec_name() -> Seq<char>;

    fn name() -> (s: &'static str)
        ensures
            s@ == Self::spec_name(),
    ;
}

} // verus!
