//! The downcast protocol over generic host values.
//!
//! Every concrete value variant supplies three things: a way to widen its
//! typed handle to the opaque host reference (always safe), a way to
//! reconstruct the typed handle from an opaque reference (unchecked — sound
//! only after the type tag has been confirmed), and a predicate that asks the
//! host whether some value's reference carries this variant's type tag. The
//! checked downcast composes them: test the tag first, reconstruct only on a
//! positive answer.

use vstd::prelude::*;
use crate::host::Host;
use crate::host::Local;

verus! {

/// A concrete value variant over host-runtime values.
pub trait Any: Sized + Copy {
    /// The opaque host reference this handle wraps.
    spec fn raw(self) -> Local;

    /// What the host's type tag must say of a reference for the value behind
    /// it to be of this variant.
    spec fn kind_matches(host: Host, h: Local) -> bool;

    /// Widening: extract the underlying opaque host reference.
    fn to_raw(self) -> (r: Local)
        ensures
            r == self.raw(),
    ;

    /// Reconstruct a typed handle from an opaque reference. Performs no
    /// validation: call it only after `is_typeof` has confirmed the tag.
    fn from_raw(h: Local) -> (r: Self)
        ensures
            r.raw() == h,
    ;

    /// Type-tag predicate: does the value behind the reference `other` —
    /// taken from any other value by widening — carry this variant's tag?
    /// A pure query against the host; it cannot fail.
    fn is_typeof(host: &Host, other: Local) -> (b: bool)
        requires
            host.live(other),
        ensures
            b == Self::kind_matches(*host, other),
    ;
}

/// A generic handle: a live host value of unknown variant. A typed handle is
/// obtained from it only through the checked downcast.
#[derive(Clone, Copy)]
pub struct SomeObject(Local);

impl Any for SomeObject {
    closed spec fn raw(self) -> Local {
        self.0
    }

    /// Every live value matches the generic variant.
    open spec fn kind_matches(host: Host, h: Local) -> bool {
        host.live(h)
    }

    fn to_raw(self) -> Local {
        self.0
    }

    fn from_raw(h: Local) -> Self {
        SomeObject(h)
    }

    fn is_typeof(host: &Host, other: Local) -> bool {
        true
    }
}

/// The checked downcast: reinterpret `other` as variant `V` exactly when the
/// host's type tag for it matches `V`, preserving the opaque reference. This
/// is the only sanctioned path from a generic handle to a typed one.
pub fn downcast<V: Any, O: Any>(host: &Host, other: O) -> (r: Option<V>)
    requires
        host.live(other.raw()),
    ensures
        match r {
            Some(v) => V::kind_matches(*host, other.raw()) && v.raw() == other.raw(),
            None => !V::kind_matches(*host, other.raw()),
        },
{
    let h = other.to_raw();
    if V::is_typeof(host, h) {
        Some(V::from_raw(h))
    } else {
        None
    }
}

} // verus!
