//! The endian wrappers: an integer and a tag that says in which byte order it
//! stands on the wire. The tag matters to decoding alone: a wrapper is made
//! from its value, and compares as its value does.

use core::cmp::Ordering;
use vstd::prelude::*;
use vstd::std_specs::cmp::{PartialEqSpec, PartialEqSpecImpl, PartialOrdSpec, PartialOrdSpecImpl};
use vstd::std_specs::convert::FromSpecImpl;

verus! {

/// An integer that stands on the wire with its least significant byte first.
#[derive(Clone, Copy, Debug, Hash, Eq, Ord)]
pub struct Le<T>(pub T);

impl<T: Default> Default for Le<T> {
    /// The wrapper of the value's own default.
    fn default() -> (wrapped: Self)
        ensures
            call_ensures(T::default, (), wrapped.0),
    {
        Le(T::default())
    }
}

impl<T> From<T> for Le<T> {
    /// Tags `value` as little-endian; the value itself is unchanged.
    fn from(value: T) -> (wrapped: Self) {
        Le(value)
    }
}

impl<T> FromSpecImpl<T> for Le<T> {
    open spec fn obeys_from_spec() -> bool {
        true
    }

    open spec fn from_spec(value: T) -> Self {
        Le(value)
    }
}

impl<T: PartialEq> PartialEq for Le<T> {
    /// Two wrappers are equal where their values are.
    fn eq(&self, other: &Self) -> (r: bool) {
        self.0 == other.0
    }
}

impl<T: PartialEq> PartialEqSpecImpl for Le<T> {
    open spec fn obeys_eq_spec() -> bool {
        T::obeys_eq_spec()
    }

    open spec fn eq_spec(&self, other: &Self) -> bool {
        self.0.eq_spec(&other.0)
    }
}

impl<T: PartialOrd> PartialOrd for Le<T> {
    /// Two wrappers are ordered as their values are.
    fn partial_cmp(&self, other: &Self) -> (r: Option<Ordering>) {
        self.0.partial_cmp(&other.0)
    }
}

impl<T: PartialOrd> PartialOrdSpecImpl for Le<T> {
    open spec fn obeys_partial_cmp_spec() -> bool {
        T::obeys_partial_cmp_spec()
    }

    open spec fn partial_cmp_spec(&self, other: &Self) -> Option<Ordering> {
        self.0.partial_cmp_spec(&other.0)
    }
}

/// An integer that stands on the wire with its most significant byte first.
#[derive(Clone, Copy, Debug, Hash, Eq, Ord)]
pub struct Be<T>(pub T);

impl<T: Default> Default for Be<T> {
    /// The wrapper of the value's own default.
    fn default() -> (wrapped: Self)
        ensures
            call_ensures(T::default, (), wrapped.0),
    {
        Be(T::default())
    }
}

impl<T> From<T> for Be<T> {
    /// Tags `value` as big-endian; the value itself is unchanged.
    fn from(value: T) -> (wrapped: Self) {
        Be(value)
    }
}

impl<T> FromSpecImpl<T> for Be<T> {
    open spec fn obeys_from_spec() -> bool {
        true
    }

    open spec fn from_spec(value: T) -> Self {
        Be(value)
    }
}

impl<T: PartialEq> PartialEq for Be<T> {
    /// Two wrappers are equal where their values are.
    fn eq(&self, other: &Self) -> (r: bool) {
        self.0 == other.0
    }
}

impl<T: PartialEq> PartialEqSpecImpl for Be<T> {
    open spec fn obeys_eq_spec() -> bool {
        T::obeys_eq_spec()
    }

    open spec fn eq_spec(&self, other: &Self) -> bool {
        self.0.eq_spec(&other.0)
    }
}

impl<T: PartialOrd> PartialOrd for Be<T> {
    /// Two wrappers are ordered as their values are.
    fn partial_cmp(&self, other: &Self) -> (r: Option<Ordering>) {
        self.0.partial_cmp(&other.0)
    }
}

impl<T: PartialOrd> PartialOrdSpecImpl for Be<T> {
    open spec fn obeys_partial_cmp_spec() -> bool {
        T::obeys_partial_cmp_spec()
    }

    open spec fn partial_cmp_spec(&self, other: &Self) -> Option<Ordering> {
        self.0.partial_cmp_spec(&other.0)
    }
}

/// An integer that stands on the wire in the byte order of the machine.
#[derive(Clone, Copy, Debug, Hash, Eq, Ord)]
pub struct Ne<T>(pub T);

impl<T: Default> Default for Ne<T> {
    /// The wrapper of the value's own default.
    fn default() -> (wrapped: Self)
        ensures
            call_ensures(T::default, (), wrapped.0),
    {
        Ne(T::default())
    }
}

impl<T> From<T> for Ne<T> {
    /// Tags `value` as native-endian; the value itself is unchanged.
    fn from(value: T) -> (wrapped: Self) {
        Ne(value)
    }
}

impl<T> FromSpecImpl<T> for Ne<T> {
    open spec fn obeys_from_spec() -> bool {
        true
    }

    open spec fn from_spec(value: T) -> Self {
        Ne(value)
    }
}

impl<T: PartialEq> PartialEq for Ne<T> {
    /// Two wrappers are equal where their values are.
    fn eq(&self, other: &Self) -> (r: bool) {
        self.0 == other.0
    }
}

impl<T: PartialEq> PartialEqSpecImpl for Ne<T> {
    open spec fn obeys_eq_spec() -> bool {
        T::obeys_eq_spec()
    }

    open spec fn eq_spec(&self, other: &Self) -> bool {
        self.0.eq_spec(&other.0)
    }
}

impl<T: PartialOrd> PartialOrd for Ne<T> {
    /// Two wrappers are ordered as their values are.
    fn partial_cmp(&self, other: &Self) -> (r: Option<Ordering>) {
        self.0.partial_cmp(&other.0)
    }
}

impl<T: PartialOrd> PartialOrdSpecImpl for Ne<T> {
    open spec fn obeys_partial_cmp_spec() -> bool {
        T::obeys_partial_cmp_spec()
    }

    open spec fn partial_cmp_spec(&self, other: &Self) -> Option<Ordering> {
        self.0.partial_cmp_spec(&other.0)
    }
}

} // verus!
