//! Nullable and non-null handles onto runtime-owned objects.

use std::marker::PhantomData;
use vstd::prelude::*;

verus! {

/// Nullable handle onto a runtime object of type `T`, tagged with `G`.
///
/// The handle holds the object's address; `0` stands for null.
pub struct Ref<T, G> {
    addr: usize,
    _target: PhantomData<T>,
    _marker: PhantomData<G>,
}

/// Non-null handle onto a runtime object of type `T`, tagged with `G`.
pub struct NonNullRef<T, G> {
    addr: usize,
    _target: PhantomData<T>,
    _marker: PhantomData<G>,
}

impl<T, G> View for Ref<T, G> {
    type V = usize;

    /// The address the handle holds.
    closed spec fn view(&self) -> usize {
        self.addr
    }
}

impl<T, G> View for NonNullRef<T, G> {
    type V = usize;

    /// The address the handle holds.
    closed spec fn view(&self) -> usize {
        self.addr
    }
}

impl<T, G> Ref<T, G> {
    /// The handle at address `addr`.
    pub closed spec fn spec_new(addr: usize) -> Self {
        Ref { addr, _target: PhantomData, _marker: PhantomData }
    }

    /// Creates a handle from an address, which may be `0`.
    pub fn new(addr: usize) -> (r: Self)
        ensures
            r@ == addr,
    {
        Ref { addr, _target: PhantomData, _marker: PhantomData }
    }

    /// Creates a null handle.
    pub fn null() -> (r: Self)
        ensures
            r@ == 0,
    {
        Ref { addr: 0, _target: PhantomData, _marker: PhantomData }
    }

    /// Returns the address the handle holds.
    pub fn as_ptr(self) -> (r: usize)
        ensures
            r == self@,
    {
        self.addr
    }

    /// Whether the handle is null.
    pub fn is_null(self) -> (r: bool)
        ensures
            r == (self@ == 0),
    {
        self.addr == 0
    }

    /// Converts to a non-null handle, or `None` when the handle is null.
    pub fn non_null(self) -> (r: Option<NonNullRef<T, G>>)
        ensures
            r is Some <==> self@ != 0,
            r matches Some(n) ==> n@ == self@,
    {
        NonNullRef::from_ptr(self.addr)
    }

    /// Converts to a non-null handle; the handle must not be null.
    pub fn unwrap_non_null(self) -> (r: NonNullRef<T, G>)
        requires
            self@ != 0,
        ensures
            r@ == self@,
    {
        NonNullRef { addr: self.addr, _target: PhantomData, _marker: PhantomData }
    }
}

impl<T, G> NonNullRef<T, G> {
    /// Well-formedness: the address is never null.
    #[verifier::type_invariant]
    spec fn inv(self) -> bool {
        self.addr != 0
    }

    /// Creates a handle from an address, or `None` when the address is `0`.
    pub fn from_ptr(addr: usize) -> (r: Option<Self>)
        ensures
            r is Some <==> addr != 0,
            r matches Some(n) ==> n@ == addr,
    {
        if addr != 0 {
            Some(NonNullRef { addr, _target: PhantomData, _marker: PhantomData })
        } else {
            None
        }
    }

    /// Returns the address the handle holds, which is never `0`.
    pub fn as_ptr(self) -> (r: usize)
        ensures
            r == self@,
            r != 0,
    {
        proof {
            use_type_invariant(&self);
        }
        self.addr
    }

    /// Reinterprets the handle under another tag, keeping its address.
    pub(crate) fn retag<H>(self) -> (r: NonNullRef<T, H>)
        ensures
            r@ == self@,
    {
        proof {
            use_type_invariant(&self);
        }
        NonNullRef { addr: self.addr, _target: PhantomData, _marker: PhantomData }
    }
}


/// The handle [`Ref::spec_new`] builds holds the address it was given.
pub broadcast proof fn lemma_spec_new_view<T, G>(addr: usize)
    ensures
        #[trigger] Ref::<T, G>::spec_new(addr)@ == addr,
{
}

impl<T, G> Clone for Ref<T, G> {
    fn clone(&self) -> (r: Self)
        ensures
            r@ == self@,
    {
        *self
    }
}

impl<T, G> Copy for Ref<T, G> {

}

impl<T, G> Clone for NonNullRef<T, G> {
    fn clone(&self) -> (r: Self)
        ensures
            r@ == self@,
    {
        *self
    }
}

impl<T, G> Copy for NonNullRef<T, G> {

}

impl<T, G> PartialEq for Ref<T, G> {
    /// Two handles are equal when they hold the same address.
    fn eq(&self, other: &Self) -> (r: bool) {
        self.addr == other.addr
    }
}

impl<T, G> vstd::std_specs::cmp::PartialEqSpecImpl for Ref<T, G> {
    open spec fn obeys_eq_spec() -> bool {
        true
    }

    open spec fn eq_spec(&self, other: &Self) -> bool {
        self@ == other@
    }
}

impl<T, G> Eq for Ref<T, G> {

}

impl<T, G> PartialOrd for Ref<T, G> {
    /// Handles are ordered by address.
    fn partial_cmp(&self, other: &Self) -> (r: Option<std::cmp::Ordering>) {
        if self.addr < other.addr {
            Some(std::cmp::Ordering::Less)
        } else if self.addr == other.addr {
            Some(std::cmp::Ordering::Equal)
        } else {
            Some(std::cmp::Ordering::Greater)
        }
    }
}

impl<T, G> vstd::std_specs::cmp::PartialOrdSpecImpl for Ref<T, G> {
    open spec fn obeys_partial_cmp_spec() -> bool {
        true
    }

    open spec fn partial_cmp_spec(&self, other: &Self) -> Option<std::cmp::Ordering> {
        if self@ < other@ {
            Some(std::cmp::Ordering::Less)
        } else if self@ == other@ {
            Some(std::cmp::Ordering::Equal)
        } else {
            Some(std::cmp::Ordering::Greater)
        }
    }
}

/// Relies on `<usize as Hash>::hash`, which feeds the integer to the hasher;
/// nothing is claimed of the hasher's state afterwards.
pub assume_specification<H: std::hash::Hasher>[ <usize as std::hash::Hash>::hash::<H> ](
    value: &usize,
    state: &mut H,
);

impl<T, G> std::hash::Hash for Ref<T, G> {
    /// Hashes the address only.
    fn hash<H: std::hash::Hasher>(&self, state: &mut H) {
        self.addr.hash(state)
    }
}

impl<T, G> Default for Ref<T, G> {
    /// The default handle is null.
    fn default() -> (r: Self)
        ensures
            r@ == 0,
    {
        Ref::null()
    }
}

impl<T, G> From<NonNullRef<T, G>> for Ref<T, G> {
    /// A non-null handle seen as a nullable one, at the same address.
    fn from(value: NonNullRef<T, G>) -> (r: Self) {
        Ref::new(value.as_ptr())
    }
}

impl<T, G> vstd::std_specs::convert::FromSpecImpl<NonNullRef<T, G>> for Ref<T, G> {
    open spec fn obeys_from_spec() -> bool {
        true
    }

    open spec fn from_spec(value: NonNullRef<T, G>) -> Self {
        Ref::spec_new(value@)
    }
}

} // verus!
