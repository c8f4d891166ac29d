//! A checked pointer to a foreign object: an address that is known not to be
//! null. The object behind it is never touched here.

use std::marker::PhantomData;
use vstd::prelude::*;

verus! {

/// Marks a pointer to an object of the base interface.
#[derive(Clone, Copy, Debug, PartialEq, Eq)]
pub struct IUnknown;

/// Marks a pointer to an object of the dispatch interface.
#[derive(Clone, Copy, Debug, PartialEq, Eq)]
pub struct IDispatch;

/// Marks a pointer to a value of a type that is not known.
#[derive(Clone, Copy, Debug, PartialEq, Eq)]
pub struct Void;

/// The address of a `T` that is not null. The pointer does not own what it
/// points to.
#[derive(Debug, PartialEq, Eq)]
pub struct Ptr<T> {
    addr: usize,
    marker: PhantomData<T>,
}

impl<T> Ptr<T> {
    #[verifier::type_invariant]
    spec fn not_null(self) -> bool {
        self.addr != 0
    }

    /// The address held.
    pub closed spec fn addr(self) -> usize {
        self.addr
    }

    /// The pointer that holds `addr`.
    pub closed spec fn at(addr: usize) -> Ptr<T> {
        Ptr { addr, marker: PhantomData }
    }

    /// A pointer is the pointer at its own address, and its address is what
    /// it was made at.
    pub proof fn lemma_at_addr(p: Ptr<T>, addr: usize)
        ensures
            Ptr::<T>::at(p.addr()) == p,
            Ptr::<T>::at(addr).addr() == addr,
    {
    }

    /// Checks `addr` for null: `None` for the null address, the pointer at
    /// `addr` for any other.
    pub fn with_checked(addr: usize) -> (r: Option<Ptr<T>>)
        ensures
            addr == 0 ==> r is None,
            addr != 0 ==> r == Some(Ptr::<T>::at(addr)),
    {
        if addr == 0 {
            None
        } else {
            Some(Ptr { addr, marker: PhantomData })
        }
    }

    /// The raw address, which is never null.
    pub fn as_ptr(&self) -> (addr: usize)
        ensures
            addr == self.addr(),
            addr != 0,
    {
        proof {
            use_type_invariant(self);
        }
        self.addr
    }
}

} // verus!
