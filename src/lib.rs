//! Typed fat pointers: an address paired with out-of-band metadata whose
//! shape is chosen by the pointee kind.
//!
//! Addresses are held as plain non-zero integers. Turning one back into a
//! real pointer, and reading through it, is left to unverified callers.

use std::marker::PhantomData;
use vstd::prelude::*;

verus! {

/// Associates a pointee kind with the type of metadata that a pointer to it
/// carries beside its address.
pub trait Pointee {
    type Metadata: Copy + Eq + Ord + std::hash::Hash + std::fmt::Debug;
}

impl<E> Pointee for [E] {
    /// Number of elements.
    type Metadata = usize;
}

impl Pointee for str {
    /// Number of bytes.
    type Metadata = usize;
}

/// An address together with the metadata needed to view the value there as
/// a `T`. It owns nothing and checks nothing against real storage.
#[derive(Debug, PartialEq, Eq, PartialOrd, Ord, Hash)]
pub struct PayloadPointer<T: ?Sized + Pointee> {
    ptr: usize,
    meta: <T as Pointee>::Metadata,
    _marker: PhantomData<T>,
}

impl<T: ?Sized + Pointee> Clone for PayloadPointer<T> {
    fn clone(&self) -> (r: Self)
        ensures
            r == *self,
    {
        *self
    }
}

impl<T: ?Sized + Pointee> Copy for PayloadPointer<T> {

}

impl<T: ?Sized + Pointee> PayloadPointer<T> {
    /// The address is never zero.
    #[verifier::type_invariant]
    spec fn non_null(self) -> bool {
        self.ptr != 0
    }

    /// The stored address.
    pub closed spec fn spec_addr(self) -> usize {
        self.ptr
    }

    /// The stored metadata.
    pub closed spec fn spec_meta(self) -> <T as Pointee>::Metadata {
        self.meta
    }

    /// The pointer as its two parts.
    pub open spec fn view(self) -> (usize, <T as Pointee>::Metadata) {
        (self.spec_addr(), self.spec_meta())
    }

    /// Returns the metadata of the pointee.
    pub fn metadata_of(self) -> (r: <T as Pointee>::Metadata)
        ensures
            r == self.spec_meta(),
    {
        self.meta
    }

    /// Returns the address.
    pub fn addr(self) -> (r: usize)
        ensures
            r == self.spec_addr(),
            r != 0,
    {
        proof {
            use_type_invariant(self);
        }
        self.ptr
    }

    /// The pointer with the given parts.
    pub closed spec fn spec_from_raw_parts(ptr: usize, meta: <T as Pointee>::Metadata) -> Self {
        PayloadPointer { ptr, meta, _marker: PhantomData }
    }

    /// Builds a pointer from a non-zero address and any metadata, with no
    /// check that either describes live storage.
    pub fn from_raw_parts(ptr: usize, meta: <T as Pointee>::Metadata) -> (r: PayloadPointer<T>)
        requires
            ptr != 0,
        ensures
            r == Self::spec_from_raw_parts(ptr, meta),
            r@ == (ptr, meta),
    {
        PayloadPointer { ptr, meta, _marker: PhantomData }
    }

    /// Splits a pointer to a fixed-size pointee into its address and its
    /// metadata.
    pub fn into_raw_parts(self) -> (r: (usize, <T as Pointee>::Metadata))
        where
            T: Sized,
        ensures
            r == self@,
            r.0 != 0,
    {
        proof {
            use_type_invariant(self);
        }
        (self.ptr, self.meta)
    }

    /// The address, as a thin pointer to a fixed-size pointee would hold it;
    /// the metadata is dropped.
    pub fn as_ptr(self) -> (r: usize)
        where
            T: Sized,
        ensures
            r == self.spec_addr(),
            r != 0,
    {
        proof {
            use_type_invariant(self);
        }
        self.ptr
    }

    /// Splitting a pointer built from an address and a metadata value gives
    /// back that address and that value.
    pub proof fn lemma_round_trip(ptr: usize, meta: <T as Pointee>::Metadata)
        requires
            ptr != 0,
        ensures
            Self::spec_from_raw_parts(ptr, meta)@ == (ptr, meta),
    {
    }

    /// Two pointers are the same value exactly when their addresses are equal
    /// and their metadata values are equal.
    pub proof fn lemma_eq_iff_parts(p: Self, q: Self)
        ensures
            (p == q) <==> (p@ == q@),
    {
    }
}

impl<E> PayloadPointer<[E]> {
    /// The address and the element count of the sequence view.
    pub fn to_raw_slice(self) -> (r: (usize, usize))
        ensures
            r == self@,
            r.0 != 0,
    {
        proof {
            use_type_invariant(self);
        }
        (self.ptr, self.meta)
    }
}

impl PayloadPointer<str> {
    /// The address and the byte length of the text view. Nothing here checks
    /// that the bytes are valid UTF-8.
    pub fn to_raw_str(self) -> (r: (usize, usize))
        ensures
            r == self@,
            r.0 != 0,
    {
        proof {
            use_type_invariant(self);
        }
        (self.ptr, self.meta)
    }
}

/// Relies on `std::ptr::from_ref` and `<*const S>::expose_provenance`: a
/// reference is never null, so its address is never zero. The provenance is
/// exposed so that the address can later be turned back into a pointer.
#[verifier::external_body]
fn address_of<S: ?Sized>(r: &S) -> (a: usize)
    ensures
        a != 0,
{
    std::ptr::from_ref(r).expose_provenance()
}

/// Builds pointers to `Self` whose address comes from a reference to an
/// `AddrSource` and whose metadata is supplied by the caller. What the
/// source itself would report as its metadata (a slice's length, an array's
/// size) is never consulted, so a caller may view the same storage with any
/// shape it claims; nothing checks that claim.
pub trait GetRawPtr<AddrSource: ?Sized>: Pointee {
    /// Address from a shared reference, metadata from `meta`.
    fn get_raw_const_ptr_from_ref(addr: &AddrSource, meta: <Self as Pointee>::Metadata) -> (r:
        PayloadPointer<Self>)
        ensures
            r.spec_meta() == meta,
            r.spec_addr() != 0,
    {
        let a: usize = address_of(addr);
        PayloadPointer::from_raw_parts(a, meta)
    }

    /// Address from a mutable reference, metadata from `meta`. The referent is
    /// left as it was.
    fn get_raw_mut_ptr_from_ref(addr: &mut AddrSource, meta: <Self as Pointee>::Metadata) -> (r:
        PayloadPointer<Self>)
        ensures
            r.spec_meta() == meta,
            r.spec_addr() != 0,
    {
        let a: usize = address_of(&*addr);
        PayloadPointer::from_raw_parts(a, meta)
    }
}

impl<E> GetRawPtr<[E]> for [E] {

}

/// Marker pointee kind for a two-dimensional view over elements `E`. Its
/// metadata is the pair of extents `Extents2D(rows, cols)`. Indexing up to
/// `(rows - 1, cols - 1)` stays in bounds only when the extents describe the
/// storage behind the address; nothing here checks that.
pub struct RawSlice2D<E> {
    _marker: PhantomData<E>,
}

impl<E> Clone for RawSlice2D<E> {
    fn clone(&self) -> (r: Self)
        ensures
            r == *self,
    {
        *self
    }
}

impl<E> Copy for RawSlice2D<E> {

}

/// The extents of a two-dimensional view: rows, then columns.
#[derive(Clone, Copy, Debug, PartialEq, Eq, PartialOrd, Ord, Hash)]
pub struct Extents2D(pub usize, pub usize);

impl<E> Pointee for RawSlice2D<E> {
    type Metadata = Extents2D;
}

impl<E> GetRawPtr<[E]> for RawSlice2D<E> {

}

} // verus!
