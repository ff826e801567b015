//! References to continuations, which are used to switch between stacks.

use vstd::prelude::*;

verus! {

/// Where a store keeps a reference that the host holds: the store, and the place
/// in it.
#[derive(Debug, Clone, Copy, PartialEq, Eq, Structural)]
pub struct GcRootIndex {
    pub store_id: u64,
    pub place: u64,
}

/// The reference is no longer held.
#[derive(Debug, Clone, Copy, PartialEq, Eq, Structural)]
pub struct Unrooted;

/// The types of references, as far as they are told apart here. One that has
/// nothing to do with continuations is given by its number.
#[derive(Debug, Clone, Copy, PartialEq, Eq, Structural)]
pub enum HeapType {
    /// Any continuation.
    Cont,
    /// A continuation of the type with this number.
    ConcreteCont(u32),
    Other(u32),
}

/// A `contref` GC reference: a reference to a continuation object.
#[derive(Debug, PartialEq, Eq, Structural)]
pub struct ContRef {
    pub inner: GcRootIndex,
}

impl ContRef {
    /// The reference that a root index stands for. A reference is nothing but a
    /// root index.
    pub fn from_index(index: GcRootIndex) -> (r: ContRef)
        ensures
            r.inner == index,
    {
        ContRef { inner: index }
    }

    /// The reference that a raw value stands for. Only the null reference, which
    /// is none, has a raw value so far.
    pub fn _from_raw(raw: u32) -> (r: Option<ContRef>)
        requires
            raw == 0,
        ensures
            r is None,
    {
        None
    }

    /// Converts this reference to a raw value.
    ///
    /// `rooted` says whether the store still holds the reference; it is an error
    /// if it does not. The value is only valid until the next garbage
    /// collection.
    pub fn to_raw(&self, rooted: bool) -> (r: Result<u32, Unrooted>)
        ensures
            r == (if rooted {
                Ok(0u32)
            } else {
                Err(Unrooted)
            }),
    {
        if !rooted {
            return Err(Unrooted);
        }
        self._to_raw()
    }

    /// The raw value of a reference that is held.
    pub fn _to_raw(&self) -> (r: Result<u32, Unrooted>)
        ensures
            r == Ok::<u32, Unrooted>(0),
    {
        Ok(0)
    }

    /// Whether this reference is of the type: that is so if it is a type of
    /// continuations.
    pub fn _matches_ty(&self, ty: &HeapType) -> (r: Result<bool, Unrooted>)
        ensures
            r == Ok::<bool, Unrooted>(*ty is Cont || *ty is ConcreteCont),
    {
        match ty {
            HeapType::Cont | HeapType::ConcreteCont(_) => Ok(true),
            HeapType::Other(_) => Ok(false),
        }
    }

    /// Whether this reference is held by the store with this number.
    pub fn comes_from_same_store(&self, store_id: u64) -> (b: bool)
        ensures
            b == (self.inner.store_id == store_id),
    {
        self.inner.store_id == store_id
    }
}

} // verus!
