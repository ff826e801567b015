//! Handles to the resources of a table.

use std::marker::PhantomData;
use vstd::prelude::*;

verus! {

/// A handle to a resource of type `T`: its index in the table, and whether the
/// holder owns the resource or only borrows it.
#[derive(Debug)]
pub struct Resource<T> {
    rep: u32,
    own: bool,
    ty: PhantomData<T>,
}

impl<T> Resource<T> {
    /// The index in the table.
    pub closed spec fn index(&self) -> u32 {
        self.rep
    }

    /// Whether the handle owns the resource.
    pub closed spec fn is_owned(&self) -> bool {
        self.own
    }

    /// A handle that owns the resource at `rep`.
    pub fn new_own(rep: u32) -> (r: Resource<T>)
        ensures
            r.index() == rep,
            r.is_owned(),
    {
        Resource { rep, own: true, ty: PhantomData }
    }

    /// A handle that borrows the resource at `rep`.
    pub fn new_borrow(rep: u32) -> (r: Resource<T>)
        ensures
            r.index() == rep,
            !r.is_owned(),
    {
        Resource { rep, own: false, ty: PhantomData }
    }

    /// The index in the table.
    pub fn rep(&self) -> (rep: u32)
        ensures
            rep == self.index(),
    {
        self.rep
    }

    /// Whether the handle owns the resource.
    pub fn owned(&self) -> (b: bool)
        ensures
            b == self.is_owned(),
    {
        self.own
    }
}

} // verus!
