//! Storing values of several types side by side.
//!
//! A table keeps its values in one type, the universe `U`. A type `T` whose
//! values can live there says so through [`Erase<U>`], which turns a `T` into a
//! `U` and gives it back, provided that what is stored really is a `T`.

use crate::component::resources::HostHeapUsage;
use vstd::prelude::*;

verus! {

/// A type whose values can be stored in the universe `U` and found again. The
/// universe measures them as the type does.
pub trait Erase<U: HostHeapUsage>: HostHeapUsage + Sized {
    /// The universe's value for `self`.
    spec fn erased(self) -> U;

    /// The value of this type that `u` stands for, if it stands for one.
    spec fn recovered(u: U) -> Option<Self>;

    /// What was stored is what is found.
    proof fn stored_is_found(self)
        ensures
            Self::recovered(self.erased()) == Some(self),
    ;

    /// What is found is all that was stored.
    proof fn found_is_stored(u: U)
        ensures
            Self::recovered(u) matches Some(t) ==> t.erased() == u,
    ;

    /// A stored value reports what the value reports.
    proof fn usage_is_kept(self, bytes: usize)
        ensures
            self.erased().reports(bytes) <==> self.reports(bytes),
    ;

    /// Stores the value.
    fn erase(self) -> (u: U)
        ensures
            u == self.erased(),
    ;

    /// Takes the value out, or hands the universe's value back.
    fn downcast(u: U) -> (r: Result<Self, U>)
        ensures
            match r {
                Ok(t) => Self::recovered(u) == Some(t),
                Err(v) => Self::recovered(u) is None && v == u,
            },
    ;

    /// Looks at the value.
    fn downcast_ref(u: &U) -> (r: Option<&Self>)
        ensures
            match r {
                Some(t) => Self::recovered(*u) == Some(*t),
                None => Self::recovered(*u) is None,
            },
    ;

    /// Looks at the value in order to change it in place.
    fn downcast_mut(u: &mut U) -> (r: Option<&mut Self>)
        ensures
            match r {
                Some(t) => Self::recovered(*old(u)) == Some(*t)
                    && *final(u) == (*final(t)).erased(),
                None => Self::recovered(*old(u)) is None && *final(u) == *old(u),
            },
    ;
}

/// Every type is a universe for its own values.
impl<T: HostHeapUsage> Erase<T> for T {
    open spec fn erased(self) -> T {
        self
    }

    open spec fn recovered(u: T) -> Option<T> {
        Some(u)
    }

    proof fn stored_is_found(self) {
    }

    proof fn found_is_stored(u: T) {
    }

    proof fn usage_is_kept(self, bytes: usize) {
    }

    fn erase(self) -> (u: T) {
        self
    }

    fn downcast(u: T) -> (r: Result<T, T>) {
        Ok(u)
    }

    fn downcast_ref(u: &T) -> (r: Option<&T>) {
        Some(u)
    }

    fn downcast_mut(u: &mut T) -> (r: Option<&mut T>) {
        Some(u)
    }
}

/// What a table entry holds: a value, or the mark that a value was deleted here
/// and the slot is not to be used again.
pub enum Stored<U> {
    /// A value of the universe.
    Value(U),
    /// The mark left by a deletion that keeps the slot out of use.
    Tombstone,
}

impl<U: HostHeapUsage> Stored<U> {
    /// The `T` that is stored, if a `T` is stored. A tombstone is of no type
    /// but its own.
    pub open spec fn as_type<T: Erase<U>>(self) -> Option<T> {
        match self {
            Stored::Value(u) => T::recovered(u),
            Stored::Tombstone => None,
        }
    }

    /// Looks at the stored `T`.
    pub fn downcast_ref<T: Erase<U>>(&self) -> (r: Option<&T>)
        ensures
            match r {
                Some(t) => self.as_type::<T>() == Some(*t),
                None => self.as_type::<T>() is None,
            },
    {
        match self {
            Stored::Value(u) => T::downcast_ref(u),
            Stored::Tombstone => None,
        }
    }

    /// Looks at the stored `T` in order to change it in place.
    pub fn downcast_mut<T: Erase<U>>(&mut self) -> (r: Option<&mut T>)
        ensures
            match r {
                Some(t) => old(self).as_type::<T>() == Some(*t) && *final(self)
                    == Stored::<U>::Value((*final(t)).erased()),
                None => old(self).as_type::<T>() is None && *final(self) == *old(self),
            },
    {
        match self {
            Stored::Value(u) => T::downcast_mut(u),
            Stored::Tombstone => None,
        }
    }

    /// Takes the stored `T` out.
    pub fn downcast<T: Erase<U>>(self) -> (r: Result<T, Stored<U>>)
        ensures
            match r {
                Ok(t) => self.as_type::<T>() == Some(t),
                Err(s) => self.as_type::<T>() is None && s == self,
            },
    {
        match self {
            Stored::Value(u) => match T::downcast(u) {
                Ok(t) => Ok(t),
                Err(v) => Err(Stored::Value(v)),
            },
            Stored::Tombstone => Err(Stored::Tombstone),
        }
    }
}

impl<U> Stored<U> {
    /// Whether this is the mark of a deletion.
    pub fn is_tombstone(&self) -> (b: bool)
        ensures
            b == (*self is Tombstone),
    {
        match self {
            Stored::Value(_) => false,
            Stored::Tombstone => true,
        }
    }
}

} // verus!
