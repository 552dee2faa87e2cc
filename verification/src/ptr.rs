//! Pointers to records that the boot loader owns.

use vstd::prelude::*;

verus! {

/// What a pointer to a loader-owned record stands for: the address the
/// loader gave and the record that lives there.
pub struct Located<T> {
    pub addr: usize,
    pub value: T,
}

/// A pointer to a loader-owned record that is never null.
///
/// The loader uses these for the elements of arrays it has promised to
/// fill completely.
#[derive(Debug)]
pub struct NonNullPtr<T: 'static> {
    addr: usize,
    target: &'static T,
}

impl<T> View for NonNullPtr<T> {
    type V = Located<T>;

    closed spec fn view(&self) -> Located<T> {
        Located { addr: self.addr, value: *self.target }
    }
}

impl<T> Clone for NonNullPtr<T> {
    fn clone(&self) -> (copy: Self)
        ensures
            copy == *self,
    {
        proof {
            use_type_invariant(self);
        }
        NonNullPtr { addr: self.addr, target: self.target }
    }
}

impl<T> Copy for NonNullPtr<T> {}

impl<T> core::ops::Deref for NonNullPtr<T> {
    type Target = T;

    fn deref(&self) -> (target: &T)
        ensures
            *target == self@.value,
    {
        self.target
    }
}

impl<T> NonNullPtr<T> {
    #[verifier::type_invariant]
    spec fn inv(self) -> bool {
        self.addr != 0
    }

    /// Pairs a record with the address the loader gave for it. The
    /// null address stands for no record at all and is turned away.
    pub fn new(addr: usize, target: &'static T) -> (ptr: Option<Self>)
        ensures
            ptr is None <==> addr == 0,
            ptr matches Some(p) ==> p@ == (Located { addr, value: *target }),
    {
        if addr == 0 {
            None
        } else {
            Some(NonNullPtr { addr, target })
        }
    }

    /// The raw address. Nothing is read through it.
    pub fn as_ptr(&self) -> (addr: usize)
        ensures
            addr == self@.addr,
            addr != 0,
    {
        proof {
            use_type_invariant(self);
        }
        self.addr
    }

    /// A shared view of the record, good for as long as the record is.
    pub fn get(&self) -> (target: &'static T)
        ensures
            *target == self@.value,
    {
        self.target
    }
}

/// A pointer to a loader-owned record that the loader may not have
/// written yet.
///
/// Absence is an ordinary answer: the loader leaves a slot empty when it
/// does not support the feature that was asked for.
#[derive(Debug)]
pub struct LiminePtr<T: 'static> {
    ptr: Option<NonNullPtr<T>>,
}

impl<T> View for LiminePtr<T> {
    type V = Option<Located<T>>;

    closed spec fn view(&self) -> Option<Located<T>> {
        match self.ptr {
            Some(p) => Some(p@),
            None => None,
        }
    }
}

impl<T> Clone for LiminePtr<T> {
    fn clone(&self) -> (copy: Self)
        ensures
            copy == *self,
    {
        LiminePtr { ptr: self.ptr }
    }
}

impl<T> Copy for LiminePtr<T> {}

impl<T> LiminePtr<T> {
    /// The slot as it is before the loader has written it.
    pub fn absent() -> (ptr: Self)
        ensures
            ptr@ is None,
    {
        LiminePtr { ptr: None }
    }

    /// The slot after the loader has stored `target` in it.
    pub(crate) fn present(target: NonNullPtr<T>) -> (ptr: Self)
        ensures
            ptr@ == Some(target@),
    {
        LiminePtr { ptr: Some(target) }
    }

    /// The raw address if the slot was written. Nothing is read through
    /// it.
    pub fn as_ptr(&self) -> (addr: Option<usize>)
        ensures
            addr is None <==> self@ is None,
            addr matches Some(a) ==> self@ matches Some(l) && a == l.addr && a != 0,
    {
        match self.ptr {
            Some(p) => Some(p.as_ptr()),
            None => None,
        }
    }

    /// A shared view of the record if the slot was written.
    pub fn get(&self) -> (target: Option<&'static T>)
        ensures
            target is None <==> self@ is None,
            target matches Some(t) ==> self@ matches Some(l) && *t == l.value,
    {
        match self.ptr {
            Some(p) => Some(p.get()),
            None => None,
        }
    }
}

} // verus!
