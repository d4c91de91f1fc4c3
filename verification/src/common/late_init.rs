//! A value that is given after construction.
use vstd::prelude::*;

verus! {

/// A slot that holds no value until it is initialised.
pub struct LateInit<T>(Option<T>);

impl<T> LateInit<T> {
    /// The value held, if any.
    pub closed spec fn value(&self) -> Option<T> {
        self.0
    }

    /// A slot with no value yet.
    pub fn uninit() -> (r: LateInit<T>)
        ensures
            r.value() is None,
    {
        LateInit(None)
    }

    /// A slot that holds `val`.
    pub fn new(val: T) -> (r: LateInit<T>)
        ensures
            r.value() == Some(val),
    {
        LateInit(Some(val))
    }

    /// Stores `val` in the slot, replacing any value it held.
    pub fn init(&mut self, val: T)
        ensures
            final(self).value() == Some(val),
    {
        self.0 = Some(val);
    }

    /// The value held, if any.
    pub fn value_ref(&self) -> (r: Option<&T>)
        ensures
            r matches Some(v) ==> self.value() == Some(*v),
            r is None <==> self.value() is None,
    {
        match &self.0 {
            Some(v) => Some(v),
            None => None,
        }
    }

    /// The value held; the slot must have been initialised.
    pub fn assume_init_ref(&self) -> (r: &T)
        requires
            self.value() is Some,
        ensures
            Some(*r) == self.value(),
    {
        match &self.0 {
            Some(v) => v,
            None => vstd::pervasive::unreached(),
        }
    }
}

impl<T: Copy> LateInit<T> {
    /// A copy of the value held; the slot must have been initialised.
    pub fn assume_init(&self) -> (r: T)
        requires
            self.value() is Some,
        ensures
            Some(r) == self.value(),
    {
        *self.assume_init_ref()
    }
}

} // verus!
