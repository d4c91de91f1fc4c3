//! A hardware register cell.
use vstd::prelude::*;

verus! {

/// A register value that the hardware reads or writes. The library holds
/// it as a plain value; accesses to device memory happen outside it.
#[derive(Clone, Copy, Debug)]
pub struct Volatile<T>(T);

impl<T: Copy> Volatile<T> {
    /// The value the register holds.
    pub closed spec fn value(&self) -> T {
        self.0
    }

    /// A register that holds `vol`.
    pub fn new(vol: T) -> (r: Volatile<T>)
        ensures
            r.value() == vol,
    {
        Volatile(vol)
    }

    /// Reads the register.
    pub fn read(&self) -> (r: T)
        ensures
            r == self.value(),
    {
        self.0
    }

    /// Writes `value` to the register.
    pub fn write(&mut self, value: T)
        ensures
            final(self).value() == value,
    {
        self.0 = value;
    }
}

} // verus!
