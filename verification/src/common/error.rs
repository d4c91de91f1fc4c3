//! Error types of the kernel library.
use vstd::prelude::*;

verus! {

/// A raw value that no variant of an enum represents.
#[derive(Clone, Copy, Debug, PartialEq, Eq)]
pub enum ConversionError<T> {
    /// The value that could not be converted.
    CantConvertFrom(T),
}

/// Errors of the page table walk.
#[derive(Clone, Copy, Debug, PartialEq, Eq, Structural)]
pub enum TableError {
    /// The table is not a root table.
    NotRoot,
    /// The table is full.
    Full,
}

/// Errors of a page table entry lookup.
#[derive(Clone, Copy, Debug, PartialEq, Eq, Structural)]
pub enum EntryError {
    /// There is no mapping to this entry.
    NoMapping,
    /// This entry contains a memory block and not a table.
    NotATable,
}

/// Errors of mapping a page.
#[derive(Clone, Copy, Debug, PartialEq, Eq, Structural)]
pub enum MappingError {
    /// The walk never reached the table the page goes in.
    TableDoesNotExist,
}

/// Errors of the AHCI host bus adapter setup.
#[derive(Clone, Copy, Debug, PartialEq, Eq, Structural)]
pub enum HbaError {
    /// The address is not aligned properly.
    AddressNotAligned,
}

} // verus!
