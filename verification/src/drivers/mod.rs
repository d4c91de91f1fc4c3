//! Drivers of the devices the kernel talks to.
pub mod advanced_writer;
pub mod ahci;
pub mod generic_writer;
pub mod keyboard;
pub mod vga;
pub mod writer;
