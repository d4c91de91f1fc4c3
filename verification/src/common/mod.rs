pub mod address_types;
pub mod bitfield;
pub mod constants;
pub mod enums;
pub mod error;
pub mod ring_buffer;
pub mod iter;
pub mod allocations;
pub mod late_init;
pub mod volatile;
