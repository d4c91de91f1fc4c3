//! Verified core of the learnix x86-64 kernel: paging structures, descriptor
//! tables, address arithmetic, allocator bookkeeping and driver register
//! layouts.
//!
//! Addresses are 64-bit on the kernel's target; they are held as `u64` so
//! that the proofs do not depend on the width of `usize`.
pub mod boot;
pub mod common;
pub mod cpu_utils;
pub mod drivers;
pub mod libk;
pub mod x86;
