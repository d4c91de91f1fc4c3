//! What the boot loader computes before the kernel runs.
pub mod page_allocator;
pub mod paging;
