//! The processor utilities of the kernel: page entry flags and segment
//! selectors.
pub mod paging;
pub mod segments;
