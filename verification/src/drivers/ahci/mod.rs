//! The AHCI controller of serial ATA disks.
pub mod fis;
pub mod hba;
