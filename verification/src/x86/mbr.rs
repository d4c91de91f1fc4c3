//! The master boot record: the partition table at the end of the first
//! sector of a disk.
use vstd::prelude::*;

verus! {

/// An entry of the partition table.
#[derive(Clone, Copy, Debug)]
pub struct PartitionTableEntry {
    /// Boot indicator: 0 = no, 0x80 = bootable (or "active").
    pub bootable: u8,
    /// Starting head of the partition.
    pub start_head: u8,
    /// Bits 0-5 are the starting sector, bits 6-15 the starting cylinder.
    pub sector_cylinder_start: u16,
    /// System ID.
    pub system_id: u8,
    /// Ending head of the partition.
    pub end_head: u8,
    /// Bits 0-5 are the ending sector, bits 6-15 the ending cylinder.
    pub sector_cylinder_head: u16,
    /// The first sector of the partition, which is its starting LBA.
    pub relative_sector: u32,
    /// Total sectors in the partition.
    pub total_sectors: u32,
}

/// The four entries of the partition table.
#[derive(Clone, Copy, Debug)]
pub struct MasterBootRecord {
    pub entries: [PartitionTableEntry; 4],
}

} // verus!
