//! Flags of page table entries, as the kernel's processor utilities build
//! them.
use vstd::prelude::*;

verus! {

/// The bits of the usual combinations of flags.
proof fn lemma_flag_facts()
    by (bit_vector)
    ensures
        ((0u64 | (1u64 << 0u64)) | (1u64 << 1u64)) | (1u64 << 10u64) == 0x403,
        ((0u64 | (1u64 << 0u64)) | (1u64 << 1u64)) | (1u64 << 7u64) == 0x83,
        (0u64 | (1u64 << 0u64)) | (1u64 << 1u64) == 0x3,
        (((0u64 | (1u64 << 0u64)) | (1u64 << 1u64)) | (1u64 << 4u64)) | (1u64 << 8u64) == 0x113,
        ((((0u64 | (1u64 << 0u64)) | (1u64 << 1u64)) | (1u64 << 7u64)) | (1u64 << 4u64)) | (1u64
            << 8u64) == 0x193,
{
}

/// The flags of a page table entry.
#[derive(Clone, Copy, Debug)]
pub struct PageEntryFlags(pub u64);

impl Default for PageEntryFlags {
    /// Flags with every bit cleared.
    fn default() -> (r: PageEntryFlags)
        ensures
            r.0 == 0,
    {
        PageEntryFlags(0)
    }
}

impl PageEntryFlags {
    /// This value with the flag that says the page is present set.
    pub fn present(self) -> (r: PageEntryFlags)
        ensures
            r.0 == self.0 | (1u64 << 0u64),
    {
        PageEntryFlags(self.0 | (1u64 << 0u64))
    }

    /// Whether the flag that says the page is present is set.
    pub fn is_present(&self) -> (r: bool)
        ensures
            r == (self.0 & (1u64 << 0u64) != 0),
    {
        self.0 & (1u64 << 0u64) != 0
    }

    /// This value with the flag that says the page is writable set.
    pub fn writable(self) -> (r: PageEntryFlags)
        ensures
            r.0 == self.0 | (1u64 << 1u64),
    {
        PageEntryFlags(self.0 | (1u64 << 1u64))
    }

    /// Whether the flag that says the page is writable is set.
    pub fn is_writable(&self) -> (r: bool)
        ensures
            r == (self.0 & (1u64 << 1u64) != 0),
    {
        self.0 & (1u64 << 1u64) != 0
    }

    /// This value with the flag that says user mode may access the page set.
    pub fn usr_access(self) -> (r: PageEntryFlags)
        ensures
            r.0 == self.0 | (1u64 << 2u64),
    {
        PageEntryFlags(self.0 | (1u64 << 2u64))
    }

    /// Whether the flag that says user mode may access the page is set.
    pub fn is_usr_access(&self) -> (r: bool)
        ensures
            r == (self.0 & (1u64 << 2u64) != 0),
    {
        self.0 & (1u64 << 2u64) != 0
    }

    /// This value with the flag that says writes go straight to memory set.
    pub fn write_through_cache(self) -> (r: PageEntryFlags)
        ensures
            r.0 == self.0 | (1u64 << 3u64),
    {
        PageEntryFlags(self.0 | (1u64 << 3u64))
    }

    /// Whether the flag that says writes go straight to memory is set.
    pub fn is_write_through_cache(&self) -> (r: bool)
        ensures
            r == (self.0 & (1u64 << 3u64) != 0),
    {
        self.0 & (1u64 << 3u64) != 0
    }

    /// This value with the flag that says caching is disabled set.
    pub fn disable_cache(self) -> (r: PageEntryFlags)
        ensures
            r.0 == self.0 | (1u64 << 4u64),
    {
        PageEntryFlags(self.0 | (1u64 << 4u64))
    }

    /// Whether the flag that says caching is disabled is set.
    pub fn is_disable_cache(&self) -> (r: bool)
        ensures
            r == (self.0 & (1u64 << 4u64) != 0),
    {
        self.0 & (1u64 << 4u64) != 0
    }

    /// This value with the flag that says the entry maps a huge page set.
    pub fn huge_page(self) -> (r: PageEntryFlags)
        ensures
            r.0 == self.0 | (1u64 << 7u64),
    {
        PageEntryFlags(self.0 | (1u64 << 7u64))
    }

    /// Whether the flag that says the entry maps a huge page is set.
    pub fn is_huge_page(&self) -> (r: bool)
        ensures
            r == (self.0 & (1u64 << 7u64) != 0),
    {
        self.0 & (1u64 << 7u64) != 0
    }

    /// This value with the flag that says the page stays cached across address space switches set.
    pub fn global(self) -> (r: PageEntryFlags)
        ensures
            r.0 == self.0 | (1u64 << 8u64),
    {
        PageEntryFlags(self.0 | (1u64 << 8u64))
    }

    /// Whether the flag that says the page stays cached across address space switches is set.
    pub fn is_global(&self) -> (r: bool)
        ensures
            r == (self.0 & (1u64 << 8u64) != 0),
    {
        self.0 & (1u64 << 8u64) != 0
    }

    /// This value with the flag that says the table is marked full set.
    pub fn full(self) -> (r: PageEntryFlags)
        ensures
            r.0 == self.0 | (1u64 << 9u64),
    {
        PageEntryFlags(self.0 | (1u64 << 9u64))
    }

    /// Whether the flag that says the table is marked full is set.
    pub fn is_full(&self) -> (r: bool)
        ensures
            r == (self.0 & (1u64 << 9u64) != 0),
    {
        self.0 & (1u64 << 9u64) != 0
    }

    /// This value with the flag that says the entry points to a page table set.
    pub fn table(self) -> (r: PageEntryFlags)
        ensures
            r.0 == self.0 | (1u64 << 10u64),
    {
        PageEntryFlags(self.0 | (1u64 << 10u64))
    }

    /// Whether the flag that says the entry points to a page table is set.
    pub fn is_table(&self) -> (r: bool)
        ensures
            r == (self.0 & (1u64 << 10u64) != 0),
    {
        self.0 & (1u64 << 10u64) != 0
    }

    /// This value with the flag that says the entry is at the top of the hierarchy set.
    pub fn root_entry(self) -> (r: PageEntryFlags)
        ensures
            r.0 == self.0 | (1u64 << 11u64),
    {
        PageEntryFlags(self.0 | (1u64 << 11u64))
    }

    /// Whether the flag that says the entry is at the top of the hierarchy is set.
    pub fn is_root_entry(&self) -> (r: bool)
        ensures
            r == (self.0 & (1u64 << 11u64) != 0),
    {
        self.0 & (1u64 << 11u64) != 0
    }

    /// This value with the flag that says the page holds data and is not executable set.
    pub fn not_executable(self) -> (r: PageEntryFlags)
        ensures
            r.0 == self.0 | (1u64 << 63u64),
    {
        PageEntryFlags(self.0 | (1u64 << 63u64))
    }

    /// Whether the flag that says the page holds data and is not executable is set.
    pub fn is_not_executable(&self) -> (r: bool)
        ensures
            r == (self.0 & (1u64 << 63u64) != 0),
    {
        self.0 & (1u64 << 63u64) != 0
    }

    /// Flags of an entry that points to a page table: present, writable,
    /// table.
    pub fn table_flags() -> (r: PageEntryFlags)
        ensures
            r.0 == 0x403,
    {
        let r = PageEntryFlags::default().present().writable().table();
        proof {
            lemma_flag_facts();
        }
        r
    }

    /// Flags of an entry that maps a huge page: present, writable, huge page.
    pub fn huge_page_flags() -> (r: PageEntryFlags)
        ensures
            r.0 == 0x83,
    {
        let r = PageEntryFlags::default().present().writable().huge_page();
        proof {
            lemma_flag_facts();
        }
        r
    }

    /// Flags of an entry that maps a regular page: present, writable.
    pub fn regular_page_flags() -> (r: PageEntryFlags)
        ensures
            r.0 == 0x3,
    {
        let r = PageEntryFlags::default().present().writable();
        proof {
            lemma_flag_facts();
        }
        r
    }

    /// Flags of an entry that maps a regular page of device memory: present,
    /// writable, cache disabled, global.
    pub fn regular_io_page_flags() -> (r: PageEntryFlags)
        ensures
            r.0 == 0x113,
    {
        let r = PageEntryFlags::default().present().writable().disable_cache().global();
        proof {
            lemma_flag_facts();
        }
        r
    }

    /// Flags of an entry that maps a huge page of device memory: present,
    /// writable, huge page, cache disabled, global.
    pub fn huge_io_page_flags() -> (r: PageEntryFlags)
        ensures
            r.0 == 0x193,
    {
        let r = PageEntryFlags::default().present().writable().huge_page().disable_cache().global();
        proof {
            lemma_flag_facts();
        }
        r
    }
}

} // verus!
