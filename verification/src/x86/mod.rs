pub mod cpuid;
pub mod entry_flags;
pub mod gdt;
pub mod idt;
pub mod mbr;
pub mod memory_map;
pub mod page_table;
pub mod page_table_entry;
pub mod pic;
pub mod rflags;
pub mod segments;
pub mod mapping;
pub mod walk;
