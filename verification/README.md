# learnix

The library of a small x86-64 kernel, with its behaviour stated in Verus
contracts and proved.

- `src/` is the verified library:
  - `common`: addresses and alignments, bit fields, the kernel's enums and
    constants, a ring buffer, power-of-two chunking, late initialisation.
  - `boot`: the page tables and the page allocator of the boot stage.
  - `cpu_utils`: page entry flags and segment selectors.
  - `x86`: page table entries and tables, walking and mapping virtual
    addresses, the global and interrupt descriptor tables, the task state
    segment, the flags register, the interrupt controllers, the memory map
    of the firmware, `cpuid` results and the master boot record.
  - `drivers`: the VGA text screen, its two writers and the interface they
    share, the keyboard's modifier keys, and the AHCI frame information
    structures and host bus adapter registers.
  - `libk`: the kernel's global allocator.
- `tests/` runs the library on concrete values.
- `app/` is the hardware side: the privileged instructions and port I/O that
  carry out what the library decides, the VGA console, and the boot
  sequences.

Where the hardware is touched, the library returns what to do (the port
writes that program a controller, the words of a descriptor table, the
registers to load) and `app/` does it.
