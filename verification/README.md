# flower

The logic of the Flower x86_64 hobby kernel as a Verus library. The functions in `src/` carry
`requires`/`ensures` contracts that Verus proves, except a handful of small trusted wrappers
around outside crates (`bit_field`'s bit access, crossbeam's `ArrayQueue`, arrayvec's
`ArrayVec`), whose contracts are taken from those crates' source.

- `src/` — allocators (buddy trees, the kernel heap, the bootstrap bitmap heap, the stack and
  physical frame allocators), paging (entries, pages, a four-level page table hierarchy
  modelled as tables held by frame, mapping, unmapping and walking), ACPI table parsing from
  bytes, PS/2 controller and keyboard protocol decoding, scancode set 2, the PIC and PIT
  register logic, serial port status, the VGA text buffer, text areas, logging levels, the
  snake game's rules and user process bookkeeping.
- `app/` — the parts that touch hardware or run forever: port I/O, interrupt plumbing, the
  steps of memory set-up that read the multiboot2 information, the global allocator, logging to
  the serial port, blitting the text buffer to the screen and the snake game loop.
- `tests/` — tests on concrete values, run against the compiled library.
