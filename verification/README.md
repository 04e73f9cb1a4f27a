# psx

The verified core of a PlayStation runtime's BIOS heap and panic reporting,
written in Verus.

- `src/sys/heap.rs`: the BIOS-backed global allocator (`BiosAllocator`),
  what it asks the BIOS `malloc` for, the length in words of a heap given in
  bytes, KB or MB, and the region handed to the BIOS `init_heap`. A proof
  function states that a heap covers what was asked for: bytes rounded up to
  a whole word, KB and MB exactly.
- `src/panic_report.rs`: what a panic handler shows. The panic's message,
  the calls of the BIOS `printf` that report a panic, and the font-printer
  calls and screen setup of the on-screen report. Each report is handed out
  one call at a time, by index, and borrows all its text, so reporting a
  panic never allocates. Proof functions state the reports' shape, that
  every format the report writes itself is a C string, and that both reports
  carry the same location and message.
- `tests/`: tests on concrete values.
- `app/`: the parts that talk to the BIOS. It declares the BIOS entry
  points, the `GlobalAlloc` impl, the `sys_heap!` macro that defines and
  installs the heap, and the `printf` panic handler. This code is
  type-checked, not verified.
