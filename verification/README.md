# userspace

User-space services of a small RISC-V microkernel, with their logic
verified by Verus.

- `src/` — the verified library:
  - the buddy heap (`heap`, `buddy_spec`, `heap_laws`) and its growth at the
    program break (`rescue`);
  - K210 peripherals as register models: clock tree and resets (`sysctl`),
    DMA controller (`dmac`), SPI0 (`spi`), FPIOA, GPIOHS, UARTHS, and the
    register field helpers they share (`regfield`, `bits`);
  - the real-time clock: calendar arithmetic and its registers (`rtc`);
  - the file system server's data: device numbers, file system types and
    super blocks (`vfs`, `fs_types`), the in-memory file system (`ramfs`),
    device reads (`devfs`), per-process state (`fs_manager`);
  - the terminal line discipline (`terminal`), virtio DMA regions and
    registers (`virtio`), and system call results (`syscall`).
- `app/` — what talks to the kernel and the devices: the global allocator,
  moving register models to and from the hardware with the waits it needs,
  and the driver and server request handling.
- `tests/` — tests of the library.
