# solox

The logic of a SoloX (i.MX6 SX) AMP system — an seL4 root task on the A9
core that loads and starts firmware on the M4 core — as a Verus-verified
library.

- `src/cpio.rs`: reader of the first entry of a newc CPIO archive (magic
  check, hexadecimal header fields, name, size and data offset).
- `src/mu.rs`, `src/volatile.rs`: driver of the messaging unit's side B over
  a register block of volatile registers, each keeping a record of the
  reads and writes made through it, over which the driver's contracts are
  stated.
- `src/bsp.rs`, `src/platform.rs`: IOMUX pad settings, UART2 register values
  and serial output words of the M4 firmware; rpmsg-lite platform numbers.
- `src/allocator.rs`, `src/sel4.rs`: the root task's slot and untyped memory
  allocator, the VKA object interface and the frame-mapping steps; kernel
  calls are requests that the caller carries out.
- `src/devices.rs`, `src/root_task.rs`: device addresses, the M4 start-up
  register bits, the thread's stack and register addresses.
- `app/`: the root task's and the firmware's I/O: seL4 system calls, MMIO
  and the main loops.
