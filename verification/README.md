# stm32-hal

Verified register-level drivers for the STM32WB inter-processor communication
controller (IPCC) and USART peripherals.

- `src/regs.rs`: a peripheral as a register image plus the ordered list of
  steps issued to it (`Bus`): register writes, waits until the hardware shows
  bits clear, and DMA channel starts; with the lemmas that compose step lists.
- `src/rcc.rs`: the clock-enable and reset registers the drivers use.
- `src/ipcc.rs`: channel send/receive/response steps of the IPCC, and the
  response pending software variables.
- `src/usart.rs`: USART bring-up, baud rate, interrupts, DMA transfers and the
  non-blocking read/write/flush steps.
- `src/dma.rs`: the DMA channel configurations requested, and the DMA1
  register values that carry them out.
- `app/lib.rs`: performs the issued steps on the memory-mapped registers,
  configures the requested DMA channels, reads back what the hardware
  changes, runs the blocking loops over the library's steps, and implements
  the `embedded-hal` serial traits.

Every driver function states in its contract the exact steps it issues on
its peripheral, in order, and the DMA configurations it requests; a DMA
channel runs only once a later step starts it. The public `law_*` proof
functions state the properties that follow.
