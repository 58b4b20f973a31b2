//! Register-level drivers for the STM32 inter-processor communication
//! controller (IPCC) and the USART serial peripheral.
//!
//! Each peripheral is held as an image of its registers together with the
//! ordered list of register writes the driver has issued. The drivers decide
//! which values go to which registers; whoever owns the hardware performs the
//! listed writes and reports back the registers that the hardware changes.

pub mod dma;
pub mod ipcc;
pub mod rcc;
pub mod regs;
pub mod usart;
