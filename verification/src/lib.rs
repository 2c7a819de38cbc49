//! Model of the ARM7TDMI program status register (PSR): a single 32-bit
//! word holding the processor mode, the instruction-set state, the two
//! interrupt-mask flags and the four condition flags, with reserved bits
//! that always read back as zero.

pub mod psr;
pub mod render;

pub use psr::CpuMode;
pub use psr::CpuState;
pub use psr::RegPSR;
