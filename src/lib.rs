pub mod cpu;
pub mod flags;
pub mod lemmas;
pub mod model;
pub mod opcodes;

pub use cpu::{CpuError, CPU};
pub use flags::CpuFlags;
pub use opcodes::AddressingMode;
