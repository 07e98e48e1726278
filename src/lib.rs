//! Instruction-execution core of an ARM-compatible processor: register
//! banking, program status registers, condition evaluation, block-transfer
//! addressing and the control-transfer instruction family.

pub mod bits;
pub mod branch;
pub mod cpu;
pub mod decoder;
pub mod interpreter;
pub mod io_reg;
pub mod laws;
pub mod load_store_multiple;
pub mod psr;
pub mod ram;
pub mod regs;
