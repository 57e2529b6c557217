mod addressing;
pub mod cpu;
pub mod instructions;
mod jumps;
pub mod laws;
mod load_ops;
pub mod memory;
pub mod model;
pub mod opcode;
mod stack_ops;
mod store_ops;
