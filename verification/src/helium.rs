//! The processor core: memory, ALU, I/O bus and the execution engine.

pub mod alu;
pub mod cpu;
pub mod io_controller;
pub mod memory;
