//! Emulator core for the Helium 8-bit microprocessor: a 256-byte unified
//! address space with an optional write-protected ROM prefix, a memory-mapped
//! I/O bus that tolerates overlapping device mounts, and a fetch/decode/execute
//! engine with a single-level interrupt mechanism.

pub mod devices;
pub mod helium;
