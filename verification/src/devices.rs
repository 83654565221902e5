//! The device capability contract and the devices that satisfy it.

pub mod device;
pub mod peripheral;
pub mod stdout_ascii_buffer;
pub mod term_link;
