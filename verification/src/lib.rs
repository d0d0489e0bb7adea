//! A PLC-style runtime core for a cyclic fieldbus exchange: deterministic
//! process-image layout, a drift-free cyclic scheduler, and a Modbus-TCP
//! gateway that serializes all external access to the PLC memory.

pub mod types;
pub mod layout;
pub mod image;
pub mod server;
pub mod plc;
pub mod beckhoff;
pub mod mlz_spec;
pub mod demo;
