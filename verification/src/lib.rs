//! Host-side driver core for an ST-Link-class USB debug probe.
//!
//! The crate covers the probe's private command/response protocol: little-endian
//! request/response framing, the mode state machine (DFU / mass-storage / debug /
//! SWIM / bootloader), core execution control, register and memory access, and
//! the SWO/ITM trace subsystem (register programming and stream demultiplexing).
//! USB transport itself is left to the surrounding application; every function
//! here is a pure computation over plain values and carries a contract.

pub mod bobbin_config;
pub mod cargo_config;
pub mod constants;
pub mod device;
pub mod errors;
pub mod framing;
pub mod mode;
pub mod protocol;
pub mod trace;
pub mod version;
