//! Platform and device introspection for a heterogeneous-compute host.
//!
//! The discovery layer (outside this crate) enumerates platforms and devices
//! and fetches, for each one, the raw attribute buffers that the native
//! interface hands back.  This crate holds those buffers in plain data
//! structures and proves the decoding: every capability accessor turns a raw
//! little-endian byte buffer into a typed value, an array of values, or a
//! text, exactly as its contract states.

pub mod codec;
pub mod device;
pub mod info;
pub mod platform;
pub mod store;
