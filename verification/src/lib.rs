//! Host side of a host–guest data exchange over a flat linear memory.
//!
//! A structured value is encoded to bytes, framed as a length-prefixed
//! envelope, and written into the guest's linear memory at a base address.
//! The guest's single entry point is invoked with that address and returns
//! the address of a response descriptor, which in turn locates the encoded
//! output bytes. The wire layout, the placement and growth policy, and the
//! two-step response resolution are verified here; the virtual machine that
//! executes the guest is an outside collaborator reached through trusted
//! wrappers.

pub mod engine;
pub mod vm;
pub mod wire;
