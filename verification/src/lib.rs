//! Secure/non-secure world-boundary subsystem for a split-security-domain
//! embedded target: memory-region attribution, a one-way world switch at
//! boot, and a validated call gate between the trusted and untrusted worlds.

pub mod addr;
pub mod boot;
pub mod call_gate;
pub mod fault;
pub mod guest;
pub mod region;
pub mod trigger;
pub mod world_switch;
