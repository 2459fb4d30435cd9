//! Backend-agnostic virtual-machine introspection.
//!
//! The crate holds the neutral register and event model, the capability
//! interface every hypervisor backend exposes, and the bookkeeping that keeps
//! a backend's pause state and per-VCPU pending events consistent with what
//! the guest is doing. It performs no I/O: a driver decides which command the
//! hypervisor has to carry out next, and is told what the hypervisor answered.

pub mod api;
pub mod coordinator;
pub mod driver;
