//! The backend adapters, one per hypervisor technology.
//!
//! An adapter never talks to its hypervisor. It says which command the
//! hypervisor has to carry out next and is told what came back, so everything
//! it decides can be stated and checked without a guest.

pub mod kvm;
pub mod virtualbox;
