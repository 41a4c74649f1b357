//! Hypercall definitions shared by guest virtual machines and the hypervisor.
//!
//! A guest requests a service from the hypervisor by trapping with a numeric
//! operation selector. This crate fixes the closed set of selectors
//! ([`HyperCallCode`]), the checked conversion from an untrusted number to a
//! selector, the marker reported for a number that selects nothing
//! ([`InvalidHyperCallCode`]), and the shape of what every handler returns
//! ([`HyperCallResult`]).
//!
//! The numeric assignment is part of the guest/hypervisor interface: the
//! contracts in [`code`] pin every value, and the proof functions there state
//! that the assignment is a bijection between the selectors and `0..=6`.

pub mod code;
pub mod hex;
pub mod render;
pub mod result;

pub use code::{HyperCallCode, InvalidHyperCallCode};
pub use result::HyperCallResult;
