//! The shape of a hypercall handler's outcome.

use vstd::prelude::*;

verus! {

/// What every hypercall handler returns.
///
/// `Ok(value)` is a successful call with its word-sized return value; by
/// convention `0` means "succeeded, nothing to report". `Err(error)` is a
/// failed call with the error classification of the surrounding hypervisor.
pub type HyperCallResult = axerrno::AxResult<usize>;

} // verus!
