//! The hypercall operation codes and their numeric values.

use vstd::prelude::*;
use vstd::std_specs::convert::TryFromSpecImpl;

verus! {

/// The operations that a guest can request from the hypervisor.
///
/// Each operation has a fixed number, [`HyperCallCode::value`], which the
/// guest presents as the hypercall selector. Numbers `0..=2` control the
/// hypervisor's lifecycle; numbers `3..=6` manage inter-VM communication
/// (IVC) channels.
#[derive(Clone, Copy, PartialEq, Eq, Structural)]
pub enum HyperCallCode {
    /// Disable the hypervisor and hand control back to the guest, which
    /// then runs without virtualization. The handler returns `Ok(0)` on
    /// success.
    HypervisorDisable,
    /// Prepare for disabling the hypervisor by mapping its memory into the
    /// guest's address space. The handler returns `Ok(0)` on success.
    HyperVisorPrepareDisable,
    /// Debugging aid for development; not for production use.
    HyperVisorDebug,
    /// Publish an IVC shared-memory channel under a key. The handler writes
    /// the region's base guest-physical address and size through the two
    /// output addresses that the guest passes, and returns `Ok(0)`.
    HIVCPublishChannel,
    /// Subscribe to the IVC channel that a publisher VM offers under a key.
    /// The handler writes the region's base guest-physical address and
    /// size through the two output addresses, and returns `Ok(0)`.
    HIVCSubscribChannel,
    /// Withdraw a published IVC channel, disconnecting its subscribers.
    /// The handler returns `Ok(0)` on success.
    HIVCUnPublishChannel,
    /// Leave an IVC channel subscribed to earlier. The handler returns
    /// `Ok(0)` on success.
    HIVCUnSubscribChannel,
}

/// The number that was presented as a hypercall selector and selects no
/// operation.
#[derive(Debug, Clone, Copy, PartialEq, Eq, Structural)]
pub struct InvalidHyperCallCode(
    /// The rejected number.
    pub u32,
);

impl HyperCallCode {
    /// The number assigned to this operation.
    pub open spec fn spec_value(self) -> u32 {
        match self {
            HyperCallCode::HypervisorDisable => 0,
            HyperCallCode::HyperVisorPrepareDisable => 1,
            HyperCallCode::HyperVisorDebug => 2,
            HyperCallCode::HIVCPublishChannel => 3,
            HyperCallCode::HIVCSubscribChannel => 4,
            HyperCallCode::HIVCUnPublishChannel => 5,
            HyperCallCode::HIVCUnSubscribChannel => 6,
        }
    }

    /// The operation that `value` selects, or the marker that carries
    /// `value` where it selects none.
    pub open spec fn lookup(value: u32) -> Result<HyperCallCode, InvalidHyperCallCode> {
        match value {
            0 => Ok(HyperCallCode::HypervisorDisable),
            1 => Ok(HyperCallCode::HyperVisorPrepareDisable),
            2 => Ok(HyperCallCode::HyperVisorDebug),
            3 => Ok(HyperCallCode::HIVCPublishChannel),
            4 => Ok(HyperCallCode::HIVCSubscribChannel),
            5 => Ok(HyperCallCode::HIVCUnPublishChannel),
            6 => Ok(HyperCallCode::HIVCUnSubscribChannel),
            _ => Err(InvalidHyperCallCode(value)),
        }
    }

    /// The number assigned to this operation, as the guest presents it.
    #[verifier::when_used_as_spec(spec_value)]
    pub fn value(self) -> (v: u32)
        ensures
            v == self.spec_value(),
            v <= 6,
    {
        match self {
            HyperCallCode::HypervisorDisable => 0,
            HyperCallCode::HyperVisorPrepareDisable => 1,
            HyperCallCode::HyperVisorDebug => 2,
            HyperCallCode::HIVCPublishChannel => 3,
            HyperCallCode::HIVCSubscribChannel => 4,
            HyperCallCode::HIVCUnPublishChannel => 5,
            HyperCallCode::HIVCUnSubscribChannel => 6,
        }
    }
}

impl TryFromSpecImpl<u32> for HyperCallCode {
    open spec fn obeys_try_from_spec() -> bool {
        true
    }

    open spec fn try_from_spec(value: u32) -> Result<Self, InvalidHyperCallCode> {
        HyperCallCode::lookup(value)
    }
}

impl TryFrom<u32> for HyperCallCode {
    type Error = InvalidHyperCallCode;

    /// Looks up the operation that an untrusted number selects.
    ///
    /// Succeeds exactly on `0..=6`, with the operation whose number is
    /// `value`; every other number comes back unchanged inside the marker.
    fn try_from(value: u32) -> (found: Result<Self, InvalidHyperCallCode>)
        ensures
            found == HyperCallCode::lookup(value),
            value <= 6 ==> found is Ok && found->Ok_0.spec_value() == value,
            value > 6 ==> found == Err::<Self, InvalidHyperCallCode>(InvalidHyperCallCode(value)),
    {
        match value {
            0 => Ok(HyperCallCode::HypervisorDisable),
            1 => Ok(HyperCallCode::HyperVisorPrepareDisable),
            2 => Ok(HyperCallCode::HyperVisorDebug),
            3 => Ok(HyperCallCode::HIVCPublishChannel),
            4 => Ok(HyperCallCode::HIVCSubscribChannel),
            5 => Ok(HyperCallCode::HIVCUnPublishChannel),
            6 => Ok(HyperCallCode::HIVCUnSubscribChannel),
            _ => Err(InvalidHyperCallCode(value)),
        }
    }
}

/// Every operation is found again under its own number.
pub proof fn lemma_value_then_lookup(code: HyperCallCode)
    ensures
        HyperCallCode::lookup(code.spec_value()) == Ok::<HyperCallCode, InvalidHyperCallCode>(code),
        code.spec_value() <= 6,
{
}

/// Every number in `0..=6` selects an operation, and that operation's number
/// is the one that selected it.
pub proof fn lemma_lookup_then_value(value: u32)
    requires
        value <= 6,
    ensures
        HyperCallCode::lookup(value) is Ok,
        HyperCallCode::lookup(value)->Ok_0.spec_value() == value,
{
}

/// A number selects an operation exactly when it is in `0..=6`; any other
/// number is handed back unchanged inside the marker.
pub proof fn lemma_lookup_rejects(value: u32)
    ensures
        HyperCallCode::lookup(value) is Err <==> value > 6,
        value > 6 ==> HyperCallCode::lookup(value) == Err::<HyperCallCode, InvalidHyperCallCode>(
            InvalidHyperCallCode(value),
        ),
{
}

/// Two operations are equal exactly when their numbers are equal.
pub proof fn lemma_code_eq_iff_value_eq(a: HyperCallCode, b: HyperCallCode)
    ensures
        a == b <==> a.spec_value() == b.spec_value(),
{
}

/// Two markers are equal exactly when they carry the same number.
pub proof fn lemma_marker_eq_iff_value_eq(a: InvalidHyperCallCode, b: InvalidHyperCallCode)
    ensures
        a == b <==> a.0 == b.0,
{
}

} // verus!
