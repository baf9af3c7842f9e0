//! Status codes of the foreign graphics subsystem.
//!
//! Every fallible foreign call reports its outcome as a signed 32-bit status
//! word; a negative value means failure. The codes below are the ones the
//! capture logic distinguishes.

use vstd::prelude::*;

verus! {

/// The success status.
pub const S_OK: i32 = 0;

/// Returned by the output-enumeration primitive at the first index past the
/// last output; it is the defined end-of-sequence signal, not an error.
pub const DXGI_ERROR_NOT_FOUND: i32 = -2005270526;

/// Returned by frame acquisition when no new frame arrived within the
/// caller-supplied timeout.
pub const DXGI_ERROR_WAIT_TIMEOUT: i32 = -2005270489;

/// Returned when acquire and release calls are not strictly paired: a second
/// acquisition with a frame still outstanding, or a release with none.
pub const DXGI_ERROR_INVALID_CALL: i32 = -2005270527;

/// Returned by a capability query for an interface the object does not
/// support.
pub const E_NOINTERFACE: i32 = -2147467262;

/// A status word reports failure exactly when it is negative.
pub open spec fn spec_hr_failed(hr: i32) -> bool {
    hr < 0
}

/// Tests a foreign status word; it reports failure exactly when negative.
#[verifier::when_used_as_spec(spec_hr_failed)]
pub fn hr_failed(hr: i32) -> (r: bool)
    ensures
        r == spec_hr_failed(hr),
{
    hr < 0
}

} // verus!
