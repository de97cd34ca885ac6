//! The failure taxonomy, and the error mapper that turns a negative
//! gateway status together with the platform's error code into a
//! structured failure carrying the platform's textual rendering.

use vstd::prelude::*;

verus! {

/// The text that the platform's error table associates with error code
/// `code`. The mapping is a fixed table compiled into the platform
/// bindings; it depends on the code alone.
pub uninterp spec fn errno_text(code: int) -> Seq<char>;

/// Relies on `nix::errno::Errno::desc` (reached through the one-for-one
/// conversion `Errno::from_raw`): the description of an error code is
/// chosen by a fixed match on the code alone.
#[verifier::external_body]
fn describe_errno(code: i32) -> (r: String)
    ensures
        r@ == errno_text(code as int),
{
    nix::errno::Errno::from_raw(code).desc().to_owned()
}

/// A failed gateway invocation: the raw negative status, and the
/// platform's textual rendering of the accompanying error code.
#[derive(Debug, Clone, PartialEq, Eq)]
pub struct FailureResult {
    pub raw_code: i32,
    pub description: String,
}

/// Everything that can go wrong while resolving an operation, invoking
/// the gateway, or decoding its response.
#[derive(Debug, Clone, PartialEq, Eq)]
pub enum CsError {
    /// The requested operation name is not in the registry; the gateway
    /// is never invoked in this case.
    UnknownOperation,
    /// The gateway returned a negative status.
    SyscallFailure(FailureResult),
    /// A blob buffer is smaller than its own declared header requires.
    BlobTooShort,
    /// A text field's NUL-delimited prefix is not valid UTF-8.
    InvalidText,
}

/// The error mapper: a negative gateway status, together with the
/// platform error code retrieved out-of-band, becomes a structured
/// failure. Terminal: no retry, no recovery.
pub fn map_failure(status: i32, code: i32) -> (r: FailureResult)
    ensures
        r.raw_code == status,
        r.description@ == errno_text(code as int),
{
    FailureResult { raw_code: status, description: describe_errno(code) }
}

} // verus!
