//! The crispr protocol stub: a guarded executor whose whole behaviour is a
//! bound check on the number of steps it is handed.

use vstd::prelude::*;

verus! {

/// The largest number of steps a single call may carry (inclusive).
pub const MAX_STEPS: usize = 50;

/// The one failure the executor can report.
#[derive(Clone, Copy, Debug, PartialEq, Eq, Structural)]
pub enum ProtocolError {
    /// The step sequence holds more than `MAX_STEPS` entries.
    TooManySteps,
}

impl ProtocolError {
    /// The fixed human-readable message carried by this error kind.
    pub fn message(&self) -> (r: &'static str)
        ensures
            r@ == "Too many steps in protocol."@,
    {
        "Too many steps in protocol."
    }
}

/// The authenticated identity that co-signs a call. The executor reads no
/// attribute of it; the hosting environment has already checked the
/// signature before the call reaches the guard.
pub struct Signer {
    /// The caller's public key.
    pub key: [u8; 32],
}

/// The account context of one call: the signing caller and nothing else.
pub struct Execute {
    /// The caller, whose signature the hosting environment has verified.
    pub user: Signer,
}

/// Whether a step sequence is small enough to be accepted.
pub open spec fn step_count_allowed(steps: Seq<String>) -> bool {
    steps.len() <= MAX_STEPS
}

/// Validates the length of the step sequence against the fixed bound and
/// otherwise does nothing: no step is parsed, interpreted or stored, and no
/// state is read or written.
///
/// Succeeds exactly on sequences of at most `MAX_STEPS` entries; on longer
/// ones it fails with `TooManySteps`, the only error kind.
pub fn execute(ctx: Execute, steps: Vec<String>) -> (r: Result<(), ProtocolError>)
    ensures
        r is Ok <==> step_count_allowed(steps@),
        r is Err <==> steps@.len() > MAX_STEPS,
        r is Err ==> r->Err_0 == ProtocolError::TooManySteps,
{
    if steps.len() <= MAX_STEPS {
        Ok(())
    } else {
        Err(ProtocolError::TooManySteps)
    }
}

} // verus!
