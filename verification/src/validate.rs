//! Payload validation: the minimum-size gate a request body must pass
//! before it reaches the decompiler.

use vstd::prelude::*;
use crate::error::AppError;

verus! {

/// Smallest payload length the decompiler is ever handed.
pub const MIN_BYTECODE_LEN: usize = 4;

/// The validation verdict on a payload: the rejection message when the
/// payload is empty or too short, `None` when it passes.
pub open spec fn spec_body_error(body: Seq<u8>) -> Option<Seq<char>> {
    if body.len() == 0 {
        Some("No bytecode provided"@)
    } else if body.len() < MIN_BYTECODE_LEN {
        Some("Bytecode too short (minimum 4 bytes)"@)
    } else {
        None
    }
}

/// Reject empty or too-short payloads before invoking the decompiler.
/// Every rejection is the caller's fault, so it is a `BadRequest`.
pub fn validate_body(body: &[u8]) -> (r: Result<(), AppError>)
    ensures
        spec_body_error(body@) matches Some(m) ==> (r matches Err(e) && e is BadRequest
            && e.message() == m),
        spec_body_error(body@) is None ==> r is Ok,
{
    if body.len() == 0 {
        return Err(AppError::BadRequest("No bytecode provided".to_owned()));
    }
    if body.len() < MIN_BYTECODE_LEN {
        return Err(AppError::BadRequest("Bytecode too short (minimum 4 bytes)".to_owned()));
    }
    Ok(())
}

} // verus!
