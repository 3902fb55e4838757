//! The dialect handlers' pure halves: what is checked and resolved before
//! the decompiler collaborator is invoked, and how its outcome is
//! classified afterwards.
//!
//! The collaborator itself — `decompile(bytes, decode_parameter,
//! is_legacy)` returning text or a failure — lives outside the library.
//! A handler therefore splits in two: `prepare_*` validates the payload
//! and fixes the invocation, the caller performs the invocation, and
//! `finish_decompile` turns the outcome into the handler's result.

use vstd::prelude::*;
use crate::config::DEFAULT_ENCODE_KEY;
use crate::error::AppError;
use crate::text::{is_blank, spec_is_blank};
use crate::validate::{spec_body_error, validate_body};

verus! {

/// Exactly what the decompiler collaborator is to be invoked with,
/// besides the payload itself.
#[derive(Clone, Copy, Debug, PartialEq, Eq, Structural)]
pub struct DecompileRequest {
    pub encode_key: u8,
    pub is_legacy: bool,
}

/// The decode parameter a dialect-A request resolves to: the query value
/// when one was supplied, else the fixed default.
pub open spec fn spec_resolved_key(encode_key: Option<u8>) -> u8 {
    match encode_key {
        Some(k) => k,
        None => DEFAULT_ENCODE_KEY,
    }
}

/// Dialect-A pre-invocation step: validate the payload, then resolve the
/// decode parameter from the optional `encode_key` query value. Dialect A
/// is never decompiled in legacy mode.
pub fn prepare_luau(encode_key: Option<u8>, body: &[u8]) -> (r: Result<DecompileRequest, AppError>)
    ensures
        spec_body_error(body@) matches Some(m) ==> (r matches Err(e) && e is BadRequest
            && e.message() == m),
        spec_body_error(body@) is None ==> (r matches Ok(req) && req.encode_key
            == spec_resolved_key(encode_key) && !req.is_legacy),
{
    match validate_body(body) {
        Err(e) => Err(e),
        Ok(()) => {
            let key = match encode_key {
                Some(k) => k,
                None => DEFAULT_ENCODE_KEY,
            };
            Ok(DecompileRequest { encode_key: key, is_legacy: false })
        },
    }
}

/// Dialect-B pre-invocation step: validate the payload. Dialect B has a
/// single fixed decoding convention: the default decode parameter and
/// legacy mode, whatever the request carried besides its body.
pub fn prepare_lua51(body: &[u8]) -> (r: Result<DecompileRequest, AppError>)
    ensures
        spec_body_error(body@) matches Some(m) ==> (r matches Err(e) && e is BadRequest
            && e.message() == m),
        spec_body_error(body@) is None ==> (r matches Ok(req) && req.encode_key
            == DEFAULT_ENCODE_KEY && req.is_legacy),
{
    match validate_body(body) {
        Err(e) => Err(e),
        Ok(()) => Ok(DecompileRequest { encode_key: DEFAULT_ENCODE_KEY, is_legacy: true }),
    }
}

/// Classify what came back from the decompiler collaborator: a failure
/// becomes an internal error carrying the collaborator's message; a
/// result that is empty once trimmed is treated as an internal failure,
/// not a valid answer; any other result is returned verbatim.
pub fn finish_decompile(outcome: Result<String, String>) -> (r: Result<String, AppError>)
    ensures
        outcome matches Err(e) ==> (r matches Err(err) && err is InternalError && err.message()
            == e@),
        outcome matches Ok(t) ==> (if spec_is_blank(t@) {
            r matches Err(err) && err is InternalError && err.message()
                == "Empty decompilation result"@
        } else {
            r matches Ok(text) && text == t
        }),
{
    match outcome {
        Err(e) => Err(AppError::InternalError(e)),
        Ok(t) => {
            if is_blank(t.as_str()) {
                Err(AppError::InternalError("Empty decompilation result".to_owned()))
            } else {
                Ok(t)
            }
        },
    }
}

} // verus!
