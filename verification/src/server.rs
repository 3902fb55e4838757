//! One request's path through the service, as pure steps: dispatch and
//! validation up to the point where something outside the library — the
//! decompiler collaborator or the asset directory — must act, and the
//! classification of what that something produced.

use vstd::prelude::*;
use vstd::string::StrSliceExecFns;
use crate::config::ServeConfig;
use crate::decompile::{
    finish_decompile, prepare_lua51, prepare_luau, spec_resolved_key, DecompileRequest,
};
use crate::error::{STATUS_BAD_REQUEST, STATUS_INTERNAL_ERROR, STATUS_NOT_FOUND, STATUS_OK};
use crate::response::{respond_with_cors, spec_permissive, HttpResponse};
use crate::routing::{route_request, spec_dispatch, Dispatch, Endpoint, HttpMethod};
use crate::text::{spec_is_blank, str_eq};
use crate::validate::spec_body_error;

verus! {

/// What a request needs next: a finished response, an invocation of the
/// decompiler collaborator, or a file lookup by the asset fallback.
#[derive(Debug)]
pub enum RequestStep {
    Respond(HttpResponse),
    CallDecompiler(DecompileRequest),
    ServeAsset(String),
}

/// The health check's response: success with a fixed confirmation body,
/// independent of configuration.
pub fn health_check() -> (r: HttpResponse)
    ensures
        r.status == STATUS_OK,
        r.body@ == "OK"@,
        spec_permissive(r.headers@),
{
    respond_with_cors(STATUS_OK, "OK".to_owned())
}

/// The file the static fallback looks up for an unmatched request path:
/// the default document for the root path, otherwise the path itself
/// relative to the asset root.
pub open spec fn spec_asset_file(path: Seq<char>) -> Seq<char> {
    if path == "/"@ {
        "index.html"@
    } else if path.len() > 0 && path[0] == '/' {
        path.drop_first()
    } else {
        path
    }
}

/// Resolve an unmatched request path to the asset file to look up.
pub fn asset_file_for(path: &str) -> (r: String)
    ensures
        r@ == spec_asset_file(path@),
{
    if str_eq(path, "/") {
        "index.html".to_owned()
    } else {
        let n = path.unicode_len();
        if n > 0 && path.get_char(0) == '/' {
            let rest = path.substring_char(1, n);
            proof {
                assert(path@.subrange(1, n as int) =~= path@.drop_first());
            }
            rest.to_owned()
        } else {
            path.to_owned()
        }
    }
}

/// Route one request and run every check that needs nothing from outside
/// the library. The result either is the finished response — for the
/// health check and for rejected payloads — or says exactly what must be
/// asked of the decompiler collaborator or of the asset directory.
pub fn handle_request(
    config: &ServeConfig,
    method: HttpMethod,
    path: &str,
    encode_key: Option<u8>,
    body: &[u8],
) -> (r: RequestStep)
    ensures
        spec_dispatch(*config, method, path@) == Dispatch::Api(Endpoint::Health) ==> (
        r matches RequestStep::Respond(resp) && resp.status == STATUS_OK && resp.body@ == "OK"@
            && spec_permissive(resp.headers@)),
        spec_dispatch(*config, method, path@) == Dispatch::Api(Endpoint::DecompileLuau) ==> (
        match spec_body_error(body@) {
            Some(m) => r matches RequestStep::Respond(resp) && resp.status == STATUS_BAD_REQUEST
                && resp.body@ == m && spec_permissive(resp.headers@),
            None => r matches RequestStep::CallDecompiler(req) && req.encode_key
                == spec_resolved_key(encode_key) && !req.is_legacy,
        }),
        spec_dispatch(*config, method, path@) == Dispatch::Api(Endpoint::DecompileLua51) ==> (
        match spec_body_error(body@) {
            Some(m) => r matches RequestStep::Respond(resp) && resp.status == STATUS_BAD_REQUEST
                && resp.body@ == m && spec_permissive(resp.headers@),
            None => r matches RequestStep::CallDecompiler(req) && req.encode_key
                == crate::config::DEFAULT_ENCODE_KEY && req.is_legacy,
        }),
        spec_dispatch(*config, method, path@) == Dispatch::StaticAsset ==> (
        r matches RequestStep::ServeAsset(f) && f@ == spec_asset_file(path@)),
{
    match route_request(config, method, path) {
        Dispatch::Api(Endpoint::Health) => RequestStep::Respond(health_check()),
        Dispatch::Api(Endpoint::DecompileLuau) => match prepare_luau(encode_key, body) {
            Ok(req) => RequestStep::CallDecompiler(req),
            Err(e) => {
                let (status, message) = e.into_response();
                RequestStep::Respond(respond_with_cors(status, message))
            },
        },
        Dispatch::Api(Endpoint::DecompileLua51) => match prepare_lua51(body) {
            Ok(req) => RequestStep::CallDecompiler(req),
            Err(e) => {
                let (status, message) = e.into_response();
                RequestStep::Respond(respond_with_cors(status, message))
            },
        },
        Dispatch::StaticAsset => RequestStep::ServeAsset(asset_file_for(path)),
    }
}

/// Turn the decompiler collaborator's outcome into the response: the
/// text verbatim on success, a server error carrying the collaborator's
/// message on failure, and a server error when the text trims to
/// nothing.
pub fn complete_decompile(outcome: Result<String, String>) -> (r: HttpResponse)
    ensures
        spec_permissive(r.headers@),
        outcome matches Err(e) ==> (r.status == STATUS_INTERNAL_ERROR && r.body@ == e@),
        outcome matches Ok(t) ==> (if spec_is_blank(t@) {
            r.status == STATUS_INTERNAL_ERROR && r.body@ == "Empty decompilation result"@
        } else {
            r.status == STATUS_OK && r.body == t
        }),
{
    match finish_decompile(outcome) {
        Ok(text) => respond_with_cors(STATUS_OK, text),
        Err(e) => {
            let (status, message) = e.into_response();
            respond_with_cors(status, message)
        },
    }
}

/// Turn the asset fallback's lookup result into the response: the file's
/// contents when the lookup produced them, a not-found response with an
/// empty body otherwise.
pub fn complete_asset(contents: Option<String>) -> (r: HttpResponse)
    ensures
        spec_permissive(r.headers@),
        contents matches Some(t) ==> (r.status == STATUS_OK && r.body == t),
        contents is None ==> (r.status == STATUS_NOT_FOUND && r.body@ == ""@),
{
    match contents {
        Some(t) => respond_with_cors(STATUS_OK, t),
        None => respond_with_cors(STATUS_NOT_FOUND, "".to_owned()),
    }
}

} // verus!
