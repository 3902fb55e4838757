use medal::config::{default_encode_key, default_port, has_enabled_dialect, ServeConfig};
use medal::decompile::{finish_decompile, prepare_lua51, prepare_luau, DecompileRequest};
use medal::error::AppError;
use medal::response::{respond_with_cors, HttpResponse};
use medal::routing::{active_routes, route_request, Dispatch, Endpoint, HttpMethod};
use medal::server::{asset_file_for, complete_asset, complete_decompile, handle_request, health_check, RequestStep};
use medal::text::{is_blank, parse_u16, str_eq};
use medal::validate::validate_body;

fn cfg(luau: bool, lua51: bool) -> ServeConfig {
    ServeConfig { port: 3000, luau, lua51 }
}

fn has_cors(resp: &HttpResponse) -> bool {
    resp.headers
        .iter()
        .any(|h| h.name == "access-control-allow-origin" && h.value == "*")
}

#[test]
fn empty_payload_is_bad_request() {
    match validate_body(&[]) {
        Err(AppError::BadRequest(m)) => assert_eq!(m, "No bytecode provided"),
        _ => panic!("empty payload must be rejected as a client error"),
    }
    match prepare_luau(None, &[]) {
        Err(AppError::BadRequest(m)) => assert_eq!(m, "No bytecode provided"),
        _ => panic!("dialect-A handler must reject an empty payload"),
    }
    match prepare_lua51(&[]) {
        Err(AppError::BadRequest(m)) => assert_eq!(m, "No bytecode provided"),
        _ => panic!("dialect-B handler must reject an empty payload"),
    }
}

#[test]
fn short_payload_is_bad_request() {
    for len in 1..=3usize {
        let body = vec![0u8; len];
        match validate_body(&body) {
            Err(AppError::BadRequest(m)) => {
                assert_eq!(m, "Bytecode too short (minimum 4 bytes)")
            }
            _ => panic!("payload of length {} must be rejected", len),
        }
        assert!(matches!(
            prepare_luau(Some(9), &body),
            Err(AppError::BadRequest(_))
        ));
        assert!(matches!(prepare_lua51(&body), Err(AppError::BadRequest(_))));
    }
}

#[test]
fn four_bytes_pass_validation() {
    assert!(validate_body(&[1, 2, 3, 4]).is_ok());
    assert!(validate_body(&[0u8; 64]).is_ok());
}

#[test]
fn successful_result_is_returned_verbatim() {
    let text = "local x = 1\nreturn x".to_string();
    match finish_decompile(Ok(text.clone())) {
        Ok(t) => assert_eq!(t, text),
        Err(_) => panic!("a non-empty result must be returned"),
    }
    let resp = complete_decompile(Ok(text.clone()));
    assert_eq!(resp.status, 200);
    assert_eq!(resp.body, text);
    assert!(has_cors(&resp));
}

#[test]
fn blank_result_is_internal_error() {
    match finish_decompile(Ok("   \t\r\n  ".to_string())) {
        Err(AppError::InternalError(m)) => assert_eq!(m, "Empty decompilation result"),
        _ => panic!("a blank result must be an internal error"),
    }
    // Non-ASCII whitespace counts as whitespace too.
    match finish_decompile(Ok("\u{a0}\u{2003}\u{3000}".to_string())) {
        Err(AppError::InternalError(m)) => assert_eq!(m, "Empty decompilation result"),
        _ => panic!("a result of only Unicode whitespace must be an internal error"),
    }
    let resp = complete_decompile(Ok("".to_string()));
    assert_eq!(resp.status, 500);
    assert_eq!(resp.body, "Empty decompilation result");
    assert!(has_cors(&resp));
}

#[test]
fn collaborator_failure_is_internal_error() {
    match finish_decompile(Err("invalid bytecode header".to_string())) {
        Err(AppError::InternalError(m)) => assert_eq!(m, "invalid bytecode header"),
        _ => panic!("a collaborator failure must be an internal error"),
    }
    let resp = complete_decompile(Err("invalid bytecode header".to_string()));
    assert_eq!(resp.status, 500);
    assert_eq!(resp.body, "invalid bytecode header");
    assert!(has_cors(&resp));
}

#[test]
fn encode_key_resolution() {
    assert_eq!(default_encode_key(), 203);
    let body = [0u8, 1, 2, 3];
    match prepare_luau(Some(77), &body) {
        Ok(req) => {
            assert_eq!(req, DecompileRequest { encode_key: 77, is_legacy: false })
        }
        Err(_) => panic!("a valid payload must reach the collaborator"),
    }
    match prepare_luau(None, &body) {
        Ok(req) => {
            assert_eq!(req, DecompileRequest { encode_key: 203, is_legacy: false })
        }
        Err(_) => panic!("a valid payload must reach the collaborator"),
    }
}

#[test]
fn lua51_is_always_legacy_with_default_key() {
    let body = [27u8, 76, 117, 97];
    match prepare_lua51(&body) {
        Ok(req) => assert_eq!(req, DecompileRequest { encode_key: 203, is_legacy: true }),
        Err(_) => panic!("a valid payload must reach the collaborator"),
    }
}

#[test]
fn error_classification() {
    let (status, message) = AppError::BadRequest("nope".to_string()).into_response();
    assert_eq!((status, message.as_str()), (400, "nope"));
    let (status, message) = AppError::InternalError("boom".to_string()).into_response();
    assert_eq!((status, message.as_str()), (500, "boom"));
}

#[test]
fn route_presence_follows_flags() {
    let config = cfg(false, true);
    assert_eq!(
        route_request(&config, HttpMethod::Post, "/luau/decompile"),
        Dispatch::StaticAsset
    );
    assert_eq!(
        route_request(&config, HttpMethod::Post, "/lua51/decompile"),
        Dispatch::Api(Endpoint::DecompileLua51)
    );
    let config = cfg(true, false);
    assert_eq!(
        route_request(&config, HttpMethod::Post, "/luau/decompile"),
        Dispatch::Api(Endpoint::DecompileLuau)
    );
    assert_eq!(
        route_request(&config, HttpMethod::Post, "/lua51/decompile"),
        Dispatch::StaticAsset
    );
}

#[test]
fn route_table_matches_flags() {
    let routes = active_routes(&cfg(true, true));
    let summary: Vec<(HttpMethod, &str, Endpoint)> = routes
        .iter()
        .map(|r| (r.method, r.path.as_str(), r.endpoint))
        .collect();
    assert_eq!(
        summary,
        vec![
            (HttpMethod::Get, "/health", Endpoint::Health),
            (HttpMethod::Post, "/luau/decompile", Endpoint::DecompileLuau),
            (HttpMethod::Post, "/lua51/decompile", Endpoint::DecompileLua51),
        ]
    );
    let routes = active_routes(&cfg(false, false));
    assert_eq!(routes.len(), 1);
    assert_eq!(routes[0].path, "/health");
}

#[test]
fn health_is_always_routed() {
    for &(luau, lua51) in &[(false, false), (false, true), (true, false), (true, true)] {
        let config = cfg(luau, lua51);
        assert_eq!(
            route_request(&config, HttpMethod::Get, "/health"),
            Dispatch::Api(Endpoint::Health)
        );
    }
    let resp = health_check();
    assert_eq!(resp.status, 200);
    assert_eq!(resp.body, "OK");
    assert!(has_cors(&resp));
}

#[test]
fn unmatched_paths_fall_through() {
    let config = cfg(true, true);
    assert_eq!(
        route_request(&config, HttpMethod::Get, "/"),
        Dispatch::StaticAsset
    );
    assert_eq!(
        route_request(&config, HttpMethod::Get, "/style.css"),
        Dispatch::StaticAsset
    );
    // A decompile path with the wrong method is unmatched too.
    assert_eq!(
        route_request(&config, HttpMethod::Get, "/luau/decompile"),
        Dispatch::StaticAsset
    );
}

#[test]
fn asset_fallback_decision() {
    assert_eq!(asset_file_for("/"), "index.html");
    assert_eq!(asset_file_for("/does-not-exist.js"), "does-not-exist.js");
    assert_eq!(asset_file_for("/app/main.css"), "app/main.css");
    let resp = complete_asset(Some("<html></html>".to_string()));
    assert_eq!(resp.status, 200);
    assert_eq!(resp.body, "<html></html>");
    assert!(has_cors(&resp));
    let resp = complete_asset(None);
    assert_eq!(resp.status, 404);
    assert_eq!(resp.body, "");
    assert!(has_cors(&resp));
}

#[test]
fn every_response_carries_cors() {
    let resp = respond_with_cors(204, String::new());
    assert!(has_cors(&resp));
    assert!(resp
        .headers
        .iter()
        .any(|h| h.name == "access-control-max-age" && h.value == "3600"));
    assert!(has_cors(&health_check()));
    assert!(has_cors(&complete_asset(None)));
    assert!(has_cors(&complete_decompile(Err("x".to_string()))));
    let config = cfg(true, true);
    match handle_request(&config, HttpMethod::Post, "/luau/decompile", None, &[]) {
        RequestStep::Respond(resp) => {
            assert_eq!(resp.status, 400);
            assert!(has_cors(&resp));
        }
        _ => panic!("an empty payload must produce a finished response"),
    }
}

#[test]
fn full_request_steps() {
    let config = cfg(true, true);
    match handle_request(&config, HttpMethod::Get, "/health", None, &[]) {
        RequestStep::Respond(resp) => {
            assert_eq!(resp.status, 200);
            assert_eq!(resp.body, "OK");
        }
        _ => panic!("the health check needs nothing from outside"),
    }
    match handle_request(&config, HttpMethod::Post, "/luau/decompile", Some(77), &[1, 2, 3, 4]) {
        RequestStep::CallDecompiler(req) => {
            assert_eq!(req, DecompileRequest { encode_key: 77, is_legacy: false })
        }
        _ => panic!("a valid dialect-A request must invoke the collaborator"),
    }
    match handle_request(&config, HttpMethod::Post, "/lua51/decompile", Some(77), &[1, 2, 3, 4]) {
        RequestStep::CallDecompiler(req) => {
            assert_eq!(req, DecompileRequest { encode_key: 203, is_legacy: true })
        }
        _ => panic!("a valid dialect-B request must invoke the collaborator"),
    }
    match handle_request(&config, HttpMethod::Post, "/lua51/decompile", None, &[1, 2]) {
        RequestStep::Respond(resp) => {
            assert_eq!(resp.status, 400);
            assert_eq!(resp.body, "Bytecode too short (minimum 4 bytes)");
        }
        _ => panic!("a short payload must be rejected before the collaborator"),
    }
    let config = cfg(false, true);
    match handle_request(&config, HttpMethod::Post, "/luau/decompile", None, &[1, 2, 3, 4]) {
        RequestStep::ServeAsset(file) => assert_eq!(file, "luau/decompile"),
        _ => panic!("a disabled dialect's path must fall through to the assets"),
    }
}

#[test]
fn port_parsing() {
    assert_eq!(parse_u16("3000"), Some(3000));
    assert_eq!(parse_u16("+8080"), Some(8080));
    assert_eq!(parse_u16("0"), Some(0));
    assert_eq!(parse_u16("65535"), Some(65535));
    assert_eq!(parse_u16("65536"), None);
    assert_eq!(parse_u16("999999999999"), None);
    assert_eq!(parse_u16(""), None);
    assert_eq!(parse_u16("+"), None);
    assert_eq!(parse_u16("80a"), None);
    assert_eq!(parse_u16("-1"), None);
    assert_eq!(parse_u16(" 80"), None);
}

#[test]
fn port_defaulting() {
    assert_eq!(default_port(None), 3000);
    assert_eq!(default_port(Some("8080")), 8080);
    assert_eq!(default_port(Some("not a port")), 3000);
    assert_eq!(default_port(Some("70000")), 3000);
}

#[test]
fn dialect_gate() {
    assert!(has_enabled_dialect(&cfg(true, false)));
    assert!(has_enabled_dialect(&cfg(false, true)));
    assert!(has_enabled_dialect(&cfg(true, true)));
    assert!(!has_enabled_dialect(&cfg(false, false)));
}

#[test]
fn text_helpers() {
    assert!(is_blank(""));
    assert!(is_blank("  \t\n"));
    assert!(!is_blank(" x "));
    assert!(str_eq("/health", "/health"));
    assert!(!str_eq("/health", "/healthz"));
    assert!(!str_eq("/luau/decompile", "/lua51/decompile"));
}
