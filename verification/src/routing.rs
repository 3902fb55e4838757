//! The route registrar and dispatcher: which endpoints a configuration
//! activates, and where a given request goes.

use vstd::prelude::*;
use crate::config::ServeConfig;
use crate::text::str_eq;

verus! {

#[derive(Clone, Copy, Debug, PartialEq, Eq, Structural)]
pub enum HttpMethod {
    Get,
    Post,
    Other,
}

/// The API endpoints the service can expose.
#[derive(Clone, Copy, Debug, PartialEq, Eq, Structural)]
pub enum Endpoint {
    Health,
    DecompileLuau,
    DecompileLua51,
}

/// Where a request goes: to an active API endpoint, or to the static
/// asset fallback.
#[derive(Clone, Copy, Debug, PartialEq, Eq, Structural)]
pub enum Dispatch {
    Api(Endpoint),
    StaticAsset,
}

/// One active endpoint binding.
#[derive(Debug)]
pub struct Route {
    pub method: HttpMethod,
    pub path: String,
    pub endpoint: Endpoint,
}

/// The endpoint bindings a configuration activates, in registration
/// order: the health check always, then each dialect's decompile
/// endpoint exactly when its flag is set.
pub open spec fn spec_route_table(luau: bool, lua51: bool) -> Seq<(HttpMethod, Seq<char>, Endpoint)> {
    let base = seq![(HttpMethod::Get, "/health"@, Endpoint::Health)];
    let with_luau = if luau {
        base.push((HttpMethod::Post, "/luau/decompile"@, Endpoint::DecompileLuau))
    } else {
        base
    };
    if lua51 {
        with_luau.push((HttpMethod::Post, "/lua51/decompile"@, Endpoint::DecompileLua51))
    } else {
        with_luau
    }
}

/// Build the table of active endpoint bindings for a configuration.
/// Registration is deterministic and cannot fail.
pub fn active_routes(config: &ServeConfig) -> (r: Vec<Route>)
    ensures
        r@.len() == spec_route_table(config.luau, config.lua51).len(),
        forall|i: int| 0 <= i < r@.len() ==> #[trigger] spec_route_table(config.luau, config.lua51)[i]
            == (r@[i].method, r@[i].path@, r@[i].endpoint),
{
    let mut routes: Vec<Route> = Vec::new();
    routes.push(Route {
        method: HttpMethod::Get,
        path: "/health".to_owned(),
        endpoint: Endpoint::Health,
    });
    if config.luau {
        routes.push(Route {
            method: HttpMethod::Post,
            path: "/luau/decompile".to_owned(),
            endpoint: Endpoint::DecompileLuau,
        });
    }
    if config.lua51 {
        routes.push(Route {
            method: HttpMethod::Post,
            path: "/lua51/decompile".to_owned(),
            endpoint: Endpoint::DecompileLua51,
        });
    }
    routes
}

/// Where a request with the given method and path goes under a
/// configuration: to an endpoint of the table exactly when one matches,
/// else to the static asset fallback.
pub open spec fn spec_dispatch(config: ServeConfig, method: HttpMethod, path: Seq<char>) -> Dispatch {
    if method == HttpMethod::Get && path == "/health"@ {
        Dispatch::Api(Endpoint::Health)
    } else if config.luau && method == HttpMethod::Post && path == "/luau/decompile"@ {
        Dispatch::Api(Endpoint::DecompileLuau)
    } else if config.lua51 && method == HttpMethod::Post && path == "/lua51/decompile"@ {
        Dispatch::Api(Endpoint::DecompileLua51)
    } else {
        Dispatch::StaticAsset
    }
}

/// Dispatch a request. A disabled dialect's path is not special: it falls
/// through to the asset fallback like any other unmatched path.
pub fn route_request(config: &ServeConfig, method: HttpMethod, path: &str) -> (r: Dispatch)
    ensures
        r == spec_dispatch(*config, method, path@),
{
    if method == HttpMethod::Get && str_eq(path, "/health") {
        Dispatch::Api(Endpoint::Health)
    } else if config.luau && method == HttpMethod::Post && str_eq(path, "/luau/decompile") {
        Dispatch::Api(Endpoint::DecompileLuau)
    } else if config.lua51 && method == HttpMethod::Post && str_eq(path, "/lua51/decompile") {
        Dispatch::Api(Endpoint::DecompileLua51)
    } else {
        Dispatch::StaticAsset
    }
}

/// The dispatcher agrees with the route table: a request reaches an
/// endpoint exactly when the table of active bindings holds one with the
/// request's method and path, and it is that binding's endpoint.
pub proof fn lemma_dispatch_matches_table(config: ServeConfig, method: HttpMethod, path: Seq<char>)
    ensures
        spec_dispatch(config, method, path) matches Dispatch::Api(e) ==> spec_route_table(
            config.luau,
            config.lua51,
        ).contains((method, path, e)),
        spec_dispatch(config, method, path) == Dispatch::StaticAsset ==> (forall|i: int|
            0 <= i < spec_route_table(config.luau, config.lua51).len() ==> !((#[trigger] spec_route_table(config.luau, config.lua51)[i]).0 == method
                && spec_route_table(config.luau, config.lua51)[i].1 == path)),
{
    reveal_strlit("/health");
    reveal_strlit("/luau/decompile");
    reveal_strlit("/lua51/decompile");
    assert("/health"@.len() == 7);
    assert("/luau/decompile"@.len() == 15);
    assert("/lua51/decompile"@.len() == 16);
    let table = spec_route_table(config.luau, config.lua51);
    match spec_dispatch(config, method, path) {
        Dispatch::Api(e) => {
            if e == Endpoint::Health {
                assert(table[0] == (method, path, e));
            } else if e == Endpoint::DecompileLuau {
                assert(table[1] == (method, path, e));
            } else {
                let i = table.len() - 1;
                assert(table[i as int] == (method, path, e));
            }
        },
        Dispatch::StaticAsset => {
        },
    }
}

/// The health endpoint is always routed: under every configuration, a
/// `GET` of its path reaches it.
pub proof fn lemma_health_always_routed(config: ServeConfig)
    ensures
        spec_dispatch(config, HttpMethod::Get, "/health"@) == Dispatch::Api(Endpoint::Health),
{
}

/// Route presence follows the flags alone: with dialect A disabled and
/// dialect B enabled, a `POST` of the dialect-A path falls through to the
/// asset fallback, while a `POST` of the dialect-B path reaches its
/// decompile endpoint — whatever the rest of the configuration.
pub proof fn lemma_route_presence(config: ServeConfig)
    requires
        !config.luau,
        config.lua51,
    ensures
        spec_dispatch(config, HttpMethod::Post, "/luau/decompile"@) == Dispatch::StaticAsset,
        spec_dispatch(config, HttpMethod::Post, "/lua51/decompile"@) == Dispatch::Api(
            Endpoint::DecompileLua51,
        ),
{
    reveal_strlit("/luau/decompile");
    reveal_strlit("/lua51/decompile");
    assert("/luau/decompile"@.len() == 15);
    assert("/lua51/decompile"@.len() == 16);
}

} // verus!
