//! The service configuration and its defaults.

use vstd::prelude::*;
use crate::text::{parse_u16, spec_parse_u16};

verus! {

/// Decode parameter used for dialect-A requests that do not supply one,
/// and for every dialect-B request.
pub const DEFAULT_ENCODE_KEY: u8 = 203;

/// Listen port used when neither an explicit value nor a usable
/// environment-derived one is given.
pub const FALLBACK_PORT: u16 = 3000;

/// Immutable runtime configuration: the listen port and one independent
/// flag per decompilation dialect. Constructed once at startup and only
/// read afterwards.
#[derive(Clone, Copy, Debug)]
pub struct ServeConfig {
    pub port: u16,
    pub luau: bool,
    pub lua51: bool,
}

/// The fixed default decode parameter.
pub fn default_encode_key() -> (k: u8)
    ensures
        k == DEFAULT_ENCODE_KEY,
{
    DEFAULT_ENCODE_KEY
}

/// Port to listen on when none is given explicitly: the decimal value of
/// the environment-derived string when it parses as a `u16`, else the
/// fixed fallback.
pub fn default_port(env_port: Option<&str>) -> (p: u16)
    ensures
        env_port is None ==> p == FALLBACK_PORT,
        env_port matches Some(s) ==> (match spec_parse_u16(s@) {
            Some(v) => p == v,
            None => p == FALLBACK_PORT,
        }),
{
    match env_port {
        None => FALLBACK_PORT,
        Some(s) => match parse_u16(s) {
            Some(v) => v,
            None => FALLBACK_PORT,
        },
    }
}

/// Whether at least one dialect endpoint is enabled. A service with none
/// would serve only the health check and static assets, so startup
/// refuses such a configuration.
pub fn has_enabled_dialect(config: &ServeConfig) -> (r: bool)
    ensures
        r == (config.luau || config.lua51),
{
    config.luau || config.lua51
}

} // verus!
