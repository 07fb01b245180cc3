//! Log lines the gateway emits at the edges of its life.  The library
//! only builds the text; writing it to a diagnostic channel — never
//! the protocol stream — happens outside.

use vstd::prelude::*;
use crate::config::Config;
use crate::text::{append_str, str_concat};

verus! {

/// The startup line, naming the configured domain.
pub fn log_startup(config: &Config) -> (r: String)
    ensures
        r@ == "atlassian_domain="@ + config.atlassian_domain@
            + " MCP Atlassian server starting (stdio mode)"@,
{
    let mut line = "atlassian_domain=".to_owned();
    append_str(&mut line, config.atlassian_domain.as_str());
    append_str(&mut line, " MCP Atlassian server starting (stdio mode)");
    line
}

/// The shutdown line.
pub fn log_shutdown() -> (r: String)
    ensures
        r@ == "MCP Atlassian server shutting down"@,
{
    "MCP Atlassian server shutting down".to_owned()
}

} // verus!
