//! The configuration that lets an agent reach the desktop's MCP endpoint.

use vstd::prelude::*;
use crate::text::{chars_of, decimal, extend_chars, push_decimal, string_from_chars};

verus! {

/// Where the MCP endpoint listens, the token it wants, and the snippet that
/// configures a client for it.
#[derive(Debug, Clone)]
pub struct McpConfigView {
    pub endpoint: String,
    pub token: String,
    pub config_text: String,
}

/// The endpoint on local port `port`.
pub open spec fn endpoint_text(port: u16) -> Seq<char> {
    "http://127.0.0.1:"@ + decimal(port as nat) + "/mcp"@
}

/// The client configuration for `endpoint` and `token`.
pub open spec fn config_snippet(endpoint: Seq<char>, token: Seq<char>) -> Seq<char> {
    "[mcp_servers.arcrelay]\nurl = \""@ + endpoint + "\"\nhttp_headers = { Authorization = \"Bearer "@ + token
        + "\" }"@
}

/// The configuration of the MCP endpoint on local port `port` with `token`.
pub fn mcp_config(port: u16, token: String) -> (c: McpConfigView)
    ensures
        c.endpoint@ == endpoint_text(port),
        c.token@ == token@,
        c.config_text@ == config_snippet(endpoint_text(port), token@),
{
    let mut e = chars_of("http://127.0.0.1:");
    push_decimal(&mut e, port as u64);
    extend_chars(&mut e, &chars_of("/mcp"));
    assert(e@ =~= endpoint_text(port));
    let mut t = chars_of("[mcp_servers.arcrelay]\nurl = \"");
    extend_chars(&mut t, &e);
    extend_chars(&mut t, &chars_of("\"\nhttp_headers = { Authorization = \"Bearer "));
    extend_chars(&mut t, &chars_of(token.as_str()));
    extend_chars(&mut t, &chars_of("\" }"));
    assert(t@ =~= config_snippet(endpoint_text(port), token@));
    McpConfigView { endpoint: string_from_chars(&e), token, config_text: string_from_chars(&t) }
}

} // verus!
