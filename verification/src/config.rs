//! The proxy's configuration.

use vstd::prelude::*;
use vstd::string::*;

verus! {

/// What the proxy runs with: where it listens, the key its callers present,
/// the Codex home holding the login, and the upstream base URL.
#[derive(Clone, Debug)]
pub struct ProxyConfig {
    pub listen: String,
    pub proxy_api_key: String,
    pub codex_home: String,
    pub upstream_base_url: String,
}

/// Message when the proxy is started without a key for its callers.
pub const MISSING_API_KEY_MESSAGE: &'static str =
    "CODEX_PROXY_API_KEY is required unless using a subcommand";

/// The proxy key to serve with: the one given, or the message of why the
/// proxy cannot start without one.
pub fn require_proxy_api_key(api_key: Option<String>) -> (key: Result<String, String>)
    ensures
        match api_key {
            Some(given) => key matches Ok(k) && k@ == given@,
            None => key matches Err(message) && message@ == MISSING_API_KEY_MESSAGE@,
        },
{
    match api_key {
        Some(given) => Ok(given),
        None => Err(String::from_str(MISSING_API_KEY_MESSAGE)),
    }
}

} // verus!
