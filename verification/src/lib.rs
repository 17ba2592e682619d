//! A local API proxy backed by Codex ChatGPT auth: the verified core.
//!
//! The library holds the proxy's rules: the upstream URLs it targets, how a
//! caller's bearer token is checked, which headers travel upstream and back,
//! how a request body is normalized for the Codex Responses backend, how the
//! Codex model catalog is projected into the OpenAI list shape, how the
//! installation id is chosen, and the retry flow of a proxied request.

#![allow(unused_imports)]

use vstd::prelude::*;

pub mod config;
pub mod flow;
pub mod headers;
pub mod installation;
pub mod json;
pub mod models;
pub mod normalize;
pub mod text;
pub mod urls;

pub use config::{require_proxy_api_key, ProxyConfig};
pub use flow::{next_step, start_flow, status_is_success, ProxyAction, ProxyEvent, ProxyFlow, ProxyPhase, ProxyRoute};
pub use headers::{
    bearer_is_authorized, catalog_projection_failed_reply, copy_response_headers, models_request_headers,
    refresh_failed_reply, refuse_request_body, reject_unauthorized, responses_request_headers, upstream_headers,
};
pub use installation::{existing_installation_id_in, installation_id_file_contents, resolve_installation_id, ResolvedInstallationId};
pub use models::{openai_models_body_from_codex_catalog, openai_models_from_catalog};
pub use normalize::{normalize_responses_body, normalize_responses_value};
pub use urls::{default_codex_home, CodexHome, CODEX_DIR_NAME, models_url, responses_url, startup_message};


verus! {

/// Address the proxy listens on unless told otherwise.
pub const DEFAULT_LISTEN: &'static str = "127.0.0.1:8765";

/// Seconds between background checks of the Codex auth state.
pub const DEFAULT_AUTH_REFRESH_INTERVAL_SECS: u64 = 60;

/// Codex client version sent with the model-catalog request by default. The
/// Codex backend filters its model catalog by the client version.
pub const DEFAULT_CODEX_CLIENT_VERSION: &'static str = "0.142.2";

/// Path of the Codex model catalog, below the upstream base URL.
pub const CODEX_MODELS_PATH: &'static str = "/models";

/// Path of the Codex Responses endpoint, below the upstream base URL.
pub const CODEX_RESPONSES_PATH: &'static str = "/responses";

/// Path on which the proxy serves the OpenAI-shaped model list.
pub const OPENAI_MODELS_PATH: &'static str = "/v1/models";

/// Path on which the proxy serves the OpenAI-shaped Responses endpoint.
pub const OPENAI_RESPONSES_PATH: &'static str = "/v1/responses";

/// Name of the file under the Codex home that holds the installation id.
pub const INSTALLATION_ID_FILENAME: &'static str = "installation_id";

/// Header (and client-metadata key) that carries the installation id.
pub const X_CODEX_INSTALLATION_ID: &'static str = "x-codex-installation-id";

/// Header that carries a fresh id for each upstream request.
pub const X_CLIENT_REQUEST_ID: &'static str = "x-client-request-id";

} // verus!
