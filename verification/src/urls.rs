//! Upstream URLs and other texts the proxy builds from its configuration.

use vstd::prelude::*;
use vstd::string::*;

use crate::text::{lemma_trim_trailing_slash_push, trim_end_slashes, trim_trailing_slashes};
use crate::{CODEX_MODELS_PATH, CODEX_RESPONSES_PATH};

verus! {

/// URL of the Codex Responses endpoint below `base`.
pub open spec fn responses_url_spec(base: Seq<char>) -> Seq<char> {
    trim_trailing_slashes(base) + CODEX_RESPONSES_PATH@
}

/// URL of the Codex model catalog below `base`, for a client version.
pub open spec fn models_url_spec(base: Seq<char>, client_version: Seq<char>) -> Seq<char> {
    trim_trailing_slashes(base) + CODEX_MODELS_PATH@ + "?client_version="@ + client_version
}

/// The Codex Responses URL: `base` without trailing slashes, then `/responses`.
pub fn responses_url(base_url: &str) -> (r: String)
    ensures
        r@ == responses_url_spec(base_url@),
{
    let trimmed = trim_end_slashes(base_url);
    String::from_str(trimmed).concat(CODEX_RESPONSES_PATH)
}

/// The Codex model-catalog URL: `base` without trailing slashes, then
/// `/models?client_version=` and the client version.
pub fn models_url(base_url: &str, client_version: &str) -> (r: String)
    ensures
        r@ == models_url_spec(base_url@, client_version@),
{
    let trimmed = trim_end_slashes(base_url);
    String::from_str(trimmed).concat(CODEX_MODELS_PATH).concat("?client_version=").concat(
        client_version,
    )
}

/// `n` slashes.
pub open spec fn slashes(n: nat) -> Seq<char> {
    Seq::new(n, |_i: int| '/')
}

proof fn lemma_trim_ignores_slashes(s: Seq<char>, n: nat)
    ensures
        trim_trailing_slashes(s + slashes(n)) == trim_trailing_slashes(s),
    decreases n,
{
    if n == 0 {
        assert(s + slashes(0) =~= s);
    } else {
        let fewer = (n - 1) as nat;
        assert(s + slashes(n) =~= (s + slashes(fewer)).push('/'));
        lemma_trim_trailing_slash_push(s + slashes(fewer));
        lemma_trim_ignores_slashes(s, fewer);
    }
}

proof fn lemma_trimmed_has_no_trailing_slash(s: Seq<char>)
    ensures
        trim_trailing_slashes(s).len() == 0 || trim_trailing_slashes(s).last() != '/',
    decreases s.len(),
{
    if s.len() > 0 && s.last() == '/' {
        lemma_trimmed_has_no_trailing_slash(s.drop_last());
    }
}

/// Any number of trailing slashes on the base URL leaves the Responses URL
/// as it is, and the base part of the URL never ends in `/`.
pub proof fn law_responses_url_ignores_trailing_slashes(base: Seq<char>, n: nat)
    ensures
        responses_url_spec(base + slashes(n)) == responses_url_spec(base),
        trim_trailing_slashes(base).len() == 0 || trim_trailing_slashes(base).last() != '/',
{
    lemma_trim_ignores_slashes(base, n);
    lemma_trimmed_has_no_trailing_slash(base);
}

/// Any number of trailing slashes on the base URL leaves the model-catalog
/// URL as it is, and the base part of the URL never ends in `/`.
pub proof fn law_models_url_ignores_trailing_slashes(
    base: Seq<char>,
    n: nat,
    client_version: Seq<char>,
)
    ensures
        models_url_spec(base + slashes(n), client_version) == models_url_spec(base, client_version),
        trim_trailing_slashes(base).len() == 0 || trim_trailing_slashes(base).last() != '/',
{
    lemma_trim_ignores_slashes(base, n);
    lemma_trimmed_has_no_trailing_slash(base);
}

/// Name of the Codex home directory under `$HOME`.
pub const CODEX_DIR_NAME: &'static str = ".codex";

/// Where the Codex home is. Joining `.codex` onto `$HOME` follows the
/// platform's path rules and is left to the caller.
pub enum CodexHome {
    /// The value of `$CODEX_HOME`, as it is.
    Configured(String),
    /// The directory `.codex` under this value of `$HOME`.
    UnderHome(String),
    /// `.codex`, relative to the working directory.
    WorkingDirectory,
}

/// The default Codex home, from the values of `CODEX_HOME` and `HOME`
/// (`None` where the variable is unset): `$CODEX_HOME` when set, else
/// `.codex` under `$HOME`, else `.codex`.
pub fn default_codex_home(codex_home: Option<&str>, home: Option<&str>) -> (choice: CodexHome)
    ensures
        match codex_home {
            Some(path) => choice matches CodexHome::Configured(c) && c@ == path@,
            None => match home {
                Some(dir) => choice matches CodexHome::UnderHome(h) && h@ == dir@,
                None => choice is WorkingDirectory,
            },
        },
{
    match codex_home {
        Some(path) => CodexHome::Configured(String::from_str(path)),
        None => match home {
            Some(dir) => CodexHome::UnderHome(String::from_str(dir)),
            None => CodexHome::WorkingDirectory,
        },
    }
}

/// The first line of the startup message, up to the listen address.
pub const STARTUP_PREFIX: &'static str = "codex-auth-proxy listening on http://";

/// The rest of the startup message: the endpoints the proxy serves.
pub const STARTUP_ENDPOINTS: &'static str = "\nendpoints:\nGET /healthz\nGET /models\nGET /v1/models\nPOST /v1/responses";

/// The message printed once the proxy listens on `listen`.
pub fn startup_message(listen: &str) -> (message: String)
    ensures
        message@ == STARTUP_PREFIX@ + listen@ + STARTUP_ENDPOINTS@,
{
    String::from_str(STARTUP_PREFIX).concat(listen).concat(STARTUP_ENDPOINTS)
}

} // verus!
