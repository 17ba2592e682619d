//! HTTP headers: the proxy's bearer check, the headers it sends upstream and
//! the headers it copies back from an upstream reply.
//!
//! Header maps and values are those of the `http` crate. A map is modelled
//! by `header_fields`: for each lower-case header name, the byte strings
//! stored under it, first one first. A value is modelled by the bytes it
//! holds.

use http::HeaderMap;
use http::HeaderValue;
use http::StatusCode;
use vstd::prelude::*;
use vstd::string::*;
use vstd::utf8::*;

use crate::text::opt_str_view;
use crate::{X_CLIENT_REQUEST_ID, X_CODEX_INSTALLATION_ID};

verus! {

broadcast use vstd::string::group_string_axioms;

#[verifier::external_type_specification]
#[verifier::external_body]
#[verifier::reject_recursive_types(T)]
pub struct ExHeaderMap<T>(HeaderMap<T>);

#[verifier::external_type_specification]
#[verifier::external_body]
pub struct ExHeaderValue(HeaderValue);

#[verifier::external_type_specification]
#[verifier::external_body]
pub struct ExStatusCode(StatusCode);

/// What a header map holds: for each lower-case header name, the values
/// stored under it (as bytes), in the order `HeaderMap::get_all` yields them.
pub uninterp spec fn header_fields(map: HeaderMap) -> Map<Seq<char>, Seq<Seq<u8>>>;

/// The bytes a header value holds, as `HeaderValue::as_bytes` gives them.
pub uninterp spec fn header_value_bytes(value: HeaderValue) -> Seq<u8>;

/// The number a status code holds, as `StatusCode::as_u16` gives it.
pub uninterp spec fn status_code_number(status: StatusCode) -> u16;

/// A character allowed in a header name (an HTTP `tchar`).
pub open spec fn is_tchar(c: char) -> bool {
    ||| ('a' <= c && c <= 'z')
    ||| ('A' <= c && c <= 'Z')
    ||| ('0' <= c && c <= '9')
    ||| c == '!' || c == '#' || c == '$' || c == '%' || c == '&' || c == '\''
    ||| c == '*' || c == '+' || c == '-' || c == '.' || c == '^' || c == '_'
    ||| c == '`' || c == '|' || c == '~'
}

/// A header name of at most 64 `tchar`s, the names that `http` lower-cases
/// and accepts without allocating.
pub open spec fn is_header_name(name: Seq<char>) -> bool {
    &&& 1 <= name.len() <= 64
    &&& forall|i: int| 0 <= i < name.len() ==> is_tchar(#[trigger] name[i])
}

/// ASCII lower-casing of one character.
pub open spec fn ascii_lowercase(c: char) -> char {
    if 'A' <= c && c <= 'Z' {
        ((c as u32) + 32) as char
    } else {
        c
    }
}

/// The key under which a header map stores the header `name`.
pub open spec fn header_key(name: Seq<char>) -> Seq<char> {
    name.map_values(|c: char| ascii_lowercase(c))
}

/// A byte that a header value may hold: a tab, or 32..=255 except DEL.
pub open spec fn is_header_value_byte(b: u8) -> bool {
    (b >= 32 && b != 127) || b == 9
}

/// A byte that `HeaderValue::to_str` accepts: a tab, or visible ASCII.
pub open spec fn is_visible_ascii_byte(b: u8) -> bool {
    (b >= 32 && b < 127) || b == 9
}

/// Every byte may stand in a header value.
pub open spec fn is_header_value(bytes: Seq<u8>) -> bool {
    forall|i: int| 0 <= i < bytes.len() ==> is_header_value_byte(#[trigger] bytes[i])
}

/// Every byte is visible ASCII (or a tab).
pub open spec fn is_visible_ascii(bytes: Seq<u8>) -> bool {
    forall|i: int| 0 <= i < bytes.len() ==> is_visible_ascii_byte(#[trigger] bytes[i])
}

/// Bytes read as ASCII characters.
pub open spec fn ascii_text(bytes: Seq<u8>) -> Seq<char> {
    bytes.map_values(|b: u8| b as char)
}

/// The contents of a map that holds no header.
pub open spec fn no_header_fields() -> Map<Seq<char>, Seq<Seq<u8>>> {
    Map::empty()
}

/// `HeaderMap::new`: a map that holds no header.
#[verifier::external_body]
pub(crate) fn header_map_new() -> (fresh: HeaderMap)
    ensures
        header_fields(fresh) == no_header_fields(),
{
    HeaderMap::new()
}

/// `HeaderMap::get` with a header name: the first value stored under the
/// name, compared without regard to ASCII case; `None` when there is none.
#[verifier::external_body]
pub(crate) fn header_map_get<'a>(map: &'a HeaderMap, name: &str) -> (value: Option<&'a HeaderValue>)
    requires
        is_header_name(name@),
    ensures
        value is Some <==> header_fields(*map).contains_key(header_key(name@)),
        value matches Some(v) ==> header_value_bytes(*v) == header_fields(*map)[header_key(
            name@,
        )][0] && header_fields(*map)[header_key(name@)].len() > 0,
{
    map.get(name)
}

/// `HeaderMap::insert` with a static header name: afterwards the name's
/// key holds exactly the one given value, and no other key changes. The
/// map panics past 2^15 distinct keys; the bound keeps well below that.
#[verifier::external_body]
pub(crate) fn header_map_insert(map: &mut HeaderMap, name: &'static str, value: HeaderValue)
    requires
        is_header_name(name@),
        header_fields(*old(map)).dom().finite(),
        header_fields(*old(map)).dom().len() < 16384,
    ensures
        header_fields(*final(map)) == header_fields(*old(map)).insert(
            header_key(name@),
            seq![header_value_bytes(value)],
        ),
{
    map.insert(name, value);
}

/// `HeaderValue::from_str`: a value holding the UTF-8 bytes of `text` when
/// every byte is a tab or lies in 32..=255 other than 127; `None` otherwise.
#[verifier::external_body]
pub(crate) fn header_value_from_str(text: &str) -> (value: Option<HeaderValue>)
    ensures
        value is Some <==> is_header_value(text.spec_bytes()),
        value matches Some(v) ==> header_value_bytes(v) == text.spec_bytes(),
{
    HeaderValue::from_str(text).ok()
}

/// `HeaderValue::to_str`: the value read as text when every byte is a tab
/// or visible ASCII; `None` otherwise.
#[verifier::external_body]
pub(crate) fn header_value_to_str<'a>(value: &'a HeaderValue) -> (text: Option<&'a str>)
    ensures
        text is Some <==> is_visible_ascii(header_value_bytes(*value)),
        text matches Some(t) ==> t@ == ascii_text(header_value_bytes(*value)),
{
    value.to_str().ok()
}

/// `HeaderValue::clone`: a value holding the same bytes.
#[verifier::external_body]
pub(crate) fn header_value_clone(value: &HeaderValue) -> (copy: HeaderValue)
    ensures
        header_value_bytes(copy) == header_value_bytes(*value),
{
    value.clone()
}

/// `StatusCode::UNAUTHORIZED`, the status 401.
#[verifier::external_body]
pub(crate) fn status_unauthorized() -> (status: StatusCode)
    ensures
        status_code_number(status) == 401,
{
    StatusCode::UNAUTHORIZED
}

/// `StatusCode::BAD_REQUEST`, the status 400.
#[verifier::external_body]
pub(crate) fn status_bad_request() -> (status: StatusCode)
    ensures
        status_code_number(status) == 400,
{
    StatusCode::BAD_REQUEST
}

/// `StatusCode::BAD_GATEWAY`, the status 502.
#[verifier::external_body]
pub(crate) fn status_bad_gateway() -> (status: StatusCode)
    ensures
        status_code_number(status) == 502,
{
    StatusCode::BAD_GATEWAY
}

/// Header carrying the caller's or the upstream's bearer token.
pub const AUTHORIZATION_HEADER: &'static str = "authorization";

/// Header that routes an upstream request to a ChatGPT account.
pub const ACCOUNT_ID_HEADER: &'static str = "ChatGPT-Account-ID";

/// Header that marks a FedRAMP account upstream.
pub const FEDRAMP_HEADER: &'static str = "X-OpenAI-Fedramp";

/// Text of the reply to a request without the proxy's bearer token.
pub const UNAUTHORIZED_MESSAGE: &'static str = "missing or invalid proxy bearer token";

/// The lower-case keys under which the three upstream headers are stored.
pub open spec fn authorization_key() -> Seq<char> {
    seq!['a', 'u', 't', 'h', 'o', 'r', 'i', 'z', 'a', 't', 'i', 'o', 'n']
}

pub open spec fn account_id_key() -> Seq<char> {
    seq!['c', 'h', 'a', 't', 'g', 'p', 't', '-', 'a', 'c', 'c', 'o', 'u', 'n', 't', '-', 'i', 'd']
}

pub open spec fn fedramp_key() -> Seq<char> {
    seq!['x', '-', 'o', 'p', 'e', 'n', 'a', 'i', '-', 'f', 'e', 'd', 'r', 'a', 'm', 'p']
}

/// The header names the proxy uses, and the keys a header map files them under.
pub proof fn lemma_proxy_header_names()
    ensures
        is_header_name(AUTHORIZATION_HEADER@),
        header_key(AUTHORIZATION_HEADER@) == authorization_key(),
        is_header_name(ACCOUNT_ID_HEADER@),
        header_key(ACCOUNT_ID_HEADER@) == account_id_key(),
        is_header_name(FEDRAMP_HEADER@),
        header_key(FEDRAMP_HEADER@) == fedramp_key(),
{
    reveal_strlit("authorization");
    reveal_strlit("ChatGPT-Account-ID");
    reveal_strlit("X-OpenAI-Fedramp");
    assert(header_key(AUTHORIZATION_HEADER@) =~= authorization_key());
    assert(header_key(ACCOUNT_ID_HEADER@) =~= account_id_key());
    assert(header_key(FEDRAMP_HEADER@) =~= fedramp_key());
}

/// The caller presents the proxy key: the first `authorization` value is
/// visible ASCII and reads exactly `Bearer <expected_key>`.
pub open spec fn bearer_authorizes(
    fields: Map<Seq<char>, Seq<Seq<u8>>>,
    expected_key: Seq<char>,
) -> bool {
    &&& fields.contains_key(authorization_key())
    &&& fields[authorization_key()].len() > 0
    &&& is_visible_ascii(fields[authorization_key()][0])
    &&& ascii_text(fields[authorization_key()][0]) == "Bearer "@ + expected_key
}

/// Whether the request headers carry the proxy's own bearer token, exactly.
pub fn bearer_is_authorized(headers: &HeaderMap, expected_key: &str) -> (authorized: bool)
    ensures
        authorized == bearer_authorizes(header_fields(*headers), expected_key@),
{
    proof {
        lemma_proxy_header_names();
    }
    let value = match header_map_get(headers, AUTHORIZATION_HEADER) {
        Some(v) => v,
        None => return false,
    };
    let text = match header_value_to_str(value) {
        Some(t) => t,
        None => return false,
    };
    let expected = String::from_str("Bearer ").concat(expected_key);
    String::from_str(text) == expected
}

/// The reply to a request that lacks the proxy's bearer token: 401 and a
/// fixed message.
pub fn reject_unauthorized() -> (reply: (StatusCode, &'static str))
    ensures
        status_code_number(reply.0) == 401,
        reply.1@ == UNAUTHORIZED_MESSAGE@,
{
    (status_unauthorized(), UNAUTHORIZED_MESSAGE)
}

/// What `upstream_headers` puts in its map: the upstream bearer token, the
/// account routing header and the FedRAMP flag, each only where the value
/// may stand in a header.
pub open spec fn upstream_header_fields(
    access_token: Seq<char>,
    account_id: Option<Seq<char>>,
    is_fedramp_account: bool,
) -> Map<Seq<char>, Seq<Seq<u8>>> {
    let bearer = encode_utf8("Bearer "@ + access_token);
    let with_token = if is_header_value(bearer) {
        no_header_fields().insert(authorization_key(), seq![bearer])
    } else {
        no_header_fields()
    };
    let routed = match account_id {
        Some(account) => if is_header_value(encode_utf8(account)) {
            with_token.insert(account_id_key(), seq![encode_utf8(account)])
        } else {
            with_token
        },
        None => with_token,
    };
    if is_fedramp_account {
        routed.insert(fedramp_key(), seq![encode_utf8("true"@)])
    } else {
        routed
    }
}

proof fn lemma_true_is_header_value()
    ensures
        is_header_value("true".spec_bytes()),
        "true".spec_bytes() == encode_utf8("true"@),
{
    reveal_strlit("true");
    vstd::utf8::is_ascii_chars_encode_utf8("true"@);
    assert(is_header_value("true".spec_bytes()));
}

/// The reply to a Responses request whose body is refused: 400 and the
/// reason the body was refused.
pub fn refuse_request_body(message: String) -> (reply: (StatusCode, String))
    ensures
        status_code_number(reply.0) == 400,
        reply.1@ == message@,
{
    (status_bad_request(), message)
}

/// The reply when refreshing the Codex login fails: 401 and the text of the
/// refresh error.
pub fn refresh_failed_reply(message: String) -> (reply: (StatusCode, String))
    ensures
        status_code_number(reply.0) == 401,
        reply.1@ == message@,
{
    (status_unauthorized(), message)
}

/// The reply to `GET /v1/models` when the upstream catalog cannot be
/// projected onto the OpenAI list: 502 and the reason.
pub fn catalog_projection_failed_reply(message: String) -> (reply: (StatusCode, String))
    ensures
        status_code_number(reply.0) == 502,
        reply.1@ == message@,
{
    (status_bad_gateway(), message)
}

/// The headers the proxy sends upstream: `authorization: Bearer <token>`,
/// the ChatGPT account id when there is one, and the FedRAMP flag when the
/// account is a FedRAMP account. A value that cannot stand in a header is
/// left out. The caller's proxy key is never among them.
pub fn upstream_headers(access_token: &str, account_id: Option<&str>, is_fedramp_account: bool) -> (headers: HeaderMap)
    ensures
        header_fields(headers) == upstream_header_fields(
            access_token@,
            opt_str_view(account_id),
            is_fedramp_account,
        ),
{
    proof {
        lemma_proxy_header_names();
        lemma_true_is_header_value();
    }
    let mut headers = header_map_new();
    let bearer = String::from_str("Bearer ").concat(access_token);
    match header_value_from_str(bearer.as_str()) {
        Some(value) => header_map_insert(&mut headers, AUTHORIZATION_HEADER, value),
        None => {},
    }
    match account_id {
        Some(account) => match header_value_from_str(account) {
            Some(value) => header_map_insert(&mut headers, ACCOUNT_ID_HEADER, value),
            None => {},
        },
        None => {},
    }
    if is_fedramp_account {
        match header_value_from_str("true") {
            Some(value) => header_map_insert(&mut headers, FEDRAMP_HEADER, value),
            None => {},
        }
    }
    headers
}

/// The headers sent upstream are only the Codex bearer token, the account
/// routing header and the FedRAMP flag; the bearer token sent is the Codex
/// access token's, whatever key the proxy's callers use.
pub proof fn law_upstream_headers_carry_only_codex_credentials(
    access_token: Seq<char>,
    account_id: Option<Seq<char>>,
    is_fedramp_account: bool,
    key: Seq<char>,
)
    ensures
        upstream_header_fields(access_token, account_id, is_fedramp_account).contains_key(key)
            ==> key == authorization_key() || key == account_id_key() || key == fedramp_key(),
        upstream_header_fields(access_token, account_id, is_fedramp_account).contains_key(
            authorization_key(),
        ) ==> upstream_header_fields(access_token, account_id, is_fedramp_account)[authorization_key()]
            == seq![encode_utf8("Bearer "@ + access_token)],
{
    assert(authorization_key() != account_id_key());
    assert(authorization_key() != fedramp_key());
}

/// Response headers copied back from upstream, all already lower-case.
pub const CONTENT_TYPE_HEADER: &'static str = "content-type";

pub const CACHE_CONTROL_HEADER: &'static str = "cache-control";

pub const PROCESSING_MS_HEADER: &'static str = "openai-processing-ms";

pub const ORGANIZATION_HEADER: &'static str = "openai-organization";

pub const PROJECT_HEADER: &'static str = "openai-project";

pub const REQUEST_ID_HEADER: &'static str = "x-request-id";

/// The keys of the response headers that the proxy passes back to its caller.
pub open spec fn is_copied_response_header(key: Seq<char>) -> bool {
    ||| key == CONTENT_TYPE_HEADER@
    ||| key == CACHE_CONTROL_HEADER@
    ||| key == PROCESSING_MS_HEADER@
    ||| key == ORGANIZATION_HEADER@
    ||| key == PROJECT_HEADER@
    ||| key == REQUEST_ID_HEADER@
}

/// What `copy_response_headers` keeps of an upstream reply's headers: the
/// first value of each allow-listed header that is present, nothing else.
pub open spec fn copied_response_fields(fields: Map<Seq<char>, Seq<Seq<u8>>>) -> Map<
    Seq<char>,
    Seq<Seq<u8>>,
> {
    Map::new(
        |key: Seq<char>| is_copied_response_header(key) && fields.contains_key(key),
        |key: Seq<char>| seq![fields[key][0]],
    )
}

proof fn lemma_copied_header_names()
    ensures
        is_header_name(CONTENT_TYPE_HEADER@),
        header_key(CONTENT_TYPE_HEADER@) == CONTENT_TYPE_HEADER@,
        is_header_name(CACHE_CONTROL_HEADER@),
        header_key(CACHE_CONTROL_HEADER@) == CACHE_CONTROL_HEADER@,
        is_header_name(PROCESSING_MS_HEADER@),
        header_key(PROCESSING_MS_HEADER@) == PROCESSING_MS_HEADER@,
        is_header_name(ORGANIZATION_HEADER@),
        header_key(ORGANIZATION_HEADER@) == ORGANIZATION_HEADER@,
        is_header_name(PROJECT_HEADER@),
        header_key(PROJECT_HEADER@) == PROJECT_HEADER@,
        is_header_name(REQUEST_ID_HEADER@),
        header_key(REQUEST_ID_HEADER@) == REQUEST_ID_HEADER@,
        CONTENT_TYPE_HEADER@ != CACHE_CONTROL_HEADER@,
        CONTENT_TYPE_HEADER@ != PROCESSING_MS_HEADER@,
        CONTENT_TYPE_HEADER@ != ORGANIZATION_HEADER@,
        CONTENT_TYPE_HEADER@ != PROJECT_HEADER@,
        CONTENT_TYPE_HEADER@ != REQUEST_ID_HEADER@,
        CACHE_CONTROL_HEADER@ != PROCESSING_MS_HEADER@,
        CACHE_CONTROL_HEADER@ != ORGANIZATION_HEADER@,
        CACHE_CONTROL_HEADER@ != PROJECT_HEADER@,
        CACHE_CONTROL_HEADER@ != REQUEST_ID_HEADER@,
        PROCESSING_MS_HEADER@ != ORGANIZATION_HEADER@,
        PROCESSING_MS_HEADER@ != PROJECT_HEADER@,
        PROCESSING_MS_HEADER@ != REQUEST_ID_HEADER@,
        ORGANIZATION_HEADER@ != PROJECT_HEADER@,
        ORGANIZATION_HEADER@ != REQUEST_ID_HEADER@,
        PROJECT_HEADER@ != REQUEST_ID_HEADER@,
{
    reveal_strlit("content-type");
    reveal_strlit("cache-control");
    reveal_strlit("openai-processing-ms");
    reveal_strlit("openai-organization");
    reveal_strlit("openai-project");
    reveal_strlit("x-request-id");
    assert(header_key(CONTENT_TYPE_HEADER@) =~= CONTENT_TYPE_HEADER@);
    assert(header_key(CACHE_CONTROL_HEADER@) =~= CACHE_CONTROL_HEADER@);
    assert(header_key(PROCESSING_MS_HEADER@) =~= PROCESSING_MS_HEADER@);
    assert(header_key(ORGANIZATION_HEADER@) =~= ORGANIZATION_HEADER@);
    assert(header_key(PROJECT_HEADER@) =~= PROJECT_HEADER@);
    assert(header_key(REQUEST_ID_HEADER@) =~= REQUEST_ID_HEADER@);
    assert(CONTENT_TYPE_HEADER@[1] != CACHE_CONTROL_HEADER@[1]);
    assert(CONTENT_TYPE_HEADER@[0] != PROCESSING_MS_HEADER@[0]);
    assert(CONTENT_TYPE_HEADER@[0] != ORGANIZATION_HEADER@[0]);
    assert(CONTENT_TYPE_HEADER@[0] != PROJECT_HEADER@[0]);
    assert(CONTENT_TYPE_HEADER@[0] != REQUEST_ID_HEADER@[0]);
    assert(CACHE_CONTROL_HEADER@[0] != PROCESSING_MS_HEADER@[0]);
    assert(CACHE_CONTROL_HEADER@[0] != ORGANIZATION_HEADER@[0]);
    assert(CACHE_CONTROL_HEADER@[0] != PROJECT_HEADER@[0]);
    assert(CACHE_CONTROL_HEADER@[0] != REQUEST_ID_HEADER@[0]);
    assert(PROCESSING_MS_HEADER@.len() != ORGANIZATION_HEADER@.len());
    assert(PROCESSING_MS_HEADER@.len() != PROJECT_HEADER@.len());
    assert(PROCESSING_MS_HEADER@[0] != REQUEST_ID_HEADER@[0]);
    assert(ORGANIZATION_HEADER@.len() != PROJECT_HEADER@.len());
    assert(ORGANIZATION_HEADER@[0] != REQUEST_ID_HEADER@[0]);
    assert(PROJECT_HEADER@[0] != REQUEST_ID_HEADER@[0]);
}

/// Copies the first value stored under `name` in `source`, if any, into
/// `target`.
fn copy_header(source: &HeaderMap, target: &mut HeaderMap, name: &'static str)
    requires
        is_header_name(name@),
        header_fields(*old(target)).dom().finite(),
        header_fields(*old(target)).dom().len() < 16384,
    ensures
        header_fields(*final(target)) == (if header_fields(*source).contains_key(
            header_key(name@),
        ) {
            header_fields(*old(target)).insert(
                header_key(name@),
                seq![header_fields(*source)[header_key(name@)][0]],
            )
        } else {
            header_fields(*old(target))
        }),
{
    match header_map_get(source, name) {
        Some(value) => header_map_insert(target, name, header_value_clone(value)),
        None => {},
    }
}

/// The headers of an upstream reply that the proxy passes to its caller:
/// the content type, cache control and OpenAI bookkeeping headers, first
/// value each. Upstream auth and hop-by-hop headers stay behind.
pub fn copy_response_headers(headers: &HeaderMap) -> (copied: HeaderMap)
    ensures
        header_fields(copied) == copied_response_fields(header_fields(*headers)),
{
    proof {
        lemma_copied_header_names();
    }
    let mut copied = header_map_new();
    copy_header(headers, &mut copied, CONTENT_TYPE_HEADER);
    copy_header(headers, &mut copied, CACHE_CONTROL_HEADER);
    copy_header(headers, &mut copied, PROCESSING_MS_HEADER);
    copy_header(headers, &mut copied, ORGANIZATION_HEADER);
    copy_header(headers, &mut copied, PROJECT_HEADER);
    copy_header(headers, &mut copied, REQUEST_ID_HEADER);
    assert(header_fields(copied) =~= copied_response_fields(header_fields(*headers)));
    copied
}

/// Only allow-listed headers come back from upstream; in particular the
/// upstream `authorization` header and the hop-by-hop `connection` header
/// never do.
pub proof fn law_copied_headers_are_allow_listed(fields: Map<Seq<char>, Seq<Seq<u8>>>, key: Seq<char>)
    ensures
        copied_response_fields(fields).contains_key(key) ==> is_copied_response_header(key),
        !copied_response_fields(fields).contains_key(authorization_key()),
        !copied_response_fields(fields).contains_key("connection"@),
{
    reveal_strlit("content-type");
    reveal_strlit("cache-control");
    reveal_strlit("openai-processing-ms");
    reveal_strlit("openai-organization");
    reveal_strlit("openai-project");
    reveal_strlit("x-request-id");
    reveal_strlit("connection");
    assert(authorization_key()[0] != CONTENT_TYPE_HEADER@[0]);
    assert(authorization_key()[0] != CACHE_CONTROL_HEADER@[0]);
    assert(authorization_key()[0] != PROCESSING_MS_HEADER@[0]);
    assert(authorization_key()[0] != ORGANIZATION_HEADER@[0]);
    assert(authorization_key()[0] != PROJECT_HEADER@[0]);
    assert(authorization_key()[0] != REQUEST_ID_HEADER@[0]);
    assert("connection"@[3] != CONTENT_TYPE_HEADER@[3]);
    assert("connection"@[1] != CACHE_CONTROL_HEADER@[1]);
    assert("connection"@[0] != PROCESSING_MS_HEADER@[0]);
    assert("connection"@[0] != ORGANIZATION_HEADER@[0]);
    assert("connection"@[0] != PROJECT_HEADER@[0]);
    assert("connection"@[0] != REQUEST_ID_HEADER@[0]);
}

/// Copying the headers already copied changes nothing.
pub proof fn law_copy_response_headers_idempotent(fields: Map<Seq<char>, Seq<Seq<u8>>>)
    ensures
        copied_response_fields(copied_response_fields(fields)) == copied_response_fields(fields),
{
    assert(copied_response_fields(copied_response_fields(fields)) =~= copied_response_fields(
        fields,
    ));
}

/// A character that `HeaderValue::to_str` keeps: a tab or visible ASCII.
pub open spec fn is_visible_ascii_char(c: char) -> bool {
    c == '\t' || (' ' <= c && c <= '~')
}

/// The bearer check admits exactly the proxy key: when the first
/// `authorization` value is the ASCII text `Bearer <presented>`, the check
/// with key `expected` passes if and only if `expected` is `presented`.
pub proof fn law_bearer_requires_exact_key(
    fields: Map<Seq<char>, Seq<Seq<u8>>>,
    presented: Seq<char>,
    expected: Seq<char>,
)
    requires
        forall|i: int| 0 <= i < presented.len() ==> is_visible_ascii_char(#[trigger] presented[i]),
        fields.contains_key(authorization_key()),
        fields[authorization_key()].len() > 0,
        fields[authorization_key()][0] == ("Bearer "@ + presented).map_values(|c: char| c as u8),
    ensures
        bearer_authorizes(fields, expected) <==> expected == presented,
{
    reveal_strlit("Bearer ");
    let text = "Bearer "@ + presented;
    let bytes = fields[authorization_key()][0];
    assert forall|i: int| 0 <= i < text.len() implies is_visible_ascii_char(#[trigger] text[i]) by {
        if i >= 7 {
            assert(text[i] == presented[i - 7]);
        }
    }
    assert forall|i: int| 0 <= i < bytes.len() implies is_visible_ascii_byte(#[trigger] bytes[i]) by {
        assert(is_visible_ascii_char(text[i]));
    }
    assert(ascii_text(bytes) =~= text) by {
        assert forall|i: int| 0 <= i < text.len() implies ascii_text(bytes)[i] == text[i] by {
            assert(is_visible_ascii_char(text[i]));
        }
    }
    if bearer_authorizes(fields, expected) {
        assert(expected =~= text.subrange(7, text.len() as int));
        assert(presented =~= text.subrange(7, text.len() as int));
    }
}

/// Header naming the media type the proxy accepts from upstream.
pub const ACCEPT_HEADER: &'static str = "accept";

/// Media type of the model catalog and of a Responses request body.
pub const JSON_MEDIA_TYPE: &'static str = "application/json";

/// Media type of the Responses stream.
pub const EVENT_STREAM_MEDIA_TYPE: &'static str = "text/event-stream";

/// A text of visible ASCII can stand in a header value, and its bytes are
/// its characters.
proof fn lemma_visible_ascii_text_is_header_value(text: &str)
    requires
        forall|i: int| 0 <= i < text@.len() ==> is_visible_ascii_char(#[trigger] text@[i]),
    ensures
        is_header_value(text.spec_bytes()),
{
    assert(is_ascii_chars(text@));
    is_ascii_chars_encode_utf8(text@);
    assert forall|i: int| 0 <= i < text.spec_bytes().len() implies is_header_value_byte(
        #[trigger] text.spec_bytes()[i],
    ) by {
        assert(is_visible_ascii_char(text@[i]));
    }
}

proof fn lemma_request_header_literals()
    ensures
        is_header_name(ACCEPT_HEADER@),
        header_key(ACCEPT_HEADER@) == ACCEPT_HEADER@,
        is_header_name(CONTENT_TYPE_HEADER@),
        header_key(CONTENT_TYPE_HEADER@) == CONTENT_TYPE_HEADER@,
        is_header_name(X_CODEX_INSTALLATION_ID@),
        header_key(X_CODEX_INSTALLATION_ID@) == X_CODEX_INSTALLATION_ID@,
        is_header_name(X_CLIENT_REQUEST_ID@),
        header_key(X_CLIENT_REQUEST_ID@) == X_CLIENT_REQUEST_ID@,
        ACCEPT_HEADER@ != CONTENT_TYPE_HEADER@,
        ACCEPT_HEADER@ != X_CODEX_INSTALLATION_ID@,
        ACCEPT_HEADER@ != X_CLIENT_REQUEST_ID@,
        CONTENT_TYPE_HEADER@ != X_CODEX_INSTALLATION_ID@,
        CONTENT_TYPE_HEADER@ != X_CLIENT_REQUEST_ID@,
        X_CODEX_INSTALLATION_ID@ != X_CLIENT_REQUEST_ID@,
        is_header_value(JSON_MEDIA_TYPE.spec_bytes()),
        is_header_value(EVENT_STREAM_MEDIA_TYPE.spec_bytes()),
{
    reveal_strlit("accept");
    reveal_strlit("content-type");
    reveal_strlit("x-codex-installation-id");
    reveal_strlit("x-client-request-id");
    reveal_strlit("application/json");
    reveal_strlit("text/event-stream");
    assert(header_key(ACCEPT_HEADER@) =~= ACCEPT_HEADER@);
    assert(header_key(CONTENT_TYPE_HEADER@) =~= CONTENT_TYPE_HEADER@);
    assert(header_key(X_CODEX_INSTALLATION_ID@) =~= X_CODEX_INSTALLATION_ID@);
    assert(header_key(X_CLIENT_REQUEST_ID@) =~= X_CLIENT_REQUEST_ID@);
    assert(ACCEPT_HEADER@[0] != CONTENT_TYPE_HEADER@[0]);
    assert(ACCEPT_HEADER@[0] != X_CODEX_INSTALLATION_ID@[0]);
    assert(ACCEPT_HEADER@[0] != X_CLIENT_REQUEST_ID@[0]);
    assert(CONTENT_TYPE_HEADER@[0] != X_CODEX_INSTALLATION_ID@[0]);
    assert(CONTENT_TYPE_HEADER@[0] != X_CLIENT_REQUEST_ID@[0]);
    assert(X_CODEX_INSTALLATION_ID@[3] != X_CLIENT_REQUEST_ID@[3]);
    lemma_visible_ascii_text_is_header_value(JSON_MEDIA_TYPE);
    lemma_visible_ascii_text_is_header_value(EVENT_STREAM_MEDIA_TYPE);
}

/// The headers the proxy adds to its model-catalog request: it accepts JSON.
pub open spec fn models_request_fields() -> Map<Seq<char>, Seq<Seq<u8>>> {
    no_header_fields().insert(ACCEPT_HEADER@, seq![JSON_MEDIA_TYPE.spec_bytes()])
}

/// The headers the proxy adds to its Responses request: it accepts an event
/// stream, sends JSON, and names its installation and the request.
pub open spec fn responses_request_fields(installation_id: Seq<char>, request_id: Seq<char>) -> Map<
    Seq<char>,
    Seq<Seq<u8>>,
> {
    no_header_fields().insert(ACCEPT_HEADER@, seq![EVENT_STREAM_MEDIA_TYPE.spec_bytes()]).insert(
        CONTENT_TYPE_HEADER@,
        seq![JSON_MEDIA_TYPE.spec_bytes()],
    ).insert(X_CODEX_INSTALLATION_ID@, seq![encode_utf8(installation_id)]).insert(
        X_CLIENT_REQUEST_ID@,
        seq![encode_utf8(request_id)],
    )
}

/// The headers the proxy adds to its model-catalog request.
pub fn models_request_headers() -> (headers: HeaderMap)
    ensures
        header_fields(headers) == models_request_fields(),
{
    proof {
        lemma_request_header_literals();
    }
    let mut headers = header_map_new();
    match header_value_from_str(JSON_MEDIA_TYPE) {
        Some(value) => header_map_insert(&mut headers, ACCEPT_HEADER, value),
        None => {},
    }
    headers
}

/// The headers the proxy adds to its Responses request, with the
/// installation id and this request's id; `None` when either id cannot
/// stand in a header.
pub fn responses_request_headers(installation_id: &str, request_id: &str) -> (headers: Option<
    HeaderMap,
>)
    ensures
        headers is Some <==> is_header_value(encode_utf8(installation_id@)) && is_header_value(
            encode_utf8(request_id@),
        ),
        headers matches Some(h) ==> header_fields(h) == responses_request_fields(
            installation_id@,
            request_id@,
        ),
{
    proof {
        lemma_request_header_literals();
    }
    let installation = match header_value_from_str(installation_id) {
        Some(value) => value,
        None => return None,
    };
    let request = match header_value_from_str(request_id) {
        Some(value) => value,
        None => return None,
    };
    let mut headers = header_map_new();
    match header_value_from_str(EVENT_STREAM_MEDIA_TYPE) {
        Some(value) => header_map_insert(&mut headers, ACCEPT_HEADER, value),
        None => {},
    }
    match header_value_from_str(JSON_MEDIA_TYPE) {
        Some(value) => header_map_insert(&mut headers, CONTENT_TYPE_HEADER, value),
        None => {},
    }
    header_map_insert(&mut headers, X_CODEX_INSTALLATION_ID, installation);
    header_map_insert(&mut headers, X_CLIENT_REQUEST_ID, request);
    Some(headers)
}

/// Each allow-listed response header is copied exactly when upstream sent
/// it, with its first value, whatever other headers upstream sent.
pub proof fn law_each_allow_listed_header_is_copied(fields: Map<Seq<char>, Seq<Seq<u8>>>, key: Seq<char>)
    requires
        key == "content-type"@ || key == "cache-control"@ || key == "openai-processing-ms"@ || key
            == "openai-organization"@ || key == "openai-project"@ || key == "x-request-id"@,
    ensures
        copied_response_fields(fields).contains_key(key) <==> fields.contains_key(key),
        fields.contains_key(key) ==> copied_response_fields(fields)[key] == seq![fields[key][0]],
{
}

/// The upstream credential headers: `authorization` holds the bytes of
/// `Bearer <token>` exactly when they can stand in a header value, whatever
/// the token's length; `chatgpt-account-id` holds the account id exactly
/// when one is given and it can stand in a header value; `x-openai-fedramp`
/// holds `true` exactly for a FedRAMP account.
pub proof fn law_upstream_headers_present_exactly_when_valid(
    access_token: Seq<char>,
    account_id: Option<Seq<char>>,
    is_fedramp_account: bool,
)
    ensures
        upstream_header_fields(access_token, account_id, is_fedramp_account).contains_key(
            "authorization"@,
        ) <==> is_header_value(encode_utf8("Bearer "@ + access_token)),
        is_header_value(encode_utf8("Bearer "@ + access_token)) ==> upstream_header_fields(
            access_token,
            account_id,
            is_fedramp_account,
        )["authorization"@] == seq![encode_utf8("Bearer "@ + access_token)],
        upstream_header_fields(access_token, account_id, is_fedramp_account).contains_key(
            "chatgpt-account-id"@,
        ) <==> (account_id matches Some(a) && is_header_value(encode_utf8(a))),
        account_id matches Some(a) ==> (is_header_value(encode_utf8(a)) ==> upstream_header_fields(
            access_token,
            account_id,
            is_fedramp_account,
        )["chatgpt-account-id"@] == seq![encode_utf8(a)]),
        upstream_header_fields(access_token, account_id, is_fedramp_account).contains_key(
            "x-openai-fedramp"@,
        ) <==> is_fedramp_account,
        is_fedramp_account ==> upstream_header_fields(access_token, account_id, is_fedramp_account)[
            "x-openai-fedramp"@] == seq![encode_utf8("true"@)],
{
    reveal_strlit("authorization");
    reveal_strlit("chatgpt-account-id");
    reveal_strlit("x-openai-fedramp");
    assert("authorization"@ =~= authorization_key());
    assert("chatgpt-account-id"@ =~= account_id_key());
    assert("x-openai-fedramp"@ =~= fedramp_key());
}

} // verus!
