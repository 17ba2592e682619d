//! Normalization of a Responses request body for the Codex backend.
//!
//! The Codex backend takes `input` only as a list and only `store: false`
//! with `stream: true`; the proxy forces the two flags and files its
//! installation id under `client_metadata`.

use serde_json::Value;
use vstd::prelude::*;
use vstd::string::*;

use crate::json::{
    bytes_result_view, empty_object, json_bool, json_clone, json_from_slice, json_get,
    json_is_array, json_is_object, json_object_insert, json_object_new, json_result_view,
    json_string, json_to_vec, json_view, object_field, serde_json_from_slice, serde_json_to_vec,
    JsonView,
};
use crate::X_CODEX_INSTALLATION_ID;

verus! {

broadcast use vstd::string::group_string_axioms;

/// Message of a body that is not a JSON object.
pub const NOT_AN_OBJECT_MESSAGE: &'static str = "request body must be a JSON object";

/// Message of a body without `input`.
pub const INPUT_REQUIRED_MESSAGE: &'static str = "input is required";

/// Message of a body whose `input` is not a list.
pub const INPUT_NOT_A_LIST_MESSAGE: &'static str = "input must be a list";

/// Message of a body whose `client_metadata` is not an object.
pub const METADATA_NOT_AN_OBJECT_MESSAGE: &'static str = "client_metadata must be an object";

pub const INPUT_KEY: &'static str = "input";

pub const STORE_KEY: &'static str = "store";

pub const STREAM_KEY: &'static str = "stream";

pub const CLIENT_METADATA_KEY: &'static str = "client_metadata";

/// `client_metadata` with the installation id filed in it.
pub open spec fn metadata_with_installation_id(
    metadata: Map<Seq<char>, JsonView>,
    installation_id: Seq<char>,
) -> JsonView {
    JsonView::Object(metadata.insert(X_CODEX_INSTALLATION_ID@, JsonView::Str(installation_id)))
}

/// The normalized request for a parsed body, or why the body is refused.
pub open spec fn normalized_request_view(body: JsonView, installation_id: Seq<char>) -> Result<
    JsonView,
    Seq<char>,
> {
    match body {
        JsonView::Object(members) => if !members.contains_key(INPUT_KEY@) {
            Err(INPUT_REQUIRED_MESSAGE@)
        } else if !(members[INPUT_KEY@] is Array) {
            Err(INPUT_NOT_A_LIST_MESSAGE@)
        } else {
            let forced = members.insert(STORE_KEY@, JsonView::Bool(false)).insert(
                STREAM_KEY@,
                JsonView::Bool(true),
            );
            if members.contains_key(CLIENT_METADATA_KEY@) {
                match members[CLIENT_METADATA_KEY@] {
                    JsonView::Object(metadata) => Ok(
                        JsonView::Object(
                            forced.insert(
                                CLIENT_METADATA_KEY@,
                                metadata_with_installation_id(metadata, installation_id),
                            ),
                        ),
                    ),
                    _ => Err(METADATA_NOT_AN_OBJECT_MESSAGE@),
                }
            } else {
                Ok(
                    JsonView::Object(
                        forced.insert(
                            CLIENT_METADATA_KEY@,
                            metadata_with_installation_id(empty_object(), installation_id),
                        ),
                    ),
                )
            }
        },
        _ => Err(NOT_AN_OBJECT_MESSAGE@),
    }
}

/// What `normalize_responses_body` answers for a request body.
pub open spec fn normalized_body_view(body: Seq<u8>, installation_id: Seq<char>) -> Result<
    Seq<u8>,
    Seq<char>,
> {
    match serde_json_from_slice(body) {
        Err(error) => Err("invalid JSON body: "@ + error),
        Ok(parsed) => match normalized_request_view(parsed, installation_id) {
            Err(message) => Err(message),
            Ok(normalized) => Ok(serde_json_to_vec(normalized)),
        },
    }
}

proof fn lemma_request_keys_distinct()
    ensures
        INPUT_KEY@ != STORE_KEY@,
        INPUT_KEY@ != STREAM_KEY@,
        INPUT_KEY@ != CLIENT_METADATA_KEY@,
        STORE_KEY@ != STREAM_KEY@,
        STORE_KEY@ != CLIENT_METADATA_KEY@,
        STREAM_KEY@ != CLIENT_METADATA_KEY@,
{
    reveal_strlit("input");
    reveal_strlit("store");
    reveal_strlit("stream");
    reveal_strlit("client_metadata");
    assert(INPUT_KEY@[0] != STORE_KEY@[0]);
    assert(INPUT_KEY@[0] != STREAM_KEY@[0]);
    assert(INPUT_KEY@[0] != CLIENT_METADATA_KEY@[0]);
    assert(STORE_KEY@.len() != STREAM_KEY@.len());
    assert(STORE_KEY@[0] != CLIENT_METADATA_KEY@[0]);
    assert(STREAM_KEY@[0] != CLIENT_METADATA_KEY@[0]);
}

/// Normalizes a parsed Responses request: checks that it is an object whose
/// `input` is a list, forces `store: false` and `stream: true`, and files
/// the installation id in `client_metadata` (creating it when absent).
pub fn normalize_responses_value(body: Value, installation_id: &str) -> (normalized: Result<
    Value,
    String,
>)
    ensures
        json_result_view(normalized) == normalized_request_view(
            json_view(body),
            installation_id@,
        ),
{
    proof {
        lemma_request_keys_distinct();
    }
    let mut body = body;
    if !json_is_object(&body) {
        return Err(String::from_str(NOT_AN_OBJECT_MESSAGE));
    }
    match json_get(&body, INPUT_KEY) {
        Some(input) => if !json_is_array(input) {
            return Err(String::from_str(INPUT_NOT_A_LIST_MESSAGE));
        },
        None => return Err(String::from_str(INPUT_REQUIRED_MESSAGE)),
    }
    json_object_insert(&mut body, STORE_KEY, json_bool(false));
    json_object_insert(&mut body, STREAM_KEY, json_bool(true));
    let existing = match json_get(&body, CLIENT_METADATA_KEY) {
        Some(metadata) => Some(json_clone(metadata)),
        None => None,
    };
    match existing {
        Some(metadata) => {
            if !json_is_object(&metadata) {
                return Err(String::from_str(METADATA_NOT_AN_OBJECT_MESSAGE));
            }
            let mut metadata = metadata;
            json_object_insert(&mut metadata, X_CODEX_INSTALLATION_ID, json_string(installation_id));
            json_object_insert(&mut body, CLIENT_METADATA_KEY, metadata);
        },
        None => {
            let mut metadata = json_object_new();
            json_object_insert(&mut metadata, X_CODEX_INSTALLATION_ID, json_string(installation_id));
            json_object_insert(&mut body, CLIENT_METADATA_KEY, metadata);
        },
    }
    Ok(body)
}

/// The normalized Responses request body, as JSON bytes; or the message of
/// why the body is refused.
pub fn normalize_responses_body(body: &[u8], installation_id: &str) -> (normalized: Result<
    Vec<u8>,
    String,
>)
    ensures
        bytes_result_view(normalized) == normalized_body_view(body@, installation_id@),
{
    let parsed = match json_from_slice(body) {
        Ok(value) => value,
        Err(error) => return Err(String::from_str("invalid JSON body: ").concat(error.as_str())),
    };
    let value = match normalize_responses_value(parsed, installation_id) {
        Ok(value) => value,
        Err(message) => return Err(message),
    };
    match json_to_vec(&value) {
        Ok(bytes) => Ok(bytes),
        Err(error) => Err(String::from_str("failed to encode JSON body: ").concat(error.as_str())),
    }
}

/// The shape of a normalized request `out` made from `body`, seen from one
/// member key: `input` is kept, `store` is false, `stream` is true,
/// `client_metadata` is an object holding the installation id beside the
/// members it had, and any other member is as it was.
pub open spec fn normalized_shape_at(
    body: Map<Seq<char>, JsonView>,
    out: Map<Seq<char>, JsonView>,
    installation_id: Seq<char>,
    key: Seq<char>,
) -> bool {
    &&& out.contains_key(INPUT_KEY@) && out[INPUT_KEY@] == body[INPUT_KEY@]
    &&& out[INPUT_KEY@] is Array
    &&& out.contains_key(STORE_KEY@) && out[STORE_KEY@] == JsonView::Bool(false)
    &&& out.contains_key(STREAM_KEY@) && out[STREAM_KEY@] == JsonView::Bool(true)
    &&& out.contains_key(CLIENT_METADATA_KEY@)
    &&& out[CLIENT_METADATA_KEY@] matches JsonView::Object(metadata) && {
        &&& metadata.contains_key(X_CODEX_INSTALLATION_ID@)
        &&& metadata[X_CODEX_INSTALLATION_ID@] == JsonView::Str(installation_id)
        &&& key != X_CODEX_INSTALLATION_ID@ ==> (metadata.contains_key(key) <==> object_field(
            body.index(CLIENT_METADATA_KEY@),
            key,
        ) is Some && body.contains_key(CLIENT_METADATA_KEY@))
        &&& key != X_CODEX_INSTALLATION_ID@ && metadata.contains_key(key) ==> Some(metadata[key])
            == object_field(body[CLIENT_METADATA_KEY@], key)
    }
    &&& key != STORE_KEY@ && key != STREAM_KEY@ && key != CLIENT_METADATA_KEY@ ==> {
        &&& out.contains_key(key) <==> body.contains_key(key)
        &&& body.contains_key(key) ==> out[key] == body[key]
    }
}

/// Whatever the body, a request the proxy accepts goes upstream with `input`
/// unchanged, `store: false`, `stream: true`, the installation id in
/// `client_metadata` beside that object's other members, and every other
/// member of the body unchanged.
pub proof fn law_normalized_request_shape(
    body: JsonView,
    installation_id: Seq<char>,
    key: Seq<char>,
)
    requires
        normalized_request_view(body, installation_id) is Ok,
    ensures
        body matches JsonView::Object(members) && normalized_request_view(
            body,
            installation_id,
        ) matches Ok(JsonView::Object(out)) && normalized_shape_at(
            members,
            out,
            installation_id,
            key,
        ),
{
    lemma_request_keys_distinct();
    reveal_strlit("input");
    reveal_strlit("store");
    reveal_strlit("stream");
    reveal_strlit("client_metadata");
}

/// Normalizing an already normalized request changes nothing.
pub proof fn law_normalize_request_idempotent(body: JsonView, installation_id: Seq<char>)
    requires
        normalized_request_view(body, installation_id) is Ok,
    ensures
        normalized_request_view(body, installation_id) matches Ok(once) && normalized_request_view(
            once,
            installation_id,
        ) == Ok::<JsonView, Seq<char>>(once),
{
    lemma_request_keys_distinct();
    let once = normalized_request_view(body, installation_id)->Ok_0;
    let members = body->Object_0;
    let out = once->Object_0;
    let forced = out.insert(STORE_KEY@, JsonView::Bool(false)).insert(
        STREAM_KEY@,
        JsonView::Bool(true),
    );
    let metadata = out[CLIENT_METADATA_KEY@]->Object_0;
    assert(metadata.insert(X_CODEX_INSTALLATION_ID@, JsonView::Str(installation_id)) =~= metadata);
    assert(forced.insert(
        CLIENT_METADATA_KEY@,
        metadata_with_installation_id(metadata, installation_id),
    ) =~= out);
}

/// A body is refused only when it is not an object, has no `input`, has an
/// `input` that is not a list, or has a `client_metadata` that is not an
/// object; every other body is accepted, whatever the length of its
/// `input` list or its other members.
pub proof fn law_normalize_refuses_only_malformed_bodies(body: JsonView, installation_id: Seq<char>)
    ensures
        normalized_request_view(body, installation_id) is Ok <==> (body matches JsonView::Object(
            members,
        ) && members.contains_key("input"@) && members["input"@] is Array && (members.contains_key(
            "client_metadata"@,
        ) ==> members["client_metadata"@] is Object)),
{
}

} // verus!
