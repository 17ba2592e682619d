//! The OpenAI-shaped model list, projected from the Codex model catalog.

use serde_json::Value;
use vstd::prelude::*;
use vstd::string::*;

use crate::json::{
    bytes_result_view, decimal_text, empty_object, json_array, json_as_array, json_as_str,
    json_from_slice, json_get, json_object_insert, json_object_new, json_result_view, json_string,
    json_to_vec, json_u64, json_view, json_views, object_field, serde_json_from_slice,
    serde_json_to_vec, JsonView,
};

verus! {

broadcast use vstd::string::group_string_axioms;

/// Message of a catalog without a `models` list.
pub const MISSING_MODELS_MESSAGE: &'static str = "models response must contain a models list";

/// The slug of one catalog entry, when the entry has a string `slug`.
pub open spec fn model_slug(model: JsonView) -> Option<Seq<char>> {
    match object_field(model, "slug"@) {
        Some(JsonView::Str(slug)) => Some(slug),
        _ => None,
    }
}

/// The slugs of the catalog entries that have one, in catalog order.
pub open spec fn catalog_slugs(models: Seq<JsonView>) -> Seq<Seq<char>>
    decreases models.len(),
{
    if models.len() == 0 {
        Seq::empty()
    } else {
        let earlier = catalog_slugs(models.drop_last());
        match model_slug(models.last()) {
            Some(slug) => earlier.push(slug),
            None => earlier,
        }
    }
}

/// One entry of the OpenAI model list.
pub open spec fn openai_model_view(slug: Seq<char>) -> JsonView {
    JsonView::Object(
        empty_object().insert("id"@, JsonView::Str(slug)).insert(
            "object"@,
            JsonView::Str("model"@),
        ).insert("created"@, JsonView::Number(decimal_text(0))).insert(
            "owned_by"@,
            JsonView::Str("openai"@),
        ),
    )
}

/// The OpenAI model list for the given slugs.
pub open spec fn openai_model_list_view(slugs: Seq<Seq<char>>) -> JsonView {
    JsonView::Object(
        empty_object().insert("object"@, JsonView::Str("list"@)).insert(
            "data"@,
            JsonView::Array(slugs.map_values(|slug: Seq<char>| openai_model_view(slug))),
        ),
    )
}

/// The `models` list of a catalog, when the catalog is an object that has
/// an array under `models`.
pub open spec fn catalog_models(catalog: JsonView) -> Option<Seq<JsonView>> {
    match object_field(catalog, "models"@) {
        Some(JsonView::Array(models)) => Some(models),
        _ => None,
    }
}

/// The OpenAI model list projected from a parsed catalog, or why there is none.
pub open spec fn openai_models_view(catalog: JsonView) -> Result<JsonView, Seq<char>> {
    match catalog_models(catalog) {
        Some(models) => Ok(openai_model_list_view(catalog_slugs(models))),
        None => Err(MISSING_MODELS_MESSAGE@),
    }
}

/// What `openai_models_body_from_codex_catalog` answers for a catalog body.
pub open spec fn openai_models_body_view(body: Seq<u8>) -> Result<Seq<u8>, Seq<char>> {
    match serde_json_from_slice(body) {
        Err(error) => Err("invalid models JSON: "@ + error),
        Ok(catalog) => match openai_models_view(catalog) {
            Err(message) => Err(message),
            Ok(list) => Ok(serde_json_to_vec(list)),
        },
    }
}

/// One entry of the OpenAI model list: `{"id": slug, "object": "model",
/// "created": 0, "owned_by": "openai"}`.
fn openai_model_entry(slug: &str) -> (entry: Value)
    ensures
        json_view(entry) == openai_model_view(slug@),
{
    let mut entry = json_object_new();
    json_object_insert(&mut entry, "id", json_string(slug));
    json_object_insert(&mut entry, "object", json_string("model"));
    json_object_insert(&mut entry, "created", json_u64(0));
    json_object_insert(&mut entry, "owned_by", json_string("openai"));
    entry
}

/// Projects a parsed Codex model catalog onto the OpenAI model list: one
/// entry per catalog model that has a string `slug`, in catalog order.
pub fn openai_models_from_catalog(catalog: &Value) -> (list: Result<Value, String>)
    ensures
        json_result_view(list) == openai_models_view(json_view(*catalog)),
{
    let models = match json_get(catalog, "models") {
        Some(member) => match json_as_array(member) {
            Some(items) => items,
            None => return Err(String::from_str(MISSING_MODELS_MESSAGE)),
        },
        None => return Err(String::from_str(MISSING_MODELS_MESSAGE)),
    };
    let ghost items = json_views(models@);
    let mut data: Vec<Value> = Vec::new();
    let count = models.len();
    for i in 0..count
        invariant
            count == models@.len(),
            items == json_views(models@),
            json_views(data@) == catalog_slugs(items.take(i as int)).map_values(
                |slug: Seq<char>| openai_model_view(slug),
            ),
    {
        proof {
            assert(items.take(i + 1).drop_last() =~= items.take(i as int));
            assert(items.take(i + 1).last() == json_view(models@[i as int]));
        }
        let model = &models[i];
        match json_get(model, "slug") {
            Some(slug) => match json_as_str(slug) {
                Some(text) => {
                    let entry = openai_model_entry(text);
                    let ghost before = data@;
                    data.push(entry);
                    proof {
                        assert(model_slug(json_view(*model)) == Some(text@));
                        assert(json_views(data@) =~= json_views(before).push(json_view(entry)));
                    }
                    assert(json_views(data@) =~= catalog_slugs(items.take(i + 1)).map_values(
                        |slug: Seq<char>| openai_model_view(slug),
                    ));
                },
                None => {},
            },
            None => {},
        }
    }
    proof {
        assert(items.take(count as int) =~= items);
    }
    let mut list = json_object_new();
    json_object_insert(&mut list, "object", json_string("list"));
    json_object_insert(&mut list, "data", json_array(data));
    Ok(list)
}

/// The OpenAI model list for a Codex catalog body, as JSON bytes; or the
/// message of why there is none.
pub fn openai_models_body_from_codex_catalog(body: &[u8]) -> (projected: Result<Vec<u8>, String>)
    ensures
        bytes_result_view(projected) == openai_models_body_view(body@),
{
    let catalog = match json_from_slice(body) {
        Ok(value) => value,
        Err(error) => return Err(String::from_str("invalid models JSON: ").concat(error.as_str())),
    };
    let list = match openai_models_from_catalog(&catalog) {
        Ok(list) => list,
        Err(message) => return Err(message),
    };
    match json_to_vec(&list) {
        Ok(bytes) => Ok(bytes),
        Err(error) => Err(String::from_str("failed to encode models JSON: ").concat(error.as_str())),
    }
}

/// The slug of a catalog model, read straight from its JSON: its `slug`
/// member when that is a string.
pub open spec fn slug_member(model: JsonView) -> Option<Seq<char>> {
    match object_field(model, "slug"@) {
        Some(JsonView::Str(slug)) => Some(slug),
        _ => None,
    }
}

proof fn lemma_catalog_slugs_filter_map(models: Seq<JsonView>)
    ensures
        catalog_slugs(models) == models.filter_map(|m: JsonView| slug_member(m)),
    decreases models.len(),
{
    if models.len() > 0 {
        lemma_catalog_slugs_filter_map(models.drop_last());
        let f = |m: JsonView| slug_member(m);
        match slug_member(models.last()) {
            Some(s) => {
                assert(models.filter_map(f) == models.drop_last().filter_map(f) + seq![s]);
                assert(models.drop_last().filter_map(f).push(s) =~= models.drop_last().filter_map(f)
                    + seq![s]);
            },
            None => {},
        }
    }
}

proof fn lemma_fully_slugged_filter_map_len(models: Seq<JsonView>)
    requires
        forall|i: int| 0 <= i < models.len() ==> (#[trigger] slug_member(models[i])) is Some,
    ensures
        models.filter_map(|m: JsonView| slug_member(m)).len() == models.len(),
        forall|i: int|
            0 <= i < models.len() ==> Some(models.filter_map(|m: JsonView| slug_member(m))[i])
                == #[trigger] slug_member(models[i]),
    decreases models.len(),
{
    if models.len() > 0 {
        let rest = models.drop_last();
        assert forall|i: int| 0 <= i < rest.len() implies (#[trigger] slug_member(rest[i])) is Some by {
            assert(rest[i] == models[i]);
        }
        lemma_fully_slugged_filter_map_len(rest);
        assert(slug_member(models[models.len() - 1]) is Some);
        let f = |m: JsonView| slug_member(m);
        assert forall|i: int| 0 <= i < models.len() implies Some(models.filter_map(f)[i])
            == #[trigger] slug_member(models[i]) by {
            if i < models.len() - 1 {
                assert(rest[i] == models[i]);
                assert(Some(rest.filter_map(f)[i]) == slug_member(rest[i]));
            }
        }
    }
}

/// The projected list is an object with `object: "list"` and a `data`
/// array holding one entry per catalog model whose `slug` is a string, in
/// catalog order and no other: the i-th entry is `{"id": <i-th such slug>,
/// "object": "model", "created": 0, "owned_by": "openai"}`, however long
/// the catalog is.
pub proof fn law_models_list_has_one_entry_per_slugged_model(
    catalog: JsonView,
    models: Seq<JsonView>,
)
    requires
        object_field(catalog, "models"@) == Some(JsonView::Array(models)),
    ensures
        ({
            &&& openai_models_view(catalog) matches Ok(list)
            &&& object_field(list, "object"@) == Some(JsonView::Str("list"@))
            &&& object_field(list, "data"@) matches Some(JsonView::Array(data))
            &&& data.len() == models.filter_map(|m: JsonView| slug_member(m)).len()
            &&& forall|i: int|
                0 <= i < data.len() ==> {
                    &&& object_field(data[i], "id"@) == Some(
                        JsonView::Str(models.filter_map(|m: JsonView| slug_member(m))[i]),
                    )
                    &&& object_field(data[i], "object"@) == Some(JsonView::Str("model"@))
                    &&& object_field(data[i], "created"@) == Some(JsonView::Number(seq!['0']))
                    &&& object_field(data[i], "owned_by"@) == Some(JsonView::Str("openai"@))
                }
        }),
{
    reveal_strlit("id");
    reveal_strlit("object");
    reveal_strlit("created");
    reveal_strlit("owned_by");
    reveal_strlit("data");
    lemma_catalog_slugs_filter_map(models);
    assert(decimal_text(0) =~= seq!['0']);
    assert("data"@[0] != "object"@[0]);
    let slugs = catalog_slugs(models);
    let data = slugs.map_values(|slug: Seq<char>| openai_model_view(slug));
    assert forall|i: int| 0 <= i < data.len() implies {
        &&& object_field(data[i], "id"@) == Some(JsonView::Str(slugs[i]))
        &&& object_field(data[i], "object"@) == Some(JsonView::Str("model"@))
        &&& object_field(data[i], "created"@) == Some(JsonView::Number(seq!['0']))
        &&& object_field(data[i], "owned_by"@) == Some(JsonView::Str("openai"@))
    } by {
        assert(data[i] == openai_model_view(slugs[i]));
        assert("id"@[0] != "object"@[0]);
        assert("id"@[0] != "created"@[0]);
        assert("id"@ != "owned_by"@);
        assert("object"@ != "created"@);
        assert("object"@[1] != "owned_by"@[1]);
        assert("created"@ != "owned_by"@);
        assert(object_field(data[i], "id"@) == Some(JsonView::Str(slugs[i])));
        assert(object_field(data[i], "object"@) == Some(JsonView::Str("model"@)));
        assert(object_field(data[i], "created"@) == Some(JsonView::Number(seq!['0'])));
    }
}

/// A catalog whose every model has a string slug keeps every model: the
/// list has as many entries as the catalog has models, the i-th named by
/// the i-th model's slug.
pub proof fn law_fully_slugged_catalog_keeps_every_model(catalog: JsonView, models: Seq<JsonView>)
    requires
        object_field(catalog, "models"@) == Some(JsonView::Array(models)),
        forall|i: int| 0 <= i < models.len() ==> (#[trigger] slug_member(models[i])) is Some,
    ensures
        ({
            &&& openai_models_view(catalog) matches Ok(list)
            &&& object_field(list, "data"@) matches Some(JsonView::Array(data))
            &&& data.len() == models.len()
            &&& forall|i: int|
                0 <= i < models.len() ==> (slug_member(models[i]) matches Some(slug) && #[trigger] object_field(
                    data[i],
                    "id"@,
                ) == Some(JsonView::Str(slug)))
        }),
{
    law_models_list_has_one_entry_per_slugged_model(catalog, models);
    lemma_fully_slugged_filter_map_len(models);
    let list = openai_models_view(catalog)->Ok_0;
    let data = object_field(list, "data"@)->Some_0->Array_0;
    assert forall|i: int| 0 <= i < models.len() implies (slug_member(models[i]) matches Some(slug)
        && #[trigger] object_field(data[i], "id"@) == Some(JsonView::Str(slug))) by {
        assert(Some(models.filter_map(|m: JsonView| slug_member(m))[i]) == slug_member(models[i]));
    }
}

} // verus!
