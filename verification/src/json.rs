//! JSON-sourced value trees and their conversion into template data.

use vstd::prelude::*;
use crate::template::{
    data_entries_view, data_items_view, lemma_map_view, lemma_vec_val_view, TemplateData,
    TemplateModel,
};
use crate::text::{decimal_string, decimal_text, natural_string, natural_text};

verus! {

/// The mathematical content of a JSON value.
pub enum JsonModel {
    Signed(int),
    Unsigned(nat),
    Float(Seq<char>),
    Str(Seq<char>),
    Boolean(bool),
    List(Seq<JsonModel>),
    Object(Seq<(Seq<char>, JsonModel)>),
    Null,
}

/// A JSON value. A floating-point number is carried as its printed text.
#[derive(Debug, PartialEq, Eq)]
pub enum JsonValue {
    I64(i64),
    U64(u64),
    F64(String),
    String(String),
    Boolean(bool),
    Array(Vec<JsonValue>),
    Object(Vec<(String, JsonValue)>),
    Null,
}

/// What a JSON value holds.
pub open spec fn json_model(value: JsonValue) -> JsonModel
    decreases value,
{
    match value {
        JsonValue::I64(i) => JsonModel::Signed(i as int),
        JsonValue::U64(u) => JsonModel::Unsigned(u as nat),
        JsonValue::F64(s) => JsonModel::Float(s@),
        JsonValue::String(s) => JsonModel::Str(s@),
        JsonValue::Boolean(b) => JsonModel::Boolean(b),
        JsonValue::Array(items) => JsonModel::List(
            Seq::new(
                items@.len(),
                |i: int|
                    if 0 <= i < items@.len() {
                        json_model(items@[i])
                    } else {
                        JsonModel::Null
                    },
            ),
        ),
        JsonValue::Object(entries) => JsonModel::Object(
            Seq::new(
                entries@.len(),
                |i: int|
                    if 0 <= i < entries@.len() {
                        (entries@[i].0@, json_model(entries@[i].1))
                    } else {
                        (Seq::empty(), JsonModel::Null)
                    },
            ),
        ),
        JsonValue::Null => JsonModel::Null,
    }
}

impl View for JsonValue {
    type V = JsonModel;

    open spec fn view(&self) -> JsonModel {
        json_model(*self)
    }
}

/// The items of an array, each taken by its view.
pub open spec fn json_items_view(items: Seq<JsonValue>) -> Seq<JsonModel> {
    Seq::new(items.len(), |i: int| items[i]@)
}

/// The entries of an object, each taken by its view.
pub open spec fn json_entries_view(entries: Seq<(String, JsonValue)>) -> Seq<
    (Seq<char>, JsonModel),
> {
    Seq::new(entries.len(), |i: int| (entries[i].0@, entries[i].1@))
}

/// The view of an array is the sequence of its items' views.
pub proof fn lemma_json_array_view(items: Vec<JsonValue>)
    ensures
        JsonValue::Array(items)@ == JsonModel::List(json_items_view(items@)),
{
    assert(JsonValue::Array(items)@->List_0 =~= json_items_view(items@));
}

/// The view of an object is the sequence of its entries' views.
pub proof fn lemma_json_object_view(entries: Vec<(String, JsonValue)>)
    ensures
        JsonValue::Object(entries)@ == JsonModel::Object(json_entries_view(entries@)),
{
    assert(JsonValue::Object(entries)@->Object_0 =~= json_entries_view(entries@));
}

/// The template data of a JSON value. A boolean stays a boolean, null becomes
/// the empty text, every other scalar becomes text, a number as its decimal
/// numeral; an array keeps its order and an object its keys.
pub open spec fn adapt_json(value: JsonModel) -> TemplateModel
    decreases value,
{
    match value {
        JsonModel::Signed(i) => TemplateModel::Str(decimal_text(i)),
        JsonModel::Unsigned(u) => TemplateModel::Str(natural_text(u)),
        JsonModel::Float(s) => TemplateModel::Str(s),
        JsonModel::Str(s) => TemplateModel::Str(s),
        JsonModel::Boolean(b) => TemplateModel::Bool(b),
        JsonModel::List(items) => TemplateModel::List(
            Seq::new(
                items.len(),
                |i: int|
                    if 0 <= i < items.len() {
                        adapt_json(items[i])
                    } else {
                        TemplateModel::Bool(false)
                    },
            ),
        ),
        JsonModel::Object(entries) => TemplateModel::Mapping(
            Seq::new(
                entries.len(),
                |i: int|
                    if 0 <= i < entries.len() {
                        (entries[i].0, adapt_json(entries[i].1))
                    } else {
                        (Seq::empty(), TemplateModel::Bool(false))
                    },
            ),
        ),
        JsonModel::Null => TemplateModel::Str(Seq::empty()),
    }
}

/// The template data of each item of an array, in order.
pub open spec fn adapt_json_items(items: Seq<JsonModel>) -> Seq<TemplateModel> {
    Seq::new(items.len(), |i: int| adapt_json(items[i]))
}

/// The template data of each entry of an object, under the entry's own key.
pub open spec fn adapt_json_entries(entries: Seq<(Seq<char>, JsonModel)>) -> Seq<
    (Seq<char>, TemplateModel),
> {
    Seq::new(entries.len(), |i: int| (entries[i].0, adapt_json(entries[i].1)))
}

/// An array converts to the sequence of its converted items.
pub proof fn lemma_adapt_json_list(items: Seq<JsonModel>)
    ensures
        adapt_json(JsonModel::List(items)) == TemplateModel::List(adapt_json_items(items)),
{
    assert(adapt_json(JsonModel::List(items))->List_0 =~= adapt_json_items(items));
}

/// An object converts to the mapping of its converted entries.
pub proof fn lemma_adapt_json_object(entries: Seq<(Seq<char>, JsonModel)>)
    ensures
        adapt_json(JsonModel::Object(entries)) == TemplateModel::Mapping(
            adapt_json_entries(entries),
        ),
{
    assert(adapt_json(JsonModel::Object(entries))->Mapping_0 =~= adapt_json_entries(entries));
}

/// Converts a JSON value into template data.
pub fn json_to_mustache(value: &JsonValue) -> (out: TemplateData)
    ensures
        out@ == adapt_json(value@),
    decreases value, 1nat,
{
    match value {
        JsonValue::I64(i) => TemplateData::StrVal(decimal_string(*i)),
        JsonValue::U64(u) => TemplateData::StrVal(natural_string(*u)),
        JsonValue::F64(s) => TemplateData::StrVal(s.clone()),
        JsonValue::String(s) => TemplateData::StrVal(s.clone()),
        JsonValue::Boolean(b) => TemplateData::Bool(*b),
        JsonValue::Array(a) => {
            proof {
                lemma_json_array_view(*a);
            }
            json_vec_to_mustache(a)
        },
        JsonValue::Object(o) => {
            proof {
                lemma_json_object_view(*o);
            }
            json_object_to_mustache(o)
        },
        JsonValue::Null => TemplateData::StrVal(String::new()),
    }
}

/// Converts the entries of a JSON object into a mapping of template data: one
/// entry for each key, under the same key and in the same order.
pub fn json_object_to_mustache(json: &Vec<(String, JsonValue)>) -> (out: TemplateData)
    ensures
        out@ == adapt_json(JsonModel::Object(json_entries_view(json@))),
        out@ == TemplateModel::Mapping(adapt_json_entries(json_entries_view(json@))),
    decreases json, 0nat,
{
    let mut pairs: Vec<(String, TemplateData)> = Vec::new();
    let mut i: usize = 0;
    while i < json.len()
        invariant
            0 <= i <= json.len(),
            pairs@.len() == i,
            forall|j: int|
                0 <= j < i ==> (#[trigger] pairs@[j]).0@ == json@[j].0@ && pairs@[j].1@
                    == adapt_json(json@[j].1@),
        decreases json.len() - i,
    {
        let item = json_to_mustache(&json[i].1);
        pairs.push((json[i].0.clone(), item));
        i += 1;
    }
    proof {
        lemma_map_view(pairs);
        lemma_adapt_json_object(json_entries_view(json@));
        assert(data_entries_view(pairs@) =~= adapt_json_entries(json_entries_view(json@)));
    }
    TemplateData::Mapping(pairs)
}

/// Converts a JSON array into a sequence of template data, in the same order.
pub fn json_vec_to_mustache(json: &Vec<JsonValue>) -> (out: TemplateData)
    ensures
        out@ == adapt_json(JsonModel::List(json_items_view(json@))),
        out@ == TemplateModel::List(adapt_json_items(json_items_view(json@))),
    decreases json, 0nat,
{
    let mut mvec: Vec<TemplateData> = Vec::new();
    let mut i: usize = 0;
    while i < json.len()
        invariant
            0 <= i <= json.len(),
            mvec@.len() == i,
            forall|j: int| 0 <= j < i ==> (#[trigger] mvec@[j])@ == adapt_json(json@[j]@),
        decreases json.len() - i,
    {
        let item = json_to_mustache(&json[i]);
        mvec.push(item);
        i += 1;
    }
    proof {
        lemma_vec_val_view(mvec);
        lemma_adapt_json_list(json_items_view(json@));
        assert(data_items_view(mvec@) =~= adapt_json_items(json_items_view(json@)));
    }
    TemplateData::VecVal(mvec)
}

} // verus!
