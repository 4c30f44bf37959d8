//! The conversion of configuration values into template data.

use vstd::prelude::*;
use crate::template::{
    data_entries_view, data_items_view, lemma_map_view, lemma_vec_val_view, TemplateData,
    TemplateModel,
};
use crate::text::{decimal_string, decimal_text};
use crate::value::{
    entries_view, items_view, lemma_array_view, lemma_table_view, ConfigTable, ConfigValue,
    TableModel, ValueModel,
};

verus! {

/// The template data of a configuration value. A boolean stays a boolean;
/// every other scalar becomes text, an integer as its decimal numeral; a list
/// keeps its order and a table its keys, both converted item by item.
pub open spec fn adapt(value: ValueModel) -> TemplateModel
    decreases value,
{
    match value {
        ValueModel::Str(s) => TemplateModel::Str(s),
        ValueModel::Integer(i) => TemplateModel::Str(decimal_text(i)),
        ValueModel::Float(s) => TemplateModel::Str(s),
        ValueModel::Boolean(b) => TemplateModel::Bool(b),
        ValueModel::Datetime(s) => TemplateModel::Str(s),
        ValueModel::List(items) => TemplateModel::List(
            Seq::new(
                items.len(),
                |i: int|
                    if 0 <= i < items.len() {
                        adapt(items[i])
                    } else {
                        TemplateModel::Bool(false)
                    },
            ),
        ),
        ValueModel::Table(entries) => TemplateModel::Mapping(
            Seq::new(
                entries.len(),
                |i: int|
                    if 0 <= i < entries.len() {
                        (entries[i].0, adapt(entries[i].1))
                    } else {
                        (Seq::empty(), TemplateModel::Bool(false))
                    },
            ),
        ),
    }
}

/// The template data of each item of a list, in order.
pub open spec fn adapt_items(items: Seq<ValueModel>) -> Seq<TemplateModel> {
    Seq::new(items.len(), |i: int| adapt(items[i]))
}

/// The template data of each entry of a table, under the entry's own key.
pub open spec fn adapt_entries(entries: TableModel) -> Seq<(Seq<char>, TemplateModel)> {
    Seq::new(entries.len(), |i: int| (entries[i].0, adapt(entries[i].1)))
}

/// A list converts to the sequence of its converted items.
pub proof fn lemma_adapt_list(items: Seq<ValueModel>)
    ensures
        adapt(ValueModel::List(items)) == TemplateModel::List(adapt_items(items)),
{
    assert(adapt(ValueModel::List(items))->List_0 =~= adapt_items(items));
}

/// A table converts to the mapping of its converted entries.
pub proof fn lemma_adapt_table(entries: TableModel)
    ensures
        adapt(ValueModel::Table(entries)) == TemplateModel::Mapping(adapt_entries(entries)),
{
    assert(adapt(ValueModel::Table(entries))->Mapping_0 =~= adapt_entries(entries));
}

/// Conversion keeps the length and the order of a list: the item at each
/// position of the result is the conversion of the item at that position.
pub proof fn adapt_preserves_order(items: Seq<ValueModel>, i: int)
    requires
        0 <= i < items.len(),
    ensures
        adapt(ValueModel::List(items)) is List,
        adapt(ValueModel::List(items))->List_0.len() == items.len(),
        adapt(ValueModel::List(items))->List_0[i] == adapt(items[i]),
{
    lemma_adapt_list(items);
}

/// Conversion descends into tables: the entry at each position of the result
/// has the key of the entry at that position and the conversion of its value.
pub proof fn adapt_descends_into_tables(entries: TableModel, i: int)
    requires
        0 <= i < entries.len(),
    ensures
        adapt(ValueModel::Table(entries)) is Mapping,
        adapt(ValueModel::Table(entries))->Mapping_0.len() == entries.len(),
        adapt(ValueModel::Table(entries))->Mapping_0[i] == (entries[i].0, adapt(entries[i].1)),
{
    lemma_adapt_table(entries);
}

/// Converts a configuration value into template data.
pub fn toml_to_mustache(value: &ConfigValue) -> (out: TemplateData)
    ensures
        out@ == adapt(value@),
    decreases value, 1nat,
{
    match value {
        ConfigValue::String(s) => TemplateData::StrVal(s.clone()),
        ConfigValue::Integer(i) => TemplateData::StrVal(decimal_string(*i)),
        ConfigValue::Float(s) => TemplateData::StrVal(s.clone()),
        ConfigValue::Boolean(b) => TemplateData::Bool(*b),
        ConfigValue::Datetime(s) => TemplateData::StrVal(s.clone()),
        ConfigValue::Array(a) => {
            proof {
                lemma_array_view(*a);
            }
            toml_vec_to_mustache(a)
        },
        ConfigValue::Table(t) => {
            proof {
                lemma_table_view(*t);
                lemma_adapt_table(entries_view(t@));
            }
            entries_to_mustache(t)
        },
    }
}

/// Converts a list of configuration values into a sequence of template data,
/// in the same order.
pub fn toml_vec_to_mustache(toml: &Vec<ConfigValue>) -> (out: TemplateData)
    ensures
        out@ == adapt(ValueModel::List(items_view(toml@))),
        out@ == TemplateModel::List(adapt_items(items_view(toml@))),
    decreases toml, 0nat,
{
    let mut mvec: Vec<TemplateData> = Vec::new();
    let mut i: usize = 0;
    while i < toml.len()
        invariant
            0 <= i <= toml.len(),
            mvec@.len() == i,
            forall|j: int| 0 <= j < i ==> (#[trigger] mvec@[j])@ == adapt(toml@[j]@),
        decreases toml.len() - i,
    {
        let item = toml_to_mustache(&toml[i]);
        mvec.push(item);
        i += 1;
    }
    proof {
        lemma_vec_val_view(mvec);
        lemma_adapt_list(items_view(toml@));
        assert(data_items_view(mvec@) =~= adapt_items(items_view(toml@)));
    }
    TemplateData::VecVal(mvec)
}

/// Converts the entries of a table into a mapping of template data.
fn entries_to_mustache(entries: &Vec<(String, ConfigValue)>) -> (out: TemplateData)
    ensures
        out@ == TemplateModel::Mapping(adapt_entries(entries_view(entries@))),
    decreases entries, 0nat,
{
    let mut pairs: Vec<(String, TemplateData)> = Vec::new();
    let mut i: usize = 0;
    while i < entries.len()
        invariant
            0 <= i <= entries.len(),
            pairs@.len() == i,
            forall|j: int|
                0 <= j < i ==> (#[trigger] pairs@[j]).0@ == entries@[j].0@ && pairs@[j].1@
                    == adapt(entries@[j].1@),
        decreases entries.len() - i,
    {
        let item = toml_to_mustache(&entries[i].1);
        pairs.push((entries[i].0.clone(), item));
        i += 1;
    }
    proof {
        lemma_map_view(pairs);
        assert(data_entries_view(pairs@) =~= adapt_entries(entries_view(entries@)));
    }
    TemplateData::Mapping(pairs)
}

/// Converts a configuration table into a mapping of template data: one entry
/// for each key, under the same key and in the same order.
pub fn toml_table_to_mustache(toml: &ConfigTable) -> (out: TemplateData)
    ensures
        out@ == adapt(ValueModel::Table(toml@)),
        out@ == TemplateModel::Mapping(adapt_entries(toml@)),
{
    proof {
        lemma_adapt_table(toml@);
    }
    entries_to_mustache(&toml.entries)
}

} // verus!
