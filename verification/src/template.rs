//! Template data: what a template engine interpolates and branches on.

use vstd::prelude::*;

verus! {

/// The mathematical content of template data.
pub enum TemplateModel {
    Str(Seq<char>),
    Bool(bool),
    List(Seq<TemplateModel>),
    Mapping(Seq<(Seq<char>, TemplateModel)>),
}

/// Data handed to a template: scalar text, a boolean, an ordered sequence, or
/// a mapping from names to data, kept in the order of the table it came from.
#[derive(Debug, PartialEq, Eq)]
pub enum TemplateData {
    StrVal(String),
    Bool(bool),
    VecVal(Vec<TemplateData>),
    Mapping(Vec<(String, TemplateData)>),
}

/// What a piece of template data holds.
pub open spec fn template_model(data: TemplateData) -> TemplateModel
    decreases data,
{
    match data {
        TemplateData::StrVal(s) => TemplateModel::Str(s@),
        TemplateData::Bool(b) => TemplateModel::Bool(b),
        TemplateData::VecVal(items) => TemplateModel::List(
            Seq::new(
                items@.len(),
                |i: int|
                    if 0 <= i < items@.len() {
                        template_model(items@[i])
                    } else {
                        TemplateModel::Bool(false)
                    },
            ),
        ),
        TemplateData::Mapping(entries) => TemplateModel::Mapping(
            Seq::new(
                entries@.len(),
                |i: int|
                    if 0 <= i < entries@.len() {
                        (entries@[i].0@, template_model(entries@[i].1))
                    } else {
                        (Seq::empty(), TemplateModel::Bool(false))
                    },
            ),
        ),
    }
}

impl View for TemplateData {
    type V = TemplateModel;

    open spec fn view(&self) -> TemplateModel {
        template_model(*self)
    }
}

/// The items of a sequence of template data, each taken by its view.
pub open spec fn data_items_view(items: Seq<TemplateData>) -> Seq<TemplateModel> {
    Seq::new(items.len(), |i: int| items[i]@)
}

/// The entries of a mapping of template data, each taken by its view.
pub open spec fn data_entries_view(entries: Seq<(String, TemplateData)>) -> Seq<
    (Seq<char>, TemplateModel),
> {
    Seq::new(entries.len(), |i: int| (entries[i].0@, entries[i].1@))
}

/// The view of a sequence of data is the sequence of its items' views.
pub proof fn lemma_vec_val_view(items: Vec<TemplateData>)
    ensures
        TemplateData::VecVal(items)@ == TemplateModel::List(data_items_view(items@)),
{
    assert(TemplateData::VecVal(items)@->List_0 =~= data_items_view(items@));
}

/// The view of a mapping of data is the sequence of its entries' views.
pub proof fn lemma_map_view(entries: Vec<(String, TemplateData)>)
    ensures
        TemplateData::Mapping(entries)@ == TemplateModel::Mapping(data_entries_view(entries@)),
{
    assert(TemplateData::Mapping(entries)@->Mapping_0 =~= data_entries_view(entries@));
}

} // verus!
