//! Configuration sources: defaults and overlays, parsed from text and applied
//! in their fixed order.

use vstd::prelude::*;
use vstd::string::*;
use crate::config::{adapt, toml_table_to_mustache};
use crate::error::{BldrError, ParserDiagnostic};
use crate::merge::{
    merge_keeps_keys, merge_prefers_override, merged, optional_view, overlaid, overlay,
};
use crate::template::{TemplateData, TemplateModel};
use crate::value::{
    has_key, key_set, lemma_table_view, lookup, unique_keys, ConfigTable, ConfigValue, TableModel,
    ValueModel,
};

verus! {

/// `toml::Value`, the parser's own tree, carried from the parser to the copy
/// and never looked into.
#[verifier::external_type_specification]
#[verifier::external_body]
pub struct ExTomlValue(toml::Value);

/// The table that a text parses to as a TOML document, `None` where it does
/// not parse.
pub uninterp spec fn toml_document(text: Seq<char>) -> Option<Seq<(Seq<char>, ValueModel)>>;

/// What a `toml::Value` holds: a float and a datetime as their printed text,
/// a table as its entries in key order.
pub uninterp spec fn toml_content(value: toml::Value) -> ValueModel;

/// The upper-case form of a text.
pub uninterp spec fn uppercased(text: Seq<char>) -> Seq<char>;

/// Copies a `toml::Value` into a configuration value, variant by variant: a
/// float through its `Display`, a datetime as the text it holds, an array item
/// by item, a table entry by entry in the order of its `BTreeMap`. The
/// contract only names what the value holds.
#[verifier::external_body]
fn value_from_toml(value: &toml::Value) -> (out: ConfigValue)
    ensures
        out@ == toml_content(*value),
{
    match value {
        toml::Value::String(s) => ConfigValue::String(s.clone()),
        toml::Value::Integer(i) => ConfigValue::Integer(*i),
        toml::Value::Float(x) => ConfigValue::Float(format!("{}", x)),
        toml::Value::Boolean(b) => ConfigValue::Boolean(*b),
        toml::Value::Datetime(d) => ConfigValue::Datetime(d.clone()),
        toml::Value::Array(a) => ConfigValue::Array(a.iter().map(value_from_toml).collect()),
        toml::Value::Table(t) => ConfigValue::Table(
            t.iter().map(|(k, v)| (k.clone(), value_from_toml(v))).collect(),
        ),
    }
}

/// Parses a text as a TOML document.
///
/// Calls `toml::Parser::new` and `toml::Parser::parse`, and hands the parsed
/// table back as a `toml::Value::Table`. The contract claims that the outcome
/// depends on the text alone, that a parsed document is a table with no key
/// twice (it is a `BTreeMap`), and that a failure carries at least one
/// diagnostic, as the parser documents.
#[verifier::external_body]
fn parse_document(text: &str) -> (out: Result<toml::Value, Vec<ParserDiagnostic>>)
    ensures
        match out {
            Ok(value) => toml_content(value) is Table && toml_document(text@) == Some(
                toml_content(value)->Table_0,
            ) && unique_keys(toml_content(value)->Table_0),
            Err(errors) => toml_document(text@) is None && errors@.len() > 0,
        },
{
    let mut parser = toml::Parser::new(text);
    match parser.parse() {
        Some(table) => Ok(toml::Value::Table(table)),
        None => Err(
            parser.errors.iter().map(
                |e| ParserDiagnostic { lo: e.lo, hi: e.hi, desc: e.desc.clone() },
            ).collect(),
        ),
    }
}

/// The upper-case form of a text.
///
/// Calls `str::to_uppercase`, whose result depends on the text alone.
#[verifier::external_body]
fn to_upper(text: &str) -> (out: String)
    ensures
        out@ == uppercased(text@),
{
    text.to_uppercase()
}

/// Turns the parser's outcome into the library's result: a table as it is, a
/// list of diagnostics as a parse error that carries them.
pub fn parsed_or_error(outcome: Result<ConfigTable, Vec<ParserDiagnostic>>) -> (out: Result<
    ConfigTable,
    BldrError,
>)
    ensures
        match outcome {
            Ok(table) => (out matches Ok(t) && t == table),
            Err(errors) => (out matches Err(BldrError::TomlParser(e)) && e == errors),
        },
{
    match outcome {
        Ok(table) => Ok(table),
        Err(errors) => Err(BldrError::TomlParser(errors)),
    }
}

/// Parses configuration text into a table. Text that does not parse is a
/// parse error with the parser's diagnostics.
pub fn parse_toml(text: &str) -> (out: Result<ConfigTable, BldrError>)
    ensures
        match out {
            Ok(table) => toml_document(text@) == Some(table@) && table.well_formed(),
            Err(e) => toml_document(text@) is None && (e matches BldrError::TomlParser(d)
                && d@.len() > 0),
        },
{
    match parse_document(text) {
        Ok(document) => match value_from_toml(&document) {
            ConfigValue::Table(entries) => {
                proof {
                    lemma_table_view(entries);
                }
                parsed_or_error(Ok(ConfigTable { entries }))
            },
            _ => unreached(),
        },
        Err(errors) => parsed_or_error(Err(errors)),
    }
}

/// What an optional raw overlay text stands for: no overlay where there is no
/// text, else the table it parses to; `None` where text is there and does not
/// parse.
pub open spec fn overlay_of(raw: Option<Seq<char>>) -> Option<Option<TableModel>> {
    match raw {
        None => Some(None),
        Some(text) => match toml_document(text) {
            Some(table) => Some(Some(table)),
            None => None,
        },
    }
}

/// The view of an optional text.
pub open spec fn optional_text(raw: Option<&str>) -> Option<Seq<char>> {
    match raw {
        Some(text) => Some(text@),
        None => None,
    }
}

/// Reads an optional overlay from its raw text. No text is no overlay and no
/// error; text that does not parse is a parse error.
pub fn overlay_from_text(raw: Option<&str>) -> (out: Result<Option<ConfigTable>, BldrError>)
    ensures
        match out {
            Ok(over) => overlay_of(optional_text(raw)) == Some(optional_view(over))
                && (over is Some ==> over->0.well_formed()),
            Err(e) => overlay_of(optional_text(raw)) is None && e is TomlParser,
        },
        raw is None ==> out matches Ok(None),
{
    match raw {
        None => Ok(None),
        Some(text) => match parse_toml(text) {
            Ok(table) => Ok(Some(table)),
            Err(e) => Err(e),
        },
    }
}

/// The overlay that the environment gives: `value` is what the package's
/// variable holds, `None` where it is unset.
pub fn env_to_toml(value: Option<&str>) -> (out: Result<Option<ConfigTable>, BldrError>)
    ensures
        match out {
            Ok(over) => overlay_of(optional_text(value)) == Some(optional_view(over))
                && (over is Some ==> over->0.well_formed()),
            Err(e) => overlay_of(optional_text(value)) is None && e is TomlParser,
        },
        value is None ==> out matches Ok(None),
{
    overlay_from_text(value)
}

/// The name of the environment variable that overrides a package's
/// configuration: the prefix `BLDR_` and the package's name in upper case.
pub fn env_var_name(pkg: &str) -> (out: String)
    ensures
        out@ == "BLDR_"@ + uppercased(pkg@),
{
    let upper = to_upper(pkg);
    "BLDR_".to_owned().concat(upper.as_str())
}

/// Where a configuration file lies, relative to a package or to a service
/// directory.
pub fn config_path(name: &str) -> (out: String)
    ensures
        out@ == "config/"@ + name@,
{
    "config/".to_owned().concat(name)
}

/// The table that the templates see: the defaults, overlaid first by the
/// discovery table, then by the environment table.
pub open spec fn layered(
    defaults: TableModel,
    discovery: Option<TableModel>,
    environment: Option<TableModel>,
) -> TableModel {
    overlaid(overlaid(defaults, discovery), environment)
}

/// Overlays never add or remove a key: the layered table defines exactly the
/// keys of the defaults.
pub proof fn layered_keeps_default_keys(
    defaults: TableModel,
    discovery: Option<TableModel>,
    environment: Option<TableModel>,
)
    ensures
        key_set(layered(defaults, discovery, environment)) == key_set(defaults),
{
    if let Some(d) = discovery {
        merge_keeps_keys(defaults, d);
    }
    if let Some(e) = environment {
        merge_keeps_keys(overlaid(defaults, discovery), e);
    }
}

/// The environment has the last word: where it defines a key of the defaults,
/// the layered table gives its value, whatever discovery says of the key.
pub proof fn environment_overrides_discovery(
    defaults: TableModel,
    discovery: Option<TableModel>,
    environment: TableModel,
    key: Seq<char>,
)
    requires
        has_key(defaults, key),
        has_key(environment, key),
    ensures
        lookup(layered(defaults, discovery, Some(environment)), key) == lookup(environment, key),
{
    let discovered = overlaid(defaults, discovery);
    layered_keeps_default_keys(defaults, discovery, None);
    assert(key_set(defaults).contains(key));
    assert(key_set(discovered).contains(key));
    merge_prefers_override(discovered, environment, key);
}

/// Where the environment is silent on a key of the defaults, discovery
/// decides: the layered table gives discovery's value where it defines the
/// key, and the default where it does not.
pub proof fn discovery_applies_under_environment(
    defaults: TableModel,
    discovery: TableModel,
    environment: Option<TableModel>,
    key: Seq<char>,
)
    requires
        has_key(defaults, key),
        environment matches Some(e) ==> !has_key(e, key),
    ensures
        lookup(layered(defaults, Some(discovery), environment), key) == if has_key(
            discovery,
            key,
        ) {
            lookup(discovery, key)
        } else {
            lookup(defaults, key)
        },
{
    let discovered = merged(defaults, discovery);
    merge_prefers_override(defaults, discovery, key);
    if let Some(e) = environment {
        merge_prefers_override(discovered, e, key);
    }
}

/// Applies the overlays in their fixed order and converts the result.
pub fn final_data(
    defaults: ConfigTable,
    discovery: Option<ConfigTable>,
    environment: Option<ConfigTable>,
) -> (out: TemplateData)
    ensures
        out@ == adapt(
            ValueModel::Table(
                layered(defaults@, optional_view(discovery), optional_view(environment)),
            ),
        ),
{
    let discovered = overlay(defaults, discovery);
    let current = overlay(discovered, environment);
    toml_table_to_mustache(&current)
}

/// The template data of a package, from the texts of its sources: `None`
/// where one of the texts does not parse.
pub open spec fn package_model(
    defaults: Seq<char>,
    discovery: Option<Seq<char>>,
    environment: Option<Seq<char>>,
) -> Option<TemplateModel> {
    match (toml_document(defaults), overlay_of(discovery), overlay_of(environment)) {
        (Some(d), Some(o), Some(e)) => Some(adapt(ValueModel::Table(layered(d, o, e)))),
        _ => None,
    }
}

/// Builds the data that a package's templates are rendered with: parses the
/// defaults, then the discovery overlay, then the environment overlay, merges
/// them in that order and converts the result. The first text that does not
/// parse ends the work with a parse error.
pub fn package_data(defaults: &str, discovery: Option<&str>, environment: Option<&str>) -> (out:
    Result<TemplateData, BldrError>)
    ensures
        match out {
            Ok(data) => package_model(
                defaults@,
                optional_text(discovery),
                optional_text(environment),
            ) == Some(data@),
            Err(e) => package_model(defaults@, optional_text(discovery), optional_text(environment))
                is None && e is TomlParser,
        },
{
    let default_table = match parse_toml(defaults) {
        Ok(table) => table,
        Err(e) => {
            return Err(e);
        },
    };
    let discovery_table = match overlay_from_text(discovery) {
        Ok(over) => over,
        Err(e) => {
            return Err(e);
        },
    };
    let env_table = match env_to_toml(environment) {
        Ok(over) => over,
        Err(e) => {
            return Err(e);
        },
    };
    Ok(final_data(default_table, discovery_table, env_table))
}

} // verus!
