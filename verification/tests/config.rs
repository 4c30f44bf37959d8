use bldr::config::{toml_table_to_mustache, toml_to_mustache, toml_vec_to_mustache};
use bldr::error::BldrError;
use bldr::json::{json_object_to_mustache, json_to_mustache, json_vec_to_mustache, JsonValue};
use bldr::merge::{overlay, toml_merge};
use bldr::source::{
    config_path, env_to_toml, env_var_name, final_data, overlay_from_text, package_data,
    parse_toml, parsed_or_error,
};
use bldr::template::TemplateData;
use bldr::value::{ConfigTable, ConfigValue};
use rustc_serialize::json::Json;
use std::collections::HashMap;

const TEMPLATE: &str = "hello {{daemonize}} for {{slaveof}} {{winks.right}} {{winks.left}} {{# winks.wiggle}} {{.}} {{/winks.wiggle}}";

fn s(text: &str) -> String {
    text.to_string()
}

fn json_value(json: &Json) -> JsonValue {
    match json {
        Json::I64(i) => JsonValue::I64(*i),
        Json::U64(u) => JsonValue::U64(*u),
        Json::F64(x) => JsonValue::F64(format!("{}", x)),
        Json::String(t) => JsonValue::String(t.clone()),
        Json::Boolean(b) => JsonValue::Boolean(*b),
        Json::Array(a) => JsonValue::Array(a.iter().map(json_value).collect()),
        Json::Object(o) => JsonValue::Object(json_entries(o)),
        Json::Null => JsonValue::Null,
    }
}

fn json_entries(object: &std::collections::BTreeMap<String, Json>) -> Vec<(String, JsonValue)> {
    object.iter().map(|(k, v)| (k.clone(), json_value(v))).collect()
}

fn mustache_data(data: &TemplateData) -> mustache::Data {
    match data {
        TemplateData::StrVal(t) => mustache::Data::StrVal(t.clone()),
        TemplateData::Bool(b) => mustache::Data::Bool(*b),
        TemplateData::VecVal(items) => mustache::Data::VecVal(items.iter().map(mustache_data).collect()),
        TemplateData::Mapping(entries) => {
            let mut map = HashMap::new();
            for (k, v) in entries.iter() {
                map.insert(k.clone(), mustache_data(v));
            }
            mustache::Data::Map(map)
        }
    }
}

fn render(template: &str, data: &TemplateData) -> String {
    let template = mustache::compile_str(template);
    let mut bytes = vec![];
    template.render_data(&mut bytes, &mustache_data(data));
    String::from_utf8(bytes).unwrap()
}

fn table(entries: Vec<(&str, ConfigValue)>) -> ConfigTable {
    ConfigTable { entries: entries.into_iter().map(|(k, v)| (s(k), v)).collect() }
}

fn nested(entries: Vec<(&str, ConfigValue)>) -> ConfigValue {
    ConfigValue::Table(entries.into_iter().map(|(k, v)| (s(k), v)).collect())
}

fn redis_defaults() -> ConfigTable {
    table(vec![
        ("daemonize", ConfigValue::String(s("no"))),
        ("slaveof", ConfigValue::String(s("127.0.0.1 6380"))),
        (
            "winks",
            nested(vec![
                ("left", ConfigValue::String(s("yes"))),
                ("right", ConfigValue::String(s("no"))),
                (
                    "wiggle",
                    ConfigValue::Array(vec![
                        ConfigValue::String(s("snooze")),
                        ConfigValue::String(s("looze")),
                    ]),
                ),
            ]),
        ),
    ])
}

#[test]
fn json_data_is_rendered_to_mustache() {
    let json_data = Json::from_str("
{
  \"daemonize\": \"no\",
  \"slaveof\": \"127.0.0.1 6380\",
  \"winks\": {
    \"left\": \"yes\",
    \"right\": \"no\",
    \"wiggle\": [
        \"snooze\",
        \"looze\"
    ]
  }
}").unwrap();
    let data = json_object_to_mustache(&json_entries(json_data.as_object().unwrap()));
    assert_eq!(render(TEMPLATE, &data), "hello no for 127.0.0.1 6380 no yes  snooze  looze ".to_string());
}

#[test]
fn toml_data_is_rendered_to_mustache() {
    let toml = r#"
            daemonize = "no"
            slaveof = "127.0.0.1 6380"

            [winks]
            left = "yes"
            right = "no"
            wiggle = [ "snooze", "looze" ]
        "#;
    let toml_value = parse_toml(toml).unwrap();
    let data = toml_table_to_mustache(&toml_value);
    assert_eq!(render(TEMPLATE, &data), "hello no for 127.0.0.1 6380 no yes  snooze  looze ".to_string());
}

#[test]
fn parsed_text_gives_the_table_it_spells() {
    let parsed = parse_toml("b = 2\na = \"x\"\nflag = true\n[t]\nk = [1, 2]\n").unwrap();
    let expected = table(vec![
        ("a", ConfigValue::String(s("x"))),
        ("b", ConfigValue::Integer(2)),
        ("flag", ConfigValue::Boolean(true)),
        (
            "t",
            nested(vec![("k", ConfigValue::Array(vec![ConfigValue::Integer(1), ConfigValue::Integer(2)]))]),
        ),
    ]);
    assert_eq!(parsed, expected);
}

#[test]
fn parsed_float_and_datetime_are_text() {
    let parsed = parse_toml("f = 1.5\nd = 1979-05-27T07:32:00Z\n").unwrap();
    let expected = table(vec![
        ("d", ConfigValue::Datetime(s("1979-05-27T07:32:00Z"))),
        ("f", ConfigValue::Float(s("1.5"))),
    ]);
    assert_eq!(parsed, expected);
}

#[test]
fn malformed_text_is_a_parse_error_with_diagnostics() {
    match parse_toml("this is = = not toml") {
        Err(BldrError::TomlParser(diagnostics)) => assert!(!diagnostics.is_empty()),
        other => panic!("unexpected outcome: {:?}", other),
    }
}

#[test]
fn parser_outcome_is_mapped_without_change() {
    let good = table(vec![("a", ConfigValue::Integer(1))]);
    assert_eq!(parsed_or_error(Ok(good.duplicate())), Ok(good));
    assert_eq!(parsed_or_error(Err(vec![])), Err(BldrError::TomlParser(vec![])));
}

#[test]
fn merge_keeps_exactly_the_primary_keys() {
    let a = table(vec![("x", ConfigValue::Integer(1)), ("y", ConfigValue::Integer(2))]);
    let b = table(vec![("y", ConfigValue::Integer(20)), ("z", ConfigValue::Integer(30))]);
    let merged = toml_merge(a, b);
    let keys: Vec<&str> = merged.entries.iter().map(|(k, _)| k.as_str()).collect();
    assert_eq!(keys, vec!["x", "y"]);
}

#[test]
fn merge_prefers_the_override_value() {
    let a = table(vec![("x", ConfigValue::Integer(1)), ("y", ConfigValue::Integer(2))]);
    let b = table(vec![("y", ConfigValue::Integer(20)), ("z", ConfigValue::Integer(30))]);
    let merged = toml_merge(a, b);
    assert_eq!(merged.get(&s("x")), Some(&ConfigValue::Integer(1)));
    assert_eq!(merged.get(&s("y")), Some(&ConfigValue::Integer(20)));
    assert_eq!(merged.get(&s("z")), None);
}

#[test]
fn merge_is_not_recursive() {
    let a = table(vec![("x", nested(vec![("a", ConfigValue::Integer(1)), ("b", ConfigValue::Integer(2))]))]);
    let b = table(vec![("x", nested(vec![("a", ConfigValue::Integer(9))]))]);
    let expected = table(vec![("x", nested(vec![("a", ConfigValue::Integer(9))]))]);
    assert_eq!(toml_merge(a, b), expected);
}

#[test]
fn merge_with_empty_tables() {
    let a = table(vec![("x", ConfigValue::Integer(1))]);
    assert_eq!(toml_merge(a.duplicate(), ConfigTable::new()), a);
    assert_eq!(toml_merge(ConfigTable::new(), a), ConfigTable::new());
}

#[test]
fn absent_overlay_is_identity() {
    let a = redis_defaults();
    assert_eq!(overlay(a.duplicate(), None), a);
}

#[test]
fn present_overlay_is_the_merge() {
    let a = table(vec![("x", ConfigValue::Integer(1))]);
    let b = table(vec![("x", ConfigValue::Boolean(true))]);
    assert_eq!(overlay(a.duplicate(), Some(b.duplicate())), toml_merge(a, b));
}

#[test]
fn table_insert_replaces_or_appends() {
    let mut t = ConfigTable::new();
    t.insert(s("a"), ConfigValue::Integer(1));
    t.insert(s("b"), ConfigValue::Integer(2));
    t.insert(s("a"), ConfigValue::Integer(3));
    assert_eq!(t, table(vec![("a", ConfigValue::Integer(3)), ("b", ConfigValue::Integer(2))]));
    assert_eq!(t.position(&s("b")), Some(1));
    assert_eq!(t.position(&s("c")), None);
    assert_eq!(t.duplicate(), t);
}

#[test]
fn adapt_scalars() {
    assert_eq!(toml_to_mustache(&ConfigValue::Integer(42)), TemplateData::StrVal(s("42")));
    assert_eq!(toml_to_mustache(&ConfigValue::Integer(-7)), TemplateData::StrVal(s("-7")));
    assert_eq!(toml_to_mustache(&ConfigValue::Integer(0)), TemplateData::StrVal(s("0")));
    assert_eq!(
        toml_to_mustache(&ConfigValue::Integer(i64::MIN)),
        TemplateData::StrVal(s("-9223372036854775808"))
    );
    assert_eq!(
        toml_to_mustache(&ConfigValue::Integer(i64::MAX)),
        TemplateData::StrVal(s("9223372036854775807"))
    );
    assert_eq!(toml_to_mustache(&ConfigValue::Boolean(true)), TemplateData::Bool(true));
    assert_eq!(toml_to_mustache(&ConfigValue::Boolean(false)), TemplateData::Bool(false));
    assert_eq!(toml_to_mustache(&ConfigValue::String(s("verbatim"))), TemplateData::StrVal(s("verbatim")));
    assert_eq!(toml_to_mustache(&ConfigValue::Float(s("1.5"))), TemplateData::StrVal(s("1.5")));
    assert_eq!(
        toml_to_mustache(&ConfigValue::Datetime(s("1979-05-27T07:32:00Z"))),
        TemplateData::StrVal(s("1979-05-27T07:32:00Z"))
    );
}

#[test]
fn adapt_json_scalars() {
    assert_eq!(json_to_mustache(&JsonValue::I64(42)), TemplateData::StrVal(s("42")));
    assert_eq!(json_to_mustache(&JsonValue::I64(-42)), TemplateData::StrVal(s("-42")));
    assert_eq!(
        json_to_mustache(&JsonValue::U64(18446744073709551615)),
        TemplateData::StrVal(s("18446744073709551615"))
    );
    assert_eq!(json_to_mustache(&JsonValue::F64(s("2.5"))), TemplateData::StrVal(s("2.5")));
    assert_eq!(json_to_mustache(&JsonValue::String(s("x"))), TemplateData::StrVal(s("x")));
    assert_eq!(json_to_mustache(&JsonValue::Boolean(true)), TemplateData::Bool(true));
    assert_eq!(json_to_mustache(&JsonValue::Null), TemplateData::StrVal(s("")));
}

#[test]
fn adapt_preserves_list_order() {
    let list = vec![ConfigValue::Integer(3), ConfigValue::Boolean(false), ConfigValue::String(s("a"))];
    let expected = TemplateData::VecVal(vec![
        TemplateData::StrVal(s("3")),
        TemplateData::Bool(false),
        TemplateData::StrVal(s("a")),
    ]);
    assert_eq!(toml_vec_to_mustache(&list), expected);
    assert_eq!(toml_to_mustache(&ConfigValue::Array(list)), expected);
    let json = vec![JsonValue::I64(3), JsonValue::Null, JsonValue::Boolean(true)];
    assert_eq!(
        json_vec_to_mustache(&json),
        TemplateData::VecVal(vec![
            TemplateData::StrVal(s("3")),
            TemplateData::StrVal(s("")),
            TemplateData::Bool(true),
        ])
    );
}

#[test]
fn adapt_recurses_into_nested_tables() {
    let value = nested(vec![("outer", nested(vec![("inner", ConfigValue::Integer(5))]))]);
    let expected = TemplateData::Mapping(vec![(
        s("outer"),
        TemplateData::Mapping(vec![(s("inner"), TemplateData::StrVal(s("5")))]),
    )]);
    assert_eq!(toml_to_mustache(&value), expected);
    let json = JsonValue::Object(vec![(s("o"), JsonValue::Object(vec![(s("i"), JsonValue::Array(vec![JsonValue::U64(1)]))]))]);
    assert_eq!(
        json_to_mustache(&json),
        TemplateData::Mapping(vec![(
            s("o"),
            TemplateData::Mapping(vec![(s("i"), TemplateData::VecVal(vec![TemplateData::StrVal(s("1"))]))]),
        )])
    );
}

#[test]
fn end_to_end_without_overlays() {
    let data = final_data(redis_defaults(), None, None);
    assert_eq!(
        render("hello {{daemonize}} for {{slaveof}} {{winks.right}} {{winks.left}} {{#winks.wiggle}} {{.}} {{/winks.wiggle}}", &data),
        "hello no for 127.0.0.1 6380 no yes  snooze  looze "
    );
}

#[test]
fn discovery_applies_before_environment() {
    let defaults = table(vec![("a", ConfigValue::Integer(1)), ("b", ConfigValue::Integer(2))]);
    let discovery = table(vec![("a", ConfigValue::Integer(10)), ("b", ConfigValue::Integer(20))]);
    let environment = table(vec![("b", ConfigValue::Integer(200))]);
    let data = final_data(defaults, Some(discovery), Some(environment));
    assert_eq!(
        data,
        TemplateData::Mapping(vec![
            (s("a"), TemplateData::StrVal(s("10"))),
            (s("b"), TemplateData::StrVal(s("200"))),
        ])
    );
}

#[test]
fn package_data_from_texts() {
    let data = package_data("port = 1\nname = \"x\"\n", Some("port = 2\n"), Some("name = \"y\"\nextra = 1\n")).unwrap();
    assert_eq!(
        data,
        TemplateData::Mapping(vec![
            (s("name"), TemplateData::StrVal(s("y"))),
            (s("port"), TemplateData::StrVal(s("2"))),
        ])
    );
    let plain = package_data("port = 1\n", None, None).unwrap();
    assert_eq!(plain, TemplateData::Mapping(vec![(s("port"), TemplateData::StrVal(s("1")))]));
}

#[test]
fn malformed_environment_override_fails() {
    assert!(matches!(env_to_toml(Some("port = = 1")), Err(BldrError::TomlParser(_))));
    assert!(matches!(package_data("port = 1\n", None, Some("port = = 1")), Err(BldrError::TomlParser(_))));
    assert!(matches!(package_data("port = 1\n", Some("[["), None), Err(BldrError::TomlParser(_))));
    assert!(matches!(package_data("port 1\n", None, None), Err(BldrError::TomlParser(_))));
}

#[test]
fn unset_environment_is_no_overlay() {
    assert_eq!(env_to_toml(None), Ok(None));
    assert_eq!(overlay_from_text(None), Ok(None));
    assert_eq!(
        env_to_toml(Some("port = 2\n")),
        Ok(Some(table(vec![("port", ConfigValue::Integer(2))])))
    );
}

#[test]
fn environment_variable_name() {
    assert_eq!(env_var_name("redis"), "BLDR_REDIS");
    assert_eq!(env_var_name("Simple_Service"), "BLDR_SIMPLE_SERVICE");
}

#[test]
fn config_file_path() {
    assert_eq!(config_path("redis.config"), "config/redis.config");
}

#[test]
fn error_descriptions() {
    assert_eq!(BldrError::CannotParseFileName.describe(), "Cannot determine the filename from the given URI");
    assert_eq!(BldrError::TomlParser(vec![]).describe(), "Failed to parse toml");
    assert_eq!(
        BldrError::WriteSyncFailed.describe(),
        "Could not write to destination; bytes written was 0 on a non-0 buffer"
    );
}
