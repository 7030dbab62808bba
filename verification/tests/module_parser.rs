use msr_server::misc::module_parser::{
    check_field, collect_outputs, modules_json, FetchRequest, InputType, JsonSettings, Mode, Module, ModuleError, ModuleResult,
    TextSettings, TomlSettings, ValCheck,
};
use serde::ser::SerializeStruct;

/// The shape in which a module result is serialised: a struct with the
/// fields `name` and `data`, in that order.
struct Pair<'a> {
    name: &'a str,
    data: &'a str,
}

impl<'a> serde::Serialize for Pair<'a> {
    fn serialize<S: serde::Serializer>(&self, s: S) -> Result<S::Ok, S::Error> {
        let mut st = s.serialize_struct("ModuleResult", 2)?;
        st.serialize_field("name", self.name)?;
        st.serialize_field("data", self.data)?;
        st.end()
    }
}

fn checks(fields: &[&str]) -> Option<Vec<ValCheck>> {
    Some(fields.iter().map(|f| ValCheck { field: f.to_string() }).collect())
}

fn keys(fields: &[&str]) -> Option<Vec<String>> {
    Some(fields.iter().map(|f| f.to_string()).collect())
}

fn text_module(name: &str, check_ascii: Option<bool>) -> Module {
    Module {
        name: name.to_string(),
        mode: Mode::Api { url: String::new() },
        input_type: InputType::Text { settings: Some(TextSettings { check_ascii }) },
    }
}

fn json_module(name: &str, fields: Option<&[&str]>) -> Module {
    Module {
        name: name.to_string(),
        mode: Mode::Api { url: String::new() },
        input_type: InputType::Json {
            settings: fields.map(|f| JsonSettings { check_value: checks(f) }),
        },
    }
}

fn toml_module(name: &str, fields: Option<&[&str]>) -> Module {
    Module {
        name: name.to_string(),
        mode: Mode::Api { url: String::new() },
        input_type: InputType::Toml {
            settings: fields.map(|f| TomlSettings { check_value: checks(f) }),
        },
    }
}

#[test]
fn check_field_all_present() {
    assert!(check_field(&keys(&["a", "b"]), &checks(&["b", "a"])).is_ok());
}

#[test]
fn check_field_missing() {
    let res = check_field(&keys(&["a"]), &checks(&["a", "c"]));
    match res {
        Err(ModuleError::ModuleSettingsNotFulfilled(m)) => assert_eq!(m, "checked field not existing"),
        other => panic!("unexpected {:?}", other),
    }
}

#[test]
fn check_field_not_a_table() {
    assert!(check_field(&None, &checks(&["a"])).is_err());
    assert!(check_field(&None, &checks(&[])).is_ok());
    assert!(check_field(&None, &None).is_ok());
}

#[test]
fn check_field_split_law_example() {
    let k = keys(&["x", "y"]);
    let both = check_field(&k, &checks(&["x", "z"])).is_ok();
    let first = check_field(&k, &checks(&["x"])).is_ok();
    let second = check_field(&k, &checks(&["z"])).is_ok();
    assert_eq!(both, first && second);
    assert!(!both);
}

#[test]
fn fetch_plan_file_with_dir() {
    let m = Mode::File { dir_path: Some("/var/data/".to_string()), file_name: "x.json".to_string() };
    match m.fetch_plan() {
        Ok(FetchRequest::ReadFile { path }) => assert_eq!(path, "/var/data/x.json"),
        _ => panic!("unexpected plan"),
    }
}

#[test]
fn fetch_plan_file_without_dir() {
    let m = Mode::File { dir_path: None, file_name: "x.json".to_string() };
    match m.fetch_plan() {
        Ok(FetchRequest::ReadFile { path }) => assert_eq!(path, "x.json"),
        _ => panic!("unexpected plan"),
    }
}

#[test]
fn fetch_plan_command() {
    let m = Mode::Command {
        dir_path: Some("/usr/bin/".to_string()),
        command: "uptime".to_string(),
        args: Some(vec!["-p".to_string()]),
    };
    match m.fetch_plan() {
        Ok(FetchRequest::RunCommand { program, args }) => {
            assert_eq!(program, "/usr/bin/uptime");
            assert_eq!(args, vec!["-p".to_string()]);
        }
        _ => panic!("unexpected plan"),
    }
    let m = Mode::Command { dir_path: None, command: "date".to_string(), args: None };
    match m.fetch_plan() {
        Ok(FetchRequest::RunCommand { program, args }) => {
            assert_eq!(program, "date");
            assert!(args.is_empty());
        }
        _ => panic!("unexpected plan"),
    }
}

#[test]
fn fetch_plan_api_unsupported() {
    let m = Mode::Api { url: "http://localhost".to_string() };
    match m.fetch_plan() {
        Err(ModuleError::Other(msg)) => assert_eq!(msg, "Functionality not yet supported"),
        _ => panic!("unexpected plan"),
    }
}

#[test]
fn module_result_json_matches_serde() {
    let r = ModuleResult { name: "cpu \"x\"".to_string(), data: "line1\nline2\t\\".to_string() };
    let expected = serde_json::to_string(&Pair { name: &r.name, data: &r.data }).unwrap();
    assert_eq!(r.to_json(), expected);
    let simple = ModuleResult { name: "cpu".to_string(), data: "hello".to_string() };
    assert_eq!(simple.to_json(), "{\"name\":\"cpu\",\"data\":\"hello\"}");
}

#[test]
fn module_result_toml_matches_toml() {
    for (name, data) in [("up", "12 days"), ("multi", "a = 1\nb = \"x\"\n"), ("q", "it's \"quoted\"")] {
        let r = ModuleResult { name: name.to_string(), data: data.to_string() };
        let expected = toml::to_string(&Pair { name, data }).unwrap();
        assert_eq!(r.to_toml(), expected);
    }
    let simple = ModuleResult { name: "up".to_string(), data: "x".to_string() };
    assert_eq!(simple.to_toml(), "name = \"up\"\ndata = \"x\"\n");
}

#[test]
fn text_module_plain() {
    let out = text_module("uptime", None).parse_input("up 3 days".to_string()).unwrap();
    assert_eq!(out, "{\"name\":\"uptime\",\"data\":\"up 3 days\"}");
}

#[test]
fn text_module_ascii_check_fails() {
    match text_module("t", Some(true)).parse_input("température".to_string()) {
        Err(ModuleError::ModuleSettingsNotFulfilled(m)) => assert_eq!(m, "ascii check failed"),
        other => panic!("unexpected {:?}", other),
    }
}

#[test]
fn text_module_ascii_check_passes() {
    let out = text_module("t", Some(true)).parse_input("ascii".to_string()).unwrap();
    assert_eq!(out, "{\"name\":\"t\",\"data\":\"ascii\"}");
    let out = text_module("t", Some(false)).parse_input("é".to_string()).unwrap();
    assert_eq!(out, serde_json::to_string(&Pair { name: "t", data: "é" }).unwrap());
}

#[test]
fn text_module_without_settings() {
    let m = Module {
        name: "n".to_string(),
        mode: Mode::Api { url: String::new() },
        input_type: InputType::Text { settings: None },
    };
    let out = m.parse_input("é".to_string()).unwrap();
    assert_eq!(out, serde_json::to_string(&Pair { name: "n", data: "é" }).unwrap());
}

#[test]
fn json_module_normalises() {
    let out = json_module("j", None).parse_input("{ \"b\": 1,\n \"a\": [1, 2] }".to_string()).unwrap();
    assert_eq!(out, "{\"name\":\"j\",\"data\":\"{\\\"a\\\":[1,2],\\\"b\\\":1}\"}");
}

#[test]
fn json_module_fields_present() {
    let out = json_module("j", Some(&["a"])).parse_input("{\"a\": true}".to_string()).unwrap();
    assert_eq!(out, "{\"name\":\"j\",\"data\":\"{\\\"a\\\":true}\"}");
}

#[test]
fn json_module_field_missing() {
    match json_module("j", Some(&["a", "zz"])).parse_input("{\"a\": true}".to_string()) {
        Err(ModuleError::ModuleSettingsNotFulfilled(m)) => assert_eq!(m, "checked field not existing"),
        other => panic!("unexpected {:?}", other),
    }
}

#[test]
fn json_module_not_an_object() {
    match json_module("j", Some(&["a"])).parse_input("[1, 2]".to_string()) {
        Err(ModuleError::ModuleSettingsNotFulfilled(_)) => {}
        other => panic!("unexpected {:?}", other),
    }
    let out = json_module("j", None).parse_input("[1, 2]".to_string()).unwrap();
    assert_eq!(out, "{\"name\":\"j\",\"data\":\"[1,2]\"}");
}

#[test]
fn json_module_bad_json() {
    match json_module("j", None).parse_input("{not json".to_string()) {
        Err(ModuleError::JsonParsingError(_)) => {}
        other => panic!("unexpected {:?}", other),
    }
}

#[test]
fn toml_module_normalises() {
    let data = "b = 1\na = \"x\"\n";
    let out = toml_module("t", Some(&["a", "b"])).parse_input(data.to_string()).unwrap();
    let rendered = "a = \"x\"\nb = 1\n";
    assert_eq!(out, toml::to_string(&Pair { name: "t", data: rendered }).unwrap());
}

#[test]
fn toml_module_field_missing() {
    match toml_module("t", Some(&["c"])).parse_input("a = 1\n".to_string()) {
        Err(ModuleError::ModuleSettingsNotFulfilled(m)) => assert_eq!(m, "checked field not existing"),
        other => panic!("unexpected {:?}", other),
    }
}

#[test]
fn toml_module_bad_toml() {
    match toml_module("t", None).parse_input("= = =".to_string()) {
        Err(ModuleError::TomlParsingErrorDe(_)) => {}
        other => panic!("unexpected {:?}", other),
    }
}

#[test]
fn module_error_messages() {
    assert_eq!(ModuleError::ModuleLoadingError("a".to_string()).to_string(), "a");
    assert_eq!(ModuleError::ModuleExecutionError("Process failed".to_string()).to_string(), "Process failed");
    assert_eq!(ModuleError::Other("o".to_string()).to_string(), "o");
    let e = serde_json::from_str::<serde_json::Value>("{").unwrap_err();
    let text = e.to_string();
    assert_eq!(ModuleError::JsonParsingError(e).to_string(), text);
}

#[test]
fn passing_checks_do_not_alter_output() {
    let data = "{\"z\": [1], \"a\": null}";
    let with = json_module("j", Some(&["a", "z"])).parse_input(data.to_string()).unwrap();
    let without = json_module("j", None).parse_input(data.to_string()).unwrap();
    assert_eq!(with, without);
    let tdata = "k = 'v'\n";
    let with = toml_module("t", Some(&["k"])).parse_input(tdata.to_string()).unwrap();
    let without = toml_module("t", None).parse_input(tdata.to_string()).unwrap();
    assert_eq!(with, without);
}

#[test]
fn from_conversions_keep_messages() {
    let e = serde_json::from_str::<serde_json::Value>("[").unwrap_err();
    let text = e.to_string();
    let m = ModuleError::from(e);
    assert!(matches!(m, ModuleError::JsonParsingError(_)));
    assert_eq!(m.to_string(), text);

    let e = toml::from_str::<toml::Value>("= =").unwrap_err();
    let text = e.to_string();
    let m = ModuleError::from(e);
    assert!(matches!(m, ModuleError::TomlParsingErrorDe(_)));
    assert_eq!(m.to_string(), text);

    let e = String::from_utf8(vec![0xff, 0xfe]).unwrap_err();
    let text = e.to_string();
    let m = ModuleError::from(e);
    assert!(matches!(m, ModuleError::ModuleDataParsingError(_)));
    assert_eq!(m.to_string(), text);

    let bytes = [0xc3u8, 0x28];
    let e = std::str::from_utf8(&bytes).unwrap_err();
    let m = ModuleError::from(e);
    assert_eq!(m.to_string(), e.to_string());

    let e = std::io::Error::new(std::io::ErrorKind::NotFound, "no such file");
    let m = ModuleError::from(e);
    assert!(matches!(m, ModuleError::ModuleLoadingError(_)));
    assert_eq!(m.to_string(), "no such file");
}

#[test]
fn toml_serialise_error_message() {
    let e = toml::to_string(&vec![1, 2]).unwrap_err();
    let text = e.to_string();
    let m = ModuleError::from(e);
    assert!(matches!(m, ModuleError::TomlParsingErrorSe(_)));
    assert_eq!(m.to_string(), text);
}

#[test]
fn collect_outputs_keeps_successes_in_order() {
    let results = vec![
        Ok("a".to_string()),
        Err(ModuleError::Other("x".to_string())),
        Ok("b".to_string()),
        Err(ModuleError::ModuleExecutionError("Process failed".to_string())),
    ];
    assert_eq!(collect_outputs(&results), vec!["a".to_string(), "b".to_string()]);
    assert!(collect_outputs(&vec![]).is_empty());
}

#[test]
fn json_literal_escapes_controls() {
    let data: String = (0u8..0x80).map(|b| b as char).collect();
    let r = ModuleResult { name: "c\u{1f}".to_string(), data };
    let expected = serde_json::to_string(&Pair { name: &r.name, data: &r.data }).unwrap();
    assert_eq!(r.to_json(), expected);
    let r = ModuleResult { name: "\u{8}\u{c}\r\u{7f}é".to_string(), data: "\u{1}".to_string() };
    assert_eq!(r.to_json(), "{\"name\":\"\\b\\f\\r\u{7f}é\",\"data\":\"\\u0001\"}");
}

struct ModulesList<'a> {
    modules: &'a [String],
}

impl<'a> serde::Serialize for ModulesList<'a> {
    fn serialize<S: serde::Serializer>(&self, s: S) -> Result<S::Ok, S::Error> {
        let mut st = s.serialize_struct("Modules", 1)?;
        st.serialize_field("modules", self.modules)?;
        st.end()
    }
}

#[test]
fn modules_json_matches_serde() {
    for list in [vec![], vec!["a".to_string()], vec!["{\"name\":\"x\"}".to_string(), "b\n".to_string(), "".to_string()]] {
        let expected = serde_json::to_string(&ModulesList { modules: &list }).unwrap();
        assert_eq!(modules_json(&list), expected);
    }
    assert_eq!(modules_json(&vec!["a".to_string(), "b".to_string()]), "{\"modules\":[\"a\",\"b\"]}");
}
