use vstd::prelude::*;
use vstd::string::*;
use vstd::utf8::is_ascii_chars;

verus! {

/// The error of `serde_json` parsing and serialising, carried opaquely.
#[verifier::external_type_specification]
#[verifier::external_body]
pub struct ExJsonError(serde_json::Error);

/// The error of `toml` parsing, carried opaquely.
#[verifier::external_type_specification]
#[verifier::external_body]
pub struct ExTomlDeError(toml::de::Error);

/// The error of `toml` serialising, carried opaquely.
#[verifier::external_type_specification]
#[verifier::external_body]
pub struct ExTomlSerError(toml::ser::Error);

/// Everything that can go wrong while loading, fetching or converting a module.
#[derive(Debug)]
pub enum ModuleError {
    ModuleLoadingError(String),
    ModuleParsingError(String),
    ModuleExecutionError(String),
    ModuleDataParsingError(String),
    ModuleSettingsNotFulfilled(String),
    JsonParsingError(serde_json::Error),
    TomlParsingErrorDe(toml::de::Error),
    TomlParsingErrorSe(toml::ser::Error),
    Other(String),
}

/// The mathematical view of a [`ModuleError`]: its variant and, where it
/// carries one, its message. Errors of the outside parsers are opaque.
pub enum ErrorView {
    LoadingError(Seq<char>),
    ParsingError(Seq<char>),
    ExecutionError(Seq<char>),
    DataParsingError(Seq<char>),
    SettingsNotFulfilled(Seq<char>),
    Json,
    TomlDe,
    TomlSe,
    Other(Seq<char>),
}

impl View for ModuleError {
    type V = ErrorView;

    open spec fn view(&self) -> ErrorView {
        match self {
            ModuleError::ModuleLoadingError(s) => ErrorView::LoadingError(s@),
            ModuleError::ModuleParsingError(s) => ErrorView::ParsingError(s@),
            ModuleError::ModuleExecutionError(s) => ErrorView::ExecutionError(s@),
            ModuleError::ModuleDataParsingError(s) => ErrorView::DataParsingError(s@),
            ModuleError::ModuleSettingsNotFulfilled(s) => ErrorView::SettingsNotFulfilled(s@),
            ModuleError::JsonParsingError(_) => ErrorView::Json,
            ModuleError::TomlParsingErrorDe(_) => ErrorView::TomlDe,
            ModuleError::TomlParsingErrorSe(_) => ErrorView::TomlSe,
            ModuleError::Other(s) => ErrorView::Other(s@),
        }
    }
}

impl ModuleError {
    /// The message of this error. For the variants that carry a message it is
    /// that message; for the outside parser errors it is their display text
    /// (`ToString::to_string` on the wrapped error).
    pub fn to_string(&self) -> (res: String)
        ensures
            match self {
                ModuleError::ModuleLoadingError(s) => res == *s,
                ModuleError::ModuleParsingError(s) => res == *s,
                ModuleError::ModuleExecutionError(s) => res == *s,
                ModuleError::ModuleDataParsingError(s) => res == *s,
                ModuleError::ModuleSettingsNotFulfilled(s) => res == *s,
                ModuleError::Other(s) => res == *s,
                ModuleError::JsonParsingError(e) => to_string_from_display_ensures::<serde_json::Error>(e, res),
                ModuleError::TomlParsingErrorDe(e) => to_string_from_display_ensures::<toml::de::Error>(e, res),
                ModuleError::TomlParsingErrorSe(e) => to_string_from_display_ensures::<toml::ser::Error>(e, res),
            },
    {
        match self {
            ModuleError::ModuleLoadingError(s) => s.clone(),
            ModuleError::ModuleParsingError(s) => s.clone(),
            ModuleError::ModuleExecutionError(s) => s.clone(),
            ModuleError::ModuleDataParsingError(s) => s.clone(),
            ModuleError::ModuleSettingsNotFulfilled(s) => s.clone(),
            ModuleError::JsonParsingError(e) => e.to_string(),
            ModuleError::TomlParsingErrorDe(e) => e.to_string(),
            ModuleError::TomlParsingErrorSe(e) => e.to_string(),
            ModuleError::Other(s) => s.clone(),
        }
    }
}

/// The error of a UTF-8 check on a byte slice, carried opaquely.
#[verifier::external_type_specification]
#[verifier::external_body]
pub struct ExUtf8Error(core::str::Utf8Error);

/// The error of a UTF-8 conversion of a byte vector, carried opaquely.
#[verifier::external_type_specification]
#[verifier::external_body]
pub struct ExFromUtf8Error(std::string::FromUtf8Error);

/// An I/O error, carried opaquely.
#[verifier::external_type_specification]
#[verifier::external_body]
pub struct ExIoError(std::io::Error);

impl From<core::str::Utf8Error> for ModuleError {
    /// Invalid UTF-8 is a data parsing error, with the error's display text.
    fn from(value: core::str::Utf8Error) -> (res: Self)
        ensures
            res matches ModuleError::ModuleDataParsingError(s)
                && to_string_from_display_ensures::<core::str::Utf8Error>(&value, s),
    {
        ModuleError::ModuleDataParsingError(value.to_string())
    }
}

impl vstd::std_specs::convert::FromSpecImpl<core::str::Utf8Error> for ModuleError {
    /// The display text is not a spec function, so `from` states its
    /// result in its own `ensures` instead.
    open spec fn obeys_from_spec() -> bool {
        false
    }

    open spec fn from_spec(v: core::str::Utf8Error) -> ModuleError {
        ModuleError::ModuleDataParsingError(
            choose|s: String| to_string_from_display_ensures::<core::str::Utf8Error>(&v, s),
        )
    }
}

impl From<std::string::FromUtf8Error> for ModuleError {
    /// Invalid UTF-8 is a data parsing error, with the error's display text.
    fn from(value: std::string::FromUtf8Error) -> (res: Self)
        ensures
            res matches ModuleError::ModuleDataParsingError(s)
                && to_string_from_display_ensures::<std::string::FromUtf8Error>(&value, s),
    {
        ModuleError::ModuleDataParsingError(value.to_string())
    }
}

impl vstd::std_specs::convert::FromSpecImpl<std::string::FromUtf8Error> for ModuleError {
    /// The display text is not a spec function, so `from` states its
    /// result in its own `ensures` instead.
    open spec fn obeys_from_spec() -> bool {
        false
    }

    open spec fn from_spec(v: std::string::FromUtf8Error) -> ModuleError {
        ModuleError::ModuleDataParsingError(
            choose|s: String| to_string_from_display_ensures::<std::string::FromUtf8Error>(&v, s),
        )
    }
}

impl From<std::io::Error> for ModuleError {
    /// A failed read is a loading error, with the error's display text.
    fn from(value: std::io::Error) -> (res: Self)
        ensures
            res matches ModuleError::ModuleLoadingError(s)
                && to_string_from_display_ensures::<std::io::Error>(&value, s),
    {
        ModuleError::ModuleLoadingError(value.to_string())
    }
}

impl vstd::std_specs::convert::FromSpecImpl<std::io::Error> for ModuleError {
    /// The display text is not a spec function, so `from` states its
    /// result in its own `ensures` instead.
    open spec fn obeys_from_spec() -> bool {
        false
    }

    open spec fn from_spec(v: std::io::Error) -> ModuleError {
        ModuleError::ModuleLoadingError(
            choose|s: String| to_string_from_display_ensures::<std::io::Error>(&v, s),
        )
    }
}

impl From<serde_json::Error> for ModuleError {
    /// A JSON error is kept as it is.
    fn from(value: serde_json::Error) -> (res: Self) {
        ModuleError::JsonParsingError(value)
    }
}

impl vstd::std_specs::convert::FromSpecImpl<serde_json::Error> for ModuleError {
    open spec fn obeys_from_spec() -> bool {
        true
    }

    open spec fn from_spec(v: serde_json::Error) -> ModuleError {
        ModuleError::JsonParsingError(v)
    }
}

impl From<toml::de::Error> for ModuleError {
    /// A TOML parse error is kept as it is.
    fn from(value: toml::de::Error) -> (res: Self) {
        ModuleError::TomlParsingErrorDe(value)
    }
}

impl vstd::std_specs::convert::FromSpecImpl<toml::de::Error> for ModuleError {
    open spec fn obeys_from_spec() -> bool {
        true
    }

    open spec fn from_spec(v: toml::de::Error) -> ModuleError {
        ModuleError::TomlParsingErrorDe(v)
    }
}

impl From<toml::ser::Error> for ModuleError {
    /// A TOML serialisation error is kept as it is.
    fn from(value: toml::ser::Error) -> (res: Self) {
        ModuleError::TomlParsingErrorSe(value)
    }
}

impl vstd::std_specs::convert::FromSpecImpl<toml::ser::Error> for ModuleError {
    open spec fn obeys_from_spec() -> bool {
        true
    }

    open spec fn from_spec(v: toml::ser::Error) -> ModuleError {
        ModuleError::TomlParsingErrorSe(v)
    }
}

} // verus!

verus! {

/// A field that a structured module output must contain at its top level.
#[derive(Debug, Clone)]
pub struct ValCheck {
    pub field: String,
}

/// Settings of a plain-text module.
#[derive(Debug, Clone)]
pub struct TextSettings {
    pub check_ascii: Option<bool>,
}

/// Settings of a JSON module.
#[derive(Debug, Clone)]
pub struct JsonSettings {
    pub check_value: Option<Vec<ValCheck>>,
}

/// Settings of a TOML module.
#[derive(Debug, Clone)]
pub struct TomlSettings {
    pub check_value: Option<Vec<ValCheck>>,
}

/// `field` is a top-level key of a document whose top-level keys are `keys`
/// (`None` when the document is not a table/object).
pub open spec fn key_present(keys: Option<Seq<Seq<char>>>, field: Seq<char>) -> bool {
    keys matches Some(k) && k.contains(field)
}

/// Every field that `checks` names is present.
pub open spec fn all_fields_present(keys: Option<Seq<Seq<char>>>, checks: Seq<ValCheck>) -> bool {
    forall|i: int| 0 <= i < checks.len() ==> key_present(keys, #[trigger] checks[i].field@)
}

/// Every requested field is present; no request at all is always fulfilled.
pub open spec fn checks_fulfilled(keys: Option<Seq<Seq<char>>>, checks: Option<Seq<ValCheck>>) -> bool {
    match checks {
        None => true,
        Some(c) => all_fields_present(keys, c),
    }
}

pub open spec fn vec_opt_view<T>(v: Option<Vec<T>>) -> Option<Seq<T>> {
    match v {
        Some(x) => Some(x@),
        None => None,
    }
}

/// The message of a failed field check.
pub open spec fn missing_field_message() -> Seq<char> {
    "checked field not existing"@
}

fn has_key(keys: &Option<Vec<String>>, field: &String) -> (res: bool)
    ensures
        res == key_present(keys.deep_view(), field@),
{
    match keys {
        None => false,
        Some(k) => {
            let ghost dv = k.deep_view();
            let mut i: usize = 0;
            while i < k.len()
                invariant
                    dv == k.deep_view(),
                    keys.deep_view() == Some(dv),
                    i <= k.len(),
                    forall|j: int| 0 <= j < i ==> dv[j] != field@,
                decreases k.len() - i,
            {
                if k[i] == *field {
                    assert(dv[i as int] == field@);
                    assert(dv.contains(field@));
                    return true;
                }
                i = i + 1;
            }
            assert(!dv.contains(field@));
            false
        },
    }
}

/// Checks that every field that `check_value` asks for is a top-level key of
/// the parsed document, whose top-level keys are `keys`.
pub fn check_field(keys: &Option<Vec<String>>, check_value: &Option<Vec<ValCheck>>) -> (res: Result<(), ModuleError>)
    ensures
        res is Ok <==> checks_fulfilled(keys.deep_view(), vec_opt_view(*check_value)),
        res matches Err(e) ==> e@ == ErrorView::SettingsNotFulfilled(missing_field_message()),
{
    match check_value {
        None => Ok(()),
        Some(values) => {
            let mut i: usize = 0;
            while i < values.len()
                invariant
                    i <= values.len(),
                    vec_opt_view(*check_value) == Some(values@),
                    forall|j: int| 0 <= j < i ==> key_present(keys.deep_view(), #[trigger] values@[j].field@),
                decreases values.len() - i,
            {
                if !has_key(keys, &values[i].field) {
                    assert(!key_present(keys.deep_view(), values@[i as int].field@));
                    return Err(ModuleError::ModuleSettingsNotFulfilled(String::from_str("checked field not existing")));
                }
                i = i + 1;
            }
            Ok(())
        },
    }
}

/// How a module obtains its raw data.
#[derive(Debug, Clone)]
pub enum Mode {
    File { dir_path: Option<String>, file_name: String },
    Command { dir_path: Option<String>, command: String, args: Option<Vec<String>> },
    Api { url: String },
}

/// How a module's raw data is to be interpreted.
#[derive(Debug, Clone)]
#[allow(inconsistent_fields)]
pub enum InputType {
    Text { settings: Option<TextSettings> },
    Json { settings: Option<JsonSettings> },
    Toml { settings: Option<TomlSettings> },
}

/// A user-defined data source.
#[derive(Debug, Clone)]
pub struct Module {
    pub name: String,
    pub mode: Mode,
    pub input_type: InputType,
}

/// The list of configured modules.
#[derive(Debug, Clone)]
pub struct Modules {
    pub modules: Vec<Module>,
}

/// The outside work that fetching a module's data takes: reading a file,
/// or running a program and taking its standard output.
#[derive(Debug, Clone)]
pub enum FetchRequest {
    ReadFile { path: String },
    RunCommand { program: String, args: Vec<String> },
}

/// `name` behind the optional directory prefix `dir`, joined without a separator.
pub open spec fn prefixed(dir: Option<String>, name: Seq<char>) -> Seq<char> {
    match dir {
        Some(d) => d@ + name,
        None => name,
    }
}

/// The argument list of a command: the given one, or none at all.
pub open spec fn command_args(args: Option<Vec<String>>) -> Seq<Seq<char>> {
    match args {
        Some(a) => a.deep_view(),
        None => Seq::empty(),
    }
}

pub open spec fn unsupported_message() -> Seq<char> {
    "Functionality not yet supported"@
}

fn join_prefix(dir: Option<String>, name: String) -> (res: String)
    ensures
        res@ == prefixed(dir, name@),
{
    let mut path = String::new();
    match dir {
        Some(d) => path.append(d.as_str()),
        None => {},
    }
    path.append(name.as_str());
    path
}

impl Mode {
    /// Decides what has to be read or run to obtain the data of a module in
    /// this mode. The `Api` mode is not supported.
    pub fn fetch_plan(self) -> (res: Result<FetchRequest, ModuleError>)
        ensures
            match self {
                Mode::File { dir_path, file_name } => res matches Ok(FetchRequest::ReadFile { path })
                    && path@ == prefixed(dir_path, file_name@),
                Mode::Command { dir_path, command, args } => res matches Ok(FetchRequest::RunCommand { program, args: a })
                    && program@ == prefixed(dir_path, command@) && a.deep_view() == command_args(args)
                    && (args matches Some(given) ==> a.deep_view() == given.deep_view())
                    && (args is None ==> a.len() == 0),
                Mode::Api { .. } => res matches Err(e) && e@ == ErrorView::Other(unsupported_message()),
            },
    {
        match self {
            Mode::File { dir_path, file_name } => Ok(FetchRequest::ReadFile { path: join_prefix(dir_path, file_name) }),
            Mode::Command { dir_path, command, args } => {
                let program = join_prefix(dir_path, command);
                let args = match args {
                    Some(a) => a,
                    None => {
                        let v: Vec<String> = Vec::new();
                        assert(v.deep_view() =~= Seq::<Seq<char>>::empty());
                        v
                    },
                };
                Ok(FetchRequest::RunCommand { program, args })
            },
            Mode::Api { url: _ } => Err(ModuleError::Other(String::from_str("Functionality not yet supported"))),
        }
    }
}

/// What the module pipeline reads from a parsed JSON document: its top-level
/// keys (`None` when the root is not an object) and its compact rendering.
pub struct JsonDocument {
    pub keys: Option<Vec<String>>,
    pub rendered: Result<String, serde_json::Error>,
}

/// What the module pipeline reads from a parsed TOML document: its top-level
/// keys (`None` when the root is not a table) and its rendering as TOML.
pub struct TomlDocument {
    pub keys: Option<Vec<String>>,
    pub rendered: Result<String, toml::ser::Error>,
}

pub open spec fn rendered_view<E>(r: Result<String, E>) -> Option<Seq<char>> {
    match r {
        Ok(s) => Some(s@),
        Err(_) => None,
    }
}

/// The top-level keys of the JSON text `text` parsed by `serde_json::from_str`
/// into a `serde_json::Value` (`Some(None)` when the root is not an object);
/// `None` when `text` is not JSON.
pub uninterp spec fn json_top_level_keys(text: Seq<char>) -> Option<Option<Seq<Seq<char>>>>;

/// The compact rendering by `serde_json::to_string` of the value that the
/// JSON text `text` parses to; `None` when rendering fails.
pub uninterp spec fn json_rendering(text: Seq<char>) -> Option<Seq<char>>;

/// The top-level keys of the TOML text `text` parsed by `toml::from_str` into
/// a `serde_json::Value` (`Some(None)` when the root is not a table); `None`
/// when `text` is not TOML.
pub uninterp spec fn toml_top_level_keys(text: Seq<char>) -> Option<Option<Seq<Seq<char>>>>;

/// The rendering by `toml::to_string` of the value that the TOML text `text`
/// parses to; `None` when rendering fails.
pub uninterp spec fn toml_rendering(text: Seq<char>) -> Option<Seq<char>>;

/// The lower-case hexadecimal digit of `n` (0 to 15).
pub open spec fn hex_digit(n: int) -> char {
    seq!['0', '1', '2', '3', '4', '5', '6', '7', '8', '9', 'a', 'b', 'c', 'd', 'e', 'f'][n]
}

/// How a JSON string literal writes the character `c`: quote and backslash
/// behind a backslash, the five short control escapes, every other control
/// character below U+0020 as `\u00xx`, everything else as it is.
pub open spec fn json_char_escape(c: char) -> Seq<char> {
    if c == '"' {
        seq!['\\', '"']
    } else if c == '\\' {
        seq!['\\', '\\']
    } else if c == '\u{8}' {
        seq!['\\', 'b']
    } else if c == '\t' {
        seq!['\\', 't']
    } else if c == '\n' {
        seq!['\\', 'n']
    } else if c == '\u{c}' {
        seq!['\\', 'f']
    } else if c == '\r' {
        seq!['\\', 'r']
    } else if (c as int) < 0x20 {
        seq!['\\', 'u', '0', '0', hex_digit((c as int) / 16), hex_digit((c as int) % 16)]
    } else {
        seq![c]
    }
}

/// The escaped contents of a JSON string literal for `s`.
pub open spec fn json_escape(s: Seq<char>) -> Seq<char>
    decreases s.len(),
{
    if s.len() == 0 {
        Seq::empty()
    } else {
        json_escape(s.drop_last()) + json_char_escape(s.last())
    }
}

/// The JSON string literal of `s`: its escaped contents between double quotes.
pub open spec fn json_string_literal(s: Seq<char>) -> Seq<char> {
    seq!['"'] + json_escape(s) + seq!['"']
}

/// The TOML value literal of the string `s` as `toml`'s value serializer
/// writes it (basic, literal or multi-line, as the content calls for).
pub uninterp spec fn toml_string_literal(s: Seq<char>) -> Seq<char>;

/// Parses `data` with `serde_json::from_str` into a `serde_json::Value`, then
/// reads its top-level object keys (`Value::as_object`) and renders it again
/// with `serde_json::to_string`. Trusted: the keys are named by
/// `json_top_level_keys` and the rendering by `json_rendering`, as functions
/// of the text alone; nothing else is claimed.
#[verifier::external_body]
fn parse_json_document(data: &str) -> (res: Result<JsonDocument, serde_json::Error>)
    ensures
        match res {
            Ok(doc) => json_top_level_keys(data@) == Some(doc.keys.deep_view())
                && json_rendering(data@) == rendered_view(doc.rendered),
            Err(_) => json_top_level_keys(data@) is None,
        },
{
    let value: serde_json::Value = serde_json::from_str(data)?;
    let keys = match value.as_object() {
        Some(map) => Some(map.keys().cloned().collect()),
        None => None,
    };
    Ok(JsonDocument { keys, rendered: serde_json::to_string(&value) })
}

/// Parses `data` with `toml::from_str` into a `serde_json::Value`, then reads
/// its top-level keys (`Value::as_object`) and renders it again with
/// `toml::to_string`. Trusted: the keys are named by `toml_top_level_keys`
/// and the rendering by `toml_rendering`, as functions of the text alone;
/// nothing else is claimed.
#[verifier::external_body]
fn parse_toml_document(data: &str) -> (res: Result<TomlDocument, toml::de::Error>)
    ensures
        match res {
            Ok(doc) => toml_top_level_keys(data@) == Some(doc.keys.deep_view())
                && toml_rendering(data@) == rendered_view(doc.rendered),
            Err(_) => toml_top_level_keys(data@) is None,
        },
{
    let value: serde_json::Value = toml::from_str(data)?;
    let keys = match value.as_object() {
        Some(map) => Some(map.keys().cloned().collect()),
        None => None,
    };
    Ok(TomlDocument { keys, rendered: toml::to_string(&value) })
}

/// `serde_json::to_string` on a string slice. Trusted: it writes the JSON
/// string literal of `s` (`json_string_literal`: `format_escaped_str` with
/// serde_json's escape table) into a vector, which cannot fail.
#[verifier::external_body]
fn json_quote(s: &str) -> (res: Result<String, serde_json::Error>)
    ensures
        match res {
            Ok(t) => t@ == json_string_literal(s@),
            Err(_) => false,
        },
{
    serde_json::to_string(s)
}

/// Serializes a string slice with `toml::ser::ValueSerializer`. Trusted: the
/// text is named by `toml_string_literal` as a function of the string alone;
/// serialising a string value cannot fail (toml_edit's `serialize_str`
/// returns `Ok`).
#[verifier::external_body]
fn toml_quote(s: &str) -> (res: Result<String, toml::ser::Error>)
    ensures
        match res {
            Ok(t) => t@ == toml_string_literal(s@),
            Err(_) => false,
        },
{
    let mut out = String::new();
    serde::Serialize::serialize(s, toml::ser::ValueSerializer::new(&mut out))?;
    Ok(out)
}

/// The outcome of a module: its name and its (checked, normalised) data.
#[derive(Debug, Clone)]
pub struct ModuleResult {
    pub name: String,
    pub data: String,
}

/// The view of a pipeline outcome.
pub open spec fn output_view(r: Result<String, ModuleError>) -> Result<Seq<char>, ErrorView> {
    match r {
        Ok(s) => Ok(s@),
        Err(e) => Err(e@),
    }
}

/// The JSON object `{"name":<name>,"data":<data>}`, with both strings as
/// JSON string literals.
pub open spec fn json_result_text(name: Seq<char>, data: Seq<char>) -> Seq<char> {
    "{\"name\":"@ + json_string_literal(name) + ",\"data\":"@ + json_string_literal(data) + "}"@
}

/// The TOML document `name = <name>` / `data = <data>`, one key per line.
pub open spec fn toml_result_text(name: Seq<char>, data: Seq<char>) -> Seq<char> {
    "name = "@ + toml_string_literal(name) + "\ndata = "@ + toml_string_literal(data) + "\n"@
}

pub open spec fn json_output(name: Seq<char>, data: Seq<char>) -> Result<Seq<char>, ErrorView> {
    Ok(json_result_text(name, data))
}

pub open spec fn toml_output(name: Seq<char>, data: Seq<char>) -> Result<Seq<char>, ErrorView> {
    Ok(toml_result_text(name, data))
}

impl ModuleResult {
    /// The result as a JSON object.
    pub fn to_json(&self) -> (res: String)
        ensures
            res@ == json_result_text(self.name@, self.data@),
    {
        let n = json_quote(self.name.as_str()).unwrap();
        let d = json_quote(self.data.as_str()).unwrap();
        let mut out = String::from_str("{\"name\":");
        out.append(n.as_str());
        out.append(",\"data\":");
        out.append(d.as_str());
        out.append("}");
        out
    }

    /// The result as a TOML document.
    pub fn to_toml(&self) -> (res: String)
        ensures
            res@ == toml_result_text(self.name@, self.data@),
    {
        let n = toml_quote(self.name.as_str()).unwrap();
        let d = toml_quote(self.data.as_str()).unwrap();
        let mut out = String::from_str("name = ");
        out.append(n.as_str());
        out.append("\ndata = ");
        out.append(d.as_str());
        out.append("\n");
        out
    }
}

/// The JSON object `{"modules":[...]}` listing `outputs` as JSON strings.
pub open spec fn modules_json_text(outputs: Seq<Seq<char>>) -> Seq<char> {
    "{\"modules\":["@ + json_string_list(outputs) + "]}"@
}

/// The JSON string literals of `items`, separated by commas.
pub open spec fn json_string_list(items: Seq<Seq<char>>) -> Seq<char>
    decreases items.len(),
{
    if items.len() == 0 {
        Seq::empty()
    } else if items.len() == 1 {
        json_string_literal(items[0])
    } else {
        json_string_list(items.drop_last()) + ","@ + json_string_literal(items.last())
    }
}

/// The response listing the modules' outputs: `{"modules":[...]}`.
pub fn modules_json(outputs: &Vec<String>) -> (res: String)
    ensures
        res@ == modules_json_text(outputs.deep_view()),
{
    let ghost dv = outputs.deep_view();
    let mut list = String::new();
    let mut i: usize = 0;
    while i < outputs.len()
        invariant
            i <= outputs.len(),
            dv == outputs.deep_view(),
            list@ == json_string_list(dv.take(i as int)),
        decreases outputs.len() - i,
    {
        let q = json_quote(outputs[i].as_str()).unwrap();
        assert(dv.take(i + 1).drop_last() =~= dv.take(i as int));
        assert(dv.take(i + 1).last() == outputs@[i as int]@);
        if i > 0 {
            list.append(",");
        }
        list.append(q.as_str());
        proof {
            if i == 0 {
                assert(list@ =~= json_string_list(dv.take(1)));
            }
        }
        i = i + 1;
    }
    assert(dv.take(outputs.len() as int) =~= dv);
    let mut out = String::from_str("{\"modules\":[");
    out.append(list.as_str());
    out.append("]}");
    out
}

/// The message of a failed ASCII check.
pub open spec fn ascii_message() -> Seq<char> {
    "ascii check failed"@
}

/// A text module's settings demand ASCII data and `data` is not ASCII.
pub open spec fn ascii_check_fails(settings: Option<TextSettings>, data: Seq<char>) -> bool {
    &&& settings matches Some(s)
    &&& s.check_ascii == Some(true)
    &&& !is_ascii_chars(data)
}

/// The fields that the settings of a JSON module ask for.
pub open spec fn json_checks(settings: Option<JsonSettings>) -> Option<Seq<ValCheck>> {
    match settings {
        Some(s) => vec_opt_view(s.check_value),
        None => None,
    }
}

/// The fields that the settings of a TOML module ask for.
pub open spec fn toml_checks(settings: Option<TomlSettings>) -> Option<Seq<ValCheck>> {
    match settings {
        Some(s) => vec_opt_view(s.check_value),
        None => None,
    }
}

/// What a text module with `name` and `settings` makes of `data`.
pub open spec fn text_outcome(name: Seq<char>, settings: Option<TextSettings>, data: Seq<char>) -> Result<Seq<char>, ErrorView> {
    if ascii_check_fails(settings, data) {
        Err(ErrorView::SettingsNotFulfilled(ascii_message()))
    } else {
        json_output(name, data)
    }
}

/// What a JSON module with `name` that asks for the fields `checks` makes of `data`.
pub open spec fn json_outcome(name: Seq<char>, checks: Option<Seq<ValCheck>>, data: Seq<char>) -> Result<Seq<char>, ErrorView> {
    match json_top_level_keys(data) {
        None => Err(ErrorView::Json),
        Some(keys) => if !checks_fulfilled(keys, checks) {
            Err(ErrorView::SettingsNotFulfilled(missing_field_message()))
        } else {
            match json_rendering(data) {
                None => Err(ErrorView::Json),
                Some(r) => json_output(name, r),
            }
        },
    }
}

/// What a TOML module with `name` that asks for the fields `checks` makes of `data`.
pub open spec fn toml_outcome(name: Seq<char>, checks: Option<Seq<ValCheck>>, data: Seq<char>) -> Result<Seq<char>, ErrorView> {
    match toml_top_level_keys(data) {
        None => Err(ErrorView::TomlDe),
        Some(keys) => if !checks_fulfilled(keys, checks) {
            Err(ErrorView::SettingsNotFulfilled(missing_field_message()))
        } else {
            match toml_rendering(data) {
                None => Err(ErrorView::TomlSe),
                Some(r) => toml_output(name, r),
            }
        },
    }
}

/// What `module` makes of the raw data `data` that its mode delivered.
pub open spec fn module_outcome(module: Module, data: Seq<char>) -> Result<Seq<char>, ErrorView> {
    match module.input_type {
        InputType::Text { settings } => text_outcome(module.name@, settings, data),
        InputType::Json { settings } => json_outcome(module.name@, json_checks(settings), data),
        InputType::Toml { settings } => toml_outcome(module.name@, toml_checks(settings), data),
    }
}

impl Module {
    /// Checks the raw data `data` that this module's mode delivered against
    /// the module's settings, normalises it according to its input type and
    /// renders the module's result: as JSON for text and JSON input, as TOML
    /// for TOML input.
    pub fn parse_input(self, data: String) -> (res: Result<String, ModuleError>)
        ensures
            output_view(res) == module_outcome(self, data@),
    {
        let name = self.name;
        match self.input_type {
            InputType::Text { settings } => {
                match settings {
                    Some(settings) => {
                        if matches!(settings.check_ascii, Some(true)) && !data.is_ascii() {
                            return Err(ModuleError::ModuleSettingsNotFulfilled(String::from_str("ascii check failed")));
                        }
                    },
                    None => {},
                }
                Ok(ModuleResult { name, data }.to_json())
            },
            InputType::Json { settings } => {
                let doc = match parse_json_document(data.as_str()) {
                    Ok(d) => d,
                    Err(e) => return Err(ModuleError::JsonParsingError(e)),
                };
                match settings {
                    Some(settings) => {
                        match check_field(&doc.keys, &settings.check_value) {
                            Ok(()) => {},
                            Err(e) => return Err(e),
                        }
                    },
                    None => {},
                }
                let rendered = match doc.rendered {
                    Ok(r) => r,
                    Err(e) => return Err(ModuleError::JsonParsingError(e)),
                };
                Ok(ModuleResult { name, data: rendered }.to_json())
            },
            InputType::Toml { settings } => {
                let doc = match parse_toml_document(data.as_str()) {
                    Ok(d) => d,
                    Err(e) => return Err(ModuleError::TomlParsingErrorDe(e)),
                };
                match settings {
                    Some(settings) => {
                        match check_field(&doc.keys, &settings.check_value) {
                            Ok(()) => {},
                            Err(e) => return Err(e),
                        }
                    },
                    None => {},
                }
                let rendered = match doc.rendered {
                    Ok(r) => r,
                    Err(e) => return Err(ModuleError::TomlParsingErrorSe(e)),
                };
                Ok(ModuleResult { name, data: rendered }.to_toml())
            },
        }
    }
}

/// The outputs of the modules that succeeded, in module order.
pub open spec fn ok_outputs(results: Seq<Result<String, ModuleError>>) -> Seq<Seq<char>>
    decreases results.len(),
{
    if results.len() == 0 {
        Seq::empty()
    } else {
        let rest = ok_outputs(results.drop_last());
        match results.last() {
            Ok(t) => rest.push(t@),
            Err(_) => rest,
        }
    }
}

/// Keeps the outputs of the modules that succeeded, in order; failed modules
/// contribute nothing.
pub fn collect_outputs(results: &Vec<Result<String, ModuleError>>) -> (res: Vec<String>)
    ensures
        res.deep_view() == ok_outputs(results@),
{
    let mut out: Vec<String> = Vec::new();
    let mut i: usize = 0;
    while i < results.len()
        invariant
            i <= results.len(),
            out.deep_view() == ok_outputs(results@.take(i as int)),
        decreases results.len() - i,
    {
        assert(results@.take(i + 1).drop_last() =~= results@.take(i as int));
        match &results[i] {
            Ok(t) => {
                out.push(t.clone());
                assert(out.deep_view() =~= ok_outputs(results@.take(i + 1)));
            },
            Err(_) => {},
        }
        i = i + 1;
    }
    assert(results@.take(results.len() as int) =~= results@);
    out
}

/// Checking two lists of fields at once passes exactly when each list passes
/// on its own: the check of each field is independent of the others.
pub proof fn lemma_checks_split(keys: Option<Seq<Seq<char>>>, a: Seq<ValCheck>, b: Seq<ValCheck>)
    ensures
        checks_fulfilled(keys, Some(a + b)) == (checks_fulfilled(keys, Some(a)) && checks_fulfilled(keys, Some(b))),
{
    let ab = a + b;
    if checks_fulfilled(keys, Some(a)) && checks_fulfilled(keys, Some(b)) {
        assert forall|i: int| 0 <= i < ab.len() implies key_present(keys, #[trigger] ab[i].field@) by {
            if i < a.len() {
                assert(ab[i] == a[i]);
            } else {
                assert(ab[i] == b[i - a.len()]);
            }
        }
    }
    if checks_fulfilled(keys, Some(ab)) {
        assert forall|i: int| 0 <= i < a.len() implies key_present(keys, #[trigger] a[i].field@) by {
            assert(ab[i] == a[i]);
        }
        assert forall|i: int| 0 <= i < b.len() implies key_present(keys, #[trigger] b[i].field@) by {
            assert(ab[i + a.len()] == b[i]);
        }
    }
}

/// Asking for no field, or for no list of fields, never refuses a document,
/// whatever its keys, even a document whose root is not a table.
pub proof fn lemma_no_checks_pass(keys: Option<Seq<Seq<char>>>)
    ensures
        checks_fulfilled(keys, None),
        checks_fulfilled(keys, Some(Seq::<ValCheck>::empty())),
{
}

/// Settings only ever refuse data: a JSON or TOML module whose field checks
/// pass produces exactly what the same module without settings produces.
pub proof fn lemma_passing_checks_do_not_alter_output(name: Seq<char>, checks: Option<Seq<ValCheck>>, data: Seq<char>)
    ensures
        (json_top_level_keys(data) matches Some(keys) && checks_fulfilled(keys, checks))
            ==> json_outcome(name, checks, data) == json_outcome(name, None, data),
        (toml_top_level_keys(data) matches Some(keys) && checks_fulfilled(keys, checks))
            ==> toml_outcome(name, checks, data) == toml_outcome(name, None, data),
{
}

/// A module without settings is never refused for its settings.
pub proof fn lemma_unset_module_not_refused(module: Module, data: Seq<char>)
    requires
        match module.input_type {
            InputType::Text { settings } => settings is None,
            InputType::Json { settings } => settings is None,
            InputType::Toml { settings } => settings is None,
        },
    ensures
        !(module_outcome(module, data) matches Err(ErrorView::SettingsNotFulfilled(_))),
{
}

/// ASCII data always passes a text module's settings, and its output is the
/// JSON rendering of the module's name and data.
pub proof fn lemma_ascii_text_passes(name: Seq<char>, settings: Option<TextSettings>, data: Seq<char>)
    requires
        is_ascii_chars(data),
    ensures
        text_outcome(name, settings, data) == json_output(name, data),
{
}

/// A JSON module checks every field its settings list: when any listed
/// field is not a top-level key of the parsed document, the module is
/// refused with the missing-field error.
pub proof fn lemma_json_every_listed_field_checked(
    module: Module,
    data: Seq<char>,
    settings: JsonSettings,
    listed: Vec<ValCheck>,
    keys: Option<Seq<Seq<char>>>,
    i: int,
)
    requires
        module.input_type == (InputType::Json { settings: Some(settings) }),
        settings.check_value == Some(listed),
        0 <= i < listed.len(),
        json_top_level_keys(data) == Some(keys),
        keys is None || !keys->0.contains(listed@[i].field@),
    ensures
        module_outcome(module, data) == Err::<Seq<char>, ErrorView>(
            ErrorView::SettingsNotFulfilled("checked field not existing"@),
        ),
{
    assert(!key_present(keys, listed@[i].field@));
    assert(!all_fields_present(keys, listed@));
    assert(vec_opt_view(settings.check_value) == Some(listed@));
    assert(!checks_fulfilled(keys, json_checks(Some(settings))));
}

/// A TOML module checks every field its settings list: when any listed
/// field is not a top-level key of the parsed document, the module is
/// refused with the missing-field error.
pub proof fn lemma_toml_every_listed_field_checked(
    module: Module,
    data: Seq<char>,
    settings: TomlSettings,
    listed: Vec<ValCheck>,
    keys: Option<Seq<Seq<char>>>,
    i: int,
)
    requires
        module.input_type == (InputType::Toml { settings: Some(settings) }),
        settings.check_value == Some(listed),
        0 <= i < listed.len(),
        toml_top_level_keys(data) == Some(keys),
        keys is None || !keys->0.contains(listed@[i].field@),
    ensures
        module_outcome(module, data) == Err::<Seq<char>, ErrorView>(
            ErrorView::SettingsNotFulfilled("checked field not existing"@),
        ),
{
    assert(!key_present(keys, listed@[i].field@));
    assert(!all_fields_present(keys, listed@));
    assert(vec_opt_view(settings.check_value) == Some(listed@));
    assert(!checks_fulfilled(keys, toml_checks(Some(settings))));
}

/// A command is run with exactly the arguments its mode gives, all of
/// them and in order, and with none when its mode gives none.
pub proof fn lemma_command_args_kept(given: Vec<String>)
    ensures
        command_args(Some(given)).len() == given.len(),
        forall|i: int| 0 <= i < given.len() ==> command_args(Some(given))[i] == #[trigger] given@[i]@,
        command_args(None).len() == 0,
{
}

/// A planned path is the optional directory followed directly by the name:
/// it ends with the name and, when there is a directory, starts with it.
pub proof fn lemma_path_joins_dir_and_name(dir: Option<String>, name: Seq<char>)
    ensures
        prefixed(dir, name).len() == name.len() + match dir { Some(d) => d@.len(), None => 0 },
        prefixed(dir, name).subrange(prefixed(dir, name).len() - name.len(), prefixed(dir, name).len() as int) == name,
        dir matches Some(d) ==> prefixed(dir, name).subrange(0, d@.len() as int) == d@,
{
    match dir {
        Some(d) => {
            assert((d@ + name).subrange(d@.len() as int, (d@ + name).len() as int) =~= name);
            assert((d@ + name).subrange(0, d@.len() as int) =~= d@);
        },
        None => {
            assert(name.subrange(0, name.len() as int) =~= name);
        },
    }
}

/// A text module always yields its output, unless its ASCII check refuses
/// the data.
pub proof fn lemma_text_output_owed(name: Seq<char>, settings: Option<TextSettings>, data: Seq<char>)
    ensures
        text_outcome(name, settings, data) is Ok <==> !ascii_check_fails(settings, data),
{
}

/// The only settings refusals are the two documented ones: a failed ASCII
/// check for text, a missing field for JSON and TOML.
pub proof fn lemma_refusal_messages(module: Module, data: Seq<char>)
    ensures
        module_outcome(module, data) matches Err(ErrorView::SettingsNotFulfilled(m))
            ==> (m == ascii_message() && module.input_type is Text)
                || (m == missing_field_message() && !(module.input_type is Text)),
{
}

} // verus!
