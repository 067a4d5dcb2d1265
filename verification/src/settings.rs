use vstd::prelude::*;

use crate::settings_document::{
    appended, assigns_options_from, initial_scanner, options_section, replaced, root_end,
    SettingsTomlDocument, TomlContentSection,
};
use crate::text::{chars_of, decimal_digits, push_decimal, push_str, push_char};

verus! {

/// The settings schema version this library reads and writes.
pub const SETTINGS_SCHEMA_VERSION: u32 = 1;

/// Settings files larger than this are refused.
pub const MAX_SETTINGS_FILE_BYTES: u64 = 4 * 1024 * 1024;

/// Deepest nesting of layout splits accepted from a settings file.
pub const MAX_SETTINGS_LAYOUT_SPLIT_DEPTH: usize = 64;

/// How many temporary file names a save tries before giving up.
pub const SETTINGS_TEMP_FILE_ATTEMPTS: u32 = 100;

/// User interface language.
#[derive(Debug, Clone, Copy, PartialEq, Eq, Structural)]
pub enum UiLanguage {
    English,
    Korean,
}

/// Options that apply to the whole workspace.
#[derive(Debug, Clone, Copy, PartialEq, Eq, Structural)]
pub struct WorkspaceOptions {
    pub dock_hidden_workspace_ui: bool,
    pub ui_language: UiLanguage,
}

impl WorkspaceOptions {
    /// Options with the given docking policy, in English.
    pub fn new(dock_hidden_workspace_ui: bool) -> (o: Self)
        ensures
            o.dock_hidden_workspace_ui == dock_hidden_workspace_ui,
            o.ui_language == UiLanguage::English,
    {
        WorkspaceOptions { dock_hidden_workspace_ui, ui_language: UiLanguage::English }
    }

    pub fn new_with_language(dock_hidden_workspace_ui: bool, ui_language: UiLanguage) -> (o: Self)
        ensures
            o.dock_hidden_workspace_ui == dock_hidden_workspace_ui,
            o.ui_language == ui_language,
    {
        WorkspaceOptions { dock_hidden_workspace_ui, ui_language }
    }

    pub fn dock_hidden_workspace_ui(&self) -> (b: bool)
        ensures
            b == self.dock_hidden_workspace_ui,
    {
        self.dock_hidden_workspace_ui
    }

    pub fn ui_language(&self) -> (l: UiLanguage)
        ensures
            l == self.ui_language,
    {
        self.ui_language
    }
}

impl Default for WorkspaceOptions {
    fn default() -> (o: Self)
        ensures
            !o.dock_hidden_workspace_ui,
            o.ui_language == UiLanguage::English,
    {
        WorkspaceOptions { dock_hidden_workspace_ui: false, ui_language: UiLanguage::English }
    }
}

/// Why a settings file could not be used.
#[derive(Debug, Clone, PartialEq, Eq)]
pub enum SettingsError {
    ExecutablePath { message: String },
    ExecutableDirectoryMissing { path: String },
    ExecutableFileNameMissing { path: String },
    Io { action: String, path: String, message: String },
    TomlDeserialize { path: String, message: String },
    TomlSerialize { path: String, message: String },
    InvalidDomain { path: String, message: String },
    FileTooLarge { path: String, size: u64, max_size: u64 },
    UnsupportedVersion { path: String, version: u32 },
}

impl SettingsError {
    /// The message shown to the user for this error.
    pub fn user_message(&self) -> (m: &'static str)
        ensures
            m@ == (match self {
                SettingsError::ExecutablePath { .. }
                | SettingsError::ExecutableDirectoryMissing { .. }
                | SettingsError::ExecutableFileNameMissing {
                    ..
                } => "실행 파일 기준 설정 파일 경로를 결정할 수 없습니다."@,
                SettingsError::Io { .. } => "설정 파일을 읽거나 쓸 수 없습니다."@,
                SettingsError::TomlDeserialize { .. } => "설정 파일 형식을 해석할 수 없습니다."@,
                SettingsError::TomlSerialize {
                    ..
                } => "설정 파일을 TOML 형식으로 만들 수 없습니다."@,
                SettingsError::InvalidDomain { .. } => "설정 파일 내용이 유효하지 않습니다."@,
                SettingsError::FileTooLarge { .. } => "설정 파일 크기가 유효하지 않습니다."@,
                SettingsError::UnsupportedVersion { .. } => "지원하지 않는 설정 파일 버전입니다."@,
            }),
    {
        match self {
            SettingsError::ExecutablePath { .. }
            | SettingsError::ExecutableDirectoryMissing { .. }
            | SettingsError::ExecutableFileNameMissing {
                ..
            } => "실행 파일 기준 설정 파일 경로를 결정할 수 없습니다.",
            SettingsError::Io { .. } => "설정 파일을 읽거나 쓸 수 없습니다.",
            SettingsError::TomlDeserialize { .. } => "설정 파일 형식을 해석할 수 없습니다.",
            SettingsError::TomlSerialize { .. } => "설정 파일을 TOML 형식으로 만들 수 없습니다.",
            SettingsError::InvalidDomain { .. } => "설정 파일 내용이 유효하지 않습니다.",
            SettingsError::FileTooLarge { .. } => "설정 파일 크기가 유효하지 않습니다.",
            SettingsError::UnsupportedVersion { .. } => "지원하지 않는 설정 파일 버전입니다.",
        }
    }
}


#[verifier::external_type_specification]
#[verifier::external_body]
#[verifier::reject_recursive_types(K)]
#[verifier::reject_recursive_types(V)]
pub struct ExTomlMap<K, V>(toml::map::Map<K, V>);

#[verifier::external_type_specification]
#[verifier::external_body]
pub struct ExTomlValue(toml::Value);

#[verifier::external_type_specification]
#[verifier::external_body]
pub struct ExTomlDeError(toml::de::Error);

#[verifier::external_type_specification]
#[verifier::external_body]
pub struct ExTomlSerError(toml::ser::Error);

/// Whether a text parses as a TOML document (a root table).
pub uninterp spec fn toml_parses_as_table(content: Seq<char>) -> bool;

/// A TOML value as plain values: integers, booleans, strings and tables
/// as they are, any other kind of value only by its kind.
pub enum TomlEntryView {
    Integer(i64),
    Boolean(bool),
    Text(Seq<char>),
    Table(Map<Seq<char>, TomlEntryView>),
    Other,
}

/// The entries of a TOML table, each value taken as a [`TomlEntryView`].
pub uninterp spec fn toml_table_view(table: toml::map::Map<String, toml::Value>) -> Map<
    Seq<char>,
    TomlEntryView,
>;

/// The entries, as [`toml_table_view`] gives them, of the table that
/// `toml::from_str` parses from a text.
pub uninterp spec fn toml_document_view(content: Seq<char>) -> Map<Seq<char>, TomlEntryView>;

/// Whether `toml::to_string_pretty` succeeds on a table.
pub uninterp spec fn toml_table_serializes(table: toml::map::Map<String, toml::Value>) -> bool;

/// The text that `toml::to_string_pretty` makes of a table.
pub uninterp spec fn toml_table_pretty_text(table: toml::map::Map<String, toml::Value>) -> Seq<
    char,
>;

/// `toml::from_str` into a table: succeeds exactly on text that parses as a
/// TOML document, and gives that document's table.
#[verifier::external_body]
fn parse_toml_table(content: &str) -> (r: Result<toml::map::Map<String, toml::Value>, toml::de::Error>)
    ensures
        r is Ok <==> toml_parses_as_table(content@),
        r matches Ok(t) ==> toml_table_view(t) == toml_document_view(content@),
{
    toml::from_str(content)
}

/// The value of an entry when it is an integer.
pub open spec fn integer_of(entry: TomlEntryView) -> Option<i64> {
    match entry {
        TomlEntryView::Integer(i) => Some(i),
        _ => None,
    }
}

/// The entry for a key: `None` when the key is absent, else the value
/// when it is an integer.
pub open spec fn entry_of(entries: Map<Seq<char>, TomlEntryView>, key: Seq<char>) -> Option<
    Option<i64>,
> {
    if entries.contains_key(key) {
        Some(integer_of(entries[key]))
    } else {
        None
    }
}

/// `Map::get`: the value stored under a key, given as `Some(Some(i))` for
/// an integer `i`, `Some(None)` for another kind of value, `None` when the
/// key is absent.
#[verifier::external_body]
fn toml_table_integer_entry(table: &toml::map::Map<String, toml::Value>, key: &str) -> (r: Option<
    Option<i64>,
>)
    ensures
        r == entry_of(toml_table_view(*table), key@),
{
    match table.get(key) {
        None => None,
        Some(toml::Value::Integer(value)) => Some(Some(*value)),
        Some(_) => Some(None),
    }
}

/// `Map::insert` of a table value under a key: the key now holds that
/// table.
#[verifier::external_body]
fn toml_table_insert_table(
    table: &mut toml::map::Map<String, toml::Value>,
    key: &str,
    value: toml::map::Map<String, toml::Value>,
)
    ensures
        toml_table_view(*final(table)) == toml_table_view(*old(table)).insert(
            key@,
            TomlEntryView::Table(toml_table_view(value)),
        ),
{
    table.insert(key.to_owned(), toml::Value::Table(value));
}

/// `toml::to_string_pretty` of a table.
#[verifier::external_body]
fn toml_table_to_string_pretty(table: &toml::map::Map<String, toml::Value>) -> (r: Result<
    String,
    toml::ser::Error,
>)
    ensures
        r is Ok <==> toml_table_serializes(*table),
        r matches Ok(text) ==> text@ == toml_table_pretty_text(*table),
{
    toml::to_string_pretty(table)
}

/// The text of a TOML parse error (its `Display`).
#[verifier::external_body]
fn toml_de_error_message(error: &toml::de::Error) -> (r: String) {
    error.to_string()
}

/// The text of a TOML serialization error (its `Display`).
#[verifier::external_body]
fn toml_ser_error_message(error: &toml::ser::Error) -> (r: String) {
    error.to_string()
}

pub open spec fn unsigned_integer_message() -> Seq<char> {
    "schema_version must be an unsigned 32-bit integer"@
}

pub open spec fn missing_schema_message() -> Seq<char> {
    "missing field `schema_version`"@
}

/// The error for a settings file whose schema version is not supported.
pub fn ensure_supported_schema_version(path: &str, version: u32) -> (r: Result<(), SettingsError>)
    ensures
        r is Ok <==> version == SETTINGS_SCHEMA_VERSION,
        r matches Err(e) ==> e matches SettingsError::UnsupportedVersion { path: p, version: v } && p@
            == path@ && v == version,
{
    if version != SETTINGS_SCHEMA_VERSION {
        return Err(SettingsError::UnsupportedVersion { path: path.to_owned(), version });
    }
    Ok(())
}

/// Reads the schema version from the `schema_version` entry of the root
/// table: `None` when the entry is missing, `Some(None)` when it is not an
/// integer.
pub fn schema_version_from_entry(path: &str, entry: Option<Option<i64>>) -> (r: Result<
    u32,
    SettingsError,
>)
    ensures
        match entry {
            None => r matches Err(SettingsError::TomlDeserialize { path: p, message: m }) && p@
                == path@ && m@ == missing_schema_message(),
            Some(None) => r matches Err(SettingsError::TomlDeserialize { path: p, message: m })
                && p@ == path@ && m@ == unsigned_integer_message(),
            Some(Some(v)) => if 0 <= v <= u32::MAX {
                r == Ok::<u32, SettingsError>(v as u32)
            } else {
                r matches Err(SettingsError::TomlDeserialize { path: p, message: m }) && p@
                    == path@ && m@ == unsigned_integer_message()
            },
        },
{
    match entry {
        None => Err(
            SettingsError::TomlDeserialize {
                path: path.to_owned(),
                message: "missing field `schema_version`".to_owned(),
            },
        ),
        Some(None) => Err(
            SettingsError::TomlDeserialize {
                path: path.to_owned(),
                message: "schema_version must be an unsigned 32-bit integer".to_owned(),
            },
        ),
        Some(Some(v)) => {
            if 0 <= v && v <= u32::MAX as i64 {
                Ok(v as u32)
            } else {
                Err(
                    SettingsError::TomlDeserialize {
                        path: path.to_owned(),
                        message: "schema_version must be an unsigned 32-bit integer".to_owned(),
                    },
                )
            }
        },
    }
}

/// The `schema_version` entry of the table a text parses to.
pub open spec fn schema_entry(content: Seq<char>) -> Option<Option<i64>> {
    entry_of(toml_document_view(content), "schema_version"@)
}

/// The schema version an entry names, when it is a `u32`.
pub open spec fn schema_version_of(entry: Option<Option<i64>>) -> Option<u32> {
    match entry {
        Some(Some(v)) => if 0 <= v <= u32::MAX {
            Some(v as u32)
        } else {
            None
        },
        _ => None,
    }
}

/// Why an entry names no schema version.
pub open spec fn schema_entry_message(entry: Option<Option<i64>>) -> Seq<char> {
    if entry is None {
        missing_schema_message()
    } else {
        unsigned_integer_message()
    }
}

/// A settings text the supported schema accepts: it parses, and its
/// `schema_version` is [`SETTINGS_SCHEMA_VERSION`].
pub open spec fn schema_accepts(content: Seq<char>) -> bool {
    toml_parses_as_table(content) && schema_version_of(schema_entry(content)) == Some(
        SETTINGS_SCHEMA_VERSION,
    )
}

/// The error for a settings text the supported schema does not accept:
/// a parse error; else a missing or malformed `schema_version`; else the
/// unsupported version.
pub open spec fn schema_error_is(e: SettingsError, path: Seq<char>, content: Seq<char>) -> bool {
    if !toml_parses_as_table(content) {
        e matches SettingsError::TomlDeserialize { path: p, .. } && p@ == path
    } else {
        match schema_version_of(schema_entry(content)) {
            Some(v) => e matches SettingsError::UnsupportedVersion { path: p, version: w } && p@
                == path && w == v,
            None => e matches SettingsError::TomlDeserialize { path: p, message: m } && p@ == path
                && m@ == schema_entry_message(schema_entry(content)),
        }
    }
}

/// Parses the root part of a settings document and reads its schema
/// version: a parse error, what [`schema_version_from_entry`] gives for
/// its `schema_version` entry.
pub fn root_schema_version(path: &str, root_content: &str) -> (r: Result<u32, SettingsError>)
    ensures
        !toml_parses_as_table(root_content@) ==> (r matches Err(
            SettingsError::TomlDeserialize { path: p, .. },
        ) && p@ == path@),
        toml_parses_as_table(root_content@) ==> match schema_version_of(
            schema_entry(root_content@),
        ) {
            Some(v) => r == Ok::<u32, SettingsError>(v),
            None => r matches Err(SettingsError::TomlDeserialize { path: p, message: m }) && p@
                == path@ && m@ == schema_entry_message(schema_entry(root_content@)),
        },
{
    let table = match parse_toml_table(root_content) {
        Ok(table) => table,
        Err(error) => {
            return Err(
                SettingsError::TomlDeserialize {
                    path: path.to_owned(),
                    message: toml_de_error_message(&error),
                },
            );
        },
    };
    proof {
        reveal_strlit("schema_version");
    }
    let entry = toml_table_integer_entry(&table, "schema_version");
    schema_version_from_entry(path, entry)
}

/// Checks that the root part of a document parses and names the supported
/// schema version.
pub fn ensure_supported_schema_from_root_content(path: &str, root_content: &str) -> (r: Result<
    (),
    SettingsError,
>)
    ensures
        r is Ok <==> schema_accepts(root_content@),
        r matches Err(e) ==> schema_error_is(e, path@, root_content@),
{
    let version = root_schema_version(path, root_content)?;
    ensure_supported_schema_version(path, version)
}

/// `[options]` followed by the serialized option entries, ending in a newline.
pub open spec fn options_table_text(body: Seq<char>) -> Seq<char> {
    let t = "[options]\n"@ + body;
    if t.last() == '\n' {
        t
    } else {
        t.push('\n')
    }
}

/// The `[options]` table text for the given serialized option entries.
pub fn serialized_workspace_options_table(body: &str) -> (r: String)
    ensures
        r@ == options_table_text(body@),
{
    let mut content = String::new();
    push_str(&mut content, "[options]\n");
    push_str(&mut content, body);
    proof {
        reveal_strlit("[options]\n");
    }
    let chars = chars_of(&content);
    let n = chars.len();
    assert(n >= 10);
    if chars[n - 1] != '\n' {
        push_char(&mut content, '\n');
    }
    content
}

/// How an options update changes a settings document.
#[derive(Debug, Clone, Copy, PartialEq, Eq, Structural)]
pub enum OptionsPatchPlan {
    /// Replace the existing `[options]` section.
    ReplaceSection(TomlContentSection),
    /// The root part assigns `options` inline: the whole document is
    /// re-serialized as a table.
    RewriteDocument,
    /// Append a new `[options]` section.
    AppendSection,
}

/// The plan an options update follows for a document.
pub open spec fn patch_plan(t: Seq<char>) -> OptionsPatchPlan {
    match options_section(t) {
        Some((s, e)) => OptionsPatchPlan::ReplaceSection(
            TomlContentSection { start: s as usize, end: e as usize },
        ),
        None => if assigns_options_from(t.subrange(0, root_end(t)), 0, initial_scanner()) {
            OptionsPatchPlan::RewriteDocument
        } else {
            OptionsPatchPlan::AppendSection
        },
    }
}

/// Decides how to update the options of a document.
pub fn workspace_options_patch_plan(document: &SettingsTomlDocument) -> (p: OptionsPatchPlan)
    ensures
        p == patch_plan(document.content@),
        p matches OptionsPatchPlan::ReplaceSection(sec) ==> sec.start < sec.end
            <= document.content@.len(),
{
    if let Some(section) = document.workspace_options_table_section() {
        return OptionsPatchPlan::ReplaceSection(section);
    }
    if document.root_settings_contains_workspace_options_assignment() {
        OptionsPatchPlan::RewriteDocument
    } else {
        OptionsPatchPlan::AppendSection
    }
}

/// Result of an options update on a document's text.
#[derive(Debug, Clone, PartialEq, Eq)]
pub enum OptionsPatchOutcome {
    /// The updated document text.
    Patched(String),
    /// The root part assigns `options` inline; the document has to be
    /// rewritten from its parsed table.
    RewriteDocument,
}

/// The document text after an options update, given the document, the
/// serialized option entries and the schema check of the root part.
pub open spec fn patched_content(t: Seq<char>, body: Seq<char>) -> Option<Seq<char>> {
    match patch_plan(t) {
        OptionsPatchPlan::ReplaceSection(sec) => Some(
            replaced(t, sec.start as int, sec.end as int, options_table_text(body)),
        ),
        OptionsPatchPlan::AppendSection => Some(appended(t, options_table_text(body))),
        OptionsPatchPlan::RewriteDocument => None,
    }
}

/// Applies an options update to a document, given the outcome of the
/// schema check of its root part.  Everything outside the `[options]`
/// section is kept as it was.
pub fn apply_workspace_options_patch(
    content: &str,
    options_body: &str,
    root_schema: Result<(), SettingsError>,
) -> (r: Result<OptionsPatchOutcome, SettingsError>)
    ensures
        match patched_content(content@, options_body@) {
            None => r == Ok::<OptionsPatchOutcome, SettingsError>(
                OptionsPatchOutcome::RewriteDocument,
            ),
            Some(updated) => match root_schema {
                Err(e) => r == Err::<OptionsPatchOutcome, SettingsError>(e),
                Ok(_) => r matches Ok(OptionsPatchOutcome::Patched(x)) && x@ == updated,
            },
        },
{
    let document = SettingsTomlDocument::new(content);
    match workspace_options_patch_plan(&document) {
        OptionsPatchPlan::ReplaceSection(section) => {
            let options_table = serialized_workspace_options_table(options_body);
            root_schema?;
            Ok(OptionsPatchOutcome::Patched(document.replace_range(section, &options_table)))
        },
        OptionsPatchPlan::RewriteDocument => Ok(OptionsPatchOutcome::RewriteDocument),
        OptionsPatchPlan::AppendSection => {
            let options_table = serialized_workspace_options_table(options_body);
            root_schema?;
            Ok(OptionsPatchOutcome::Patched(document.append_workspace_options_table(&options_table)))
        },
    }
}

/// What rewriting a whole document with new options gives: the schema
/// error of a document the schema does not accept; a parse error for an
/// options text that does not parse; else the pretty-printed table of the
/// document with its `options` entry replaced by the table of the options
/// text, which succeeds exactly when that table serializes.
pub open spec fn full_table_outcome(
    r: Result<String, SettingsError>,
    path: Seq<char>,
    content: Seq<char>,
    body: Seq<char>,
) -> bool {
    if !schema_accepts(content) {
        r matches Err(e) && schema_error_is(e, path, content)
    } else if !toml_parses_as_table(body) {
        r matches Err(SettingsError::TomlDeserialize { path: p, .. }) && p@ == path
    } else {
        exists|t: toml::map::Map<String, toml::Value>|
            #![trigger toml_table_view(t)]
            {
                &&& toml_table_view(t) == toml_document_view(content).insert(
                    "options"@,
                    TomlEntryView::Table(toml_document_view(body)),
                )
                &&& (r is Ok <==> toml_table_serializes(t))
                &&& (r matches Ok(x) ==> x@ == toml_table_pretty_text(t))
                &&& (r matches Err(e) ==> e matches SettingsError::TomlSerialize { path: p, .. }
                    && p@ == path)
            }
    }
}

/// Rewrites a whole settings document from its parsed table, with the
/// table parsed from `options_body` as its `options` entry, after checking
/// the document's schema version.
pub fn workspace_options_content_from_full_table(
    path: &str,
    content: &str,
    options_body: &str,
) -> (r: Result<String, SettingsError>)
    ensures
        full_table_outcome(r, path@, content@, options_body@),
{
    let mut table = match parse_toml_table(content) {
        Ok(table) => table,
        Err(error) => {
            return Err(
                SettingsError::TomlDeserialize {
                    path: path.to_owned(),
                    message: toml_de_error_message(&error),
                },
            );
        },
    };
    proof {
        reveal_strlit("schema_version");
        reveal_strlit("options");
    }
    let entry = toml_table_integer_entry(&table, "schema_version");
    let version = schema_version_from_entry(path, entry)?;
    ensure_supported_schema_version(path, version)?;
    let options = match parse_toml_table(options_body) {
        Ok(options) => options,
        Err(error) => {
            return Err(
                SettingsError::TomlDeserialize {
                    path: path.to_owned(),
                    message: toml_de_error_message(&error),
                },
            );
        },
    };
    toml_table_insert_table(&mut table, "options", options);
    let written = toml_table_to_string_pretty(&table);
    assert(toml_table_view(table) == toml_table_view(table));
    match written {
        Ok(text) => Ok(text),
        Err(error) => Err(
            SettingsError::TomlSerialize {
                path: path.to_owned(),
                message: toml_ser_error_message(&error),
            },
        ),
    }
}

/// The root part of a document: the text before its first table header.
pub open spec fn root_part(content: Seq<char>) -> Seq<char> {
    content.subrange(0, root_end(content))
}

/// What an options update of a document gives: the patched text when the
/// `[options]` section can be replaced or appended and the root part
/// passes the schema check, that check's error otherwise; the whole-table
/// rewrite when the root part assigns `options` inline.
pub open spec fn options_update_outcome(
    r: Result<String, SettingsError>,
    path: Seq<char>,
    content: Seq<char>,
    body: Seq<char>,
) -> bool {
    match patched_content(content, body) {
        Some(x) => if schema_accepts(root_part(content)) {
            r matches Ok(y) && y@ == x
        } else {
            r matches Err(e) && schema_error_is(e, path, root_part(content))
        },
        None => full_table_outcome(r, path, content, body),
    }
}

/// Updates the options of a settings document while keeping every other
/// part of it.  The root part is checked for the supported schema version
/// first; a root part that assigns `options` inline makes the whole
/// document be rewritten from its table.
pub fn workspace_options_content_preserving_session(
    path: &str,
    content: &str,
    options_body: &str,
) -> (r: Result<String, SettingsError>)
    ensures
        options_update_outcome(r, path@, content@, options_body@),
{
    let document = SettingsTomlDocument::new(content);
    if let OptionsPatchPlan::RewriteDocument = workspace_options_patch_plan(&document) {
        return workspace_options_content_from_full_table(path, content, options_body);
    }
    let root = document.root_table_content();
    let root_schema = ensure_supported_schema_from_root_content(path, &root);
    match apply_workspace_options_patch(content, options_body, root_schema) {
        Ok(OptionsPatchOutcome::Patched(text)) => Ok(text),
        Ok(OptionsPatchOutcome::RewriteDocument) => workspace_options_content_from_full_table(
            path,
            content,
            options_body,
        ),
        Err(error) => Err(error),
    }
}

/// Split levels a settings layout may nest while it is read: one more
/// than [`MAX_SETTINGS_LAYOUT_SPLIT_DEPTH`], counting the root node.
pub const MAX_SETTINGS_LAYOUT_DTO_SPLIT_DEPTH: usize = 65;

pub open spec fn layout_depth_exceeded_message() -> Seq<char> {
    "settings layout split depth exceeds maximum: max_depth="@ + decimal_digits(
        MAX_SETTINGS_LAYOUT_SPLIT_DEPTH as nat,
    )
}

/// The message of a layout that nests splits too deeply.
pub fn layout_depth_exceeded_error() -> (m: String)
    ensures
        m@ == layout_depth_exceeded_message(),
{
    let mut message = String::new();
    push_str(&mut message, "settings layout split depth exceeds maximum: max_depth=");
    push_decimal(&mut message, MAX_SETTINGS_LAYOUT_SPLIT_DEPTH as u64);
    message
}

/// How many more split levels a layout being read may nest.
#[derive(Debug, Clone, Copy, PartialEq, Eq, Structural)]
pub struct SettingsNodeDtoDepth {
    pub remaining_split_depth: usize,
}

impl SettingsNodeDtoDepth {
    pub fn root() -> (d: Self)
        ensures
            d.remaining_split_depth == MAX_SETTINGS_LAYOUT_DTO_SPLIT_DEPTH,
    {
        SettingsNodeDtoDepth { remaining_split_depth: MAX_SETTINGS_LAYOUT_DTO_SPLIT_DEPTH }
    }

    /// The depth left for a child node; none is left below depth zero.
    pub fn child(self) -> (r: Result<Self, String>)
        ensures
            self.remaining_split_depth > 0 ==> r == Ok::<SettingsNodeDtoDepth, String>(
                SettingsNodeDtoDepth { remaining_split_depth: (self.remaining_split_depth - 1) as usize },
            ),
            self.remaining_split_depth == 0 ==> (r matches Err(m) && m@
                == layout_depth_exceeded_message()),
    {
        if self.remaining_split_depth == 0 {
            return Err(layout_depth_exceeded_error());
        }
        Ok(SettingsNodeDtoDepth { remaining_split_depth: self.remaining_split_depth - 1 })
    }

    /// A split node is allowed while some depth is left.
    pub fn ensure_split_allowed(self) -> (r: Result<(), String>)
        ensures
            self.remaining_split_depth > 0 ==> r is Ok,
            self.remaining_split_depth == 0 ==> (r matches Err(m) && m@
                == layout_depth_exceeded_message()),
    {
        if self.remaining_split_depth == 0 {
            return Err(layout_depth_exceeded_error());
        }
        Ok(())
    }
}

/// The nesting of a layout node as a settings file writes it: whether its
/// kind is a split, and the child nodes it names.
#[derive(Debug)]
pub struct LayoutNodeShape {
    pub split: bool,
    pub first: Option<Box<LayoutNodeShape>>,
    pub second: Option<Box<LayoutNodeShape>>,
}

/// A node read with `remaining` split levels left is accepted when it is no
/// split at depth zero and each child it names is accepted one level down.
pub open spec fn layout_node_fits(node: LayoutNodeShape, remaining: nat) -> bool
    decreases node,
{
    &&& node.split ==> remaining > 0
    &&& match node.first {
        Some(child) => remaining > 0 && layout_node_fits(*child, (remaining - 1) as nat),
        None => true,
    }
    &&& match node.second {
        Some(child) => remaining > 0 && layout_node_fits(*child, (remaining - 1) as nat),
        None => true,
    }
}

/// Reads the nesting of a layout node at the given depth: every child takes
/// one level, and a split needs a level left.
pub fn read_layout_node_depth(node: &LayoutNodeShape, depth: SettingsNodeDtoDepth) -> (r: Result<
    (),
    String,
>)
    ensures
        r is Ok <==> layout_node_fits(*node, depth.remaining_split_depth as nat),
        r matches Err(m) ==> m@ == layout_depth_exceeded_message(),
    decreases node,
{
    if let Some(first) = &node.first {
        let child = depth.child()?;
        read_layout_node_depth(&**first, child)?;
    }
    if let Some(second) = &node.second {
        let child = depth.child()?;
        read_layout_node_depth(&**second, child)?;
    }
    if node.split {
        depth.ensure_split_allowed()?;
    }
    Ok(())
}

/// Reads the nesting of a whole layout from its root node.
pub fn read_layout_depth(root: &LayoutNodeShape) -> (r: Result<(), String>)
    ensures
        r is Ok <==> layout_node_fits(*root, MAX_SETTINGS_LAYOUT_DTO_SPLIT_DEPTH as nat),
        r matches Err(m) ==> m@ == layout_depth_exceeded_message(),
{
    read_layout_node_depth(root, SettingsNodeDtoDepth::root())
}

/// A layout that was read accepts `remaining` split levels when it is no
/// split, or a split with a level left whose children accept one level less.
pub open spec fn layout_splits_fit(node: LayoutNodeShape, remaining: nat) -> bool
    decreases node,
{
    node.split ==> {
        &&& remaining > 0
        &&& match node.first {
            Some(child) => layout_splits_fit(*child, (remaining - 1) as nat),
            None => true,
        }
        &&& match node.second {
            Some(child) => layout_splits_fit(*child, (remaining - 1) as nat),
            None => true,
        }
    }
}

/// Checks that a layout that was read nests its splits no deeper than
/// `remaining` levels, as turning it into a workspace layout requires.
pub fn ensure_layout_split_depth(node: &LayoutNodeShape, remaining: usize) -> (r: Result<
    (),
    LayoutDepthExceeded,
>)
    ensures
        r is Ok <==> layout_splits_fit(*node, remaining as nat),
        r matches Err(e) ==> e.max_depth == MAX_SETTINGS_LAYOUT_SPLIT_DEPTH,
    decreases node,
{
    if !node.split {
        return Ok(());
    }
    if remaining == 0 {
        return Err(LayoutDepthExceeded { max_depth: MAX_SETTINGS_LAYOUT_SPLIT_DEPTH });
    }
    if let Some(first) = &node.first {
        ensure_layout_split_depth(&**first, remaining - 1)?;
    }
    if let Some(second) = &node.second {
        ensure_layout_split_depth(&**second, remaining - 1)?;
    }
    Ok(())
}

/// A layout whose splits nest deeper than a workspace layout may.
#[derive(Debug, Clone, Copy, PartialEq, Eq, Structural)]
pub struct LayoutDepthExceeded {
    pub max_depth: usize,
}

/// Checks the layout of a tab preset of a settings file: reading it allows
/// [`MAX_SETTINGS_LAYOUT_DTO_SPLIT_DEPTH`] levels of nesting, and the preset
/// it becomes allows [`MAX_SETTINGS_LAYOUT_SPLIT_DEPTH`] split levels.
pub fn check_tab_preset_layout(path: &str, root: &LayoutNodeShape) -> (r: Result<(), SettingsError>)
    ensures
        r is Ok <==> layout_node_fits(*root, MAX_SETTINGS_LAYOUT_DTO_SPLIT_DEPTH as nat)
            && layout_splits_fit(*root, MAX_SETTINGS_LAYOUT_SPLIT_DEPTH as nat),
        !layout_node_fits(*root, MAX_SETTINGS_LAYOUT_DTO_SPLIT_DEPTH as nat) ==> (r matches Err(
            SettingsError::TomlDeserialize { path: p, message: m },
        ) && p@ == path@ && m@ == layout_depth_exceeded_message()),
        layout_node_fits(*root, MAX_SETTINGS_LAYOUT_DTO_SPLIT_DEPTH as nat) && !layout_splits_fit(
            *root,
            MAX_SETTINGS_LAYOUT_SPLIT_DEPTH as nat,
        ) ==> (r matches Err(SettingsError::InvalidDomain { path: p, message: m }) && p@ == path@
            && m@ == layout_depth_exceeded_message()),
{
    if let Err(message) = read_layout_depth(root) {
        return Err(SettingsError::TomlDeserialize { path: path.to_owned(), message });
    }
    match ensure_layout_split_depth(root, MAX_SETTINGS_LAYOUT_SPLIT_DEPTH) {
        Ok(()) => Ok(()),
        Err(_) => Err(
            SettingsError::InvalidDomain {
                path: path.to_owned(),
                message: layout_depth_exceeded_error(),
            },
        ),
    }
}

/// The name a language has in a settings file.
pub fn ui_language_setting_name(language: UiLanguage) -> (name: &'static str)
    ensures
        name@ == (match language {
            UiLanguage::English => "english"@,
            UiLanguage::Korean => "korean"@,
        }),
{
    match language {
        UiLanguage::English => "english",
        UiLanguage::Korean => "korean",
    }
}

/// Refuses settings content larger than [`MAX_SETTINGS_FILE_BYTES`].
pub fn ensure_settings_size(path: &str, size: u64) -> (r: Result<(), SettingsError>)
    ensures
        r is Ok <==> size <= MAX_SETTINGS_FILE_BYTES,
        r matches Err(e) ==> e matches SettingsError::FileTooLarge { path: p, size: s, max_size: m }
            && p@ == path@ && s == size && m == MAX_SETTINGS_FILE_BYTES,
{
    if size > MAX_SETTINGS_FILE_BYTES {
        return Err(
            SettingsError::FileTooLarge {
                path: path.to_owned(),
                size,
                max_size: MAX_SETTINGS_FILE_BYTES,
            },
        );
    }
    Ok(())
}

/// Name of the temporary file a save writes before it replaces the
/// settings file: `.{file_name}.{process_id}.{attempt}.writing`.
pub fn temp_file_name(file_name: &str, process_id: u32, attempt: u32) -> (r: String)
    ensures
        r@ == seq!['.'] + file_name@ + seq!['.'] + decimal_digits(process_id as nat) + seq!['.']
            + decimal_digits(attempt as nat) + ".writing"@,
{
    let mut name = String::new();
    push_char(&mut name, '.');
    push_str(&mut name, file_name);
    push_char(&mut name, '.');
    push_decimal(&mut name, process_id as u64);
    push_char(&mut name, '.');
    push_decimal(&mut name, attempt as u64);
    push_str(&mut name, ".writing");
    assert(name@ =~= seq!['.'] + file_name@ + seq!['.'] + decimal_digits(process_id as nat)
        + seq!['.'] + decimal_digits(attempt as nat) + ".writing"@);
    name
}

/// The number of saved tabs a startup load counted without reading them.
#[derive(Debug, Clone, Copy, PartialEq, Eq, Structural)]
pub struct IgnoredItemCount {
    pub count: usize,
}

impl IgnoredItemCount {
    pub fn len(self) -> (n: usize)
        ensures
            n == self.count,
    {
        self.count
    }
}

/// The full text of the settings file read at startup, kept so that an
/// options update can rewrite it without reading the file again.
#[derive(Debug, Clone, PartialEq, Eq)]
pub struct PreservedStartupSessionSettings {
    pub content: String,
}

impl PreservedStartupSessionSettings {
    pub fn new(content: String) -> (s: Self)
        ensures
            s.content == content,
    {
        PreservedStartupSessionSettings { content }
    }

    /// Records the text that was just written to the settings file.
    pub fn record_saved_content(&mut self, content: String)
        ensures
            final(self).content == content,
    {
        self.content = content;
    }
}

/// What a startup load reads from a settings file: the schema version, the
/// number of saved tabs (which are not restored), the tab presets and the
/// options.
#[derive(Debug, Clone, PartialEq)]
pub struct WorkspaceStartupSettings<P> {
    pub schema_version: u32,
    pub active_tab_id: Option<u64>,
    pub next_tab_id: u64,
    pub next_region_id: u64,
    pub tabs: IgnoredItemCount,
    pub tab_presets: Vec<P>,
    pub options: WorkspaceOptions,
}

/// Settings loaded at startup: tab presets and options only, with the
/// saved session kept as text.
#[derive(Debug, Clone, PartialEq)]
pub struct WorkspaceTabPresetsOnlySettings<P> {
    saved_tab_count: usize,
    tab_presets: Vec<P>,
    options: WorkspaceOptions,
    preserved_startup_session: PreservedStartupSessionSettings,
}

impl<P> WorkspaceTabPresetsOnlySettings<P> {
    pub closed spec fn spec_saved_tab_count(&self) -> usize {
        self.saved_tab_count
    }

    pub closed spec fn spec_tab_presets(&self) -> Seq<P> {
        self.tab_presets@
    }

    pub closed spec fn spec_options(&self) -> WorkspaceOptions {
        self.options
    }

    pub closed spec fn spec_preserved(&self) -> PreservedStartupSessionSettings {
        self.preserved_startup_session
    }

    pub fn new(
        saved_tab_count: usize,
        tab_presets: Vec<P>,
        options: WorkspaceOptions,
        preserved_startup_session: PreservedStartupSessionSettings,
    ) -> (s: Self)
        ensures
            s.spec_saved_tab_count() == saved_tab_count,
            s.spec_tab_presets() == tab_presets@,
            s.spec_options() == options,
            s.spec_preserved() == preserved_startup_session,
    {
        WorkspaceTabPresetsOnlySettings {
            saved_tab_count,
            tab_presets,
            options,
            preserved_startup_session,
        }
    }

    pub fn saved_tab_count(&self) -> (n: usize)
        ensures
            n == self.spec_saved_tab_count(),
    {
        self.saved_tab_count
    }

    pub fn tab_presets(&self) -> (p: &[P])
        ensures
            p@ == self.spec_tab_presets(),
    {
        self.tab_presets.as_slice()
    }

    pub fn options(&self) -> (o: WorkspaceOptions)
        ensures
            o == self.spec_options(),
    {
        self.options
    }

    pub fn into_tab_presets_and_preserved_session(self) -> (r: (
        Vec<P>,
        PreservedStartupSessionSettings,
    ))
        ensures
            r.0@ == self.spec_tab_presets(),
            r.1 == self.spec_preserved(),
    {
        (self.tab_presets, self.preserved_startup_session)
    }
}

/// Builds the startup settings from what a startup load read, after
/// checking the schema version; the whole file text is kept.
pub fn tab_presets_only_settings_from_startup<P>(
    path: &str,
    startup: WorkspaceStartupSettings<P>,
    content: String,
) -> (r: Result<WorkspaceTabPresetsOnlySettings<P>, SettingsError>)
    ensures
        r is Ok <==> startup.schema_version == SETTINGS_SCHEMA_VERSION,
        r matches Err(e) ==> e matches SettingsError::UnsupportedVersion { version: v, .. } && v
            == startup.schema_version,
        r matches Ok(s) ==> s.spec_saved_tab_count() == startup.tabs.count && s.spec_tab_presets()
            == startup.tab_presets@ && s.spec_options() == startup.options
            && s.spec_preserved().content == content,
{
    ensure_supported_schema_version(path, startup.schema_version)?;
    let WorkspaceStartupSettings { tabs, tab_presets, options, .. } = startup;
    Ok(
        WorkspaceTabPresetsOnlySettings::new(
            tabs.len(),
            tab_presets,
            options,
            PreservedStartupSessionSettings::new(content),
        ),
    )
}

/// What `Path::parent` gives for a path, as text (for the path syntax of
/// the target the crate is built for).
pub uninterp spec fn path_parent(path: Seq<char>) -> Option<Seq<char>>;

/// What `Path::file_stem` gives for a path, as text.
pub uninterp spec fn path_file_stem(path: Seq<char>) -> Option<Seq<char>>;

/// What `PathBuf::set_extension` makes of a file name and an extension.
pub uninterp spec fn path_with_extension(file_name: Seq<char>, extension: Seq<char>) -> Seq<char>;

/// What `Path::join` makes of a directory and a name.
pub uninterp spec fn path_join(directory: Seq<char>, name: Seq<char>) -> Seq<char>;

pub open spec fn text_of(o: Option<String>) -> Option<Seq<char>> {
    match o {
        Some(s) => Some(s@),
        None => None,
    }
}

/// A path of one plain component: not empty, with no separator and no
/// drive colon.
pub open spec fn single_component(path: Seq<char>) -> bool {
    path.len() > 0 && !path.contains('/') && !path.contains('\\') && !path.contains(':')
}

/// `Path::parent`, as text.  The documentation says that the empty path
/// has no parent and that a path of one component has the empty path as
/// its parent.
#[verifier::external_body]
fn std_path_parent(path: &str) -> (r: Option<String>)
    ensures
        text_of(r) == path_parent(path@),
        path@.len() == 0 ==> r is None,
        single_component(path@) ==> text_of(r) == Some(Seq::<char>::empty()),
{
    match std::path::Path::new(path).parent() {
        Some(parent) => Some(parent.to_string_lossy().into_owned()),
        None => None,
    }
}

/// `Path::file_stem`, as text.
#[verifier::external_body]
fn std_path_file_stem(path: &str) -> (r: Option<String>)
    ensures
        text_of(r) == path_file_stem(path@),
{
    match std::path::Path::new(path).file_stem() {
        Some(stem) => Some(stem.to_string_lossy().into_owned()),
        None => None,
    }
}

/// `PathBuf::set_extension` on a file name, as text.  It panics on an
/// extension that holds a path separator, so none is accepted.
#[verifier::external_body]
fn std_path_with_extension(file_name: &str, extension: &str) -> (r: String)
    requires
        !extension@.contains('/'),
        !extension@.contains('\\'),
    ensures
        r@ == path_with_extension(file_name@, extension@),
{
    let mut path = std::path::PathBuf::from(file_name);
    path.set_extension(extension);
    path.to_string_lossy().into_owned()
}

/// `Path::join` of a directory and a name, as text.
#[verifier::external_body]
fn std_path_join(directory: &str, name: &str) -> (r: String)
    ensures
        r@ == path_join(directory@, name@),
{
    std::path::Path::new(directory).join(name).to_string_lossy().into_owned()
}

pub open spec fn names_some(o: Option<Seq<char>>) -> bool {
    o matches Some(s) && s.len() > 0
}

/// The settings file of an executable: in its directory, named by its
/// file stem with the extension `toml`; `None` when the executable path
/// has no directory or no file stem.
pub open spec fn settings_path_for(executable: Seq<char>) -> Option<Seq<char>> {
    if names_some(path_parent(executable)) && names_some(path_file_stem(executable)) {
        Some(
            path_join(
                path_parent(executable)->0,
                path_with_extension(path_file_stem(executable)->0, "toml"@),
            ),
        )
    } else {
        None
    }
}

/// The error for an executable path with no settings path: no directory
/// first, then no file stem.
pub open spec fn settings_path_error_is(e: SettingsError, executable: Seq<char>) -> bool {
    if !names_some(path_parent(executable)) {
        e matches SettingsError::ExecutableDirectoryMissing { path: p } && p@ == executable
    } else {
        e matches SettingsError::ExecutableFileNameMissing { path: p } && p@ == executable
    }
}

/// Why no settings path can be derived from an executable path whose
/// parent directory and file stem are the given ones.
pub fn settings_path_components_error(
    executable: &str,
    parent: &Option<String>,
    file_stem: &Option<String>,
) -> (r: Option<SettingsError>)
    ensures
        (parent is None || parent->0@.len() == 0) ==> (r matches Some(
            SettingsError::ExecutableDirectoryMissing { path: p },
        ) && p@ == executable@),
        !(parent is None || parent->0@.len() == 0) && (file_stem is None || file_stem->0@.len()
            == 0) ==> (r matches Some(SettingsError::ExecutableFileNameMissing { path: p }) && p@
            == executable@),
        !(parent is None || parent->0@.len() == 0) && !(file_stem is None || file_stem->0@.len()
            == 0) ==> r is None,
{
    let parent_missing = match parent {
        None => true,
        Some(p) => p.as_str().is_empty(),
    };
    if parent_missing {
        return Some(SettingsError::ExecutableDirectoryMissing { path: executable.to_owned() });
    }
    let stem_missing = match file_stem {
        None => true,
        Some(s) => s.as_str().is_empty(),
    };
    if stem_missing {
        return Some(SettingsError::ExecutableFileNameMissing { path: executable.to_owned() });
    }
    None
}

/// The settings file next to an executable: same directory, same file
/// stem, extension `toml`.  Fails when the executable path has no
/// directory or no file stem.
pub fn path_for_executable(executable: &str) -> (r: Result<String, SettingsError>)
    ensures
        r is Ok <==> settings_path_for(executable@) is Some,
        r matches Ok(x) ==> settings_path_for(executable@) == Some(x@),
        r matches Err(e) ==> settings_path_error_is(e, executable@),
        executable@.len() == 0 ==> (r matches Err(
            SettingsError::ExecutableDirectoryMissing { path: p },
        ) && p@ == executable@),
        single_component(executable@) ==> (r matches Err(
            SettingsError::ExecutableDirectoryMissing { path: p },
        ) && p@ == executable@),
{
    let parent = std_path_parent(executable);
    let file_stem = std_path_file_stem(executable);
    if let Some(error) = settings_path_components_error(executable, &parent, &file_stem) {
        return Err(error);
    }
    match (parent, file_stem) {
        (Some(parent), Some(file_stem)) => {
            proof {
                reveal_strlit("toml");
            }
            let file_name = std_path_with_extension(&file_stem, "toml");
            Ok(std_path_join(&parent, &file_name))
        },
        _ => Err(SettingsError::ExecutableDirectoryMissing { path: executable.to_owned() }),
    }
}

/// Where the workspace settings are stored.
#[derive(Debug, Clone, PartialEq, Eq)]
pub struct SettingsFileStore {
    path: String,
}

impl SettingsFileStore {
    pub closed spec fn spec_path(&self) -> Seq<char> {
        self.path@
    }

    pub fn new(path: &str) -> (s: Self)
        ensures
            s.spec_path() == path@,
    {
        SettingsFileStore { path: path.to_owned() }
    }

    /// The store whose file lies next to the given executable.
    pub fn for_current_exe(executable: &str) -> (r: Result<Self, SettingsError>)
        ensures
            r is Ok <==> settings_path_for(executable@) is Some,
            r matches Ok(store) ==> settings_path_for(executable@) == Some(store.spec_path()),
            r matches Err(e) ==> settings_path_error_is(e, executable@),
            executable@.len() == 0 ==> (r matches Err(
                SettingsError::ExecutableDirectoryMissing { path: p },
            ) && p@ == executable@),
    {
        let path = path_for_executable(executable)?;
        Ok(SettingsFileStore { path })
    }

    /// The settings path next to the given executable.
    pub fn default_path(executable: &str) -> (r: Result<String, SettingsError>)
        ensures
            r is Ok <==> settings_path_for(executable@) is Some,
            r matches Ok(x) ==> settings_path_for(executable@) == Some(x@),
            r matches Err(e) ==> settings_path_error_is(e, executable@),
            executable@.len() == 0 ==> (r matches Err(
                SettingsError::ExecutableDirectoryMissing { path: p },
            ) && p@ == executable@),
    {
        path_for_executable(executable)
    }

    pub fn path(&self) -> (p: &str)
        ensures
            p@ == self.spec_path(),
    {
        self.path.as_str()
    }

    /// The startup settings, given what reading the settings file gave:
    /// `None` when there is no file, else its text together with the
    /// outcome of parsing it.
    pub fn load_workspace_for_startup<P>(
        &self,
        read: Option<(String, Result<WorkspaceStartupSettings<P>, SettingsError>)>,
    ) -> (r: Result<Option<WorkspaceTabPresetsOnlySettings<P>>, SettingsError>)
        ensures
            match read {
                None => r matches Ok(None),
                Some((_, Err(e))) => r == Err::<Option<WorkspaceTabPresetsOnlySettings<P>>, SettingsError>(e),
                Some((content, Ok(startup))) => {
                    &&& (r is Ok <==> startup.schema_version == SETTINGS_SCHEMA_VERSION)
                    &&& (r matches Err(e) ==> e matches SettingsError::UnsupportedVersion { version: v, .. }
                        && v == startup.schema_version)
                    &&& (r matches Ok(loaded) ==> loaded matches Some(s) && s.spec_saved_tab_count()
                        == startup.tabs.count && s.spec_tab_presets() == startup.tab_presets@
                        && s.spec_options() == startup.options && s.spec_preserved().content == content)
                },
            },
    {
        let (content, parsed) = match read {
            None => {
                return Ok(None);
            },
            Some(read) => read,
        };
        let startup = parsed?;
        let settings = tab_presets_only_settings_from_startup(self.path.as_str(), startup, content)?;
        Ok(Some(settings))
    }

    /// The text to write for an options update of the settings file whose
    /// current text is given (`None` when there is no file: nothing to write).
    pub fn save_workspace_options_preserving_session(
        &self,
        content: Option<String>,
        options_body: &str,
    ) -> (r: Result<Option<String>, SettingsError>)
        ensures
            content is None ==> r matches Ok(None),
            content matches Some(c) ==> match r {
                Ok(Some(x)) => options_update_outcome(
                    Ok::<String, SettingsError>(x),
                    self.spec_path(),
                    c@,
                    options_body@,
                ),
                Err(e) => options_update_outcome(
                    Err::<String, SettingsError>(e),
                    self.spec_path(),
                    c@,
                    options_body@,
                ),
                Ok(None) => false,
            },
    {
        match content {
            None => Ok(None),
            Some(content) => {
                let text = workspace_options_content_preserving_session(
                    self.path.as_str(),
                    content.as_str(),
                    options_body,
                )?;
                Ok(Some(text))
            },
        }
    }

    /// The text to write for an options update of the session text kept at
    /// startup.  After the write, the caller records that text with
    /// [`PreservedStartupSessionSettings::record_saved_content`].
    pub fn save_workspace_options_preserving_startup_session(
        &self,
        preserved_startup_session: &PreservedStartupSessionSettings,
        options_body: &str,
    ) -> (r: Result<String, SettingsError>)
        ensures
            options_update_outcome(
                r,
                self.spec_path(),
                preserved_startup_session.content@,
                options_body@,
            ),
    {
        workspace_options_content_preserving_session(
            self.path.as_str(),
            preserved_startup_session.content.as_str(),
            options_body,
        )
    }
}

} // verus!
