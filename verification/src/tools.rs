use vstd::prelude::*;

use crate::json::{
    as_bool_view, as_i64_view, as_str_view, as_u64_view, int_number, JsonNumber, entries_view, get_field, insert_entry, items_view, json_view, lemma_entries_view,
    lemma_items_view, lemma_put_at, lemma_put_entry, lemma_put_same, lookup, put_entry, JsonValue, JsonView,
};
use crate::llm::opt_view;
use crate::text::{
    byte_prefix, concat_str, i64_to_text, is_byte_boundary, join_seq, join_strings, lemma_join_push,
    owned, signed_decimal_seq, str_eq, str_len, strings_view, truncate_bytes,
};

verus! {

broadcast use vstd::string::group_string_axioms;

/// The most bytes of tool output handed back to the model.
pub const MAX_OUTPUT_BYTES: usize = 16384;

/// The argument in which every tool call gives itself a short title.
pub const TOOL_TITLE_FIELD: &'static str = "tool_title";

/// The function half of a tool declaration: name, description and the JSON
/// schema of its arguments.
#[derive(Debug)]
pub struct ToolFunctionSpec {
    pub name: String,
    pub description: String,
    pub parameters: JsonValue,
}

/// A tool as it is declared to the model.
#[derive(Debug)]
pub struct ToolSpec {
    pub tool_type: String,
    pub function: ToolFunctionSpec,
}

/// A tool declaration as plain values.
pub struct ToolSpecView {
    pub tool_type: Seq<char>,
    pub name: Seq<char>,
    pub description: Seq<char>,
    pub parameters: JsonView,
}

impl View for ToolSpec {
    type V = ToolSpecView;

    open spec fn view(&self) -> ToolSpecView {
        ToolSpecView {
            tool_type: self.tool_type@,
            name: self.function.name@,
            description: self.function.description@,
            parameters: self.function.parameters@,
        }
    }
}

/// The views of a sequence of tool declarations.
pub open spec fn specs_view(specs: Seq<ToolSpec>) -> Seq<ToolSpecView> {
    specs.map_values(|s: ToolSpec| s@)
}

impl Clone for ToolSpec {
    fn clone(&self) -> (r: Self)
        ensures
            r@ == self@,
    {
        ToolSpec {
            tool_type: self.tool_type.clone(),
            function: ToolFunctionSpec {
                name: self.function.name.clone(),
                description: self.function.description.clone(),
                parameters: self.function.parameters.deep_clone(),
            },
        }
    }
}

/// Why a tool request was refused.
#[derive(Debug)]
pub enum ToolError {
    /// An agent lists a tool that does not exist.
    UnknownToolInAgent(String),
    /// No tool has this name.
    UnknownTool(String),
    /// A required string argument is missing.
    MissingString(String),
    /// An argument that must be an array is not one.
    NotArray(String),
    /// An array argument holds something other than strings.
    NotStrings(String),
    /// The command may not be run.
    NotAllowed(String),
    /// The file manager does not know this action.
    UnsupportedAction(String),
}

/// The sentence that explains a tool error.
pub open spec fn tool_error_text(e: ToolError) -> Seq<char> {
    match e {
        ToolError::UnknownToolInAgent(n) => "unknown tool `"@ + n@ + "` in agent definition"@,
        ToolError::UnknownTool(n) => "unknown tool `"@ + n@ + "`"@,
        ToolError::MissingString(k) => "missing string argument `"@ + k@ + "`"@,
        ToolError::NotArray(k) => "argument `"@ + k@ + "` must be an array"@,
        ToolError::NotStrings(k) => "argument `"@ + k@ + "` items must be strings"@,
        ToolError::NotAllowed(c) => "command `"@ + c@ + "` is not in the allowlist"@,
        ToolError::UnsupportedAction(a) => "unsupported digital_file_manager action `"@ + a@
            + "`"@,
    }
}

fn quoted(head: &str, middle: &str, tail: &str) -> (r: String)
    ensures
        r@ == head@ + middle@ + tail@,
{
    let first = concat_str(head, middle);
    concat_str(first.as_str(), tail)
}

impl ToolError {
    /// The error as a sentence.
    pub fn to_string(&self) -> (r: String)
        ensures
            r@ == tool_error_text(*self),
    {
        match self {
            ToolError::UnknownToolInAgent(n) => quoted(
                "unknown tool `",
                n.as_str(),
                "` in agent definition",
            ),
            ToolError::UnknownTool(n) => quoted("unknown tool `", n.as_str(), "`"),
            ToolError::MissingString(k) => quoted("missing string argument `", k.as_str(), "`"),
            ToolError::NotArray(k) => quoted("argument `", k.as_str(), "` must be an array"),
            ToolError::NotStrings(k) => quoted("argument `", k.as_str(), "` items must be strings"),
            ToolError::NotAllowed(c) => quoted("command `", c.as_str(), "` is not in the allowlist"),
            ToolError::UnsupportedAction(a) => quoted(
                "unsupported digital_file_manager action `",
                a.as_str(),
                "`",
            ),
        }
    }
}

/// The schema of the `tool_title` argument that every tool gets.
pub open spec fn title_schema() -> JsonView {
    JsonView::Object(
        seq![
            ("type"@, JsonView::Str("string"@)),
            (
                "description"@,
                JsonView::Str(
                    "A short 4-12 word title for this tool call, in the same language as the user."@,
                ),
            ),
        ],
    )
}

fn title_schema_value() -> (r: JsonValue)
    ensures
        r@ == title_schema(),
{
    let mut entries: Vec<(String, JsonValue)> = Vec::new();
    entries.push((owned("type"), JsonValue::string("string")));
    entries.push(
        (
            owned("description"),
            JsonValue::string(
                "A short 4-12 word title for this tool call, in the same language as the user.",
            ),
        ),
    );
    proof {
        lemma_entries_view(entries@);
        assert(entries_view(entries@) =~= seq![
            ("type"@, JsonView::Str("string"@)),
            (
                "description"@,
                JsonView::Str(
                    "A short 4-12 word title for this tool call, in the same language as the user."@,
                ),
            ),
        ]);
    }
    JsonValue::Object(entries)
}

/// The entries with a `properties` object that holds the title argument.
pub open spec fn with_title_property(e: Seq<(Seq<char>, JsonView)>) -> Seq<(Seq<char>, JsonView)> {
    let e1 = match lookup(e, "properties"@) {
        Some(_) => e,
        None => put_entry(e, "properties"@, JsonView::Object(Seq::empty())),
    };
    match lookup(e1, "properties"@) {
        Some(JsonView::Object(p)) => put_entry(
            e1,
            "properties"@,
            JsonView::Object(put_entry(p, "tool_title"@, title_schema())),
        ),
        _ => e1,
    }
}

/// The entries with `tool_title` first among the required arguments.
pub open spec fn with_title_required(e: Seq<(Seq<char>, JsonView)>) -> Seq<(Seq<char>, JsonView)> {
    let e1 = match lookup(e, "required"@) {
        Some(_) => e,
        None => put_entry(e, "required"@, JsonView::Array(Seq::empty())),
    };
    match lookup(e1, "required"@) {
        Some(JsonView::Array(r)) => if r.contains(JsonView::Str("tool_title"@)) {
            e1
        } else {
            put_entry(e1, "required"@, JsonView::Array(seq![JsonView::Str("tool_title"@)] + r))
        },
        _ => e1,
    }
}

/// A parameter schema with the `tool_title` argument declared and required;
/// a schema that is not an object is left as it is.
pub open spec fn decorated(v: JsonView) -> JsonView {
    match v {
        JsonView::Object(e) => JsonView::Object(with_title_required(with_title_property(e))),
        _ => v,
    }
}

/// Decorating a schema twice gives what decorating it once gives.
pub proof fn lemma_decorated_idempotent(v: JsonView)
    ensures
        decorated(decorated(v)) == decorated(v),
{
    reveal_strlit("properties");
    reveal_strlit("required");
    assert("properties"@[0] != "required"@[0]);
    match v {
        JsonView::Object(e) => {
            let e1 = match lookup(e, "properties"@) {
                Some(_) => e,
                None => put_entry(e, "properties"@, JsonView::Object(Seq::empty())),
            };
            lemma_put_entry(e, "properties"@, JsonView::Object(Seq::empty()), "properties"@);
            let p = with_title_property(e);
            match lookup(e1, "properties"@) {
                Some(JsonView::Object(pe)) => {
                    let pe2 = put_entry(pe, "tool_title"@, title_schema());
                    lemma_put_entry(pe, "tool_title"@, title_schema(), "tool_title"@);
                    lemma_put_entry(e1, "properties"@, JsonView::Object(pe2), "properties"@);
                    assert(lookup(p, "properties"@) == Some(JsonView::Object(pe2)));
                },
                _ => {},
            }
            let q1 = match lookup(p, "required"@) {
                Some(_) => p,
                None => put_entry(p, "required"@, JsonView::Array(Seq::empty())),
            };
            lemma_put_entry(p, "required"@, JsonView::Array(Seq::empty()), "properties"@);
            lemma_put_entry(p, "required"@, JsonView::Array(Seq::empty()), "required"@);
            let r = with_title_required(p);
            assert(lookup(q1, "properties"@) == lookup(p, "properties"@));
            match lookup(q1, "required"@) {
                Some(JsonView::Array(items)) => {
                    if !items.contains(JsonView::Str("tool_title"@)) {
                        let n = JsonView::Array(seq![JsonView::Str("tool_title"@)] + items);
                        lemma_put_entry(q1, "required"@, n, "properties"@);
                        lemma_put_entry(q1, "required"@, n, "required"@);
                        assert((seq![JsonView::Str("tool_title"@)] + items)[0] == JsonView::Str(
                            "tool_title"@,
                        ));
                        assert((seq![JsonView::Str("tool_title"@)] + items).contains(
                            JsonView::Str("tool_title"@),
                        ));
                    }
                },
                _ => {},
            }
            assert(lookup(r, "properties"@) == lookup(p, "properties"@));
            match lookup(r, "properties"@) {
                Some(JsonView::Object(pe2)) => {
                    lemma_put_same(pe2, "tool_title"@, title_schema());
                    lemma_put_same(r, "properties"@, JsonView::Object(pe2));
                },
                _ => {},
            }
            assert(with_title_property(r) == r);
            match lookup(r, "required"@) {
                Some(JsonView::Array(items)) => {},
                _ => {},
            }
            assert(with_title_required(r) == r);
        },
        _ => {},
    }
}

/// The position of the first entry with `key`; the length when none has it.
fn find_entry(entries: &Vec<(String, JsonValue)>, key: &str) -> (r: usize)
    ensures
        r <= entries.len(),
        r < entries.len() ==> lookup(entries_view(entries@), key@) == Some(json_view(entries@[r as int].1)) && entries@[r as int].0@ == key@,
        r == entries.len() ==> lookup(entries_view(entries@), key@) is None,
        forall|j: int| 0 <= j < r ==> #[trigger] entries@[j].0@ != key@,
{
    let ghost ev = entries_view(entries@);
    proof {
        lemma_entries_view(entries@);
        assert(ev.skip(0) =~= ev);
    }
    let mut i: usize = 0;
    while i < entries.len()
        invariant
            i <= entries.len(),
            ev == entries_view(entries@),
            ev.len() == entries@.len(),
            forall|j: int|
                0 <= j < entries@.len() ==> #[trigger] ev[j] == (
                    entries@[j].0@,
                    json_view(entries@[j].1),
                ),
            lookup(ev, key@) == lookup(ev.skip(i as int), key@),
            forall|j: int| 0 <= j < i ==> #[trigger] entries@[j].0@ != key@,
        decreases entries.len() - i,
    {
        proof {
            assert(ev.skip(i as int)[0] == ev[i as int]);
            assert(ev.skip(i as int).drop_first() =~= ev.skip(i + 1));
        }
        if str_eq(entries[i].0.as_str(), key) {
            proof {
                assert(lookup(ev.skip(i as int), key@) == Some(ev[i as int].1));
            }
            return i;
        }
        i = i + 1;
    }
    proof {
        assert(ev.skip(i as int).len() == 0);
    }
    i
}

/// Whether a list holds the string `tool_title`.
fn has_title(items: &Vec<JsonValue>) -> (r: bool)
    ensures
        r == items_view(items@).contains(JsonView::Str("tool_title"@)),
{
    proof {
        lemma_items_view(items@);
    }
    let mut i: usize = 0;
    while i < items.len()
        invariant
            i <= items.len(),
            items_view(items@).len() == items@.len(),
            forall|j: int| 0 <= j < items@.len() ==> #[trigger] items_view(items@)[j] == json_view(items@[j]),
            forall|j: int| 0 <= j < i ==> items_view(items@)[j] != JsonView::Str("tool_title"@),
        decreases items.len() - i,
    {
        match items[i].as_str() {
            Some(s) => {
                if str_eq(s, TOOL_TITLE_FIELD) {
                    assert(items_view(items@)[i as int] == JsonView::Str("tool_title"@));
                    return true;
                }
            },
            None => {},
        }
        assert(items_view(items@)[i as int] != JsonView::Str("tool_title"@));
        i = i + 1;
    }
    false
}

/// Makes sure the entries hold a `properties` object declaring `tool_title`.
fn add_title_property(entries: &mut Vec<(String, JsonValue)>)
    ensures
        entries_view(final(entries)@) == with_title_property(entries_view(old(entries)@)),
{
    let ghost e0 = entries_view(entries@);
    let p = find_entry(entries, "properties");
    if p == entries.len() {
        insert_entry(entries, "properties", JsonValue::empty_object());
    }
    let ghost e1 = entries_view(entries@);
    assert(e1 == match lookup(e0, "properties"@) {
        Some(_) => e0,
        None => put_entry(e0, "properties"@, JsonView::Object(Seq::empty())),
    });
    let p = find_entry(entries, "properties");
    if p < entries.len() {
        let ghost before = entries@;
        proof {
            lemma_entries_view(before);
        }
        let (key, mut props) = entries.remove(p);
        let ghost pv = json_view(props);
        let is_object = match &props {
            JsonValue::Object(_) => true,
            _ => false,
        };
        if is_object {
            match &mut props {
                JsonValue::Object(pe) => {
                    insert_entry(pe, TOOL_TITLE_FIELD, title_schema_value());
                },
                _ => {},
            }
            entries.insert(p, (key, props));
            proof {
                lemma_entries_view(entries@);
                assert(entries@ =~= before.update(p as int, (key, props)));
                let pe = match pv {
                    JsonView::Object(pe) => pe,
                    _ => Seq::empty(),
                };
                let nv = JsonView::Object(put_entry(pe, "tool_title"@, title_schema()));
                lemma_put_at(e1, "properties"@, nv, p as int);
                assert(entries_view(entries@) =~= e1.update(p as int, ("properties"@, nv)));
            }
        } else {
            entries.insert(p, (key, props));
            proof {
                lemma_entries_view(entries@);
                assert(entries@ =~= before);
                assert(entries_view(entries@) =~= e1);
            }
        }
    }
}

/// Makes sure the entries list `tool_title` among the required arguments,
/// first when it is added.
fn add_title_required(entries: &mut Vec<(String, JsonValue)>)
    ensures
        entries_view(final(entries)@) == with_title_required(entries_view(old(entries)@)),
{
    let ghost e0 = entries_view(entries@);
    let p = find_entry(entries, "required");
    if p == entries.len() {
        insert_entry(entries, "required", JsonValue::Array(Vec::new()));
        proof {
            assert(items_view(Seq::<JsonValue>::empty()) =~= Seq::<JsonView>::empty());
        }
    }
    let ghost e1 = entries_view(entries@);
    assert(e1 == match lookup(e0, "required"@) {
        Some(_) => e0,
        None => put_entry(e0, "required"@, JsonView::Array(Seq::empty())),
    });
    let p = find_entry(entries, "required");
    if p < entries.len() {
        let ghost before = entries@;
        proof {
            lemma_entries_view(before);
        }
        let (key, mut required) = entries.remove(p);
        let ghost rv = json_view(required);
        let add = match &required {
            JsonValue::Array(items) => !has_title(items),
            _ => false,
        };
        if add {
            match &mut required {
                JsonValue::Array(items) => {
                    let ghost before = items@;
                    items.insert(0, JsonValue::string(TOOL_TITLE_FIELD));
                    proof {
                        lemma_items_view(items@);
                        lemma_items_view(before);
                        assert(items_view(items@) =~= seq![JsonView::Str("tool_title"@)]
                            + items_view(before));
                    }
                },
                _ => {},
            }
            entries.insert(p, (key, required));
            proof {
                lemma_entries_view(entries@);
                assert(entries@ =~= before.update(p as int, (key, required)));
                let r = match rv {
                    JsonView::Array(r) => r,
                    _ => Seq::empty(),
                };
                let nv = JsonView::Array(seq![JsonView::Str("tool_title"@)] + r);
                lemma_put_at(e1, "required"@, nv, p as int);
                assert(entries_view(entries@) =~= e1.update(p as int, ("required"@, nv)));
            }
        } else {
            entries.insert(p, (key, required));
            proof {
                lemma_entries_view(entries@);
                assert(entries@ =~= before);
                assert(entries_view(entries@) =~= e1);
            }
        }
    }
}

/// `parameters` with the `tool_title` argument declared in its properties
/// and listed first among the required arguments (unless already listed).
pub fn decorate_parameter_schema(parameters: JsonValue) -> (r: JsonValue)
    ensures
        r@ == decorated(parameters@),
{
    match parameters {
        JsonValue::Object(entries) => {
            let mut entries = entries;
            add_title_property(&mut entries);
            add_title_required(&mut entries);
            JsonValue::Object(entries)
        },
        other => other,
    }
}

/// The strings among a list of values, in order.
pub open spec fn strings_of(items: Seq<JsonView>) -> Seq<Seq<char>>
    decreases items.len(),
{
    if items.len() == 0 {
        Seq::empty()
    } else {
        let rest = strings_of(items.drop_last());
        match items.last() {
            JsonView::Str(s) => rest.push(s),
            _ => rest,
        }
    }
}

/// The names a parameter schema lists as required: the strings of its
/// `required` array.
pub open spec fn required_names(v: JsonView) -> Seq<Seq<char>> {
    match get_field(v, "required"@) {
        Some(JsonView::Array(items)) => strings_of(items),
        _ => Seq::empty(),
    }
}

/// Appends `s` to a list of tool declarations.
fn push_spec(specs: &mut Vec<ToolSpec>, s: ToolSpec)
    ensures
        specs_view(final(specs)@) == specs_view(old(specs)@).push(s@),
{
    let ghost before = specs@;
    specs.push(s);
    proof {
        assert(specs_view(specs@) =~= specs_view(before).push(s@));
    }
}

/// Every built-in tool, declared as the model sees it.
pub fn tool_specs() -> (r: Vec<ToolSpec>)
    ensures
        specs_view(r@) == crate::tool_table::tool_specs_spec(),
{
    let mut specs: Vec<ToolSpec> = Vec::new();
    assert(specs_view(specs@) =~= Seq::<ToolSpecView>::empty());
    push_spec(&mut specs, tool("pwd", "Return the current working directory.", crate::tool_table::pwd_parameters_value()));
    push_spec(&mut specs, tool("list_dir", "List files and directories under a path.", crate::tool_table::list_dir_parameters_value()));
    push_spec(&mut specs, tool("read_file", "Read a UTF-8 text file with an output byte limit.", crate::tool_table::read_file_parameters_value()));
    push_spec(&mut specs, tool("search_text", "Search for text with ripgrep when available.", crate::tool_table::search_text_parameters_value()));
    push_spec(&mut specs, tool("shell_exec", "Run a small allowlisted Linux command without invoking a shell. Always provide both `command` and `args`; use `args: []` when the command has no arguments. For system configuration, prefer concrete commands such as uname, whoami, env, df, ps, or ls.", crate::tool_table::shell_exec_parameters_value()));
    push_spec(&mut specs, tool("smart_home_control_speaker", "Submit a normalized smart-home command for speaker volume control. Use this for volume up/down, mute, or setting an exact volume.", crate::tool_table::smart_home_control_speaker_parameters_value()));
    push_spec(&mut specs, tool("smart_home_control_light", "Submit a normalized smart-home command for light power, brightness, and RGB color. For color temperature or warm/neutral/white/cool tone, prefer smart_home_control_light_temperature.", crate::tool_table::smart_home_control_light_parameters_value()));
    push_spec(&mut specs, tool("smart_home_control_light_temperature", "Submit a normalized smart-home command for light color temperature and tone. Use this for 色温, 调冷, 调暖, 暖光, 中性光, 自然光, 白光, or 冷光. Kelvin values must be full integer K values: 1000K => 1000, 4000K => 4000, never 100 or 400.", crate::tool_table::smart_home_control_light_temperature_parameters_value()));
    push_spec(&mut specs, tool("smart_home_control_curtain", "Submit a normalized smart-home command for curtains, blinds, rollers, and openers.", crate::tool_table::smart_home_control_curtain_parameters_value()));
    push_spec(&mut specs, tool("smart_home_control_power", "Submit a normalized smart-home command for outlets and wall switches.", crate::tool_table::smart_home_control_power_parameters_value()));
    push_spec(&mut specs, tool("smart_home_control_scene", "Submit a normalized smart-home command to activate or deactivate a predefined home scene mode.", crate::tool_table::smart_home_control_scene_parameters_value()));
    push_spec(&mut specs, tool("digital_file_manager", "Inspect a known file path or directly list/count one directory. Use for file attributes, file size, directory contents, and immediate file counts.", crate::tool_table::digital_file_manager_parameters_value()));
    push_spec(&mut specs, tool("digital_photo_library", "Submit a normalized photo-library query. Use for album discovery, shared albums, album name search, finding which album contains a natural-language photo target, and single-photo capture metadata.", crate::tool_table::digital_photo_library_parameters_value()));
    push_spec(&mut specs, tool("digital_media_control", "Submit a normalized media playback command. Use for playing a title, pause/resume, episode navigation, switching audio/subtitle, casting, and progress lookup.", crate::tool_table::digital_media_control_parameters_value()));
    push_spec(&mut specs, tool("digital_security_monitor", "Submit a normalized camera/security query. Use for recent events, motion/person/vehicle/package checks, and identity recognition against known face labels.", crate::tool_table::digital_security_monitor_parameters_value()));
    push_spec(&mut specs, tool("digital_document_workspace", "Submit a normalized document operation. Use for PDF, Word, PPT, spreadsheet, OCR, structured extraction, and file-level document metadata queries. Current implementation is a mock payload for backend integration.", crate::tool_table::digital_document_workspace_parameters_value()));
    push_spec(&mut specs, tool("digital_text_assistant", "Submit a short-text language task. Use for summarization, translation, polishing, style rewrite, expansion, and compression of short text.", crate::tool_table::digital_text_assistant_parameters_value()));
    push_spec(&mut specs, tool("digital_note_knowledge", "Submit a normalized note/knowledge-base operation. Use for tagging notes, linking notes, creating topics, keyword search, and simple note QA.", crate::tool_table::digital_note_knowledge_parameters_value()));
    specs
}

/// The names that `parameters` lists as required.
pub fn required_fields(parameters: &JsonValue) -> (r: Vec<String>)
    ensures
        strings_view(r@) == required_names(parameters@),
{
    let mut out: Vec<String> = Vec::new();
    match parameters.get("required") {
        Some(JsonValue::Array(items)) => {
            let ghost iv = items_view(items@);
            proof {
                lemma_items_view(items@);
                assert(iv.take(0) =~= Seq::<JsonView>::empty());
                assert(strings_view(out@) =~= Seq::<Seq<char>>::empty());
            }
            let mut i: usize = 0;
            while i < items.len()
                invariant
                    i <= items.len(),
                    iv == items_view(items@),
                    iv.len() == items@.len(),
                    forall|j: int| 0 <= j < items@.len() ==> #[trigger] iv[j] == json_view(items@[j]),
                    strings_view(out@) == strings_of(iv.take(i as int)),
                decreases items.len() - i,
            {
                proof {
                    assert(iv.take(i + 1).drop_last() =~= iv.take(i as int));
                    assert(iv.take(i + 1).last() == json_view(items@[i as int]));
                }
                match items[i].as_str() {
                    Some(s) => {
                        let ghost before = out@;
                        out.push(owned(s));
                        proof {
                            assert(strings_view(out@) =~= strings_view(before).push(s@));
                        }
                    },
                    None => {},
                }
                i = i + 1;
            }
            proof {
                assert(iv.take(i as int) =~= iv);
            }
        },
        _ => {},
    }
    out
}

/// A tool declaration: a function with this name and description whose
/// parameter schema also asks for a `tool_title`.
pub fn tool(name: &str, description: &str, parameters: JsonValue) -> (r: ToolSpec)
    ensures
        r@ == (ToolSpecView {
            tool_type: "function"@,
            name: name@,
            description: description@,
            parameters: decorated(parameters@),
        }),
{
    ToolSpec {
        tool_type: owned("function"),
        function: ToolFunctionSpec {
            name: owned(name),
            description: owned(description),
            parameters: decorate_parameter_schema(parameters),
        },
    }
}

/// The opening of the tool-usage context sent with each request.
pub open spec fn context_header() -> Seq<char> {
    "Tool usage context for this turn:\n- Use only tools provided in the current `tools` request field.\n- Tool arguments must strictly match each tool JSON schema; include every required field.\n- Tool arguments must be one complete valid JSON object: close every `{` and `[`, quote every key and string, and do not output partial JSON.\n- Every tool call must include `tool_title`, a short 4-12 word title in the same language as the user.\n- If the user mentions a floor, room, or device name/alias, copy it into the matching tool argument; do not omit or generalize it.\n- Explicitly fill default numeric control values: speaker volume delta_percent=10, light brightness delta_percent=20, light color-temperature delta_kelvin=500, mute volume_percent=0.\n- For power tools, outlets/plugs/wall outlets use device_category=outlet; wall switches and single/double/triple switches use device_category=wall_switch.\n- Prefer specialized tools before `shell_exec`: use `pwd`, `list_dir`, `read_file`, or `search_text` when they fit.\n- Use at most one tool call per model round unless calls are independent.\n- After a tool result, inspect it before deciding whether another tool is needed.\n- For `shell_exec`, always provide both `command` and `args`; use `args: []` when there are no arguments. Example: {\"command\":\"uname\",\"args\":[\"-a\"],\"timeout_ms\":3000}.\n\nAvailable tools:\n"@
}

/// The line that introduces one tool in the tool-usage context.
pub open spec fn spec_line(s: ToolSpecView) -> Seq<char> {
    let required = required_names(s.parameters);
    "- `"@ + s.name + "`: "@ + s.description + (if required.len() > 0 {
        " Required: "@ + join_seq(required, ", "@) + "."@
    } else {
        Seq::<char>::empty()
    }) + "\n"@
}

/// The lines of a list of tools.
pub open spec fn spec_lines(specs: Seq<ToolSpecView>) -> Seq<char>
    decreases specs.len(),
{
    if specs.len() == 0 {
        Seq::empty()
    } else {
        spec_lines(specs.drop_last()) + spec_line(specs.last())
    }
}

/// The tool-usage context for a turn: the usage rules, then one line per
/// available tool with its required arguments.
pub fn tool_context_prompt(specs: &[ToolSpec]) -> (r: String)
    ensures
        r@ == context_header() + spec_lines(specs_view(specs@)),
{
    let ghost sv = specs_view(specs@);
    let mut prompt = owned("Tool usage context for this turn:\n- Use only tools provided in the current `tools` request field.\n- Tool arguments must strictly match each tool JSON schema; include every required field.\n- Tool arguments must be one complete valid JSON object: close every `{` and `[`, quote every key and string, and do not output partial JSON.\n- Every tool call must include `tool_title`, a short 4-12 word title in the same language as the user.\n- If the user mentions a floor, room, or device name/alias, copy it into the matching tool argument; do not omit or generalize it.\n- Explicitly fill default numeric control values: speaker volume delta_percent=10, light brightness delta_percent=20, light color-temperature delta_kelvin=500, mute volume_percent=0.\n- For power tools, outlets/plugs/wall outlets use device_category=outlet; wall switches and single/double/triple switches use device_category=wall_switch.\n- Prefer specialized tools before `shell_exec`: use `pwd`, `list_dir`, `read_file`, or `search_text` when they fit.\n- Use at most one tool call per model round unless calls are independent.\n- After a tool result, inspect it before deciding whether another tool is needed.\n- For `shell_exec`, always provide both `command` and `args`; use `args: []` when there are no arguments. Example: {\"command\":\"uname\",\"args\":[\"-a\"],\"timeout_ms\":3000}.\n\nAvailable tools:\n");
    proof {
        assert(sv.take(0) =~= Seq::<ToolSpecView>::empty());
        assert(prompt@ =~= context_header() + spec_lines(sv.take(0)));
    }
    let mut i: usize = 0;
    while i < specs.len()
        invariant
            i <= specs.len(),
            sv == specs_view(specs@),
            prompt@ == context_header() + spec_lines(sv.take(i as int)),
        decreases specs.len() - i,
    {
        let spec = &specs[i];
        let ghost before = prompt@;
        let head = quoted("- `", spec.function.name.as_str(), "`: ");
        let mut line = concat_str(head.as_str(), spec.function.description.as_str());
        let required = required_fields(&spec.function.parameters);
        if required.len() > 0 {
            let joined = join_strings(&required, ", ");
            let tail = quoted(" Required: ", joined.as_str(), ".");
            line = concat_str(line.as_str(), tail.as_str());
        }
        line = concat_str(line.as_str(), "\n");
        proof {
            reveal_strlit("");
            assert(line@ =~= spec_line(sv[i as int]));
        }
        prompt = concat_str(prompt.as_str(), line.as_str());
        proof {
            assert(sv.take(i + 1).drop_last() =~= sv.take(i as int));
            assert(prompt@ =~= context_header() + spec_lines(sv.take(i + 1)));
        }
        i = i + 1;
    }
    proof {
        assert(sv.take(i as int) =~= sv);
    }
    prompt
}

/// The position of the first tool named `name`; the length when none is.
pub open spec fn spec_index(specs: Seq<ToolSpecView>, name: Seq<char>) -> int
    decreases specs.len(),
{
    if specs.len() == 0 {
        0
    } else if specs[0].name == name {
        0
    } else {
        1 + spec_index(specs.drop_first(), name)
    }
}

proof fn lemma_spec_index(specs: Seq<ToolSpecView>, name: Seq<char>)
    ensures
        0 <= spec_index(specs, name) <= specs.len(),
        spec_index(specs, name) < specs.len() ==> specs[spec_index(specs, name)].name == name,
        forall|j: int| 0 <= j < spec_index(specs, name) ==> #[trigger] specs[j].name != name,
    decreases specs.len(),
{
    if specs.len() > 0 && specs[0].name != name {
        lemma_spec_index(specs.drop_first(), name);
        assert forall|j: int| 0 <= j < spec_index(specs, name) implies #[trigger] specs[j].name
            != name by {
            if j > 0 {
                assert(specs[j] == specs.drop_first()[j - 1]);
            }
        }
    }
}

/// Whether every name is the name of one of the tools.
pub open spec fn all_known(specs: Seq<ToolSpecView>, names: Seq<Seq<char>>) -> bool {
    forall|k: int| 0 <= k < names.len() ==> spec_index(specs, #[trigger] names[k]) < specs.len()
}

/// The position of the first name that no tool has; the length when there is none.
pub open spec fn first_unknown(specs: Seq<ToolSpecView>, names: Seq<Seq<char>>) -> int
    decreases names.len(),
{
    if names.len() == 0 {
        0
    } else if spec_index(specs, names[0]) == specs.len() {
        0
    } else {
        1 + first_unknown(specs, names.drop_first())
    }
}

proof fn lemma_first_unknown(specs: Seq<ToolSpecView>, names: Seq<Seq<char>>)
    ensures
        0 <= first_unknown(specs, names) <= names.len(),
        first_unknown(specs, names) < names.len() ==> spec_index(specs, names[first_unknown(specs, names)]) == specs.len(),
        forall|k: int| 0 <= k < first_unknown(specs, names) ==> spec_index(specs, #[trigger] names[k]) < specs.len(),
        (first_unknown(specs, names) == names.len()) == all_known(specs, names),
    decreases names.len(),
{
    if names.len() > 0 {
        lemma_spec_index(specs, names[0]);
        if spec_index(specs, names[0]) < specs.len() {
            lemma_first_unknown(specs, names.drop_first());
            assert forall|k: int| 0 <= k < first_unknown(specs, names) implies spec_index(specs, #[trigger] names[k]) < specs.len() by {
                if k > 0 {
                    assert(names[k] == names.drop_first()[k - 1]);
                }
            }
            if first_unknown(specs, names) == names.len() {
                assert(all_known(specs, names));
            } else {
                let k = first_unknown(specs, names);
                assert(names[k] == names.drop_first()[k - 1]);
            }
        }
    }
}

/// The texts of a sequence of string slices.
pub open spec fn names_view(names: Seq<&str>) -> Seq<Seq<char>> {
    names.map_values(|n: &str| n@)
}

/// The built-in tools with these names, in the order of the names; an error
/// for the first name that the table lacks.
pub fn tool_specs_by_name(names: &[&str]) -> (r: Result<Vec<ToolSpec>, ToolError>)
    ensures
        ({
            let sv = crate::tool_table::tool_specs_spec();
            let nv = names_view(names@);
            match r {
                Ok(found) => all_known(sv, nv) && specs_view(found@) == nv.map_values(
                    |n: Seq<char>| sv[spec_index(sv, n)],
                ),
                Err(e) => !all_known(sv, nv) && (e matches ToolError::UnknownToolInAgent(n) && n@
                    == nv[first_unknown(sv, nv)]),
            }
        }),
{
    let all = tool_specs();
    select_tool_specs(all.as_slice(), names)
}

/// The tools with these names, in the order of the names, taken from `all`;
/// an error for the first name that none of them has.
pub fn select_tool_specs(all: &[ToolSpec], names: &[&str]) -> (r: Result<Vec<ToolSpec>, ToolError>)
    ensures
        ({
            let sv = specs_view(all@);
            let nv = names_view(names@);
            match r {
                Ok(found) => all_known(sv, nv) && specs_view(found@) == nv.map_values(
                    |n: Seq<char>| sv[spec_index(sv, n)],
                ),
                Err(e) => !all_known(sv, nv) && (e matches ToolError::UnknownToolInAgent(n) && n@
                    == nv[first_unknown(sv, nv)]),
            }
        }),
{
    let ghost sv = specs_view(all@);
    let ghost nv = names_view(names@);
    let ghost pick = |n: Seq<char>| sv[spec_index(sv, n)];
    proof {
        lemma_first_unknown(sv, nv);
    }
    let mut found: Vec<ToolSpec> = Vec::new();
    let mut k: usize = 0;
    while k < names.len()
        invariant
            k <= names.len(),
            sv == specs_view(all@),
            nv == names_view(names@),
            pick == (|n: Seq<char>| sv[spec_index(sv, n)]),
            0 <= first_unknown(sv, nv) <= nv.len(),
            first_unknown(sv, nv) < nv.len() ==> spec_index(sv, nv[first_unknown(sv, nv)]) == sv.len(),
            forall|j: int| 0 <= j < first_unknown(sv, nv) ==> spec_index(sv, #[trigger] nv[j]) < sv.len(),
            (first_unknown(sv, nv) == nv.len()) == all_known(sv, nv),
            k <= first_unknown(sv, nv),
            specs_view(found@) == nv.take(k as int).map_values(pick),
        decreases names.len() - k,
    {
        let name = names[k];
        proof {
            lemma_spec_index(sv, name@);
            assert(nv[k as int] == name@);
        }
        let mut i: usize = 0;
        while i < all.len() && !str_eq(all[i].function.name.as_str(), name)
            invariant
                i <= all.len(),
                sv == specs_view(all@),
                0 <= spec_index(sv, name@) <= sv.len(),
                spec_index(sv, name@) < sv.len() ==> sv[spec_index(sv, name@)].name == name@,
                forall|j: int| 0 <= j < spec_index(sv, name@) ==> #[trigger] sv[j].name != name@,
                i <= spec_index(sv, name@),
            decreases all.len() - i,
        {
            i = i + 1;
        }
        if i == all.len() {
            proof {
                if spec_index(sv, name@) < sv.len() {
                    assert(sv[i as int].name == name@);
                }
                assert(k == first_unknown(sv, nv));
            }
            return Err(ToolError::UnknownToolInAgent(owned(name)));
        }
        proof {
            assert(sv[i as int].name == name@);
            if i < spec_index(sv, name@) {
                assert(sv[i as int].name != name@);
            }
            assert(i == spec_index(sv, name@));
        }
        let ghost before = found@;
        found.push(all[i].clone());
        proof {
            assert(nv.take(k + 1) =~= nv.take(k as int).push(nv[k as int]));
            assert(specs_view(found@) =~= specs_view(before).push(sv[i as int]));
        }
        k = k + 1;
    }
    proof {
        assert(nv.take(k as int) =~= nv);
    }
    Ok(found)
}

/// The text under `key` when it holds a string.
pub fn string_arg(args: &JsonValue, key: &str) -> (r: Option<String>)
    ensures
        opt_view(r) == as_str_view(get_field(args@, key@)),
{
    match args.get(key) {
        Some(v) => match v.as_str() {
            Some(s) => Some(owned(s)),
            None => None,
        },
        None => None,
    }
}

/// The text under `key`; an error naming `key` when there is no string there.
pub fn required_string_arg(args: &JsonValue, key: &str) -> (r: Result<String, ToolError>)
    ensures
        match as_str_view(get_field(args@, key@)) {
            Some(s) => r matches Ok(v) && v@ == s,
            None => r matches Err(ToolError::MissingString(k)) && k@ == key@,
        },
{
    match string_arg(args, key) {
        Some(s) => Ok(s),
        None => Err(ToolError::MissingString(owned(key))),
    }
}

/// The non-negative integer under `key`, as a `usize`.
pub fn usize_arg(args: &JsonValue, key: &str) -> (r: Option<usize>)
    ensures
        r == match as_u64_view(get_field(args@, key@)) {
            Some(v) => Some(v as usize),
            None => None::<usize>,
        },
{
    match args.get(key) {
        Some(v) => match v.as_u64() {
            Some(n) => Some(n as usize),
            None => None,
        },
        None => None,
    }
}

/// The flag under `key`.
pub fn bool_arg(args: &JsonValue, key: &str) -> (r: Option<bool>)
    ensures
        r == as_bool_view(get_field(args@, key@)),
{
    match args.get(key) {
        Some(v) => v.as_bool(),
        None => None,
    }
}

/// Whether every value of the list is a string.
pub open spec fn all_strings(items: Seq<JsonView>) -> bool {
    forall|j: int| 0 <= j < items.len() ==> #[trigger] items[j] is Str
}

/// The strings under `key`: none when it is absent; an error when it is not
/// an array or holds something other than strings.
pub fn string_array_arg(args: &JsonValue, key: &str) -> (r: Result<Vec<String>, ToolError>)
    ensures
        match get_field(args@, key@) {
            None => r matches Ok(v) && v@.len() == 0,
            Some(JsonView::Array(items)) => if all_strings(items) {
                r matches Ok(v) && strings_view(v@) == strings_of(items)
            } else {
                r matches Err(ToolError::NotStrings(k)) && k@ == key@
            },
            Some(_) => r matches Err(ToolError::NotArray(k)) && k@ == key@,
        },
{
    let value = match args.get(key) {
        Some(v) => v,
        None => {
            return Ok(Vec::new());
        },
    };
    let items = match value {
        JsonValue::Array(items) => items,
        _ => {
            return Err(ToolError::NotArray(owned(key)));
        },
    };
    let ghost iv = items_view(items@);
    proof {
        lemma_items_view(items@);
        assert(iv.take(0) =~= Seq::<JsonView>::empty());
        assert(strings_view(Seq::<String>::empty()) =~= Seq::<Seq<char>>::empty());
        assert(value@ == JsonView::Array(iv));
    }
    let mut out: Vec<String> = Vec::new();
    let mut i: usize = 0;
    while i < items.len()
        invariant
            i <= items.len(),
            iv == items_view(items@),
            get_field(args@, key@) == Some(JsonView::Array(iv)),
            iv.len() == items@.len(),
            forall|j: int| 0 <= j < items@.len() ==> #[trigger] iv[j] == json_view(items@[j]),
            forall|j: int| 0 <= j < i ==> #[trigger] iv[j] is Str,
            strings_view(out@) == strings_of(iv.take(i as int)),
        decreases items.len() - i,
    {
        proof {
            assert(iv.take(i + 1).drop_last() =~= iv.take(i as int));
            assert(iv.take(i + 1).last() == json_view(items@[i as int]));
        }
        match items[i].as_str() {
            Some(s) => {
                let ghost before = out@;
                out.push(owned(s));
                proof {
                    assert(strings_view(out@) =~= strings_view(before).push(s@));
                }
            },
            None => {
                assert(!(iv[i as int] is Str));
                assert(!all_strings(iv));
                return Err(ToolError::NotStrings(owned(key)));
            },
        }
        i = i + 1;
    }
    proof {
        assert(iv.take(i as int) =~= iv);
    }
    Ok(out)
}

/// The entries with the number `d` put under `field` when it is absent or
/// null.
pub open spec fn with_default(e: Seq<(Seq<char>, JsonView)>, field: Seq<char>, d: int) -> Seq<
    (Seq<char>, JsonView),
> {
    match lookup(e, field) {
        None => put_entry(e, field, JsonView::Number(int_number(d))),
        Some(JsonView::Null) => put_entry(e, field, JsonView::Number(int_number(d))),
        _ => e,
    }
}

/// The text of the `action` entry.
pub open spec fn action_of(e: Seq<(Seq<char>, JsonView)>) -> Option<Seq<char>> {
    as_str_view(lookup(e, "action"@))
}

/// Speaker commands: a volume step of 10 when raising or lowering the volume,
/// and volume 0 when muting, unless given.
pub open spec fn speaker_defaults(e: Seq<(Seq<char>, JsonView)>) -> Seq<(Seq<char>, JsonView)> {
    match action_of(e) {
        Some(a) => if a == "increase_volume"@ || a == "decrease_volume"@ {
            with_default(e, "delta_percent"@, 10)
        } else if a == "mute"@ {
            with_default(e, "volume_percent"@, 0)
        } else {
            e
        },
        None => e,
    }
}

/// Light commands: a brightness step of 20 and a colour-temperature step of
/// 500 K, unless given.
pub open spec fn light_defaults(e: Seq<(Seq<char>, JsonView)>) -> Seq<(Seq<char>, JsonView)> {
    match action_of(e) {
        Some(a) => if a == "increase_brightness"@ || a == "decrease_brightness"@ {
            with_default(e, "delta_percent"@, 20)
        } else if a == "increase_color_temperature"@ || a == "decrease_color_temperature"@ {
            with_default(e, "delta_kelvin"@, 500)
        } else {
            e
        },
        None => e,
    }
}

/// A colour temperature given in tens of kelvin (100 to 600) scaled to
/// kelvin.
pub open spec fn scale_kelvin(e: Seq<(Seq<char>, JsonView)>, field: Seq<char>) -> Seq<
    (Seq<char>, JsonView),
> {
    match as_i64_view(lookup(e, field)) {
        Some(v) => if 100 <= v <= 600 {
            put_entry(e, field, JsonView::Number(int_number(v * 10)))
        } else {
            e
        },
        None => e,
    }
}

/// A colour-temperature step defaulted to 500 K, with 100 and 120 read as
/// tens of kelvin.
pub open spec fn scale_delta_kelvin(e: Seq<(Seq<char>, JsonView)>) -> Seq<(Seq<char>, JsonView)> {
    let e1 = with_default(e, "delta_kelvin"@, 500);
    match as_i64_view(lookup(e1, "delta_kelvin"@)) {
        Some(v) => if v == 100 || v == 120 {
            put_entry(e1, "delta_kelvin"@, JsonView::Number(int_number(v * 10)))
        } else {
            e1
        },
        None => e1,
    }
}

/// A named light tone turned into its colour temperature (warm 3000 K,
/// neutral or natural 4000 K, white or cool 6000 K); otherwise the given
/// temperature scaled to kelvin.
pub open spec fn tone_kelvin(e: Seq<(Seq<char>, JsonView)>) -> Seq<(Seq<char>, JsonView)> {
    let k = "color_temperature_kelvin"@;
    match as_str_view(lookup(e, "light_tone"@)) {
        Some(t) => if t == "warm"@ {
            put_entry(e, k, JsonView::Number(int_number(3000)))
        } else if t == "neutral"@ || t == "natural"@ {
            put_entry(e, k, JsonView::Number(int_number(4000)))
        } else if t == "white"@ || t == "cool"@ {
            put_entry(e, k, JsonView::Number(int_number(6000)))
        } else {
            scale_kelvin(e, k)
        },
        None => scale_kelvin(e, k),
    }
}

/// The arguments of a smart-home tool call with their defaults filled in and
/// colour temperatures in kelvin.
pub open spec fn normalized_entries(name: Seq<char>, e: Seq<(Seq<char>, JsonView)>) -> Seq<
    (Seq<char>, JsonView),
> {
    if name == "smart_home_control_speaker"@ {
        speaker_defaults(e)
    } else {
        let e1 = if name == "smart_home_control_light"@ {
            light_defaults(e)
        } else {
            e
        };
        if !(name == "smart_home_control_light"@ || name == "smart_home_control_light_temperature"@) {
            e1
        } else {
            match action_of(e1) {
                Some(a) => if a == "set_light_tone"@ {
                    tone_kelvin(e1)
                } else if a == "set_color_temperature"@ {
                    scale_kelvin(e1, "color_temperature_kelvin"@)
                } else if a == "increase_color_temperature"@ || a == "decrease_color_temperature"@ {
                    scale_delta_kelvin(e1)
                } else {
                    e1
                },
                None => e1,
            }
        }
    }
}

/// The normalised arguments; anything but an object is left as it is.
pub open spec fn normalized_args(name: Seq<char>, v: JsonView) -> JsonView {
    match v {
        JsonView::Object(e) => JsonView::Object(normalized_entries(name, e)),
        _ => v,
    }
}

/// The text under `key` in the entries, when it is a string.
fn entry_str<'a>(entries: &'a Vec<(String, JsonValue)>, key: &str) -> (r: Option<&'a str>)
    ensures
        match r {
            Some(s) => as_str_view(lookup(entries_view(entries@), key@)) == Some(s@),
            None => as_str_view(lookup(entries_view(entries@), key@)) is None,
        },
{
    let p = find_entry(entries, key);
    if p < entries.len() {
        entries[p].1.as_str()
    } else {
        None
    }
}

/// The integer under `key` in the entries, when it is one in range.
fn entry_i64(entries: &Vec<(String, JsonValue)>, key: &str) -> (r: Option<i64>)
    ensures
        r == as_i64_view(lookup(entries_view(entries@), key@)),
{
    let p = find_entry(entries, key);
    if p < entries.len() {
        entries[p].1.as_i64()
    } else {
        None
    }
}

/// Puts the number `d` under `field` when it is absent or null.
fn insert_default_number(entries: &mut Vec<(String, JsonValue)>, field: &str, d: i64)
    ensures
        entries_view(final(entries)@) == with_default(entries_view(old(entries)@), field@, d as int),
{
    let p = find_entry(entries, field);
    if p == entries.len() || entries[p].1.is_null() {
        insert_entry(entries, field, JsonValue::Number(JsonNumber::from_i64(d)));
    }
}

fn normalize_speaker_defaults(entries: &mut Vec<(String, JsonValue)>)
    ensures
        entries_view(final(entries)@) == speaker_defaults(entries_view(old(entries)@)),
{
    let action = match entry_str(entries, "action") {
        Some(a) => owned(a),
        None => {
            return;
        },
    };
    if str_eq(action.as_str(), "increase_volume") || str_eq(action.as_str(), "decrease_volume") {
        insert_default_number(entries, "delta_percent", 10);
    } else if str_eq(action.as_str(), "mute") {
        insert_default_number(entries, "volume_percent", 0);
    }
}

fn normalize_light_defaults(entries: &mut Vec<(String, JsonValue)>)
    ensures
        entries_view(final(entries)@) == light_defaults(entries_view(old(entries)@)),
{
    let action = match entry_str(entries, "action") {
        Some(a) => owned(a),
        None => {
            return;
        },
    };
    if str_eq(action.as_str(), "increase_brightness") || str_eq(
        action.as_str(),
        "decrease_brightness",
    ) {
        insert_default_number(entries, "delta_percent", 20);
    } else if str_eq(action.as_str(), "increase_color_temperature") || str_eq(
        action.as_str(),
        "decrease_color_temperature",
    ) {
        insert_default_number(entries, "delta_kelvin", 500);
    }
}

fn scale_kelvin_field(entries: &mut Vec<(String, JsonValue)>, field: &str)
    ensures
        entries_view(final(entries)@) == scale_kelvin(entries_view(old(entries)@), field@),
{
    match entry_i64(entries, field) {
        Some(v) => {
            if 100 <= v && v <= 600 {
                insert_entry(entries, field, JsonValue::Number(JsonNumber::from_i64(v * 10)));
            }
        },
        None => {},
    }
}

fn scale_common_delta_kelvin(entries: &mut Vec<(String, JsonValue)>)
    ensures
        entries_view(final(entries)@) == scale_delta_kelvin(entries_view(old(entries)@)),
{
    insert_default_number(entries, "delta_kelvin", 500);
    match entry_i64(entries, "delta_kelvin") {
        Some(v) => {
            if v == 100 || v == 120 {
                insert_entry(
                    entries,
                    "delta_kelvin",
                    JsonValue::Number(JsonNumber::from_i64(v * 10)),
                );
            }
        },
        None => {},
    }
}

fn normalize_light_tone_kelvin(entries: &mut Vec<(String, JsonValue)>)
    ensures
        entries_view(final(entries)@) == tone_kelvin(entries_view(old(entries)@)),
{
    let kelvin: Option<i64> = match entry_str(entries, "light_tone") {
        Some(t) => if str_eq(t, "warm") {
            Some(3000)
        } else if str_eq(t, "neutral") || str_eq(t, "natural") {
            Some(4000)
        } else if str_eq(t, "white") || str_eq(t, "cool") {
            Some(6000)
        } else {
            None
        },
        None => None,
    };
    match kelvin {
        Some(k) => {
            insert_entry(entries, "color_temperature_kelvin", JsonValue::Number(JsonNumber::from_i64(k)));
        },
        None => {
            scale_kelvin_field(entries, "color_temperature_kelvin");
        },
    }
}

/// Fills in the defaults of a smart-home tool call and turns colour
/// temperatures given in tens of kelvin or as a named tone into kelvin.
pub fn normalize_smart_home_args(name: &str, args: &mut JsonValue)
    ensures
        final(args)@ == normalized_args(name@, old(args)@),
{
    match args {
        JsonValue::Object(entries) => {
            if str_eq(name, "smart_home_control_speaker") {
                normalize_speaker_defaults(entries);
                return;
            }
            if str_eq(name, "smart_home_control_light") {
                normalize_light_defaults(entries);
            }
            if !(str_eq(name, "smart_home_control_light") || str_eq(
                name,
                "smart_home_control_light_temperature",
            )) {
                return;
            }
            let action = match entry_str(entries, "action") {
                Some(a) => owned(a),
                None => {
                    return;
                },
            };
            if str_eq(action.as_str(), "set_light_tone") {
                normalize_light_tone_kelvin(entries);
            } else if str_eq(action.as_str(), "set_color_temperature") {
                scale_kelvin_field(entries, "color_temperature_kelvin");
            } else if str_eq(action.as_str(), "increase_color_temperature") || str_eq(
                action.as_str(),
                "decrease_color_temperature",
            ) {
                scale_common_delta_kelvin(entries);
            }
        },
        _ => {},
    }
}

/// The payload that stands for a smart-home command: accepted, with the tool
/// name and the normalised arguments.
pub open spec fn smart_home_payload(name: Seq<char>, args: JsonView) -> JsonView {
    JsonView::Object(
        seq![
            ("status"@, JsonView::Str("accepted"@)),
            ("tool"@, JsonView::Str(name)),
            ("command"@, normalized_args(name, args)),
            (
                "note"@,
                JsonView::Str(
                    "normalized smart-home command payload; map this to the real home gateway integration"@,
                ),
            ),
        ],
    )
}

/// The reply to a smart-home tool call: the normalised command, accepted.
pub fn smart_home_command(name: &str, args: JsonValue) -> (r: JsonValue)
    ensures
        r@ == smart_home_payload(name@, args@),
{
    let ghost av = args@;
    let mut args = args;
    normalize_smart_home_args(name, &mut args);
    let mut entries: Vec<(String, JsonValue)> = Vec::new();
    entries.push((owned("status"), JsonValue::string("accepted")));
    entries.push((owned("tool"), JsonValue::string(name)));
    entries.push((owned("command"), args));
    entries.push(
        (
            owned("note"),
            JsonValue::string(
                "normalized smart-home command payload; map this to the real home gateway integration",
            ),
        ),
    );
    proof {
        lemma_entries_view(entries@);
        assert(entries_view(entries@) =~= match smart_home_payload(name@, av) {
            JsonView::Object(e) => e,
            _ => Seq::empty(),
        });
    }
    JsonValue::Object(entries)
}

/// The payload that stands for a digital-life request: accepted, with the
/// tool name and the arguments as given.
pub open spec fn digital_life_payload(name: Seq<char>, args: JsonView) -> JsonView {
    JsonView::Object(
        seq![
            ("status"@, JsonView::Str("accepted"@)),
            ("tool"@, JsonView::Str(name)),
            ("command"@, args),
            (
                "note"@,
                JsonView::Str(
                    "normalized digital-life payload; map this to the real album, media, security, document, OCR, note, or text backend integration"@,
                ),
            ),
        ],
    )
}

/// The reply to a digital-life tool call that has no backend yet: the
/// request, accepted.
pub fn digital_life_mock_command(name: &str, args: JsonValue) -> (r: JsonValue)
    ensures
        r@ == digital_life_payload(name@, args@),
{
    let ghost av = args@;
    let mut entries: Vec<(String, JsonValue)> = Vec::new();
    entries.push((owned("status"), JsonValue::string("accepted")));
    entries.push((owned("tool"), JsonValue::string(name)));
    entries.push((owned("command"), args));
    entries.push(
        (
            owned("note"),
            JsonValue::string(
                "normalized digital-life payload; map this to the real album, media, security, document, OCR, note, or text backend integration",
            ),
        ),
    );
    proof {
        lemma_entries_view(entries@);
        assert(entries_view(entries@) =~= match digital_life_payload(name@, av) {
            JsonView::Object(e) => e,
            _ => Seq::empty(),
        });
    }
    JsonValue::Object(entries)
}

/// `value` cut to `max_bytes` bytes and marked `[truncated]` when it is
/// longer.
pub open spec fn truncated_text(value: Seq<char>, max_bytes: nat) -> Seq<char> {
    if str_len(value) <= max_bytes {
        value
    } else {
        byte_prefix(value, max_bytes) + "\n[truncated]"@
    }
}

/// `value` cut to at most `max_bytes` bytes, with a `[truncated]` line when
/// anything was cut. The cut falls between two characters.
pub fn truncate(value: String, max_bytes: usize) -> (r: String)
    requires
        is_byte_boundary(value@, max_bytes as nat),
    ensures
        r@ == truncated_text(value@, max_bytes as nat),
{
    if value.as_str().len() <= max_bytes {
        return value;
    }
    let cut = truncate_bytes(value.as_str(), max_bytes);
    concat_str(cut.as_str(), "\n[truncated]")
}

/// What a finished command reports: its exit code and both output streams.
pub open spec fn command_report(status: i32, stdout: Seq<char>, stderr: Seq<char>) -> Seq<char> {
    "exit_code: "@ + signed_decimal_seq(status as int) + "\nstdout:\n"@ + stdout + "\nstderr:\n"@
        + stderr
}

/// The report of a finished command, cut to the output limit.
pub fn command_output(status: i32, stdout: &str, stderr: &str) -> (r: String)
    requires
        is_byte_boundary(command_report(status, stdout@, stderr@), MAX_OUTPUT_BYTES as nat),
    ensures
        r@ == truncated_text(command_report(status, stdout@, stderr@), MAX_OUTPUT_BYTES as nat),
{
    let code = i64_to_text(status as i64);
    let head = concat_str("exit_code: ", code.as_str());
    let with_out = quoted(head.as_str(), "\nstdout:\n", stdout);
    let report = quoted(with_out.as_str(), "\nstderr:\n", stderr);
    truncate(report, MAX_OUTPUT_BYTES)
}

/// The commands that `shell_exec` may run.
pub open spec fn allowed_commands() -> Seq<Seq<char>> {
    seq![
        "pwd"@, "ls"@, "cat"@, "head"@, "tail"@, "wc"@, "rg"@, "find"@, "date"@, "uname"@,
        "whoami"@, "df"@, "du"@, "ps"@, "env"@,
    ]
}

/// The commands `shell_exec` may run are exactly the fifteen that its
/// schema offers for `command`, in the same order: pwd, ls, cat, head, tail,
/// wc, rg, find, date, uname, whoami, df, du, ps and env.
pub proof fn lemma_allowlist_matches_schema()
    ensures
        ({
            let props = get_field(crate::tool_table::shell_exec_parameters(), "properties"@);
            let cmd = match props {
                Some(p) => get_field(p, "command"@),
                None => None,
            };
            let choices = match cmd {
                Some(c) => get_field(c, "enum"@),
                None => None,
            };
            choices == Some(
                JsonView::Array(allowed_commands().map_values(|c: Seq<char>| JsonView::Str(c))),
            )
        }),
        allowed_commands().len() == 15,
        forall|c: Seq<char>| #[trigger] allowed_commands().contains(c) <==> (c == "pwd"@ || c == "ls"@ || c == "cat"@ || c == "head"@ || c == "tail"@ || c == "wc"@ || c == "rg"@ || c == "find"@ || c == "date"@ || c == "uname"@ || c == "whoami"@ || c == "df"@ || c == "du"@ || c == "ps"@ || c == "env"@),
{
    reveal_strlit("additionalProperties");
    reveal_strlit("properties");
    reveal_strlit("args");
    reveal_strlit("command");
    reveal_strlit("enum");
    reveal_with_fuel(lookup, 4);
    assert("additionalProperties"@[0] != "properties"@[0]);
    assert("args"@[0] != "command"@[0]);
    let a = allowed_commands();
    assert(a[0] == "pwd"@);
    assert(a[1] == "ls"@);
    assert(a[2] == "cat"@);
    assert(a[3] == "head"@);
    assert(a[4] == "tail"@);
    assert(a[5] == "wc"@);
    assert(a[6] == "rg"@);
    assert(a[7] == "find"@);
    assert(a[8] == "date"@);
    assert(a[9] == "uname"@);
    assert(a[10] == "whoami"@);
    assert(a[11] == "df"@);
    assert(a[12] == "du"@);
    assert(a[13] == "ps"@);
    assert(a[14] == "env"@);
    let props = get_field(crate::tool_table::shell_exec_parameters(), "properties"@);
    match props {
        Some(p) => {
            match get_field(p, "command"@) {
                Some(c) => {
                    match get_field(c, "enum"@) {
                        Some(JsonView::Array(items)) => {
                            assert(items =~= a.map_values(|c: Seq<char>| JsonView::Str(c)));
                        },
                        _ => {},
                    }
                },
                None => {},
            }
        },
        None => {},
    }
}

/// Whether `command` may be run by `shell_exec`.
pub fn is_allowed_command(command: &str) -> (r: bool)
    ensures
        r == allowed_commands().contains(command@),
{
    let allowed = vec![
        "pwd", "ls", "cat", "head", "tail", "wc", "rg", "find", "date", "uname", "whoami", "df",
        "du", "ps", "env",
    ];
    let ghost av = names_view(allowed@);
    proof {
        assert(av =~= allowed_commands());
    }
    let mut i: usize = 0;
    while i < allowed.len()
        invariant
            i <= allowed.len(),
            av == names_view(allowed@),
            av == allowed_commands(),
            forall|j: int| 0 <= j < i ==> av[j] != command@,
        decreases allowed.len() - i,
    {
        if str_eq(allowed[i], command) {
            assert(av[i as int] == command@);
            return true;
        }
        i = i + 1;
    }
    proof {
        if av.contains(command@) {
            let j = choose|j: int| 0 <= j < av.len() && av[j] == command@;
            assert(av[j] != command@);
        }
    }
    false
}

/// A command to run: the program, its arguments, and how long it may take.
#[derive(Debug)]
pub struct ShellRequest {
    pub command: String,
    pub args: Vec<String>,
    pub timeout_ms: usize,
}

/// A value held between two bounds.
pub open spec fn clamp(v: int, lo: int, hi: int) -> int {
    if v < lo {
        lo
    } else if v > hi {
        hi
    } else {
        v
    }
}

/// The timeout asked for in `timeout_ms` (3000 when not given), held between
/// 100 and 10000.
pub open spec fn shell_timeout(args: JsonView) -> int {
    clamp(
        match as_u64_view(get_field(args, "timeout_ms"@)) {
            Some(v) => (v as usize) as int,
            None => 3000,
        },
        100,
        10000,
    )
}

/// The command that a `shell_exec` call asks for: its `command` and `args`
/// checked, its timeout bounded, and the command held to the allowlist.
pub fn shell_request(args: &JsonValue) -> (r: Result<ShellRequest, ToolError>)
    ensures
        match as_str_view(get_field(args@, "command"@)) {
            None => r matches Err(ToolError::MissingString(k)) && k@ == "command"@,
            Some(c) => match get_field(args@, "args"@) {
                Some(JsonView::Array(items)) if !all_strings(items) => r matches Err(
                    ToolError::NotStrings(k),
                ) && k@ == "args"@,
                Some(v) if !(v is Array) => r matches Err(ToolError::NotArray(k)) && k@ == "args"@,
                _ => if allowed_commands().contains(c) {
                    r matches Ok(req) && req.command@ == c && req.timeout_ms == shell_timeout(args@)
                        && strings_view(req.args@) == match get_field(args@, "args"@) {
                        Some(JsonView::Array(items)) => strings_of(items),
                        _ => Seq::<Seq<char>>::empty(),
                    }
                } else {
                    r matches Err(ToolError::NotAllowed(n)) && n@ == c
                },
            },
        },
{
    let command = match required_string_arg(args, "command") {
        Ok(c) => c,
        Err(e) => {
            return Err(e);
        },
    };
    let argv = match string_array_arg(args, "args") {
        Ok(v) => v,
        Err(e) => {
            return Err(e);
        },
    };
    let asked = match usize_arg(args, "timeout_ms") {
        Some(t) => t,
        None => 3000,
    };
    let timeout_ms = if asked < 100 {
        100
    } else if asked > 10000 {
        10000
    } else {
        asked
    };
    if !is_allowed_command(command.as_str()) {
        return Err(ToolError::NotAllowed(command));
    }
    proof {
        if get_field(args@, "args"@) is None {
            assert(strings_view(argv@) =~= Seq::<Seq<char>>::empty());
        }
    }
    Ok(ShellRequest { command, args: argv, timeout_ms })
}

/// A text search: what to look for, where, and how many matches at most.
#[derive(Debug)]
pub struct SearchRequest {
    pub pattern: String,
    pub path: String,
    pub max_results: usize,
}

/// The search that a `search_text` call asks for: `pattern` is required,
/// `path` defaults to the working directory and `max_results` to 50, at most
/// 200.
pub fn search_request(args: &JsonValue) -> (r: Result<SearchRequest, ToolError>)
    ensures
        match as_str_view(get_field(args@, "pattern"@)) {
            None => r matches Err(ToolError::MissingString(k)) && k@ == "pattern"@,
            Some(p) => r matches Ok(req) && req.pattern@ == p && req.path@ == match as_str_view(
                get_field(args@, "path"@),
            ) {
                Some(path) => path,
                None => "."@,
            } && req.max_results == match as_u64_view(get_field(args@, "max_results"@)) {
                Some(v) => if (v as usize) < 200 {
                    v as usize
                } else {
                    200
                },
                None => 50,
            },
        },
{
    let pattern = match required_string_arg(args, "pattern") {
        Ok(p) => p,
        Err(e) => {
            return Err(e);
        },
    };
    let path = match string_arg(args, "path") {
        Some(p) => p,
        None => owned("."),
    };
    let asked = match usize_arg(args, "max_results") {
        Some(m) => m,
        None => 50,
    };
    let max_results = if asked < 200 {
        asked
    } else {
        200
    };
    Ok(SearchRequest { pattern, path, max_results })
}

/// The file that a `read_file` call asks for and how many bytes of it to
/// hand back (the output limit when not given).
pub fn read_file_request(args: &JsonValue) -> (r: Result<(String, usize), ToolError>)
    ensures
        match as_str_view(get_field(args@, "path"@)) {
            None => r matches Err(ToolError::MissingString(k)) && k@ == "path"@,
            Some(p) => r matches Ok((path, max)) && path@ == p && max == match as_u64_view(
                get_field(args@, "max_bytes"@),
            ) {
                Some(v) => v as usize,
                None => MAX_OUTPUT_BYTES,
            },
        },
{
    let path = match required_string_arg(args, "path") {
        Ok(p) => p,
        Err(e) => {
            return Err(e);
        },
    };
    let max_bytes = match usize_arg(args, "max_bytes") {
        Some(m) => m,
        None => MAX_OUTPUT_BYTES,
    };
    Ok((path, max_bytes))
}

/// The directory that a `list_dir` call asks for: its `path`, else the
/// working directory.
pub fn list_dir_request(args: &JsonValue) -> (r: String)
    ensures
        r@ == match as_str_view(get_field(args@, "path"@)) {
            Some(p) => p,
            None => "."@,
        },
{
    match string_arg(args, "path") {
        Some(p) => p,
        None => owned("."),
    }
}

/// Which handler a tool name goes to.
#[derive(Debug, Clone, Copy, PartialEq, Eq, Structural)]
pub enum ToolRoute {
    Pwd,
    ListDir,
    ReadFile,
    SearchText,
    ShellExec,
    SmartHome,
    FileManager,
    DigitalLifeMock,
    Unknown,
}

/// The handler of each tool name.
pub open spec fn route_of(name: Seq<char>) -> ToolRoute {
    if name == "pwd"@ {
        ToolRoute::Pwd
    } else if name == "list_dir"@ {
        ToolRoute::ListDir
    } else if name == "read_file"@ {
        ToolRoute::ReadFile
    } else if name == "search_text"@ {
        ToolRoute::SearchText
    } else if name == "shell_exec"@ {
        ToolRoute::ShellExec
    } else if name == "smart_home_control_speaker"@ || name
        == "smart_home_control_light_temperature"@ || name == "smart_home_control_light"@ || name
        == "smart_home_control_curtain"@ || name == "smart_home_control_power"@ || name
        == "smart_home_control_scene"@ {
        ToolRoute::SmartHome
    } else if name == "digital_file_manager"@ {
        ToolRoute::FileManager
    } else if name == "digital_photo_library"@ || name == "digital_media_control"@ || name
        == "digital_security_monitor"@ || name == "digital_document_workspace"@ || name
        == "digital_text_assistant"@ || name == "digital_note_knowledge"@ {
        ToolRoute::DigitalLifeMock
    } else {
        ToolRoute::Unknown
    }
}

/// Every built-in tool has a handler, and every tool of the smart-home agent
/// is handled as a smart-home command.
pub proof fn lemma_tools_are_routed()
    ensures
        forall|i: int|
            0 <= i < crate::tool_table::tool_specs_spec().len() ==> !(route_of(
                (#[trigger] crate::tool_table::tool_specs_spec()[i]).name,
            ) is Unknown),
        forall|j: int|
            0 <= j < crate::agents::smart_home_agent_spec().tool_names.len() ==> route_of(
                #[trigger] crate::agents::smart_home_agent_spec().tool_names[j],
            ) is SmartHome,
{
    crate::tool_table::lemma_tool_table();
    let s = crate::tool_table::tool_specs_spec();
    assert(route_of(s[0].name) is Pwd);
    assert(route_of(s[1].name) is ListDir);
    assert(route_of(s[2].name) is ReadFile);
    assert(route_of(s[3].name) is SearchText);
    assert(route_of(s[4].name) is ShellExec);
    assert(route_of(s[5].name) is SmartHome);
    assert(route_of(s[6].name) is SmartHome);
    assert(route_of(s[7].name) is SmartHome);
    assert(route_of(s[8].name) is SmartHome);
    assert(route_of(s[9].name) is SmartHome);
    assert(route_of(s[10].name) is SmartHome);
    assert(route_of(s[11].name) is FileManager);
    assert(route_of(s[12].name) is DigitalLifeMock);
    assert(route_of(s[13].name) is DigitalLifeMock);
    assert(route_of(s[14].name) is DigitalLifeMock);
    assert(route_of(s[15].name) is DigitalLifeMock);
    assert(route_of(s[16].name) is DigitalLifeMock);
    assert(route_of(s[17].name) is DigitalLifeMock);
    let h = crate::agents::smart_home_agent_spec().tool_names;
    assert(h.len() == 6);
    assert(h[0] == s[5].name);
    assert(h[1] == s[7].name);
    assert(h[2] == s[6].name);
    assert(h[3] == s[8].name);
    assert(h[4] == s[9].name);
    assert(h[5] == s[10].name);
}

/// The handler that runs the tool `name`.
pub fn route_tool(name: &str) -> (r: ToolRoute)
    ensures
        r == route_of(name@),
{
    if str_eq(name, "pwd") {
        ToolRoute::Pwd
    } else if str_eq(name, "list_dir") {
        ToolRoute::ListDir
    } else if str_eq(name, "read_file") {
        ToolRoute::ReadFile
    } else if str_eq(name, "search_text") {
        ToolRoute::SearchText
    } else if str_eq(name, "shell_exec") {
        ToolRoute::ShellExec
    } else if str_eq(name, "smart_home_control_speaker") || str_eq(
        name,
        "smart_home_control_light_temperature",
    ) || str_eq(name, "smart_home_control_light") || str_eq(name, "smart_home_control_curtain")
        || str_eq(name, "smart_home_control_power") || str_eq(name, "smart_home_control_scene") {
        ToolRoute::SmartHome
    } else if str_eq(name, "digital_file_manager") {
        ToolRoute::FileManager
    } else if str_eq(name, "digital_photo_library") || str_eq(name, "digital_media_control")
        || str_eq(name, "digital_security_monitor") || str_eq(name, "digital_document_workspace")
        || str_eq(name, "digital_text_assistant") || str_eq(name, "digital_note_knowledge") {
        ToolRoute::DigitalLifeMock
    } else {
        ToolRoute::Unknown
    }
}

/// What the file manager is asked to do.
#[derive(Debug, Clone, Copy, PartialEq, Eq, Structural)]
pub enum FileAction {
    GetProperties,
    ListDirectory,
    CountDirectory,
}

/// The action and path of a `digital_file_manager` call: both are required,
/// and the action must be one the file manager knows.
pub fn file_manager_request(args: &JsonValue) -> (r: Result<(FileAction, String), ToolError>)
    ensures
        match as_str_view(get_field(args@, "action"@)) {
            None => r matches Err(ToolError::MissingString(k)) && k@ == "action"@,
            Some(a) => match as_str_view(get_field(args@, "path"@)) {
                None => r matches Err(ToolError::MissingString(k)) && k@ == "path"@,
                Some(p) => if a == "get_properties"@ {
                    r matches Ok((FileAction::GetProperties, path)) && path@ == p
                } else if a == "list_directory"@ {
                    r matches Ok((FileAction::ListDirectory, path)) && path@ == p
                } else if a == "count_directory"@ {
                    r matches Ok((FileAction::CountDirectory, path)) && path@ == p
                } else {
                    r matches Err(ToolError::UnsupportedAction(n)) && n@ == a
                },
            },
        },
{
    let action = match required_string_arg(args, "action") {
        Ok(a) => a,
        Err(e) => {
            return Err(e);
        },
    };
    let path = match required_string_arg(args, "path") {
        Ok(p) => p,
        Err(e) => {
            return Err(e);
        },
    };
    if str_eq(action.as_str(), "get_properties") {
        Ok((FileAction::GetProperties, path))
    } else if str_eq(action.as_str(), "list_directory") {
        Ok((FileAction::ListDirectory, path))
    } else if str_eq(action.as_str(), "count_directory") {
        Ok((FileAction::CountDirectory, path))
    } else {
        Err(ToolError::UnsupportedAction(action))
    }
}

/// How a directory listing is asked for: whether to show hidden entries
/// (not by default) and how many entries at most (50 by default, held
/// between 1 and 200).
pub fn listing_options(args: &JsonValue) -> (r: (bool, usize))
    ensures
        r.0 == match as_bool_view(get_field(args@, "include_hidden"@)) {
            Some(b) => b,
            None => false,
        },
        r.1 == clamp(
            match as_u64_view(get_field(args@, "max_entries"@)) {
                Some(v) => (v as usize) as int,
                None => 50,
            },
            1,
            200,
        ),
{
    let include_hidden = match bool_arg(args, "include_hidden") {
        Some(b) => b,
        None => false,
    };
    let asked = match usize_arg(args, "max_entries") {
        Some(m) => m,
        None => 50,
    };
    let max_entries = if asked < 1 {
        1
    } else if asked > 200 {
        200
    } else {
        asked
    };
    (include_hidden, max_entries)
}

/// Whether the include-hidden setting lets an entry named `name` be listed:
/// names starting with `.` are hidden.
pub fn shows_entry(name: &str, include_hidden: bool) -> (r: bool)
    ensures
        r == (include_hidden || !(name@.len() > 0 && name@[0] == '.')),
{
    let hidden = crate::text::starts_with(name, ".");
    proof {
        reveal_strlit(".");
        if hidden {
            assert(name@.take(1)[0] == name@[0]);
            assert(name@[0] == '.');
        } else if name@.len() > 0 && name@[0] == '.' {
            assert(name@.take(1) =~= "."@);
        }
    }
    include_hidden || !hidden
}

/// Directories that a text search does not go into.
pub fn should_skip(name: &str) -> (r: bool)
    ensures
        r == (name@ == ".git"@ || name@ == "target"@ || name@ == "node_modules"@ || name@
            == ".gradle"@),
{
    str_eq(name, ".git") || str_eq(name, "target") || str_eq(name, "node_modules") || str_eq(
        name,
        ".gradle",
    )
}

/// The search results after scanning `lines` (the first of which is line
/// `first + 1` of the file at `path`): each line holding `pattern` is added
/// as `path:number:line`, stopping once there are `max` results.
pub open spec fn collect_matches(
    acc: Seq<Seq<char>>,
    path: Seq<char>,
    lines: Seq<Seq<char>>,
    first: nat,
    pattern: Seq<char>,
    max: nat,
) -> Seq<Seq<char>>
    decreases lines.len(),
{
    if lines.len() == 0 {
        acc
    } else if crate::text::contains_seq(lines[0], pattern) {
        let next = acc.push(path + ":"@ + crate::text::decimal_seq(first + 1) + ":"@ + lines[0]);
        if next.len() >= max {
            next
        } else {
            collect_matches(next, path, lines.drop_first(), first + 1, pattern, max)
        }
    } else {
        collect_matches(acc, path, lines.drop_first(), first + 1, pattern, max)
    }
}

/// Adds to `matches` the lines of `content` that hold `pattern`, each as
/// `path:number:line`, stopping once there are `max_results` matches.
pub fn search_lines(path: &str, content: &str, pattern: &str, max_results: usize, matches: &mut Vec<String>)
    ensures
        strings_view(final(matches)@) == collect_matches(
            strings_view(old(matches)@),
            path@,
            crate::tui::text_lines(content@),
            0,
            pattern@,
            max_results as nat,
        ),
{
    let lines = crate::tui::lines_of(content);
    let ghost lv = strings_view(lines@);
    let mut i: usize = 0;
    proof {
        assert(lv.skip(0) =~= lv);
    }
    while i < lines.len()
        invariant
            i <= lines.len(),
            lv == strings_view(lines@),
            lv == crate::tui::text_lines(content@),
            collect_matches(strings_view(matches@), path@, lv.skip(i as int), i as nat, pattern@, max_results as nat)
                == collect_matches(strings_view(old(matches)@), path@, lv, 0, pattern@, max_results as nat),
        decreases lines.len() - i,
    {
        proof {
            assert(lv.skip(i as int)[0] == lv[i as int]);
            assert(lv.skip(i as int).drop_first() =~= lv.skip(i + 1));
        }
        if crate::text::contains(lines[i].as_str(), pattern) {
            let number = crate::text::usize_to_text(i + 1);
            let a = concat_str(path, ":");
            let b = concat_str(a.as_str(), number.as_str());
            let c = concat_str(b.as_str(), ":");
            let line = concat_str(c.as_str(), lines[i].as_str());
            let ghost before = matches@;
            matches.push(line);
            proof {
                assert(strings_view(matches@) =~= strings_view(before).push(line@));
            }
            if matches.len() >= max_results {
                return;
            }
        }
        i = i + 1;
    }
    proof {
        assert(lv.skip(i as int).len() == 0);
    }
}

/// Whether an entry is present under `k` and not null.
pub open spec fn has_value(e: Seq<(Seq<char>, JsonView)>, k: Seq<char>) -> bool {
    lookup(e, k) is Some && !(lookup(e, k) matches Some(JsonView::Null))
}

/// The keys that smart-home normalisation reads and writes are different
/// from one another.
proof fn lemma_keys_distinct()
    ensures
        "action"@ != "delta_percent"@,
        "action"@ != "volume_percent"@,
        "action"@ != "delta_kelvin"@,
        "action"@ != "color_temperature_kelvin"@,
        "light_tone"@ != "color_temperature_kelvin"@,
        "delta_percent"@ != "color_temperature_kelvin"@,
        "delta_percent"@ != "delta_kelvin"@,
        "delta_kelvin"@ != "color_temperature_kelvin"@,
{
    reveal_strlit("action");
    reveal_strlit("delta_percent");
    reveal_strlit("volume_percent");
    reveal_strlit("delta_kelvin");
    reveal_strlit("color_temperature_kelvin");
    reveal_strlit("light_tone");
    assert("action"@[0] != "delta_percent"@[0]);
    assert("action"@[0] != "volume_percent"@[0]);
    assert("action"@[0] != "delta_kelvin"@[0]);
    assert("action"@[0] != "color_temperature_kelvin"@[0]);
    assert("light_tone"@[0] != "color_temperature_kelvin"@[0]);
    assert("delta_percent"@[0] != "color_temperature_kelvin"@[0]);
    assert("delta_percent"@[6] != "delta_kelvin"@[6]);
    assert("delta_kelvin"@[0] != "color_temperature_kelvin"@[0]);
}

/// A default leaves a present value alone, makes the field present, and
/// leaves every other field alone.
proof fn lemma_with_default(e: Seq<(Seq<char>, JsonView)>, f: Seq<char>, d: int, k: Seq<char>)
    ensures
        has_value(e, f) ==> with_default(e, f, d) == e,
        has_value(with_default(e, f, d), f),
        k != f ==> lookup(with_default(e, f, d), k) == lookup(e, k),
{
    lemma_put_entry(e, f, JsonView::Number(int_number(d)), k);
    lemma_put_entry(e, f, JsonView::Number(int_number(d)), f);
}

/// The number made from a non-negative `i64` reads back as that `i64`.
proof fn lemma_int_number_roundtrip(x: int)
    requires
        0 <= x <= i64::MAX,
    ensures
        as_i64_view(Some(JsonView::Number(int_number(x)))) == Some(x as i64),
{
}

/// Scaling a temperature given in tens of kelvin twice is scaling it once;
/// it keeps the field present and touches no other field.
proof fn lemma_scale_kelvin(e: Seq<(Seq<char>, JsonView)>, f: Seq<char>, k: Seq<char>)
    ensures
        scale_kelvin(scale_kelvin(e, f), f) == scale_kelvin(e, f),
        has_value(e, f) ==> has_value(scale_kelvin(e, f), f),
        k != f ==> lookup(scale_kelvin(e, f), k) == lookup(e, k),
{
    match as_i64_view(lookup(e, f)) {
        Some(v) => {
            if 100 <= v <= 600 {
                let n = JsonView::Number(int_number(v * 10));
                lemma_put_entry(e, f, n, k);
                lemma_put_entry(e, f, n, f);
                lemma_int_number_roundtrip(v * 10);
            }
        },
        None => {},
    }
}

/// The same for the colour-temperature step, which also gets its default.
proof fn lemma_scale_delta(e: Seq<(Seq<char>, JsonView)>, k: Seq<char>)
    ensures
        scale_delta_kelvin(scale_delta_kelvin(e)) == scale_delta_kelvin(e),
        has_value(scale_delta_kelvin(e), "delta_kelvin"@),
        k != "delta_kelvin"@ ==> lookup(scale_delta_kelvin(e), k) == lookup(e, k),
{
    let dk = "delta_kelvin"@;
    let e1 = with_default(e, dk, 500);
    lemma_with_default(e, dk, 500, k);
    let r = scale_delta_kelvin(e);
    match as_i64_view(lookup(e1, dk)) {
        Some(v) => {
            if v == 100 || v == 120 {
                let n = JsonView::Number(int_number(v * 10));
                lemma_put_entry(e1, dk, n, k);
                lemma_put_entry(e1, dk, n, dk);
                lemma_int_number_roundtrip(v * 10);
            }
        },
        None => {},
    }
    lemma_with_default(r, dk, 500, k);
}

/// The same for a named light tone.
proof fn lemma_tone_kelvin(e: Seq<(Seq<char>, JsonView)>, k: Seq<char>)
    ensures
        tone_kelvin(tone_kelvin(e)) == tone_kelvin(e),
        has_value(e, "color_temperature_kelvin"@) ==> has_value(
            tone_kelvin(e),
            "color_temperature_kelvin"@,
        ),
        k != "color_temperature_kelvin"@ ==> lookup(tone_kelvin(e), k) == lookup(e, k),
{
    let c = "color_temperature_kelvin"@;
    lemma_keys_distinct();
    lemma_scale_kelvin(e, c, k);
    lemma_scale_kelvin(e, c, "light_tone"@);
    match as_str_view(lookup(e, "light_tone"@)) {
        Some(t) => {
            let kv = if t == "warm"@ {
                3000int
            } else if t == "neutral"@ || t == "natural"@ {
                4000int
            } else {
                6000int
            };
            if t == "warm"@ || t == "neutral"@ || t == "natural"@ || t == "white"@ || t == "cool"@ {
                let n = JsonView::Number(int_number(kv));
                lemma_put_entry(e, c, n, k);
                lemma_put_entry(e, c, n, c);
                lemma_put_entry(e, c, n, "light_tone"@);
                lemma_put_same(put_entry(e, c, n), c, n);
            }
        },
        None => {},
    }
}

/// The step that depends on the action of a light call.
pub open spec fn light_step(a: Option<Seq<char>>, e: Seq<(Seq<char>, JsonView)>) -> Seq<(Seq<char>, JsonView)> {
    match a {
        Some(a) => if a == "set_light_tone"@ {
            tone_kelvin(e)
        } else if a == "set_color_temperature"@ {
            scale_kelvin(e, "color_temperature_kelvin"@)
        } else if a == "increase_color_temperature"@ || a == "decrease_color_temperature"@ {
            scale_delta_kelvin(e)
        } else {
            e
        },
        None => e,
    }
}

proof fn lemma_light_step(a: Option<Seq<char>>, e: Seq<(Seq<char>, JsonView)>, k: Seq<char>)
    ensures
        light_step(a, light_step(a, e)) == light_step(a, e),
        k != "color_temperature_kelvin"@ && k != "delta_kelvin"@ ==> lookup(light_step(a, e), k)
            == lookup(e, k),
        has_value(e, "delta_kelvin"@) ==> has_value(light_step(a, e), "delta_kelvin"@),
{
    lemma_keys_distinct();
    lemma_tone_kelvin(e, k);
    lemma_tone_kelvin(e, "delta_kelvin"@);
    lemma_scale_kelvin(e, "color_temperature_kelvin"@, k);
    lemma_scale_kelvin(e, "color_temperature_kelvin"@, "delta_kelvin"@);
    lemma_scale_delta(e, k);
}

/// Normalising the arguments of a smart-home call twice gives what
/// normalising them once gives: defaults already filled in and temperatures
/// already in kelvin are left as they are.
pub proof fn lemma_normalize_idempotent(name: Seq<char>, v: JsonView)
    ensures
        normalized_args(name, normalized_args(name, v)) == normalized_args(name, v),
{
    lemma_keys_distinct();
    match v {
        JsonView::Object(e) => {
            let act = "action"@;
            if name == "smart_home_control_speaker"@ {
                lemma_with_default(e, "delta_percent"@, 10, act);
                lemma_with_default(e, "volume_percent"@, 0, act);
                let e1 = speaker_defaults(e);
                assert(action_of(e1) == action_of(e));
                lemma_with_default(e1, "delta_percent"@, 10, act);
                lemma_with_default(e1, "volume_percent"@, 0, act);
            } else if name == "smart_home_control_light"@ || name
                == "smart_home_control_light_temperature"@ {
                let e1 = if name == "smart_home_control_light"@ {
                    light_defaults(e)
                } else {
                    e
                };
                lemma_with_default(e, "delta_percent"@, 20, act);
                lemma_with_default(e, "delta_kelvin"@, 500, act);
                assert(action_of(e1) == action_of(e));
                let a = action_of(e1);
                let n = light_step(a, e1);
                assert(normalized_entries(name, e) == n);
                lemma_light_step(a, e1, act);
                lemma_light_step(a, e1, "delta_percent"@);
                assert(action_of(n) == a);
                if name == "smart_home_control_light"@ {
                    lemma_with_default(e, "delta_percent"@, 20, "delta_percent"@);
                    lemma_with_default(e, "delta_kelvin"@, 500, "delta_kelvin"@);
                    lemma_with_default(n, "delta_percent"@, 20, act);
                    lemma_with_default(n, "delta_kelvin"@, 500, act);
                    assert(light_defaults(n) == n);
                }
                assert(normalized_entries(name, n) == light_step(a, n));
            }
        },
        _ => {},
    }
}

/// How `list_dir` shows one directory entry: its kind, a tab, its name.
pub fn dir_entry_line(is_dir: bool, name: &str) -> (r: String)
    ensures
        r@ == (if is_dir {
            "dir"@
        } else {
            "file"@
        }) + "\t"@ + name@,
{
    let kind = if is_dir {
        "dir"
    } else {
        "file"
    };
    quoted(kind, "\t", name)
}

/// The lines of a directory listing, sorted in the order of `str` and
/// joined with line breaks.
pub open spec fn listing_text(lines: Seq<String>) -> Seq<char> {
    join_seq(
        crate::text::sorted_by_key(lines.map_values(|l: String| (l, ()))).map_values(
            |p: (String, ())| p.0@,
        ),
        "\n"@,
    )
}

/// The lines of a directory listing, sorted and joined with line breaks.
pub fn sorted_listing(lines: Vec<String>) -> (r: String)
    ensures
        r@ == listing_text(lines@),
{
    let ghost input = lines@;
    let mut keyed: Vec<(String, ())> = Vec::new();
    let mut rest = lines;
    let n = rest.len();
    let mut k: usize = 0;
    while k < n
        invariant
            k <= n == input.len(),
            rest@ == input.skip(k as int),
            keyed@ == input.take(k as int).map_values(|l: String| (l, ())),
        decreases n - k,
    {
        let line = rest.remove(0);
        proof {
            assert(line == input[k as int]);
            assert(input.skip(k as int).drop_first() =~= input.skip(k + 1));
        }
        let ghost before = keyed@;
        keyed.push((line, ()));
        proof {
            assert(keyed@ =~= input.take(k + 1).map_values(|l: String| (l, ())));
        }
        k = k + 1;
    }
    proof {
        assert(input.take(k as int) =~= input);
    }
    let sorted = crate::text::sort_by_key(keyed);
    let ghost sv = sorted@.map_values(|p: (String, ())| p.0@);
    let mut out = String::new();
    let mut i: usize = 0;
    proof {
        assert(sv.take(0) =~= Seq::<Seq<char>>::empty());
    }
    while i < sorted.len()
        invariant
            i <= sorted.len(),
            sv == sorted@.map_values(|p: (String, ())| p.0@),
            out@ == join_seq(sv.take(i as int), "\n"@),
        decreases sorted.len() - i,
    {
        proof {
            lemma_join_push(sv.take(i as int), "\n"@, sv[i as int]);
            assert(sv.take(i + 1) =~= sv.take(i as int).push(sv[i as int]));
        }
        if i > 0 {
            out = quoted(out.as_str(), "\n", sorted[i].0.as_str());
        } else {
            out = sorted[i].0.clone();
        }
        i = i + 1;
    }
    proof {
        assert(sv.take(i as int) =~= sv);
    }
    out
}

/// A list with `s` first lists `s` among its strings.
proof fn lemma_strings_of_first(items: Seq<JsonView>, s: Seq<char>)
    requires
        items.len() > 0,
        items[0] == JsonView::Str(s),
    ensures
        strings_of(items).contains(s),
    decreases items.len(),
{
    if items.len() == 1 {
        assert(items.drop_last().len() == 0);
        assert(strings_of(items) == strings_of(items.drop_last()).push(s));
        assert(strings_of(items)[0] == s);
    } else {
        lemma_strings_of_first(items.drop_last(), s);
        let w = strings_of(items.drop_last());
        let k = choose|k: int| 0 <= k < w.len() && w[k] == s;
        match items.last() {
            JsonView::Str(t) => {
                assert(strings_of(items) == w.push(t));
                assert(strings_of(items)[k] == s);
            },
            _ => {},
        }
    }
}

/// A list holding `s` lists `s` among its strings.
proof fn lemma_strings_of_contains(items: Seq<JsonView>, s: Seq<char>)
    requires
        items.contains(JsonView::Str(s)),
    ensures
        strings_of(items).contains(s),
    decreases items.len(),
{
    let w = strings_of(items.drop_last());
    if items.last() == JsonView::Str(s) {
        assert(strings_of(items) == w.push(s));
        assert(strings_of(items)[w.len() as int] == s);
    } else {
        let j = choose|j: int| 0 <= j < items.len() && items[j] == JsonView::Str(s);
        assert(items.drop_last()[j] == JsonView::Str(s));
        lemma_strings_of_contains(items.drop_last(), s);
        let k = choose|k: int| 0 <= k < w.len() && w[k] == s;
        match items.last() {
            JsonView::Str(t) => {
                assert(strings_of(items) == w.push(t));
                assert(strings_of(items)[k] == s);
            },
            _ => {},
        }
    }
}

/// Every declared tool asks for a `tool_title`: once a schema object whose
/// `required` entry is absent or a list has been decorated, `tool_title` is
/// among its required names and declared among its properties (when those
/// are an object or absent).
pub proof fn lemma_decorated_requires_title(e: Seq<(Seq<char>, JsonView)>)
    requires
        match lookup(e, "required"@) {
            None => true,
            Some(JsonView::Array(_)) => true,
            _ => false,
        },
    ensures
        required_names(decorated(JsonView::Object(e))).contains("tool_title"@),
        match lookup(e, "properties"@) {
            None => true,
            Some(JsonView::Object(_)) => true,
            _ => false,
        } ==> (get_field(decorated(JsonView::Object(e)), "properties"@) matches Some(
            JsonView::Object(p),
        ) && lookup(p, "tool_title"@) == Some(title_schema())),
{
    reveal_strlit("properties");
    reveal_strlit("required");
    assert("properties"@[0] != "required"@[0]);
    let p = with_title_property(e);
    let e1 = match lookup(e, "properties"@) {
        Some(_) => e,
        None => put_entry(e, "properties"@, JsonView::Object(Seq::empty())),
    };
    lemma_put_entry(e, "properties"@, JsonView::Object(Seq::empty()), "required"@);
    lemma_put_entry(e, "properties"@, JsonView::Object(Seq::empty()), "properties"@);
    match lookup(e1, "properties"@) {
        Some(JsonView::Object(pe)) => {
            let pv = JsonView::Object(put_entry(pe, "tool_title"@, title_schema()));
            lemma_put_entry(e1, "properties"@, pv, "required"@);
            lemma_put_entry(e1, "properties"@, pv, "properties"@);
            lemma_put_entry(pe, "tool_title"@, title_schema(), "tool_title"@);
        },
        _ => {},
    }
    assert(lookup(p, "required"@) == lookup(e, "required"@));
    let q1 = match lookup(p, "required"@) {
        Some(_) => p,
        None => put_entry(p, "required"@, JsonView::Array(Seq::empty())),
    };
    lemma_put_entry(p, "required"@, JsonView::Array(Seq::empty()), "required"@);
    lemma_put_entry(p, "required"@, JsonView::Array(Seq::empty()), "properties"@);
    match lookup(q1, "required"@) {
        Some(JsonView::Array(items)) => {
            if items.contains(JsonView::Str("tool_title"@)) {
                lemma_strings_of_contains(items, "tool_title"@);
            } else {
                let n = seq![JsonView::Str("tool_title"@)] + items;
                lemma_put_entry(q1, "required"@, JsonView::Array(n), "required"@);
                lemma_put_entry(q1, "required"@, JsonView::Array(n), "properties"@);
                assert(n[0] == JsonView::Str("tool_title"@));
                lemma_strings_of_first(n, "tool_title"@);
            }
        },
        _ => {},
    }
}

/// The strings of a list that begins with the string `s` are `s` followed
/// by the strings of the rest.
proof fn lemma_strings_of_prepend(s: Seq<char>, items: Seq<JsonView>)
    ensures
        strings_of(seq![JsonView::Str(s)] + items) == seq![s] + strings_of(items),
    decreases items.len(),
{
    let n = seq![JsonView::Str(s)] + items;
    if items.len() == 0 {
        assert(n.drop_last() =~= Seq::<JsonView>::empty());
        assert(strings_of(n) == strings_of(n.drop_last()).push(s));
        assert(strings_of(n) =~= seq![s] + strings_of(items));
    } else {
        lemma_strings_of_prepend(s, items.drop_last());
        assert(n.drop_last() =~= seq![JsonView::Str(s)] + items.drop_last());
        assert(n.last() == items.last());
        match items.last() {
            JsonView::Str(t) => {
                assert(strings_of(n) =~= seq![s] + strings_of(items));
            },
            _ => {
                assert(strings_of(n) =~= seq![s] + strings_of(items));
            },
        }
    }
}

/// A string among the strings of a list is a string value of the list.
proof fn lemma_strings_of_source(items: Seq<JsonView>, s: Seq<char>)
    ensures
        strings_of(items).contains(s) ==> items.contains(JsonView::Str(s)),
    decreases items.len(),
{
    if items.len() > 0 {
        lemma_strings_of_source(items.drop_last(), s);
        if strings_of(items).contains(s) {
            let w = strings_of(items.drop_last());
            let k = choose|k: int| 0 <= k < strings_of(items).len() && strings_of(items)[k] == s;
            match items.last() {
                JsonView::Str(t) => {
                    if k < w.len() {
                        assert(w[k] == s);
                        let j = choose|j: int|
                            0 <= j < items.drop_last().len() && items.drop_last()[j] == JsonView::Str(s);
                        assert(items[j] == JsonView::Str(s));
                    } else {
                        assert(items[items.len() - 1] == JsonView::Str(s));
                    }
                },
                _ => {
                    assert(w[k] == s);
                    let j = choose|j: int|
                        0 <= j < items.drop_last().len() && items.drop_last()[j] == JsonView::Str(s);
                    assert(items[j] == JsonView::Str(s));
                },
            }
        }
    }
}

/// The names a decorated schema requires: `tool_title` first, then those
/// the schema listed (when it did not list `tool_title` already).
pub proof fn lemma_decorated_required(e: Seq<(Seq<char>, JsonView)>)
    requires
        match lookup(e, "required"@) {
            None => true,
            Some(JsonView::Array(r)) => !r.contains(JsonView::Str("tool_title"@)),
            _ => false,
        },
    ensures
        required_names(decorated(JsonView::Object(e))) == seq!["tool_title"@] + match lookup(
            e,
            "required"@,
        ) {
            Some(JsonView::Array(r)) => strings_of(r),
            _ => Seq::empty(),
        },
        forall|k: int|
            0 < k < required_names(decorated(JsonView::Object(e))).len() ==> #[trigger] required_names(
                decorated(JsonView::Object(e)),
            )[k] != "tool_title"@,
{
    reveal_strlit("properties");
    reveal_strlit("required");
    assert("properties"@[0] != "required"@[0]);
    let p = with_title_property(e);
    let e1 = match lookup(e, "properties"@) {
        Some(_) => e,
        None => put_entry(e, "properties"@, JsonView::Object(Seq::empty())),
    };
    lemma_put_entry(e, "properties"@, JsonView::Object(Seq::empty()), "required"@);
    match lookup(e1, "properties"@) {
        Some(JsonView::Object(pe)) => {
            let pv = JsonView::Object(put_entry(pe, "tool_title"@, title_schema()));
            lemma_put_entry(e1, "properties"@, pv, "required"@);
        },
        _ => {},
    }
    assert(lookup(p, "required"@) == lookup(e, "required"@));
    let q1 = match lookup(p, "required"@) {
        Some(_) => p,
        None => put_entry(p, "required"@, JsonView::Array(Seq::empty())),
    };
    lemma_put_entry(p, "required"@, JsonView::Array(Seq::empty()), "required"@);
    match lookup(q1, "required"@) {
        Some(JsonView::Array(items)) => {
            let n = seq![JsonView::Str("tool_title"@)] + items;
            lemma_put_entry(q1, "required"@, JsonView::Array(n), "required"@);
            lemma_strings_of_prepend("tool_title"@, items);
            lemma_strings_of_source(items, "tool_title"@);
            let names = required_names(decorated(JsonView::Object(e)));
            assert forall|k: int| 0 < k < names.len() implies #[trigger] names[k] != "tool_title"@ by {
                if names[k] == "tool_title"@ {
                    assert(names[k] == strings_of(items)[k - 1]);
                    assert(strings_of(items).contains("tool_title"@));
                }
            }
            if lookup(e, "required"@) is None {
                assert(items =~= Seq::<JsonView>::empty());
                assert(strings_of(items) =~= Seq::<Seq<char>>::empty());
            }
        },
        _ => {},
    }
}

} // verus!
