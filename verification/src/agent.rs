use vstd::prelude::*;

use crate::agents::{
    agent_for_system_prompt, builtin_agents_spec, main_agent_spec, name_index, prompt_index,
    resolve_agent, strs_view, AgentDefinition, AgentError, AgentView,
};
use crate::config::{
    active_index_of, approval_text, effort_text, is_uuid_v4_text, new_uuid, without_name,
    ApprovalPolicy, ConfigError, ConfigView, ProfileView, ProviderProfile, ReasoningEffort,
    RobConfig,
};
use crate::context::{
    estimate_tokens, injected_view, inject_runtime_context, messages_bytes, prepare_compacts,
    prepare_ok, prepared_view, try_prepare_context, ContextWindowConfig,
};
use crate::json::{as_str_view, get_field, is_array_view, JsonValue, JsonView};
use crate::llm::{
    assistant_message, assistant_text_message, calls_view, clone_tool_calls, content_as_text,
    msgs_view, system_text_message, text_message_view, tool_message, user_message, ChatMessage,
    MessageView, ToolCall, ToolCallView,
};
use crate::state::SessionRecord;
use crate::text::{
    concat_str, decimal_seq, is_blank, join_seq, owned, str_eq, trim, trim_seq, usize_to_text,
};
use crate::tools::{
    context_header, spec_lines, specs_view, tool_context_prompt, ToolError,
    ToolSpec, ToolSpecView,
};

verus! {

broadcast use vstd::string::group_string_axioms;

/// What the model is told when a tool call was not approved.
pub const TOOL_DENIED_MESSAGE: &'static str = "tool denied by approval policy";

/// How many times the same invalid tool call may come before the turn stops.
pub const INVALID_TOOL_REPEAT_LIMIT: usize = 2;

/// How a tool call ended.
#[derive(Debug)]
pub enum ToolOutcome {
    /// The tool ran and gave this output.
    Completed(String),
    /// The call failed; the text says why.
    Failed(String),
    /// The call was not approved.
    Denied,
    /// The same invalid call came too often; the turn stops with this text.
    InvalidRepeated(String),
}

/// The text handed back to the model for an outcome.
pub open spec fn outcome_text(o: ToolOutcome) -> Seq<char> {
    match o {
        ToolOutcome::Completed(s) => s@,
        ToolOutcome::Failed(s) => s@,
        ToolOutcome::InvalidRepeated(s) => s@,
        ToolOutcome::Denied => "tool denied by approval policy"@,
    }
}

impl ToolOutcome {
    /// The text handed back to the model for this outcome.
    pub fn output(&self) -> (r: &str)
        ensures
            r@ == outcome_text(*self),
    {
        match self {
            ToolOutcome::Completed(s) => s.as_str(),
            ToolOutcome::Failed(s) => s.as_str(),
            ToolOutcome::InvalidRepeated(s) => s.as_str(),
            ToolOutcome::Denied => TOOL_DENIED_MESSAGE,
        }
    }
}

/// How often each invalid tool call (by tool name and error) came in the
/// current round.
#[derive(Debug)]
pub struct InvalidCallCounts {
    entries: Vec<(String, usize)>,
}

/// The count recorded under `key`: that of the first entry with it, else 0.
pub open spec fn count_in(entries: Seq<(Seq<char>, usize)>, key: Seq<char>) -> nat
    decreases entries.len(),
{
    if entries.len() == 0 {
        0
    } else if entries[0].0 == key {
        entries[0].1 as nat
    } else {
        count_in(entries.drop_first(), key)
    }
}

/// The entries as plain values.
pub open spec fn count_entries_view(entries: Seq<(String, usize)>) -> Seq<(Seq<char>, usize)> {
    entries.map_values(|e: (String, usize)| (e.0@, e.1))
}

impl InvalidCallCounts {
    /// The count of each key.
    pub closed spec fn count(&self, key: Seq<char>) -> nat {
        count_in(count_entries_view(self.entries@), key)
    }

    /// No invalid call counted yet.
    pub fn new() -> (r: Self)
        ensures
            forall|k: Seq<char>| #[trigger] r.count(k) == 0,
    {
        let r = InvalidCallCounts { entries: Vec::new() };
        assert forall|k: Seq<char>| #[trigger] r.count(k) == 0 by {
            assert(count_entries_view(r.entries@).len() == 0);
        }
        r
    }

    /// Forgets every count.
    pub fn clear(&mut self)
        ensures
            forall|k: Seq<char>| #[trigger] final(self).count(k) == 0,
    {
        self.entries = Vec::new();
        assert forall|k: Seq<char>| #[trigger] self.count(k) == 0 by {
            assert(count_entries_view(self.entries@).len() == 0);
        }
    }

    /// Counts one more call under `key` and gives the new count.
    pub fn bump(&mut self, key: &str) -> (r: usize)
        requires
            old(self).count(key@) < usize::MAX,
        ensures
            r == old(self).count(key@) + 1,
            final(self).count(key@) == r,
            forall|k: Seq<char>| k != key@ ==> #[trigger] final(self).count(k) == old(self).count(k),
    {
        let ghost ev = count_entries_view(self.entries@);
        let mut i: usize = 0;
        proof {
            assert(ev.skip(0) =~= ev);
        }
        while i < self.entries.len()
            invariant
                i <= self.entries.len(),
                ev == count_entries_view(self.entries@),
                self.entries@ == old(self).entries@,
                count_in(ev, key@) == count_in(ev.skip(i as int), key@),
                forall|j: int| 0 <= j < i ==> #[trigger] ev[j].0 != key@,
                old(self).count(key@) < usize::MAX,
                old(self).count(key@) == count_in(ev, key@),
            decreases self.entries.len() - i,
        {
            proof {
                assert(ev.skip(i as int)[0] == ev[i as int]);
                assert(ev.skip(i as int).drop_first() =~= ev.skip(i + 1));
            }
            if str_eq(self.entries[i].0.as_str(), key) {
                let (name, n) = self.entries.remove(i);
                let ghost before = ev;
                self.entries.insert(i, (name, n + 1));
                proof {
                    let nv = count_entries_view(self.entries@);
                    assert(nv =~= before.update(i as int, (key@, (n + 1) as usize)));
                    lemma_count_update(before, key@, i as int, (n + 1) as usize);
                }
                return n + 1;
            }
            i = i + 1;
        }
        let ghost before = ev;
        self.entries.push((owned(key), 1));
        proof {
            assert(ev.skip(i as int).len() == 0);
            let nv = count_entries_view(self.entries@);
            assert(nv =~= before.push((key@, 1usize)));
            lemma_count_push(before, key@);
        }
        1
    }
}

/// Replacing the first entry of `key` (at `i`) sets its count and keeps the
/// others.
proof fn lemma_count_update(entries: Seq<(Seq<char>, usize)>, key: Seq<char>, i: int, n: usize)
    requires
        0 <= i < entries.len(),
        entries[i].0 == key,
        forall|j: int| 0 <= j < i ==> #[trigger] entries[j].0 != key,
    ensures
        count_in(entries.update(i, (key, n)), key) == n,
        forall|k: Seq<char>|
            k != key ==> #[trigger] count_in(entries.update(i, (key, n)), k) == count_in(entries, k),
        count_in(entries, key) == entries[i].1,
    decreases i,
{
    if i > 0 {
        let rest = entries.drop_first();
        assert forall|j: int| 0 <= j < i - 1 implies #[trigger] rest[j].0 != key by {
            assert(rest[j] == entries[j + 1]);
        }
        lemma_count_update(rest, key, i - 1, n);
        assert(entries.update(i, (key, n)).drop_first() =~= rest.update(i - 1, (key, n)));
        assert(entries[0].0 != key);
        assert forall|k: Seq<char>| k != key implies #[trigger] count_in(
            entries.update(i, (key, n)),
            k,
        ) == count_in(entries, k) by {
            let u = entries.update(i, (key, n));
            assert(u[0] == entries[0]);
            if entries[0].0 != k {
                assert(count_in(u, k) == count_in(u.drop_first(), k));
                assert(count_in(entries, k) == count_in(rest, k));
                assert(count_in(rest.update(i - 1, (key, n)), k) == count_in(rest, k));
            }
        }
    } else {
        assert(entries.update(0, (key, n)).drop_first() =~= entries.drop_first());
        assert forall|k: Seq<char>| k != key implies #[trigger] count_in(
            entries.update(i, (key, n)),
            k,
        ) == count_in(entries, k) by {
            let u = entries.update(0, (key, n));
            assert(u[0] == (key, n));
            assert(count_in(u, k) == count_in(u.drop_first(), k));
            assert(count_in(entries, k) == count_in(entries.drop_first(), k));
        }
    }
}

/// Appending a key that is not there yet counts it once and keeps the others.
proof fn lemma_count_push(entries: Seq<(Seq<char>, usize)>, key: Seq<char>)
    requires
        forall|j: int| 0 <= j < entries.len() ==> #[trigger] entries[j].0 != key,
    ensures
        count_in(entries.push((key, 1)), key) == 1,
        forall|k: Seq<char>| k != key ==> #[trigger] count_in(entries.push((key, 1)), k) == count_in(entries, k),
        count_in(entries, key) == 0,
    decreases entries.len(),
{
    if entries.len() > 0 {
        let rest = entries.drop_first();
        assert forall|j: int| 0 <= j < rest.len() implies #[trigger] rest[j].0 != key by {
            assert(rest[j] == entries[j + 1]);
        }
        lemma_count_push(rest, key);
        assert(entries.push((key, 1)).drop_first() =~= rest.push((key, 1)));
        assert(entries[0].0 != key);
        assert forall|k: Seq<char>| k != key implies #[trigger] count_in(entries.push((key, 1)), k)
            == count_in(entries, k) by {
            let u = entries.push((key, 1));
            assert(u[0] == entries[0]);
            if entries[0].0 != k {
                assert(count_in(u, k) == count_in(u.drop_first(), k));
                assert(count_in(entries, k) == count_in(rest, k));
                assert(count_in(rest.push((key, 1)), k) == count_in(rest, k));
            }
        }
    } else {
        assert forall|k: Seq<char>| k != key implies #[trigger] count_in(entries.push((key, 1)), k)
            == count_in(entries, k) by {
            let u = entries.push((key, 1));
            assert(u[0] == (key, 1usize));
            assert(u.drop_first().len() == 0);
            assert(count_in(u, k) == count_in(u.drop_first(), k));
        }
    }
}

/// The message that stops a turn after the same invalid call came again.
pub open spec fn repeated_text(name: Seq<char>, error: Seq<char>) -> Seq<char> {
    "Stopped because the model repeatedly produced an invalid `"@ + name + "` tool call: "@ + error
        + "."@
}

/// What the model is told after an invalid call, with how often it came.
pub open spec fn guidance_text(name: Seq<char>, error: Seq<char>, hint: Seq<char>, count: nat) -> Seq<
    char,
> {
    "tool argument error ("@ + decimal_seq(count) + "/2) for `"@ + name + "`: "@ + error
        + ". Retry with a valid tool call; "@ + hint
}

/// The key under which an invalid call is counted.
pub open spec fn call_key(name: Seq<char>, error: Seq<char>) -> Seq<char> {
    name + ":"@ + error
}

fn invalid_tool_guidance_with_hint(name: &str, error: &str, hint: &str, count: usize) -> (r: String)
    ensures
        r@ == guidance_text(name@, error@, hint@, count as nat),
{
    let digits = usize_to_text(count);
    let a = concat_str("tool argument error (", digits.as_str());
    let b = concat_str(a.as_str(), "/2) for `");
    let c = concat_str(b.as_str(), name);
    let d = concat_str(c.as_str(), "`: ");
    let e = concat_str(d.as_str(), error);
    let f = concat_str(e.as_str(), ". Retry with a valid tool call; ");
    concat_str(f.as_str(), hint)
}

/// Counts an invalid call of `name` with `error`; the second time the same
/// call comes in a round the turn stops, before that the model is told what
/// to fix.
pub fn invalid_tool_call_outcome(
    name: &str,
    error: &str,
    hint: &str,
    invalid_tool_counts: &mut InvalidCallCounts,
) -> (r: ToolOutcome)
    requires
        old(invalid_tool_counts).count(call_key(name@, error@)) < usize::MAX,
    ensures
        ({
            let count = old(invalid_tool_counts).count(call_key(name@, error@)) + 1;
            &&& final(invalid_tool_counts).count(call_key(name@, error@)) == count
            &&& forall|k: Seq<char>|
                k != call_key(name@, error@) ==> #[trigger] final(invalid_tool_counts).count(k)
                    == old(invalid_tool_counts).count(k)
            &&& if count >= 2 {
                r matches ToolOutcome::InvalidRepeated(m) && m@ == repeated_text(name@, error@)
            } else {
                r matches ToolOutcome::Failed(m) && m@ == guidance_text(name@, error@, hint@, count)
            }
        }),
{
    let colon = concat_str(name, ":");
    let key = concat_str(colon.as_str(), error);
    let count = invalid_tool_counts.bump(key.as_str());
    if count >= INVALID_TOOL_REPEAT_LIMIT {
        let a = concat_str("Stopped because the model repeatedly produced an invalid `", name);
        let b = concat_str(a.as_str(), "` tool call: ");
        let c = concat_str(b.as_str(), error);
        ToolOutcome::InvalidRepeated(concat_str(c.as_str(), "."))
    } else {
        ToolOutcome::Failed(invalid_tool_guidance_with_hint(name, error, hint, count))
    }
}

/// The error of a required string argument that is missing or blank.
pub open spec fn missing_text(key: Seq<char>) -> Seq<char> {
    "missing required string argument `"@ + key + "`"@
}

/// Whether the argument under `key` is a string with more than white space.
pub open spec fn has_text(args: JsonView, key: Seq<char>) -> bool {
    match as_str_view(get_field(args, key)) {
        Some(s) => trim_seq(s).len() > 0,
        None => false,
    }
}

/// An error naming `key` when the argument under it is missing or blank.
pub fn missing_string(args: &JsonValue, key: &str) -> (r: Option<String>)
    ensures
        has_text(args@, key@) ==> r is None,
        !has_text(args@, key@) ==> (r matches Some(m) && m@ == missing_text(key@)),
{
    let present = match args.get(key) {
        Some(v) => match v.as_str() {
            Some(s) => !is_blank(s),
            None => false,
        },
        None => false,
    };
    if present {
        None
    } else {
        let head = concat_str("missing required string argument `", key);
        Some(concat_str(head.as_str(), "`"))
    }
}

/// The error in the arguments of a call, checked before the tool runs:
/// `shell_exec` needs a command and an `args` array, `read_file` a path and
/// `search_text` a pattern; other tools are not checked here.
pub open spec fn argument_error(name: Seq<char>, args: JsonView) -> Option<Seq<char>> {
    if name == "shell_exec"@ {
        if !has_text(args, "command"@) {
            Some(missing_text("command"@))
        } else if !is_array_view(get_field(args, "args"@)) {
            Some("missing required array argument `args`; use [] for no arguments"@)
        } else {
            None
        }
    } else if name == "read_file"@ {
        if has_text(args, "path"@) {
            None
        } else {
            Some(missing_text("path"@))
        }
    } else if name == "search_text"@ {
        if has_text(args, "pattern"@) {
            None
        } else {
            Some(missing_text("pattern"@))
        }
    } else {
        None
    }
}

/// What is wrong with the arguments of a call to `name`, if anything.
pub fn validate_tool_arguments(name: &str, args: &JsonValue) -> (r: Option<String>)
    ensures
        match argument_error(name@, args@) {
            Some(e) => r matches Some(m) && m@ == e,
            None => r is None,
        },
{
    if str_eq(name, "shell_exec") {
        let command_ok = match args.get("command") {
            Some(v) => match v.as_str() {
                Some(s) => !is_blank(s),
                None => false,
            },
            None => false,
        };
        if !command_ok {
            let head = concat_str("missing required string argument `", "command");
            return Some(concat_str(head.as_str(), "`"));
        }
        let args_ok = match args.get("args") {
            Some(v) => v.is_array(),
            None => false,
        };
        if !args_ok {
            return Some(owned("missing required array argument `args`; use [] for no arguments"));
        }
        None
    } else if str_eq(name, "read_file") {
        missing_string(args, "path")
    } else if str_eq(name, "search_text") {
        missing_string(args, "pattern")
    } else {
        None
    }
}

/// An example of valid arguments for `name`, given as a hint after an
/// invalid call.
pub open spec fn example_text(name: Seq<char>) -> Seq<char> {
    if name == "shell_exec"@ {
        "example: {\"command\":\"uname\",\"args\":[\"-a\"],\"timeout_ms\":3000}"@
    } else if name == "read_file"@ {
        "example: {\"path\":\"README.md\"}"@
    } else if name == "search_text"@ {
        "example: {\"pattern\":\"TODO\",\"path\":\".\"}"@
    } else {
        "check the tool schema and provide all required arguments"@
    }
}

/// An example of valid arguments for `name`.
pub fn invalid_tool_example(name: &str) -> (r: String)
    ensures
        r@ == example_text(name@),
{
    if str_eq(name, "shell_exec") {
        owned("example: {\"command\":\"uname\",\"args\":[\"-a\"],\"timeout_ms\":3000}")
    } else if str_eq(name, "read_file") {
        owned("example: {\"path\":\"README.md\"}")
    } else if str_eq(name, "search_text") {
        owned("example: {\"pattern\":\"TODO\",\"path\":\".\"}")
    } else {
        owned("check the tool schema and provide all required arguments")
    }
}

/// The tool choice to send: none right after a tool result (the model may
/// answer), else `auto`.
pub open spec fn tool_choice_spec(ms: Seq<MessageView>) -> Option<Seq<char>> {
    if ms.len() > 0 && ms.last().role == "tool"@ {
        None
    } else {
        Some("auto"@)
    }
}

/// The tool choice for the next request.
pub fn tool_choice_for_round(messages: &[ChatMessage]) -> (r: Option<&'static str>)
    ensures
        match r {
            Some(s) => tool_choice_spec(msgs_view(messages@)) == Some(s@),
            None => tool_choice_spec(msgs_view(messages@)) is None,
        },
{
    if messages.len() > 0 && str_eq(messages[messages.len() - 1].role.as_str(), "tool") {
        None
    } else {
        Some("auto")
    }
}

/// Whether an answer to the approval question grants it: `y`, `Y`, `yes` or
/// `YES`, with white space around it ignored.
pub fn approval_answer_accepts(answer: &str) -> (r: bool)
    ensures
        r == ({
            let a = trim_seq(answer@);
            a == "y"@ || a == "Y"@ || a == "yes"@ || a == "YES"@
        }),
{
    let a = trim(answer);
    str_eq(a.as_str(), "y") || str_eq(a.as_str(), "Y") || str_eq(a.as_str(), "yes") || str_eq(
        a.as_str(),
        "YES",
    )
}

/// What a line typed at the chat prompt asks for.
#[derive(Debug)]
pub enum ReplCommand {
    /// Nothing: the line is blank.
    Skip,
    /// Leave the chat (`/exit` or `/quit`).
    Exit,
    /// List the commands (`/help`).
    Help,
    /// List the agent's tools (`/tools`).
    Tools,
    /// Show the provider settings (`/config`).
    Config,
    /// Show the session id (`/id`).
    Id,
    /// Send this message to the agent.
    Send(String),
}

/// Whether `r` is what the line `line` asks for: the line is read with
/// surrounding white space trimmed.
pub open spec fn repl_command_is(line: Seq<char>, r: ReplCommand) -> bool {
    let t = trim_seq(line);
    if t.len() == 0 {
        r is Skip
    } else if t == "/exit"@ || t == "/quit"@ {
        r is Exit
    } else if t == "/help"@ {
        r is Help
    } else if t == "/tools"@ {
        r is Tools
    } else if t == "/config"@ {
        r is Config
    } else if t == "/id"@ {
        r is Id
    } else {
        r matches ReplCommand::Send(m) && m@ == t
    }
}

/// What a line typed at the chat prompt asks for.
pub fn repl_command(line: &str) -> (r: ReplCommand)
    ensures
        repl_command_is(line@, r),
{
    let t = trim(line);
    let ts = t.as_str();
    if ts.unicode_len() == 0 {
        ReplCommand::Skip
    } else if str_eq(ts, "/exit") || str_eq(ts, "/quit") {
        ReplCommand::Exit
    } else if str_eq(ts, "/help") {
        ReplCommand::Help
    } else if str_eq(ts, "/tools") {
        ReplCommand::Tools
    } else if str_eq(ts, "/config") {
        ReplCommand::Config
    } else if str_eq(ts, "/id") {
        ReplCommand::Id
    } else {
        ReplCommand::Send(t)
    }
}

/// Why a session could not start or a turn could not go on.
#[derive(Debug)]
pub enum SessionError {
    /// The provider configuration is unusable.
    Config(ConfigError),
    /// The requested agent does not exist.
    Agent(AgentError),
    /// An agent lists a tool that does not exist.
    Tool(ToolError),
    /// The conversation cannot be compacted: its size does not fit in a
    /// `usize`, or the summary would be cut inside a character, or the kept
    /// window would begin before the summarised part.
    Context,
}

/// One conversation with an agent: its id, the agent, the configuration, the
/// messages so far, and how tool calls are approved.
#[derive(Debug)]
pub struct AgentSession {
    id: String,
    agent: AgentDefinition,
    config: RobConfig,
    messages: Vec<ChatMessage>,
    approval_policy: ApprovalPolicy,
    interactive_approval: bool,
}

/// A session as plain values.
pub struct SessionView {
    pub id: Seq<char>,
    pub agent: AgentView,
    pub config: ConfigView,
    pub messages: Seq<MessageView>,
    pub approval_policy: ApprovalPolicy,
    pub interactive_approval: bool,
}

impl View for AgentSession {
    type V = SessionView;

    closed spec fn view(&self) -> SessionView {
        SessionView {
            id: self.id@,
            agent: self.agent@,
            config: self.config@,
            messages: msgs_view(self.messages@),
            approval_policy: self.approval_policy,
            interactive_approval: self.interactive_approval,
        }
    }
}

/// The built-in agent with this name, if there is one.
pub open spec fn named_agent(name: Seq<char>) -> Option<AgentView> {
    let i = name_index(builtin_agents_spec(), name);
    if i < builtin_agents_spec().len() {
        Some(builtin_agents_spec()[i])
    } else {
        None
    }
}

/// The built-in agent whose system prompt is `prompt`, else the default one.
pub open spec fn prompt_agent(prompt: Option<Seq<char>>) -> AgentView {
    match prompt {
        None => main_agent_spec(),
        Some(p) => {
            let i = prompt_index(builtin_agents_spec(), p);
            if i < builtin_agents_spec().len() {
                builtin_agents_spec()[i]
            } else {
                main_agent_spec()
            }
        },
    }
}

/// The configuration after the active profile's model is replaced by
/// `model`: that profile, with the new model, becomes the active one in place
/// of any profile with its name.
pub open spec fn with_model(c: ConfigView, model: Seq<char>) -> ConfigView {
    let p = ProfileView { model, ..c.profiles[active_index_of(c)] };
    ConfigView {
        active_profile_id: p.id,
        profiles: without_name(c.profiles, p.name).push(p),
        ..c
    }
}

/// The text of an optional string.
pub open spec fn opt_text(s: Option<String>) -> Option<Seq<char>> {
    match s {
        Some(t) => Some(t@),
        None => None,
    }
}

/// The content of the first message, if any.
pub open spec fn first_content(ms: Seq<MessageView>) -> Option<Seq<char>> {
    if ms.len() > 0 {
        ms[0].content
    } else {
        None
    }
}

/// What starting a session gives: an error for an unusable model override
/// or an unknown agent; else a session with the (possibly overridden)
/// configuration, the chosen approval policy, and either the resumed
/// conversation (with the requested agent, or the one its first message
/// names) or a new one holding only the agent's system prompt under a fresh
/// random id.
pub open spec fn session_start(
    config: ConfigView,
    agent_override: Option<Seq<char>>,
    model_override: Option<Seq<char>>,
    resume: Option<(Seq<char>, Seq<MessageView>)>,
    approval_override: Option<ApprovalPolicy>,
    interactive: bool,
    r: Result<SessionView, SessionError>,
) -> bool {
    if model_override is Some && config.profiles.len() == 0 {
        r matches Err(SessionError::Config(ConfigError::NoProvider))
    } else {
        let wanted = match agent_override {
            Some(n) => n,
            None => "main"@,
        };
        match named_agent(wanted) {
            None => r matches Err(SessionError::Agent(AgentError::NotFound(n))) && n@ == wanted,
            Some(requested) => r matches Ok(s) && {
                &&& s.config == match model_override {
                    Some(m) => with_model(config, m),
                    None => config,
                }
                &&& s.approval_policy == match approval_override {
                    Some(a) => a,
                    None => config.tool_approval,
                }
                &&& s.interactive_approval == interactive
                &&& match resume {
                    Some((id, ms)) => {
                        &&& s.id == id
                        &&& s.messages == ms
                        &&& s.agent == if agent_override is Some {
                            requested
                        } else {
                            prompt_agent(first_content(ms))
                        }
                    },
                    None => {
                        &&& is_uuid_v4_text(s.id)
                        &&& s.agent == requested
                        &&& s.messages == seq![text_message_view("system"@, requested.system_prompt)]
                    },
                }
            },
        }
    }
}

impl AgentSession {
    /// Starts a session that denies tool calls needing approval.
    /// `resume` is the saved record of the conversation to continue.
    pub fn new(
        config: RobConfig,
        agent_override: Option<String>,
        model_override: Option<String>,
        resume: Option<SessionRecord>,
        approval_override: Option<ApprovalPolicy>,
    ) -> (r: Result<Self, SessionError>)
        ensures
            session_start(
                config@,
                opt_text(agent_override),
                opt_text(model_override),
                match resume {
                    Some(rec) => Some((rec.id@, msgs_view(rec.messages@))),
                    None => None,
                },
                approval_override,
                false,
                match r {
                    Ok(s) => Ok(s@),
                    Err(e) => Err(e),
                },
            ),
    {
        Self::new_inner(config, agent_override, model_override, resume, approval_override, false)
    }

    /// Starts a session that asks before running tool calls that need
    /// approval. `resume` is the saved record of the conversation to continue.
    pub fn new_interactive(
        config: RobConfig,
        agent_override: Option<String>,
        model_override: Option<String>,
        resume: Option<SessionRecord>,
        approval_override: Option<ApprovalPolicy>,
    ) -> (r: Result<Self, SessionError>)
        ensures
            session_start(
                config@,
                opt_text(agent_override),
                opt_text(model_override),
                match resume {
                    Some(rec) => Some((rec.id@, msgs_view(rec.messages@))),
                    None => None,
                },
                approval_override,
                true,
                match r {
                    Ok(s) => Ok(s@),
                    Err(e) => Err(e),
                },
            ),
    {
        Self::new_inner(config, agent_override, model_override, resume, approval_override, true)
    }

    fn new_inner(
        config: RobConfig,
        agent_override: Option<String>,
        model_override: Option<String>,
        resume: Option<SessionRecord>,
        approval_override: Option<ApprovalPolicy>,
        interactive_approval: bool,
    ) -> (r: Result<Self, SessionError>)
        ensures
            session_start(
                config@,
                opt_text(agent_override),
                opt_text(model_override),
                match resume {
                    Some(rec) => Some((rec.id@, msgs_view(rec.messages@))),
                    None => None,
                },
                approval_override,
                interactive_approval,
                match r {
                    Ok(s) => Ok(s@),
                    Err(e) => Err(e),
                },
            ),
    {
        let ghost c0 = config@;
        let mut config = config;
        match model_override {
            Some(model) => {
                let mut profile = match config.active_profile() {
                    Ok(p) => p.clone(),
                    Err(e) => {
                        return Err(SessionError::Config(e));
                    },
                };
                profile.model = model;
                config.set_active_profile(profile);
                proof {
                    assert(config@ == with_model(c0, opt_text(Some(model)).unwrap()));
                }
            },
            None => {},
        }
        let approval_policy = match approval_override {
            Some(a) => a,
            None => config.tool_approval,
        };
        let wanted: Option<&str> = match &agent_override {
            Some(n) => Some(n.as_str()),
            None => None,
        };
        let requested = match resolve_agent(wanted) {
            Ok(a) => a,
            Err(e) => {
                return Err(SessionError::Agent(e));
            },
        };
        match resume {
            Some(record) => {
                let prompt: Option<&str> = if record.messages.len() > 0 {
                    match &record.messages[0].content {
                        Some(c) => Some(c.as_str()),
                        None => None,
                    }
                } else {
                    None
                };
                let agent = if agent_override.is_some() {
                    requested
                } else {
                    agent_for_system_prompt(prompt)
                };
                Ok(
                    AgentSession {
                        id: record.id,
                        agent,
                        config,
                        messages: record.messages,
                        approval_policy,
                        interactive_approval,
                    },
                )
            },
            None => {
                let id = new_uuid();
                let system = system_text_message(requested.system_prompt);
                let messages = vec![system];
                proof {
                    assert(msgs_view(messages@) =~= seq![
                        text_message_view("system"@, requested@.system_prompt),
                    ]);
                }
                Ok(
                    AgentSession {
                        id,
                        agent: requested,
                        config,
                        messages,
                        approval_policy,
                        interactive_approval,
                    },
                )
            },
        }
    }
}

/// The line that sums up a session's settings: agent, provider, approval,
/// reasoning and context window.
pub open spec fn summary_text(agent: Seq<char>, p: ProfileView, c: ConfigView, approval: ApprovalPolicy) -> Seq<char> {
    "agent="@ + agent + " | "@ + p.name + " | "@ + p.base_url + " | "@ + p.model + " | "@ + p.protocol
        + " | approval="@ + approval_text(approval) + " | reasoning="@ + effort_text(c.reasoning.effort)
        + " | context="@ + decimal_seq(c.context.token_threshold as nat) + " tokens/"@ + decimal_seq(
        c.context.recent_messages as nat,
    ) + " msgs"@
}

/// What asking for the next round gives in state `s`: the active provider,
/// the agent's tools from the built-in table, the conversation compacted to
/// the context window with the tool-usage context added, and the tool
/// choice; or the first error among a missing provider, an unknown tool and
/// a conversation that cannot be compacted.
pub open spec fn request_for(s: SessionView, r: Result<TurnRequest, SessionError>) -> bool {
    let cfg = ContextWindowConfig {
        token_threshold: s.config.context.token_threshold,
        recent_messages: s.config.context.recent_messages,
    };
    let sv = crate::tool_table::tool_specs_spec();
    let nv = s.agent.tool_names;
    if s.config.profiles.len() == 0 {
        r matches Err(SessionError::Config(ConfigError::NoProvider))
    } else if !crate::tools::all_known(sv, nv) {
        r matches Err(SessionError::Tool(ToolError::UnknownToolInAgent(n)))
            && n@ == nv[crate::tools::first_unknown(sv, nv)]
    } else if !(messages_bytes(s.messages) <= usize::MAX && prepare_ok(s.messages, cfg)) {
        r matches Err(SessionError::Context)
    } else {
        r matches Ok(req) && {
            let tools = nv.map_values(|n: Seq<char>| sv[crate::tools::spec_index(sv, n)]);
            &&& req.profile@ == s.config.profiles[active_index_of(s.config)]
            &&& specs_view(req.tools@) == tools
            &&& msgs_view(req.messages@) == injected_view(
                prepared_view(s.messages, cfg),
                context_header() + spec_lines(tools),
            )
            &&& match tool_choice_spec(s.messages) {
                Some(t) => req.tool_choice matches Some(c) && c@ == t,
                None => req.tool_choice is None,
            }
            &&& req.reasoning_effort == s.config.reasoning.effort
            &&& req.estimated_tokens == estimate_tokens(s.messages)
            &&& req.threshold == s.config.context.token_threshold
            &&& req.compacted == prepare_compacts(s.messages, cfg)
        }
    }
}

/// A request to send to the model for the next round.
#[derive(Debug)]
pub struct TurnRequest {
    /// The provider to ask.
    pub profile: ProviderProfile,
    /// The messages to send: the prepared context with the tool-usage
    /// context added.
    pub messages: Vec<ChatMessage>,
    /// The tools the agent may call.
    pub tools: Vec<ToolSpec>,
    /// The tool choice to send, if any.
    pub tool_choice: Option<&'static str>,
    /// The reasoning effort to ask for.
    pub reasoning_effort: ReasoningEffort,
    /// The token estimate of the conversation.
    pub estimated_tokens: usize,
    /// The threshold it was held against.
    pub threshold: usize,
    /// Whether older messages were folded into a summary.
    pub compacted: bool,
}

/// What to do with a tool call before running it.
#[derive(Debug)]
pub enum CallDecision {
    /// The call is invalid; this is its outcome.
    Invalid(ToolOutcome),
    /// Run the tool.
    Run,
    /// Ask the user whether to run it.
    AskApproval,
    /// Do not run it.
    Deny,
}

/// The error of a call to a tool the agent does not have.
pub open spec fn unavailable_text(name: Seq<char>, agent: Seq<char>) -> Seq<char> {
    "tool `"@ + name + "` is not available to agent `"@ + agent + "`"@
}

/// The hint that lists the tools the agent has.
pub open spec fn tools_hint(names: Seq<Seq<char>>) -> Seq<char> {
    "use only these tools: "@ + join_seq(names, ", "@)
}

/// The outcome text of a tool that failed with `error`.
pub open spec fn failure_text(error: Seq<char>) -> Seq<char> {
    "tool error: "@ + error
}

impl AgentSession {
    /// The session id.
    pub fn id(&self) -> (r: &str)
        ensures
            r@ == self@.id,
    {
        self.id.as_str()
    }

    /// The messages so far.
    pub fn transcript(&self) -> (r: &[ChatMessage])
        ensures
            msgs_view(r@) == self@.messages,
    {
        self.messages.as_slice()
    }

    /// The declarations of the agent's tools, taken from the built-in table.
    pub fn agent_tools(&self) -> (r: Result<Vec<ToolSpec>, ToolError>)
        ensures
            ({
                let sv = crate::tool_table::tool_specs_spec();
                let nv = self@.agent.tool_names;
                match r {
                    Ok(found) => crate::tools::all_known(sv, nv) && specs_view(found@)
                        == nv.map_values(|n: Seq<char>| sv[crate::tools::spec_index(sv, n)]),
                    Err(e) => !crate::tools::all_known(sv, nv) && (e matches ToolError::UnknownToolInAgent(n)
                        && n@ == nv[crate::tools::first_unknown(sv, nv)]),
                }
            }),
    {
        self.agent.tools()
    }

    /// The session's settings in one line; an error when no provider is
    /// configured.
    pub fn config_summary(&self) -> (r: Result<String, ConfigError>)
        ensures
            self@.config.profiles.len() == 0 ==> r matches Err(ConfigError::NoProvider),
            self@.config.profiles.len() > 0 ==> (r matches Ok(t) && t@ == summary_text(
                self@.agent.name,
                self@.config.profiles[active_index_of(self@.config)],
                self@.config,
                self@.approval_policy,
            )),
    {
        let profile = match self.config.active_profile() {
            Ok(p) => p,
            Err(e) => {
                return Err(e);
            },
        };
        let mut t = concat_str("agent=", self.agent.name);
        t = concat_str(t.as_str(), " | ");
        t = concat_str(t.as_str(), profile.name.as_str());
        t = concat_str(t.as_str(), " | ");
        t = concat_str(t.as_str(), profile.base_url.as_str());
        t = concat_str(t.as_str(), " | ");
        t = concat_str(t.as_str(), profile.model.as_str());
        t = concat_str(t.as_str(), " | ");
        t = concat_str(t.as_str(), profile.protocol.as_str());
        t = concat_str(t.as_str(), " | approval=");
        let approval = self.approval_policy.to_string();
        t = concat_str(t.as_str(), approval.as_str());
        t = concat_str(t.as_str(), " | reasoning=");
        let effort = self.config.reasoning.effort.to_string();
        t = concat_str(t.as_str(), effort.as_str());
        t = concat_str(t.as_str(), " | context=");
        let threshold = usize_to_text(self.config.context.token_threshold);
        t = concat_str(t.as_str(), threshold.as_str());
        t = concat_str(t.as_str(), " tokens/");
        let recent = usize_to_text(self.config.context.recent_messages);
        t = concat_str(t.as_str(), recent.as_str());
        t = concat_str(t.as_str(), " msgs");
        Ok(t)
    }

    /// Adds the user's message to the conversation.
    pub fn push_user_message(&mut self, input: &str)
        ensures
            final(self)@ == (SessionView {
                messages: old(self)@.messages.push(text_message_view("user"@, input@)),
                ..old(self)@
            }),
    {
        let ghost before = self.messages@;
        self.messages.push(user_message(input));
        proof {
            assert(msgs_view(self.messages@) =~= msgs_view(before).push(
                text_message_view("user"@, input@),
            ));
        }
    }

    /// What to send to the model next: the active provider, the agent's
    /// tools, the conversation compacted to the context window with the
    /// tool-usage context added, and the tool choice.
    pub fn prepare_request(&self) -> (r: Result<TurnRequest, SessionError>)
        ensures
            request_for(self@, r),
    {
        let profile = match self.config.active_profile() {
            Ok(p) => p.clone(),
            Err(e) => {
                return Err(SessionError::Config(e));
            },
        };
        let tools = match self.agent_tools() {
            Ok(t) => t,
            Err(e) => {
                return Err(SessionError::Tool(e));
            },
        };
        let tool_context = tool_context_prompt(tools.as_slice());
        let context_config = ContextWindowConfig {
            token_threshold: self.config.context.token_threshold,
            recent_messages: self.config.context.recent_messages,
        };
        let prepared = match try_prepare_context(self.messages.as_slice(), &context_config) {
            Some(p) => p,
            None => {
                return Err(SessionError::Context);
            },
        };
        let messages = inject_runtime_context(prepared.messages.as_slice(), tool_context.as_str());
        let tool_choice = tool_choice_for_round(self.messages.as_slice());
        Ok(
            TurnRequest {
                profile,
                messages,
                tools,
                tool_choice,
                reasoning_effort: self.config.reasoning.effort,
                estimated_tokens: prepared.estimated_tokens,
                threshold: context_config.token_threshold,
                compacted: prepared.compacted,
            },
        )
    }

    /// Takes in the model's reply: it joins the conversation as an assistant
    /// message; its text and the tool calls it makes are handed back.
    pub fn receive_reply(&mut self, model_message: ChatMessage) -> (r: (String, Vec<ToolCall>))
        ensures
            final(self)@ == (SessionView {
                messages: old(self)@.messages.push(
                    MessageView {
                        role: "assistant"@,
                        tool_call_id: None,
                        name: None,
                        ..model_message@
                    },
                ),
                ..old(self)@
            }),
            r.0@ == crate::context::content_text(model_message@.content),
            calls_view(r.1@) == match model_message@.tool_calls {
                Some(cs) => cs,
                None => Seq::<ToolCallView>::empty(),
            },
    {
        let calls = match &model_message.tool_calls {
            Some(c) => clone_tool_calls(c),
            None => Vec::new(),
        };
        let assistant = assistant_message(model_message);
        let answer = content_as_text(crate::llm::clone_opt_string(&assistant.content));
        let ghost before = self.messages@;
        self.messages.push(assistant);
        proof {
            assert(msgs_view(self.messages@) =~= msgs_view(before).push(
                self.messages@.last()@,
            ));
            if model_message.tool_calls is None {
                assert(calls_view(calls@) =~= Seq::<ToolCallView>::empty());
            }
        }
        (answer, calls)
    }

    /// What to do with a tool call before running it: calls of tools the
    /// agent does not have and calls with invalid arguments are counted and
    /// answered; otherwise the approval policy decides.
    pub fn check_tool_call(
        &self,
        call: &ToolCall,
        args: &JsonValue,
        counts: &mut InvalidCallCounts,
    ) -> (r: CallDecision)
        requires
            forall|k: Seq<char>| #[trigger] old(counts).count(k) < usize::MAX,
        ensures
            ({
                let s = self@;
                let name = call@.name;
                if !s.agent.tool_names.contains(name) {
                    invalid_outcome(
                        name,
                        unavailable_text(name, s.agent.name),
                        tools_hint(s.agent.tool_names),
                        *old(counts),
                        *final(counts),
                        r,
                    )
                } else if argument_error(name, args@) is Some {
                    invalid_outcome(
                        name,
                        argument_error(name, args@).unwrap(),
                        example_text(name),
                        *old(counts),
                        *final(counts),
                        r,
                    )
                } else {
                    &&& forall|k: Seq<char>| #[trigger] final(counts).count(k) == old(counts).count(k)
                    &&& match s.approval_policy {
                        ApprovalPolicy::Auto => r is Run,
                        ApprovalPolicy::OnRequest => if s.interactive_approval {
                            r is AskApproval
                        } else {
                            r is Deny
                        },
                    }
                }
            }),
    {
        let name = call.function.name.as_str();
        let names = self.agent.tool_names();
        let mut available = false;
        let mut i: usize = 0;
        while i < names.len()
            invariant
                i <= names.len(),
                strs_view(names@) == self@.agent.tool_names,
                available == (exists|j: int| 0 <= j < i && #[trigger] strs_view(names@)[j] == name@),
            decreases names.len() - i,
        {
            if str_eq(names[i], name) {
                assert(strs_view(names@)[i as int] == name@);
                available = true;
            }
            i = i + 1;
        }
        proof {
            assert(available == self@.agent.tool_names.contains(name@));
        }
        if !available {
            let agent_name = self.agent.name;
            let a = concat_str("tool `", name);
            let b = concat_str(a.as_str(), "` is not available to agent `");
            let c = concat_str(b.as_str(), agent_name);
            let error = concat_str(c.as_str(), "`");
            let mut joined_names: Vec<String> = Vec::new();
            let mut k: usize = 0;
            while k < names.len()
                invariant
                    k <= names.len(),
                    crate::text::strings_view(joined_names@) == strs_view(names@).take(k as int),
                decreases names.len() - k,
            {
                let ghost before = joined_names@;
                joined_names.push(owned(names[k]));
                proof {
                    assert(crate::text::strings_view(joined_names@) =~= crate::text::strings_view(
                        before,
                    ).push(names@[k as int]@));
                    assert(strs_view(names@).take(k + 1) =~= strs_view(names@).take(k as int).push(
                        names@[k as int]@,
                    ));
                }
                k = k + 1;
            }
            proof {
                assert(strs_view(names@).take(k as int) =~= strs_view(names@));
            }
            let joined = crate::text::join_strings(&joined_names, ", ");
            let hint = concat_str("use only these tools: ", joined.as_str());
            return CallDecision::Invalid(
                invalid_tool_call_outcome(name, error.as_str(), hint.as_str(), counts),
            );
        }
        match validate_tool_arguments(name, args) {
            Some(error) => {
                let hint = invalid_tool_example(name);
                return CallDecision::Invalid(
                    invalid_tool_call_outcome(name, error.as_str(), hint.as_str(), counts),
                );
            },
            None => {},
        }
        match self.approval_policy {
            ApprovalPolicy::Auto => CallDecision::Run,
            ApprovalPolicy::OnRequest => if self.interactive_approval {
                CallDecision::AskApproval
            } else {
                CallDecision::Deny
            },
        }
    }

    /// Adds the outcome of a tool call to the conversation as the tool's
    /// reply, and hands back its text.
    pub fn record_tool_outcome(&mut self, call: &ToolCall, outcome: &ToolOutcome) -> (r: String)
        ensures
            r@ == outcome_text(*outcome),
            final(self)@ == (SessionView {
                messages: old(self)@.messages.push(
                    MessageView {
                        role: "tool"@,
                        content: Some(outcome_text(*outcome)),
                        reasoning_content: None,
                        tool_calls: None,
                        tool_call_id: Some(call@.id),
                        name: Some(call@.name),
                    },
                ),
                ..old(self)@
            }),
    {
        let output = owned(outcome.output());
        let ghost before = self.messages@;
        self.messages.push(tool_message(call.id.clone(), call.function.name.clone(), output.clone()));
        proof {
            assert(msgs_view(self.messages@) =~= msgs_view(before).push(self.messages@.last()@));
        }
        output
    }

    /// Ends the turn with `message` from the assistant.
    pub fn record_stop(&mut self, message: &str)
        ensures
            final(self)@ == (SessionView {
                messages: old(self)@.messages.push(text_message_view("assistant"@, message@)),
                ..old(self)@
            }),
    {
        let ghost before = self.messages@;
        self.messages.push(assistant_text_message(message));
        proof {
            assert(msgs_view(self.messages@) =~= msgs_view(before).push(
                text_message_view("assistant"@, message@),
            ));
        }
    }
}

/// What happens next in a turn, as the session learns it.
#[derive(Debug)]
pub enum TurnEvent {
    /// The user said this; a new turn begins.
    UserInput(String),
    /// The model replied.
    Reply(ChatMessage),
    /// A tool call of the last reply has this outcome.
    ToolDone(ToolCall, ToolOutcome),
    /// Every tool call of the last reply has its outcome.
    RoundDone,
}

/// What the caller does next in a turn.
#[derive(Debug)]
pub enum TurnAction {
    /// Send this request to the model.
    AskModel(TurnRequest),
    /// Decide and run these tool calls, one by one.
    RunCalls(Vec<ToolCall>),
    /// Go on with the next tool call.
    Continue,
    /// The turn is over with this answer.
    Finish(String),
}

/// The result of asking for the next round in state `s`, as an action.
pub open spec fn asked(s: SessionView, r: Result<TurnAction, SessionError>) -> bool {
    match r {
        Ok(TurnAction::AskModel(q)) => request_for(s, Ok(q)),
        Ok(_) => false,
        Err(e) => request_for(s, Err(e)),
    }
}

/// The conversation's record of a tool call's outcome.
pub open spec fn tool_reply_view(call: ToolCallView, outcome: ToolOutcome) -> MessageView {
    MessageView {
        role: "tool"@,
        content: Some(outcome_text(outcome)),
        reasoning_content: None,
        tool_calls: None,
        tool_call_id: Some(call.id),
        name: Some(call.name),
    }
}

/// The conversation's record of the model's reply.
pub open spec fn reply_view(m: MessageView) -> MessageView {
    MessageView { role: "assistant"@, tool_call_id: None, name: None, ..m }
}

/// The tool calls that a reply makes.
pub open spec fn reply_calls(m: MessageView) -> Seq<ToolCallView> {
    match m.tool_calls {
        Some(cs) => cs,
        None => Seq::<ToolCallView>::empty(),
    }
}

impl AgentSession {
    /// One step of a turn. A user's input joins the conversation, starts the
    /// count of invalid tool calls afresh and asks for a round; a reply
    /// without tool calls ends the turn with its text, one with calls hands
    /// them out; each call's outcome joins the conversation, and an invalid
    /// call repeated within the turn ends it with the stop message; when a
    /// round's calls are done, the next round is asked for. The counts of
    /// invalid calls carry over from round to round within the turn.
    pub fn advance(&mut self, event: TurnEvent, counts: &mut InvalidCallCounts) -> (r: Result<
        TurnAction,
        SessionError,
    >)
        ensures
            match event {
                TurnEvent::UserInput(text) => {
                    let s = SessionView {
                        messages: old(self)@.messages.push(text_message_view("user"@, text@)),
                        ..old(self)@
                    };
                    &&& final(self)@ == s
                    &&& forall|k: Seq<char>| #[trigger] final(counts).count(k) == 0
                    &&& asked(s, r)
                },
                TurnEvent::Reply(m) => {
                    &&& final(self)@ == (SessionView {
                        messages: old(self)@.messages.push(reply_view(m@)),
                        ..old(self)@
                    })
                    &&& *final(counts) == *old(counts)
                    &&& if reply_calls(m@).len() == 0 {
                        r matches Ok(TurnAction::Finish(a)) && a@ == crate::context::content_text(
                            m@.content,
                        )
                    } else {
                        r matches Ok(TurnAction::RunCalls(cs)) && calls_view(cs@) == reply_calls(m@)
                    }
                },
                TurnEvent::ToolDone(call, outcome) => {
                    let ms = old(self)@.messages.push(tool_reply_view(call@, outcome));
                    &&& *final(counts) == *old(counts)
                    &&& match outcome {
                        ToolOutcome::InvalidRepeated(m) => {
                            &&& final(self)@ == (SessionView {
                                messages: ms.push(text_message_view("assistant"@, m@)),
                                ..old(self)@
                            })
                            &&& r matches Ok(TurnAction::Finish(a)) && a@ == m@
                        },
                        _ => {
                            &&& final(self)@ == (SessionView { messages: ms, ..old(self)@ })
                            &&& r matches Ok(TurnAction::Continue)
                        },
                    }
                },
                TurnEvent::RoundDone => {
                    &&& final(self)@ == old(self)@
                    &&& *final(counts) == *old(counts)
                    &&& asked(old(self)@, r)
                },
            },
    {
        match event {
            TurnEvent::UserInput(text) => {
                self.push_user_message(text.as_str());
                counts.clear();
                match self.prepare_request() {
                    Ok(q) => Ok(TurnAction::AskModel(q)),
                    Err(e) => Err(e),
                }
            },
            TurnEvent::Reply(m) => {
                let (answer, calls) = self.receive_reply(m);
                if calls.len() == 0 {
                    Ok(TurnAction::Finish(answer))
                } else {
                    Ok(TurnAction::RunCalls(calls))
                }
            },
            TurnEvent::ToolDone(call, outcome) => {
                let _ = self.record_tool_outcome(&call, &outcome);
                match outcome {
                    ToolOutcome::InvalidRepeated(m) => {
                        self.record_stop(m.as_str());
                        Ok(TurnAction::Finish(m))
                    },
                    _ => Ok(TurnAction::Continue),
                }
            },
            TurnEvent::RoundDone => match self.prepare_request() {
                Ok(q) => Ok(TurnAction::AskModel(q)),
                Err(e) => Err(e),
            },
        }
    }
}

/// Resuming a session from what it holds, its id and its conversation (which
/// still begins with the system prompt it was started with), gives back the
/// same id, the same conversation and the same agent.
pub proof fn lemma_resume_round_trip(
    config: ConfigView,
    agent_override: Option<Seq<char>>,
    model_override: Option<Seq<char>>,
    approval_override: Option<ApprovalPolicy>,
    interactive: bool,
    started: SessionView,
    s: SessionView,
    config2: ConfigView,
    model_override2: Option<Seq<char>>,
    approval_override2: Option<ApprovalPolicy>,
    interactive2: bool,
    resumed: SessionView,
)
    requires
        session_start(
            config,
            agent_override,
            model_override,
            None,
            approval_override,
            interactive,
            Ok(started),
        ),
        s.id == started.id,
        s.agent == started.agent,
        s.messages.len() > 0,
        s.messages[0] == started.messages[0],
        session_start(
            config2,
            None,
            model_override2,
            Some((s.id, s.messages)),
            approval_override2,
            interactive2,
            Ok(resumed),
        ),
    ensures
        resumed.id == s.id,
        resumed.messages == s.messages,
        resumed.agent == s.agent,
{
    let wanted = match agent_override {
        Some(n) => n,
        None => "main"@,
    };
    let i = crate::agents::name_index(builtin_agents_spec(), wanted);
    crate::agents::lemma_builtin_prompts_distinct();
    crate::agents::lemma_name_index(builtin_agents_spec(), wanted);
    assert(0 <= i < builtin_agents_spec().len());
    assert(prompt_index(builtin_agents_spec(), builtin_agents_spec()[i].system_prompt) == i);
    assert(started.messages[0] == text_message_view("system"@, builtin_agents_spec()[i].system_prompt));
    assert(first_content(s.messages) == Some(builtin_agents_spec()[i].system_prompt));
}

/// The outcome of counting an invalid call: the counts move as
/// `invalid_tool_call_outcome` says, and the decision carries its outcome.
pub open spec fn invalid_outcome(
    name: Seq<char>,
    error: Seq<char>,
    hint: Seq<char>,
    before: InvalidCallCounts,
    after: InvalidCallCounts,
    r: CallDecision,
) -> bool {
    let count = before.count(call_key(name, error)) + 1;
    &&& after.count(call_key(name, error)) == count
    &&& forall|k: Seq<char>| k != call_key(name, error) ==> #[trigger] after.count(k) == before.count(k)
    &&& if count >= 2 {
        r matches CallDecision::Invalid(ToolOutcome::InvalidRepeated(m)) && m@ == repeated_text(name, error)
    } else {
        r matches CallDecision::Invalid(ToolOutcome::Failed(m)) && m@ == guidance_text(name, error, hint, count)
    }
}

/// The outcome of a tool that failed, from the text of its error.
pub fn failed_outcome(error: &str) -> (r: ToolOutcome)
    ensures
        r matches ToolOutcome::Failed(m) && m@ == failure_text(error@),
{
    ToolOutcome::Failed(concat_str("tool error: ", error))
}

/// What happens during a turn, as it happens.
#[derive(Debug)]
pub enum AgentEvent {
    /// More text of the model's reply.
    AssistantDelta(String),
    /// The context window was measured (and perhaps compacted).
    ContextWindow { estimated_tokens: usize, threshold: usize, compacted: bool },
    /// A tool call begins; `arguments` is its JSON arguments as compact text.
    ToolCallStarted { id: String, name: String, arguments: String },
    /// A tool call completed with this output.
    ToolCallCompleted { id: String, name: String, output: String },
    /// A tool call failed with this error.
    ToolCallFailed { id: String, name: String, error: String },
    /// A tool call was not approved.
    ToolCallDenied { id: String, name: String },
}

} // verus!
