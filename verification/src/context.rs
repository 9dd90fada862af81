use vstd::prelude::*;

use crate::llm::{
    msgs_view, system_text_message, text_message_view, ChatMessage, MessageView, ToolCall,
    ToolCallView,
};
use crate::text::{
    byte_len, byte_prefix, str_len, collapse_whitespace, collapse_ws_seq, concat_str, is_blank,
    is_byte_boundary, join_seq, lemma_join_push, owned, str_eq, string_from_chars, take_chars, trim,
    trim_seq, truncate_bytes,
};

verus! {

broadcast use vstd::string::group_string_axioms;

const DEFAULT_CONTEXT_TOKEN_THRESHOLD: usize = 32000;

const DEFAULT_CONTEXT_RECENT_MESSAGES: usize = 12;

const CHARS_PER_TOKEN_ESTIMATE: usize = 4;

const SUMMARY_MAX_CHARS: usize = 8000;

/// When a conversation is compacted before it is sent, and how many of its
/// latest messages are kept as they are.
#[derive(Debug, Clone, Copy)]
pub struct ContextWindowConfig {
    pub token_threshold: usize,
    pub recent_messages: usize,
}

impl Default for ContextWindowConfig {
    fn default() -> (r: Self)
        ensures
            r.token_threshold == 32000,
            r.recent_messages == 12,
    {
        ContextWindowConfig {
            token_threshold: DEFAULT_CONTEXT_TOKEN_THRESHOLD,
            recent_messages: DEFAULT_CONTEXT_RECENT_MESSAGES,
        }
    }
}

/// The messages to send, with the size estimate that decided whether older
/// messages were folded into a summary.
#[derive(Debug, Clone)]
pub struct PreparedContext {
    pub messages: Vec<ChatMessage>,
    pub estimated_tokens: usize,
    pub compacted: bool,
}

/// The byte length of an optional text; 0 when there is none.
pub open spec fn opt_bytes(s: Option<Seq<char>>) -> nat {
    match s {
        Some(t) => str_len(t),
        None => 0,
    }
}

/// The bytes a tool call counts for: its id, function name and arguments.
pub open spec fn call_bytes(c: ToolCallView) -> nat {
    str_len(c.id) + str_len(c.name) + str_len(c.arguments)
}

/// The bytes of a list of tool calls.
pub open spec fn calls_bytes(cs: Seq<ToolCallView>) -> nat
    decreases cs.len(),
{
    if cs.len() == 0 {
        0
    } else {
        calls_bytes(cs.drop_last()) + call_bytes(cs.last())
    }
}

/// The bytes a message counts for: its content, tool calls, tool-call id,
/// name and role.
pub open spec fn message_bytes(m: MessageView) -> nat {
    opt_bytes(m.content) + match m.tool_calls {
        Some(cs) => calls_bytes(cs),
        None => 0,
    } + opt_bytes(m.tool_call_id) + opt_bytes(m.name) + str_len(m.role)
}

/// The bytes of a list of messages.
pub open spec fn messages_bytes(ms: Seq<MessageView>) -> nat
    decreases ms.len(),
{
    if ms.len() == 0 {
        0
    } else {
        messages_bytes(ms.drop_last()) + message_bytes(ms.last())
    }
}

/// The token estimate of a conversation: a quarter of its bytes (at least
/// one), rounded up.
pub open spec fn estimate_tokens(ms: Seq<MessageView>) -> nat {
    let c = if messages_bytes(ms) >= 1 {
        messages_bytes(ms)
    } else {
        1
    };
    if c % 4 == 0 {
        c / 4
    } else {
        c / 4 + 1
    }
}

proof fn lemma_calls_bytes_prefix(cs: Seq<ToolCallView>, i: int, j: int)
    requires
        0 <= i <= j <= cs.len(),
    ensures
        calls_bytes(cs.take(i)) <= calls_bytes(cs.take(j)),
    decreases j - i,
{
    if i < j {
        assert(cs.take(j).drop_last() =~= cs.take(j - 1));
        lemma_calls_bytes_prefix(cs, i, j - 1);
    }
}

proof fn lemma_messages_bytes_prefix(ms: Seq<MessageView>, i: int, j: int)
    requires
        0 <= i <= j <= ms.len(),
    ensures
        messages_bytes(ms.take(i)) <= messages_bytes(ms.take(j)),
    decreases j - i,
{
    if i < j {
        assert(ms.take(j).drop_last() =~= ms.take(j - 1));
        lemma_messages_bytes_prefix(ms, i, j - 1);
    }
}

fn opt_len(s: &Option<String>) -> (r: usize)
    ensures
        r == opt_bytes(opt_view_ref(s)),
{
    match s {
        Some(t) => t.as_str().len(),
        None => 0,
    }
}

/// The text of an optional string, taken by reference.
pub open spec fn opt_view_ref(s: &Option<String>) -> Option<Seq<char>> {
    match s {
        Some(t) => Some(t@),
        None => None,
    }
}

/// The bytes of all tool calls of a message; none when they do not fit in
/// a `usize`.
fn calls_char_count(calls: &Vec<ToolCall>) -> (r: Option<usize>)
    ensures
        calls_bytes(crate::llm::calls_view(calls@)) <= usize::MAX ==> r == Some(
            calls_bytes(crate::llm::calls_view(calls@)) as usize,
        ),
        calls_bytes(crate::llm::calls_view(calls@)) > usize::MAX ==> r is None,
{
    let ghost cs = crate::llm::calls_view(calls@);
    let mut total: usize = 0;
    let mut i: usize = 0;
    while i < calls.len()
        invariant
            i <= calls.len(),
            cs == crate::llm::calls_view(calls@),
            total == calls_bytes(cs.take(i as int)),
        decreases calls.len() - i,
    {
        proof {
            assert(cs.take(i + 1).drop_last() =~= cs.take(i as int));
            assert(cs.take(i + 1).last() == calls@[i as int]@);
            lemma_calls_bytes_prefix(cs, i + 1, cs.len() as int);
            assert(cs.take(cs.len() as int) =~= cs);
        }
        let call = &calls[i];
        let a = total.checked_add(call.id.as_str().len());
        let b = match a {
            Some(a) => a.checked_add(call.function.name.as_str().len()),
            None => None,
        };
        let c = match b {
            Some(b) => b.checked_add(call.function.arguments.as_str().len()),
            None => None,
        };
        match c {
            Some(c) => {
                total = c;
            },
            None => {
                return None;
            },
        }
        i = i + 1;
    }
    proof {
        assert(cs.take(i as int) =~= cs);
    }
    Some(total)
}

fn add_checked(a: Option<usize>, b: usize) -> (r: Option<usize>)
    ensures
        match a {
            Some(x) => if x + b <= usize::MAX {
                r == Some((x + b) as usize)
            } else {
                r is None
            },
            None => r is None,
        },
{
    match a {
        Some(x) => x.checked_add(b),
        None => None,
    }
}

/// The bytes a message counts for in the size estimate; none when they do
/// not fit in a `usize`.
fn message_char_count(message: &ChatMessage) -> (r: Option<usize>)
    ensures
        message_bytes(message@) <= usize::MAX ==> r == Some(message_bytes(message@) as usize),
        message_bytes(message@) > usize::MAX ==> r is None,
{
    let content = opt_len(&message.content);
    let calls = match &message.tool_calls {
        Some(calls) => calls_char_count(calls),
        None => Some(0),
    };
    let total = match calls {
        Some(c) => add_checked(Some(content), c),
        None => None,
    };
    let total = add_checked(total, opt_len(&message.tool_call_id));
    let total = add_checked(total, opt_len(&message.name));
    add_checked(total, message.role.as_str().len())
}

/// The bytes of all messages; none when they do not fit in a `usize`.
fn messages_char_count(messages: &[ChatMessage]) -> (r: Option<usize>)
    ensures
        messages_bytes(msgs_view(messages@)) <= usize::MAX ==> r == Some(
            messages_bytes(msgs_view(messages@)) as usize,
        ),
        messages_bytes(msgs_view(messages@)) > usize::MAX ==> r is None,
{
    let ghost ms = msgs_view(messages@);
    let mut chars: usize = 0;
    let mut i: usize = 0;
    while i < messages.len()
        invariant
            i <= messages.len(),
            ms == msgs_view(messages@),
            chars == messages_bytes(ms.take(i as int)),
        decreases messages.len() - i,
    {
        proof {
            assert(ms.take(i + 1).drop_last() =~= ms.take(i as int));
            assert(ms.take(i + 1).last() == messages@[i as int]@);
            lemma_messages_bytes_prefix(ms, i + 1, ms.len() as int);
            assert(ms.take(ms.len() as int) =~= ms);
        }
        match message_char_count(&messages[i]) {
            Some(n) => match chars.checked_add(n) {
                Some(total) => {
                    chars = total;
                },
                None => {
                    return None;
                },
            },
            None => {
                return None;
            },
        }
        i = i + 1;
    }
    proof {
        assert(ms.take(i as int) =~= ms);
    }
    Some(chars)
}

/// The estimated token count of `messages`: their bytes (at least one)
/// divided by four, rounded up.
pub fn estimate_messages_tokens(messages: &[ChatMessage]) -> (r: usize)
    requires
        messages_bytes(msgs_view(messages@)) <= usize::MAX,
    ensures
        r == estimate_tokens(msgs_view(messages@)),
{
    let mut chars: usize = match messages_char_count(messages) {
        Some(n) => n,
        None => 0,
    };
    if chars < 1 {
        chars = 1;
    }
    if chars % CHARS_PER_TOKEN_ESTIMATE == 0 {
        chars / CHARS_PER_TOKEN_ESTIMATE
    } else {
        chars / CHARS_PER_TOKEN_ESTIMATE + 1
    }
}

/// Where a backward walk from `start` over tool results stops: at the first
/// position (going back) that is 0, past the end, or not a tool result.
pub open spec fn window_back(ms: Seq<MessageView>, start: int) -> int
    decreases start,
{
    if 0 < start < ms.len() && ms[start].role == "tool"@ {
        window_back(ms, start - 1)
    } else {
        start
    }
}

/// Where the kept window of the `recent` latest messages starts, moved back
/// so that it does not begin with a tool result.
pub open spec fn recent_start(ms: Seq<MessageView>, recent: nat) -> int {
    window_back(
        ms,
        if ms.len() >= recent {
            ms.len() - recent
        } else {
            0
        },
    )
}

/// A walk back over tool results ends where no tool result begins.
pub proof fn lemma_window_back(ms: Seq<MessageView>, start: int)
    requires
        0 <= start,
    ensures
        0 <= window_back(ms, start) <= start,
        window_back(ms, start) == 0 || window_back(ms, start) >= ms.len() || ms[window_back(
            ms,
            start,
        )].role != "tool"@,
        forall|k: int|
            window_back(ms, start) < k <= start && k < ms.len() ==> #[trigger] ms[k].role
                == "tool"@,
    decreases start,
{
    if 0 < start < ms.len() && ms[start].role == "tool"@ {
        lemma_window_back(ms, start - 1);
    }
}

fn recent_window_start(messages: &[ChatMessage], recent_messages: usize) -> (r: usize)
    requires
        recent_messages >= 1,
    ensures
        r == recent_start(msgs_view(messages@), recent_messages as nat),
        r <= messages.len(),
{
    let ghost ms = msgs_view(messages@);
    let mut start: usize = if messages.len() > recent_messages {
        messages.len() - recent_messages
    } else {
        0
    };
    proof {
        lemma_window_back(ms, start as int);
    }
    while start > 0 && str_eq(messages[start].role.as_str(), "tool")
        invariant
            start < messages.len() || start == 0,
            ms == msgs_view(messages@),
            window_back(ms, start as int) == recent_start(ms, recent_messages as nat),
        decreases start,
    {
        start = start - 1;
    }
    start
}

/// `value` with its whitespace runs collapsed to single spaces, and cut to
/// `max` characters followed by `...` when longer.
pub open spec fn compact_seq(value: Seq<char>, max: nat) -> Seq<char> {
    let normalized = collapse_ws_seq(value);
    if normalized.len() <= max {
        normalized
    } else {
        normalized.take(max as int) + "..."@
    }
}

/// `value` with its whitespace collapsed, cut to `max_chars` characters and
/// marked with `...` when it was longer.
fn compact_text(value: &str, max_chars: usize) -> (r: String)
    ensures
        r@ == compact_seq(value@, max_chars as nat),
{
    let normalized = collapse_whitespace(value);
    if normalized.len() <= max_chars {
        string_from_chars(&normalized)
    } else {
        let head = take_chars(&normalized, max_chars);
        concat_str(head.as_str(), "...")
    }
}

/// A tool call in one line: its name and compacted arguments.
pub open spec fn call_summary(c: ToolCallView) -> Seq<char> {
    c.name + "("@ + compact_seq(c.arguments, 360) + ")"@
}

fn summarize_tool_call(call: &ToolCall) -> (r: String)
    ensures
        r@ == call_summary(call@),
{
    let args = compact_text(call.function.arguments.as_str(), 360);
    let open = concat_str(call.function.name.as_str(), "(");
    let with_args = concat_str(open.as_str(), args.as_str());
    concat_str(with_args.as_str(), ")")
}

/// The text of an optional content; empty when there is none.
pub open spec fn content_text(c: Option<Seq<char>>) -> Seq<char> {
    match c {
        Some(t) => t,
        None => Seq::<char>::empty(),
    }
}

/// What an assistant message is summarised as: what it said (when it said
/// anything), then each call it made.
pub open spec fn assistant_parts(m: MessageView) -> Seq<Seq<char>> {
    let said = match m.content {
        Some(t) => if t.len() > 0 {
            seq!["assistant said: "@ + compact_seq(t, 700)]
        } else {
            Seq::<Seq<char>>::empty()
        },
        None => Seq::<Seq<char>>::empty(),
    };
    let calls = match m.tool_calls {
        Some(cs) => cs.map_values(|c: ToolCallView| "assistant called "@ + call_summary(c)),
        None => Seq::<Seq<char>>::empty(),
    };
    said + calls
}

/// One message in one line, as the context summary lists it.
pub open spec fn summarize_seq(m: MessageView) -> Seq<char> {
    if m.role == "assistant"@ {
        join_seq(assistant_parts(m), "; "@)
    } else if m.role == "tool"@ {
        (match m.name {
            Some(n) => n,
            None => "tool"@,
        }) + " result: "@ + compact_seq(content_text(m.content), 700)
    } else {
        m.role + ": "@ + compact_seq(content_text(m.content), 700)
    }
}

fn summarize_message(message: &ChatMessage) -> (r: String)
    ensures
        r@ == summarize_seq(message@),
{
    let m = message;
    if str_eq(m.role.as_str(), "assistant") {
        let ghost said: Seq<Seq<char>> = match m@.content {
            Some(t) => if t.len() > 0 {
                seq!["assistant said: "@ + compact_seq(t, 700)]
            } else {
                Seq::<Seq<char>>::empty()
            },
            None => Seq::<Seq<char>>::empty(),
        };
        let mut out = String::new();
        let mut any = false;
        let ghost mut parts: Seq<Seq<char>> = Seq::empty();
        match &m.content {
            Some(content) => {
                if !content.as_str().is_empty() {
                    let compacted = compact_text(content.as_str(), 700);
                    out = concat_str("assistant said: ", compacted.as_str());
                    any = true;
                    proof {
                        lemma_join_push(parts, "; "@, out@);
                        parts = parts.push(out@);
                    }
                }
            },
            None => {},
        }
        proof {
            assert(parts =~= said);
        }
        match &m.tool_calls {
            Some(calls) => {
                let ghost cs = crate::llm::calls_view(calls@);
                let ghost f = |c: ToolCallView| "assistant called "@ + call_summary(c);
                let mut i: usize = 0;
                while i < calls.len()
                    invariant
                        i <= calls.len(),
                        cs == crate::llm::calls_view(calls@),
                        f == (|c: ToolCallView| "assistant called "@ + call_summary(c)),
                        parts =~= said + cs.take(i as int).map_values(f),
                        any == (parts.len() > 0),
                        out@ == join_seq(parts, "; "@),
                    decreases calls.len() - i,
                {
                    let line = summarize_tool_call(&calls[i]);
                    let part = concat_str("assistant called ", line.as_str());
                    proof {
                        lemma_join_push(parts, "; "@, part@);
                    }
                    if any {
                        let joined = concat_str(out.as_str(), "; ");
                        out = concat_str(joined.as_str(), part.as_str());
                    } else {
                        out = part;
                    }
                    any = true;
                    proof {
                        assert(part@ == f(cs[i as int]));
                        assert(cs.take(i + 1).map_values(f) =~= cs.take(i as int).map_values(
                            f,
                        ).push(part@));
                        parts = parts.push(part@);
                    }
                    i = i + 1;
                }
                proof {
                    assert(cs.take(i as int) =~= cs);
                    assert(parts =~= assistant_parts(m@));
                }
            },
            None => {
                proof {
                    assert(parts =~= assistant_parts(m@));
                }
            },
        }
        out
    } else if str_eq(m.role.as_str(), "tool") {
        let name = match &m.name {
            Some(n) => n.as_str(),
            None => "tool",
        };
        let output = match &m.content {
            Some(c) => c.as_str(),
            None => "",
        };
        proof {
            reveal_strlit("");
        }
        let compacted = compact_text(output, 700);
        let head = concat_str(name, " result: ");
        concat_str(head.as_str(), compacted.as_str())
    } else {
        let content = match &m.content {
            Some(c) => c.as_str(),
            None => "",
        };
        proof {
            reveal_strlit("");
        }
        let compacted = compact_text(content, 700);
        let head = concat_str(m.role.as_str(), ": ");
        concat_str(head.as_str(), compacted.as_str())
    }
}

/// The first line of every context summary.
pub open spec fn summary_header() -> Seq<char> {
    "Context summary replacing earlier conversation messages. Preserve these facts while continuing:\n"@
}

/// The summary line of a message.
pub open spec fn summary_entry(m: MessageView) -> Seq<char> {
    "- "@ + summarize_seq(m) + "\n"@
}

/// The summary text built from `acc` by adding the line of each message that
/// has one; once it reaches the byte limit it is cut there and marked.
pub open spec fn summary_from(acc: Seq<char>, ms: Seq<MessageView>) -> Seq<char>
    decreases ms.len(),
{
    if ms.len() == 0 {
        acc
    } else if trim_seq(summarize_seq(ms[0])).len() == 0 {
        summary_from(acc, ms.drop_first())
    } else {
        let next = acc + summary_entry(ms[0]);
        if str_len(next) >= 8000 {
            byte_prefix(next, 8000) + "\n[summary truncated]"@
        } else {
            summary_from(next, ms.drop_first())
        }
    }
}

/// Whether the byte limit, where the summary reaches it, falls between two
/// characters (the cut is only made there).
pub open spec fn summary_cut_ok(acc: Seq<char>, ms: Seq<MessageView>) -> bool
    decreases ms.len(),
{
    if ms.len() == 0 {
        true
    } else if trim_seq(summarize_seq(ms[0])).len() == 0 {
        summary_cut_ok(acc, ms.drop_first())
    } else {
        let next = acc + summary_entry(ms[0]);
        if str_len(next) >= 8000 {
            is_byte_boundary(next, 8000)
        } else {
            summary_cut_ok(next, ms.drop_first())
        }
    }
}

/// On a text of at least `n` bytes, the cut at `n` falls between two
/// characters exactly when the longest prefix within `n` bytes has `n` bytes.
proof fn lemma_boundary_check(s: Seq<char>, n: nat)
    requires
        str_len(s) >= n,
    ensures
        is_byte_boundary(s, n) <==> byte_len(byte_prefix(s, n)) == n,
        byte_len(byte_prefix(s, n)) <= n,
{
    crate::text::lemma_byte_prefix(s, n);
}

/// The summary that stands for the messages `ms`.
pub open spec fn context_summary(ms: Seq<MessageView>) -> Seq<char> {
    summary_from(summary_header(), ms)
}

/// The summary of `messages[start..end]`.
fn build_context_summary(messages: &[ChatMessage], start: usize, end: usize) -> (r: Option<String>)
    requires
        start <= end <= messages.len(),
    ensures
        ({
            let ms = msgs_view(messages@).subrange(start as int, end as int);
            &&& summary_cut_ok(summary_header(), ms) ==> (r matches Some(t) && t@ == context_summary(ms))
            &&& !summary_cut_ok(summary_header(), ms) ==> r is None
        }),
{
    let ghost ms = msgs_view(messages@).subrange(start as int, end as int);
    let mut summary = owned(
        "Context summary replacing earlier conversation messages. Preserve these facts while continuing:\n",
    );
    let mut i: usize = start;
    proof {
        assert(ms.skip(0) =~= ms);
        assert(summary@ == summary_header());
    }
    while i < end
        invariant
            start <= i <= end <= messages.len(),
            ms == msgs_view(messages@).subrange(start as int, end as int),
            summary_from(summary@, ms.skip(i - start)) == context_summary(ms),
            summary_cut_ok(summary@, ms.skip(i - start)) == summary_cut_ok(summary_header(), ms),
        decreases end - i,
    {
        let ghost rest = ms.skip(i - start);
        proof {
            assert(rest.len() > 0);
            assert(rest[0] == ms[i - start]);
            assert(ms[i - start] == msgs_view(messages@)[i as int]);
            assert(rest[0] == messages@[i as int]@);
            assert(rest.drop_first() =~= ms.skip(i + 1 - start));
        }
        let line = summarize_message(&messages[i]);
        if !is_blank(line.as_str()) {
            let dashed = concat_str(summary.as_str(), "- ");
            let lined = concat_str(dashed.as_str(), line.as_str());
            let ghost prev = summary@;
            summary = concat_str(lined.as_str(), "\n");
            proof {
                assert(summary@ =~= prev + summary_entry(rest[0]));
            }
            if summary.as_str().len() >= SUMMARY_MAX_CHARS {
                let cut = truncate_bytes(summary.as_str(), SUMMARY_MAX_CHARS);
                proof {
                    lemma_boundary_check(summary@, 8000);
                }
                if cut.as_str().len() != SUMMARY_MAX_CHARS {
                    return None;
                }
                return Some(concat_str(cut.as_str(), "\n[summary truncated]"));
            }
        }
        i = i + 1;
    }
    proof {
        assert(ms.skip(i - start).len() == 0);
    }
    Some(summary)
}

/// Whether `prepare_context` folds older messages into a summary: when the
/// estimate is over the threshold and there are more than `recent + 1`
/// messages (both limits taken as at least 1).
pub open spec fn prepare_compacts(ms: Seq<MessageView>, cfg: ContextWindowConfig) -> bool {
    let threshold = if cfg.token_threshold >= 1 {
        cfg.token_threshold as nat
    } else {
        1
    };
    let recent = if cfg.recent_messages >= 1 {
        cfg.recent_messages as nat
    } else {
        1
    };
    !(estimate_tokens(ms) <= threshold || ms.len() <= recent + 1)
}

/// Whether the conversation opens with a system message.
pub open spec fn system_first(ms: Seq<MessageView>) -> bool {
    ms.len() > 0 && ms[0].role == "system"@
}

/// Where the summarised part begins: after the leading system message.
pub open spec fn compact_start(ms: Seq<MessageView>) -> int {
    if system_first(ms) {
        1
    } else {
        0
    }
}

/// Where the summarised part ends and the kept window begins.
pub open spec fn compact_end(ms: Seq<MessageView>, cfg: ContextWindowConfig) -> int {
    recent_start(
        ms,
        if cfg.recent_messages >= 1 {
            cfg.recent_messages as nat
        } else {
            1
        },
    )
}

/// The messages that `prepare_context` sends: all of them when it does not
/// compact; else the leading system message, a system message with the
/// summary of the older messages (when there are any), and the kept window.
pub open spec fn prepared_view(ms: Seq<MessageView>, cfg: ContextWindowConfig) -> Seq<MessageView> {
    if !prepare_compacts(ms, cfg) {
        ms
    } else {
        let start = compact_start(ms);
        let end = compact_end(ms, cfg);
        let head = if system_first(ms) {
            seq![ms[0]]
        } else {
            Seq::<MessageView>::empty()
        };
        let middle = if start < end {
            seq![text_message_view("system"@, context_summary(ms.subrange(start, end)))]
        } else {
            Seq::<MessageView>::empty()
        };
        head + middle + ms.subrange(end, ms.len() as int)
    }
}

/// A conversation whose token estimate is within the threshold (taken as at
/// least 1) is sent as it is and not compacted, however many messages it
/// holds.
pub proof fn lemma_within_threshold_sent_unchanged(ms: Seq<MessageView>, cfg: ContextWindowConfig)
    requires
        estimate_tokens(ms) <= if cfg.token_threshold >= 1 {
            cfg.token_threshold as nat
        } else {
            1nat
        },
    ensures
        !prepare_compacts(ms, cfg),
        prepare_ok(ms, cfg),
        prepared_view(ms, cfg) == ms,
{
}

/// The inputs on which `prepare_context` does its work: where it compacts,
/// the kept window does not begin before the summarised part does, and the
/// summary is cut, if at all, between two characters.
pub open spec fn prepare_ok(ms: Seq<MessageView>, cfg: ContextWindowConfig) -> bool {
    prepare_compacts(ms, cfg) ==> {
        &&& compact_start(ms) <= compact_end(ms, cfg)
        &&& summary_cut_ok(
            summary_header(),
            ms.subrange(compact_start(ms), compact_end(ms, cfg)),
        )
    }
}

/// The messages to send for `messages`, as `prepare_context` gives them;
/// none on the inputs on which it cannot do its work (their size does not
/// fit in a `usize`, or `prepare_ok` fails).
pub fn try_prepare_context(messages: &[ChatMessage], config: &ContextWindowConfig) -> (r: Option<
    PreparedContext,
>)
    ensures
        ({
            let ms = msgs_view(messages@);
            &&& (messages_bytes(ms) <= usize::MAX && prepare_ok(ms, *config)) ==> (r matches Some(p)
                && msgs_view(p.messages@) == prepared_view(ms, *config) && p.estimated_tokens
                == estimate_tokens(ms) && p.compacted == prepare_compacts(ms, *config))
            &&& !(messages_bytes(ms) <= usize::MAX && prepare_ok(ms, *config)) ==> r is None
        }),
{
    let ghost ms = msgs_view(messages@);
    if messages_char_count(messages).is_none() {
        return None;
    }
    let estimated_tokens = estimate_messages_tokens(messages);
    let token_threshold = if config.token_threshold >= 1 {
        config.token_threshold
    } else {
        1
    };
    let recent_messages = if config.recent_messages >= 1 {
        config.recent_messages
    } else {
        1
    };
    if estimated_tokens <= token_threshold || messages.len() == 0 || messages.len() - 1
        <= recent_messages {
        let kept = crate::llm::clone_messages(messages);
        return Some(PreparedContext { messages: kept, estimated_tokens, compacted: false });
    }
    let mut prepared: Vec<ChatMessage> = Vec::new();
    let has_system = str_eq(messages[0].role.as_str(), "system");
    if has_system {
        prepared.push(messages[0].clone());
    }
    let start: usize = if has_system {
        1
    } else {
        0
    };
    let end = recent_window_start(messages, recent_messages);
    if start > end {
        return None;
    }
    if start < end {
        match build_context_summary(messages, start, end) {
            Some(summary) => {
                prepared.push(system_text_message(summary.as_str()));
            },
            None => {
                return None;
            },
        }
    } else {
        proof {
            assert(ms.subrange(start as int, end as int).len() == 0);
        }
    }
    let ghost before = msgs_view(prepared@);
    let mut i: usize = end;
    while i < messages.len()
        invariant
            end <= i <= messages.len(),
            ms == msgs_view(messages@),
            msgs_view(prepared@) == before + ms.subrange(end as int, i as int),
        decreases messages.len() - i,
    {
        let ghost old_prepared = prepared@;
        let item = messages[i].clone();
        prepared.push(item);
        proof {
            assert(ms.subrange(end as int, i + 1) =~= ms.subrange(end as int, i as int).push(
                ms[i as int],
            ));
            assert(msgs_view(prepared@) =~= msgs_view(old_prepared).push(ms[i as int]));
        }
        i = i + 1;
    }
    Some(PreparedContext { messages: prepared, estimated_tokens, compacted: true })
}

/// The messages to send for `messages`: unchanged while the estimate stays
/// within the threshold; else older messages are replaced by one summary.
pub fn prepare_context(messages: &[ChatMessage], config: &ContextWindowConfig) -> (r:
    PreparedContext)
    requires
        messages_bytes(msgs_view(messages@)) <= usize::MAX,
        prepare_ok(msgs_view(messages@), *config),
    ensures
        msgs_view(r.messages@) == prepared_view(msgs_view(messages@), *config),
        r.estimated_tokens == estimate_tokens(msgs_view(messages@)),
        r.compacted == prepare_compacts(msgs_view(messages@), *config),
{
    match try_prepare_context(messages, config) {
        Some(p) => p,
        None => {
            proof {
                assert(false);
            }
            PreparedContext { messages: Vec::new(), estimated_tokens: 0, compacted: false }
        },
    }
}

/// The messages with the trimmed runtime context added as a system message:
/// right after a leading system message, else first; unchanged when the
/// context is blank.
pub open spec fn injected_view(ms: Seq<MessageView>, context: Seq<char>) -> Seq<MessageView> {
    let c = trim_seq(context);
    if c.len() == 0 {
        ms
    } else if system_first(ms) {
        seq![ms[0], text_message_view("system"@, c)] + ms.skip(1)
    } else {
        seq![text_message_view("system"@, c)] + ms
    }
}

/// `messages` with `runtime_context` added as a system message after the
/// primary system message.
pub fn inject_runtime_context(messages: &[ChatMessage], runtime_context: &str) -> (r: Vec<
    ChatMessage,
>)
    ensures
        msgs_view(r@) == injected_view(msgs_view(messages@), runtime_context@),
{
    let ghost ms = msgs_view(messages@);
    let context = trim(runtime_context);
    if context.as_str().is_empty() {
        return crate::llm::clone_messages(messages);
    }
    let mut prepared: Vec<ChatMessage> = Vec::new();
    let mut i: usize = 0;
    if messages.len() > 0 && str_eq(messages[0].role.as_str(), "system") {
        prepared.push(messages[0].clone());
        prepared.push(system_text_message(context.as_str()));
        i = 1;
    } else {
        prepared.push(system_text_message(context.as_str()));
    }
    let ghost before = msgs_view(prepared@);
    let ghost from = i;
    while i < messages.len()
        invariant
            from <= i <= messages.len(),
            from == 0 || from == 1,
            from == 1 ==> messages.len() >= 1,
            ms == msgs_view(messages@),
            msgs_view(prepared@) == before + ms.subrange(from as int, i as int),
        decreases messages.len() - i,
    {
        let ghost old_prepared = prepared@;
        let item = messages[i].clone();
        prepared.push(item);
        proof {
            assert(ms.subrange(from as int, i + 1) =~= ms.subrange(from as int, i as int).push(
                ms[i as int],
            ));
            assert(msgs_view(prepared@) =~= msgs_view(old_prepared).push(ms[i as int]));
        }
        i = i + 1;
    }
    proof {
        assert(ms.subrange(from as int, ms.len() as int) =~= ms.skip(from as int));
        assert(ms.skip(0) =~= ms);
    }
    prepared
}

/// Taking the injected runtime context back out gives the conversation that
/// it was added to, and the injected message holds the trimmed context.
pub proof fn lemma_inject_then_remove(ms: Seq<MessageView>, context: Seq<char>)
    requires
        trim_seq(context).len() > 0,
    ensures
        ({
            let at = if system_first(ms) {
                1int
            } else {
                0int
            };
            &&& injected_view(ms, context)[at] == text_message_view("system"@, trim_seq(context))
            &&& injected_view(ms, context).remove(at) == ms
        }),
{
    if system_first(ms) {
        assert(injected_view(ms, context).remove(1) =~= ms);
    } else {
        assert(injected_view(ms, context).remove(0) =~= ms);
    }
}

/// A blank runtime context leaves the conversation as it is.
pub proof fn lemma_inject_blank(ms: Seq<MessageView>, context: Seq<char>)
    requires
        trim_seq(context).len() == 0,
    ensures
        injected_view(ms, context) == ms,
{
}

/// A compacted conversation keeps tool results with the call they answer:
/// the kept window never begins with a tool result (unless it is the whole
/// conversation), and it is never longer than the conversation it stands for.
pub proof fn lemma_prepared_window(ms: Seq<MessageView>, cfg: ContextWindowConfig)
    requires
        prepare_ok(ms, cfg),
        prepare_compacts(ms, cfg),
    ensures
        compact_end(ms, cfg) == 0 || ms[compact_end(ms, cfg)].role != "tool"@,
        prepared_view(ms, cfg).len() <= ms.len(),
        prepared_view(ms, cfg).skip(prepared_view(ms, cfg).len() - (ms.len() - compact_end(
            ms,
            cfg,
        ))) == ms.skip(compact_end(ms, cfg)),
{
    let recent: nat = if cfg.recent_messages >= 1 {
        cfg.recent_messages as nat
    } else {
        1
    };
    let s = if ms.len() >= recent {
        ms.len() - recent
    } else {
        0
    };
    lemma_window_back(ms, s);
    let p = prepared_view(ms, cfg);
    let end = compact_end(ms, cfg);
    assert(p.skip(p.len() - (ms.len() - end)) =~= ms.skip(end));
}

} // verus!
