use vstd::prelude::*;

use crate::llm::split_lines;
use crate::text::{
    chars_of, concat_str, join_seq, lemma_join_push, owned, starts_with, starts_with_seq, str_eq,
    string_from_chars, take_chars, trim, trim_seq,
};

verus! {

broadcast use vstd::string::group_string_axioms;

/// How a tool call is shown.
#[derive(Debug, Clone, Copy, PartialEq, Eq, Structural)]
pub enum ToolStatus {
    Calling,
    Called,
    Failed,
    Denied,
}

/// How a tool's reply is shown: denied when it is the denial message, failed
/// when it reports a tool error, else completed.
pub open spec fn status_of(output: Seq<char>) -> ToolStatus {
    let t = trim_seq(output);
    if t == "tool denied by approval policy"@ {
        ToolStatus::Denied
    } else if starts_with_seq(t, "tool error:"@) {
        ToolStatus::Failed
    } else {
        ToolStatus::Called
    }
}

/// The status shown for a tool's reply.
pub fn classify_tool_output(output: &str) -> (r: ToolStatus)
    ensures
        r == status_of(output@),
{
    let normalized = trim(output);
    if str_eq(normalized.as_str(), "tool denied by approval policy") {
        ToolStatus::Denied
    } else if starts_with(normalized.as_str(), "tool error:") {
        ToolStatus::Failed
    } else {
        ToolStatus::Called
    }
}

impl ToolStatus {
    /// The word shown for the status.
    pub fn label(&self) -> (r: &'static str)
        ensures
            r@ == match *self {
                ToolStatus::Calling => "Calling"@,
                ToolStatus::Called => "Called"@,
                ToolStatus::Failed => "Failed"@,
                ToolStatus::Denied => "Denied"@,
            },
    {
        match self {
            ToolStatus::Calling => "Calling",
            ToolStatus::Called => "Called",
            ToolStatus::Failed => "Failed",
            ToolStatus::Denied => "Denied",
        }
    }
}

/// `value` cut to `max` characters, followed by `...` when it was longer.
pub open spec fn truncated_chars(value: Seq<char>, max: nat) -> Seq<char> {
    if value.len() > max {
        value.take(max as int) + "..."@
    } else {
        value
    }
}

/// `value` cut to `max_chars` characters, marked with `...` when it was
/// longer.
pub fn truncate_chars(value: &str, max_chars: usize) -> (r: String)
    ensures
        r@ == truncated_chars(value@, max_chars as nat),
{
    let cs = chars_of(value);
    if cs.len() > max_chars {
        let head = take_chars(&cs, max_chars);
        concat_str(head.as_str(), "...")
    } else {
        string_from_chars(&cs)
    }
}

/// A line without the carriage return that ends it, if any.
pub open spec fn strip_cr(l: Seq<char>) -> Seq<char> {
    if l.len() > 0 && l.last() == '\r' {
        l.drop_last()
    } else {
        l
    }
}

/// The lines of a text as `str::lines` gives them: split at line breaks
/// (a carriage return before one is dropped), with no empty last line.
pub open spec fn text_lines(s: Seq<char>) -> Seq<Seq<char>> {
    let (done, rest) = split_lines(s);
    done.map_values(|l: Seq<char>| strip_cr(l)) + if rest.len() > 0 {
        seq![rest]
    } else {
        Seq::<Seq<char>>::empty()
    }
}

/// The trimmed lines that hold more than white space, in order.
pub open spec fn nonblank_trimmed(ls: Seq<Seq<char>>) -> Seq<Seq<char>>
    decreases ls.len(),
{
    if ls.len() == 0 {
        Seq::empty()
    } else {
        let rest = nonblank_trimmed(ls.drop_last());
        let t = trim_seq(ls.last());
        if t.len() > 0 {
            rest.push(t)
        } else {
            rest
        }
    }
}

/// A tool's output in one short line: its first three non-blank lines,
/// trimmed and joined with ` | `, cut to 240 characters; `(empty)` when
/// there are none.
pub open spec fn output_summary(output: Seq<char>) -> Seq<char> {
    let ls = nonblank_trimmed(text_lines(output));
    let shown = if ls.len() > 3 {
        ls.take(3)
    } else {
        ls
    };
    let joined = join_seq(shown, " | "@);
    if joined.len() == 0 {
        "(empty)"@
    } else {
        truncated_chars(joined, 240)
    }
}

/// A trimmed copy of the characters of one line, and whether it holds
/// anything.
fn trimmed_line(line: &Vec<char>) -> (r: String)
    ensures
        r@ == trim_seq(line@),
{
    let (a, b) = crate::text::trim_bounds(line);
    crate::text::string_from_range(line, a, b)
}

/// The line without its last character when that is a carriage return.
fn strip_cr_of(line: &Vec<char>) -> (r: Vec<char>)
    ensures
        r@ == strip_cr(line@),
{
    let mut out: Vec<char> = Vec::new();
    let n = if line.len() > 0 && line[line.len() - 1] == '\r' {
        line.len() - 1
    } else {
        line.len()
    };
    let mut i: usize = 0;
    while i < n
        invariant
            i <= n <= line.len(),
            n == (if line@.len() > 0 && line@.last() == '\r' {
                line@.len() - 1
            } else {
                line@.len() as int
            }),
            out@ == line@.take(i as int),
        decreases n - i,
    {
        out.push(line[i]);
        proof {
            assert(line@.take(i + 1) =~= line@.take(i as int).push(line@[i as int]));
        }
        i = i + 1;
    }
    proof {
        assert(out@ =~= strip_cr(line@));
    }
    out
}

/// The trimmed non-blank lines of `output`.
fn nonblank_lines(output: &str) -> (r: Vec<String>)
    ensures
        crate::text::strings_view(r@) == nonblank_trimmed(text_lines(output@)),
{
    let cs = chars_of(output);
    let mut out: Vec<String> = Vec::new();
    let mut current: Vec<char> = Vec::new();
    let mut i: usize = 0;
    let ghost f = |l: Seq<char>| strip_cr(l);
    proof {
        assert(cs@.take(0) =~= Seq::<char>::empty());
        assert(split_lines(Seq::<char>::empty()).0.map_values(f) =~= Seq::<Seq<char>>::empty());
        assert(crate::text::strings_view(out@) =~= Seq::<Seq<char>>::empty());
    }
    while i < cs.len()
        invariant
            i <= cs.len(),
            cs@ == output@,
            f == (|l: Seq<char>| strip_cr(l)),
            current@ == split_lines(cs@.take(i as int)).1,
            crate::text::strings_view(out@) == nonblank_trimmed(
                split_lines(cs@.take(i as int)).0.map_values(f),
            ),
        decreases cs.len() - i,
    {
        let c = cs[i];
        let ghost prefix = cs@.take(i as int);
        proof {
            assert(cs@.take(i + 1).drop_last() =~= prefix);
            assert(cs@.take(i + 1).last() == c);
        }
        if c == '\n' {
            let line = strip_cr_of(&current);
            let t = trimmed_line(&line);
            let ghost done = split_lines(prefix).0.map_values(f);
            proof {
                assert(split_lines(cs@.take(i + 1)).0 == split_lines(prefix).0.push(
                    split_lines(prefix).1,
                ));
                assert(split_lines(cs@.take(i + 1)).0.map_values(f) =~= done.push(
                    strip_cr(current@),
                ));
                assert(done.push(strip_cr(current@)).drop_last() =~= done);
                assert(nonblank_trimmed(done.push(strip_cr(current@))) == if trim_seq(
                    strip_cr(current@),
                ).len() > 0 {
                    nonblank_trimmed(done).push(trim_seq(strip_cr(current@)))
                } else {
                    nonblank_trimmed(done)
                });
            }
            if !t.as_str().is_empty() {
                let ghost before = out@;
                out.push(t);
                proof {
                    assert(crate::text::strings_view(out@) =~= crate::text::strings_view(
                        before,
                    ).push(trim_seq(strip_cr(current@))));
                }
            }
            current = Vec::new();
        } else {
            current.push(c);
        }
        i = i + 1;
    }
    proof {
        assert(cs@.take(i as int) =~= cs@);
    }
    let ghost done = split_lines(cs@).0.map_values(f);
    if current.len() > 0 {
        let t = trimmed_line(&current);
        proof {
            assert(text_lines(output@) =~= done.push(current@));
            assert(done.push(current@).drop_last() =~= done);
            assert(nonblank_trimmed(done.push(current@)) == if trim_seq(current@).len() > 0 {
                nonblank_trimmed(done).push(trim_seq(current@))
            } else {
                nonblank_trimmed(done)
            });
        }
        if !t.as_str().is_empty() {
            let ghost before = out@;
            out.push(t);
            proof {
                assert(crate::text::strings_view(out@) =~= crate::text::strings_view(before).push(
                    trim_seq(current@),
                ));
            }
        }
    } else {
        proof {
            assert(text_lines(output@) =~= done);
        }
    }
    out
}

/// A tool's output in one short line, as the transcript shows it.
pub fn summarize_tool_output(output: &str) -> (r: String)
    ensures
        r@ == output_summary(output@),
{
    let lines = nonblank_lines(output);
    let ghost ls = crate::text::strings_view(lines@);
    let n: usize = if lines.len() > 3 {
        3
    } else {
        lines.len()
    };
    let mut joined = String::new();
    let mut i: usize = 0;
    proof {
        assert(ls.take(0) =~= Seq::<Seq<char>>::empty());
    }
    while i < n
        invariant
            i <= n <= lines.len(),
            ls == crate::text::strings_view(lines@),
            joined@ == join_seq(ls.take(i as int), " | "@),
        decreases n - i,
    {
        proof {
            lemma_join_push(ls.take(i as int), " | "@, ls[i as int]);
            assert(ls.take(i + 1) =~= ls.take(i as int).push(ls[i as int]));
        }
        if i > 0 {
            let sep = concat_str(joined.as_str(), " | ");
            joined = concat_str(sep.as_str(), lines[i].as_str());
        } else {
            joined = lines[i].clone();
        }
        i = i + 1;
    }
    proof {
        if ls.len() <= 3 {
            assert(ls.take(n as int) =~= ls);
        }
    }
    if joined.as_str().is_empty() {
        owned("(empty)")
    } else {
        truncate_chars(joined.as_str(), 240)
    }
}

/// The lines of `text`, as `str::lines` gives them.
pub fn lines_of(text: &str) -> (r: Vec<String>)
    ensures
        crate::text::strings_view(r@) == text_lines(text@),
{
    let cs = chars_of(text);
    let mut out: Vec<String> = Vec::new();
    let mut current: Vec<char> = Vec::new();
    let mut i: usize = 0;
    let ghost f = |l: Seq<char>| strip_cr(l);
    proof {
        assert(cs@.take(0) =~= Seq::<char>::empty());
        assert(split_lines(Seq::<char>::empty()).0.map_values(f) =~= Seq::<Seq<char>>::empty());
        assert(crate::text::strings_view(out@) =~= Seq::<Seq<char>>::empty());
    }
    while i < cs.len()
        invariant
            i <= cs.len(),
            cs@ == text@,
            f == (|l: Seq<char>| strip_cr(l)),
            current@ == split_lines(cs@.take(i as int)).1,
            crate::text::strings_view(out@) == split_lines(cs@.take(i as int)).0.map_values(f),
        decreases cs.len() - i,
    {
        let c = cs[i];
        let ghost prefix = cs@.take(i as int);
        proof {
            assert(cs@.take(i + 1).drop_last() =~= prefix);
            assert(cs@.take(i + 1).last() == c);
        }
        if c == '\n' {
            let line = strip_cr_of(&current);
            let ghost before = out@;
            out.push(string_from_chars(&line));
            proof {
                assert(split_lines(cs@.take(i + 1)).0 == split_lines(prefix).0.push(
                    split_lines(prefix).1,
                ));
                assert(crate::text::strings_view(out@) =~= crate::text::strings_view(before).push(
                    strip_cr(current@),
                ));
                assert(split_lines(cs@.take(i + 1)).0.map_values(f) =~= split_lines(prefix).0.map_values(
                    f,
                ).push(strip_cr(current@)));
            }
            current = Vec::new();
        } else {
            current.push(c);
        }
        i = i + 1;
    }
    proof {
        assert(cs@.take(i as int) =~= cs@);
    }
    if current.len() > 0 {
        let ghost before = out@;
        out.push(string_from_chars(&current));
        proof {
            assert(crate::text::strings_view(out@) =~= crate::text::strings_view(before).push(
                current@,
            ));
            assert(text_lines(text@) =~= split_lines(cs@).0.map_values(f).push(current@));
        }
    } else {
        proof {
            assert(text_lines(text@) =~= split_lines(cs@).0.map_values(f));
        }
    }
    out
}

/// One entry of the transcript shown in the terminal.
#[derive(Debug)]
pub enum TuiLine {
    /// A note from the program.
    System(String),
    /// A message: its role and text.
    Message(String, String),
    /// A tool event: its status, call id, tool name and detail.
    Tool(ToolStatus, String, String, Option<String>),
    /// An empty line.
    Blank,
}

/// A transcript entry as plain values.
pub enum LineView {
    System(Seq<char>),
    Message(Seq<char>, Seq<char>),
    Tool(ToolStatus, Seq<char>, Seq<char>, Option<Seq<char>>),
    Blank,
}

/// A transcript entry as plain values.
pub open spec fn line_view(l: TuiLine) -> LineView {
    match l {
        TuiLine::System(t) => LineView::System(t@),
        TuiLine::Message(r, c) => LineView::Message(r@, c@),
        TuiLine::Tool(s, i, n, d) => LineView::Tool(s, i@, n@, crate::llm::opt_view(d)),
        TuiLine::Blank => LineView::Blank,
    }
}

/// The transcript entries as plain values.
pub open spec fn lines_view(ls: Seq<TuiLine>) -> Seq<LineView> {
    ls.map_values(|l: TuiLine| line_view(l))
}

/// The state of the terminal interface: what is being typed, the
/// transcript, the reply streaming in, the status line and the scroll
/// offset.
#[derive(Debug)]
pub struct TuiState {
    pub input: String,
    pub lines: Vec<TuiLine>,
    pub streaming_assistant: Option<String>,
    pub status: String,
    pub scroll: u16,
}

/// The interface state as plain values.
pub struct TuiView {
    pub input: Seq<char>,
    pub lines: Seq<LineView>,
    pub streaming: Option<Seq<char>>,
    pub status: Seq<char>,
    pub scroll: u16,
}

impl View for TuiState {
    type V = TuiView;

    open spec fn view(&self) -> TuiView {
        TuiView {
            input: self.input@,
            lines: lines_view(self.lines@),
            streaming: crate::llm::opt_view(self.streaming_assistant),
            status: self.status@,
            scroll: self.scroll,
        }
    }
}

/// The state with `extra` added to the transcript.
pub open spec fn with_lines(v: TuiView, extra: Seq<LineView>) -> TuiView {
    TuiView { lines: v.lines + extra, ..v }
}

/// The state after a streamed reply is moved into the transcript (when it
/// holds more than white space) and the stream is closed.
pub open spec fn committed(v: TuiView) -> TuiView {
    match v.streaming {
        Some(c) => {
            let w = TuiView { streaming: None, ..v };
            if trim_seq(c).len() > 0 {
                with_lines(w, seq![LineView::Message("assistant"@, c), LineView::Blank])
            } else {
                w
            }
        },
        None => v,
    }
}

/// The state after a tool event: the stream is committed, then the event is
/// shown with its detail when that holds more than white space.
pub open spec fn tool_event(
    v: TuiView,
    status: ToolStatus,
    id: Seq<char>,
    name: Seq<char>,
    detail: Option<Seq<char>>,
) -> TuiView {
    let d = match detail {
        Some(t) => if trim_seq(t).len() > 0 {
            Some(t)
        } else {
            None
        },
        None => None,
    };
    with_lines(committed(v), seq![LineView::Tool(status, id, name, d), LineView::Blank])
}

/// The state after a tool's reply is shown by what it says: completed with a
/// summary, failed with a summary, or denied.
pub open spec fn tool_result(v: TuiView, id: Seq<char>, name: Seq<char>, output: Seq<char>) -> TuiView {
    match status_of(output) {
        ToolStatus::Called => tool_event(v, ToolStatus::Called, id, name, Some("output "@ + output_summary(output))),
        ToolStatus::Failed => tool_event(v, ToolStatus::Failed, id, name, Some("error "@ + output_summary(output))),
        ToolStatus::Denied => tool_event(v, ToolStatus::Denied, id, name, None),
        ToolStatus::Calling => tool_event(v, ToolStatus::Calling, id, name, Some("args {}"@)),
    }
}

/// The detail shown for a tool call's arguments.
pub open spec fn args_detail(arguments: Seq<char>) -> Seq<char> {
    "args "@ + truncated_chars(arguments, 240)
}

/// The state after the tool calls of an assistant message are shown.
pub open spec fn calls_shown(v: TuiView, cs: Seq<crate::llm::ToolCallView>) -> TuiView
    decreases cs.len(),
{
    if cs.len() == 0 {
        v
    } else {
        let c = cs.last();
        tool_event(
            calls_shown(v, cs.drop_last()),
            ToolStatus::Calling,
            c.id,
            c.name,
            Some(args_detail(crate::json::arguments_text(c.arguments))),
        )
    }
}

/// The state after one message of a saved conversation is shown.
pub open spec fn message_shown(v: TuiView, m: crate::llm::MessageView) -> TuiView {
    if m.role == "system"@ {
        v
    } else if m.role == "assistant"@ {
        let v1 = match m.content {
            Some(c) => if trim_seq(c).len() > 0 {
                with_lines(v, seq![LineView::Message(m.role, c), LineView::Blank])
            } else {
                v
            },
            None => v,
        };
        match m.tool_calls {
            Some(cs) => calls_shown(v1, cs),
            None => v1,
        }
    } else if m.role == "tool"@ {
        tool_result(
            v,
            match m.tool_call_id {
                Some(i) => i,
                None => "tool_call"@,
            },
            match m.name {
                Some(n) => n,
                None => "tool"@,
            },
            crate::context::content_text(m.content),
        )
    } else {
        match m.content {
            Some(c) => if trim_seq(c).len() > 0 {
                with_lines(v, seq![LineView::Message(m.role, c), LineView::Blank])
            } else {
                v
            },
            None => v,
        }
    }
}

/// The state after a saved conversation is shown, message by message.
pub open spec fn transcript_shown(v: TuiView, ms: Seq<crate::llm::MessageView>) -> TuiView
    decreases ms.len(),
{
    if ms.len() == 0 {
        v
    } else {
        message_shown(transcript_shown(v, ms.drop_last()), ms.last())
    }
}

/// The note shown when a session opens with nothing to show.
pub open spec fn ready_text() -> Seq<char> {
    "Ready. Type a message and press Enter. Esc or Ctrl-C exits."@
}

/// A key press, as the interface tells them apart.
#[derive(Debug, Clone, Copy, PartialEq, Eq, Structural)]
pub enum TuiKey {
    /// Escape.
    Esc,
    /// A character, with whether Control was held.
    Char(char, bool),
    Backspace,
    Enter,
    /// Up or page up.
    Up,
    /// Down or page down.
    Down,
    Other,
}

/// What the loop does after a key press.
#[derive(Debug)]
pub enum TuiAction {
    /// Wait for the next key.
    Continue,
    /// Leave the interface.
    Exit,
    /// Show the session id.
    ShowId,
    /// Show the session settings.
    ShowConfig,
    /// Send this message to the agent.
    Send(String),
}

/// The help shown for `/help`.
pub open spec fn help_text() -> Seq<char> {
    "/help, /id, /config, /exit are available. Enter sends."@
}

impl TuiState {
    /// Moves a streamed reply into the transcript and closes the stream.
    pub fn commit_assistant_stream(&mut self)
        ensures
            final(self)@ == committed(old(self)@),
    {
        let mut taken: Option<String> = None;
        std::mem::swap(&mut taken, &mut self.streaming_assistant);
        match taken {
            Some(content) => {
                if !crate::text::is_blank(content.as_str()) {
                    self.push_message("assistant", content.as_str());
                }
            },
            None => {},
        }
    }

    /// Adds a note from the program.
    pub fn push_system(&mut self, content: &str)
        ensures
            final(self)@ == with_lines(old(self)@, seq![LineView::System(content@), LineView::Blank]),
    {
        let ghost before = self.lines@;
        self.lines.push(TuiLine::System(owned(content)));
        self.lines.push(TuiLine::Blank);
        proof {
            assert(lines_view(self.lines@) =~= lines_view(before) + seq![
                LineView::System(content@),
                LineView::Blank,
            ]);
        }
    }

    /// Adds a message with its role.
    pub fn push_message(&mut self, role: &str, content: &str)
        ensures
            final(self)@ == with_lines(
                old(self)@,
                seq![LineView::Message(role@, content@), LineView::Blank],
            ),
    {
        let ghost before = self.lines@;
        self.lines.push(TuiLine::Message(owned(role), owned(content)));
        self.lines.push(TuiLine::Blank);
        proof {
            assert(lines_view(self.lines@) =~= lines_view(before) + seq![
                LineView::Message(role@, content@),
                LineView::Blank,
            ]);
        }
    }

    /// Adds streamed reply text.
    pub fn push_assistant_delta(&mut self, delta: &str)
        ensures
            final(self)@ == (TuiView {
                streaming: Some(
                    match old(self)@.streaming {
                        Some(c) => c,
                        None => Seq::<char>::empty(),
                    } + delta@,
                ),
                ..old(self)@
            }),
    {
        let mut taken: Option<String> = None;
        std::mem::swap(&mut taken, &mut self.streaming_assistant);
        let content = match taken {
            Some(c) => concat_str(c.as_str(), delta),
            None => owned(delta),
        };
        self.streaming_assistant = Some(content);
    }

    /// Ends a turn: the streamed reply, or else `fallback`, is shown; a note
    /// says so when both are blank.
    pub fn finish_assistant_stream(&mut self, fallback: &str)
        ensures
            ({
                let v = old(self)@;
                let content = match v.streaming {
                    Some(c) => if trim_seq(c).len() > 0 {
                        c
                    } else {
                        fallback@
                    },
                    None => fallback@,
                };
                let w = TuiView { streaming: None, ..v };
                final(self)@ == if trim_seq(content).len() == 0 {
                    with_lines(w, seq![LineView::System("Model returned an empty response."@), LineView::Blank])
                } else {
                    with_lines(w, seq![LineView::Message("assistant"@, content), LineView::Blank])
                }
            }),
    {
        let mut taken: Option<String> = None;
        std::mem::swap(&mut taken, &mut self.streaming_assistant);
        let content = match taken {
            Some(c) => if !crate::text::is_blank(c.as_str()) {
                c
            } else {
                owned(fallback)
            },
            None => owned(fallback),
        };
        if crate::text::is_blank(content.as_str()) {
            self.push_system("Model returned an empty response.");
        } else {
            self.push_message("assistant", content.as_str());
        }
    }

    /// Shows a tool event, after committing any streamed reply.
    pub fn push_tool_event(&mut self, status: ToolStatus, id: &str, name: &str, detail: Option<String>)
        ensures
            final(self)@ == tool_event(old(self)@, status, id@, name@, crate::llm::opt_view(detail)),
    {
        self.commit_assistant_stream();
        let shown = match detail {
            Some(d) => if !crate::text::is_blank(d.as_str()) {
                Some(d)
            } else {
                None
            },
            None => None,
        };
        let ghost before = self.lines@;
        let ghost dv = crate::llm::opt_view(shown);
        self.lines.push(TuiLine::Tool(status, owned(id), owned(name), shown));
        self.lines.push(TuiLine::Blank);
        proof {
            assert(lines_view(self.lines@) =~= lines_view(before) + seq![
                LineView::Tool(status, id@, name@, dv),
                LineView::Blank,
            ]);
        }
    }

    /// Shows that a tool is being called with these arguments (as JSON
    /// text).
    pub fn push_tool_started(&mut self, id: &str, name: &str, arguments: &str)
        ensures
            final(self)@ == tool_event(old(self)@, ToolStatus::Calling, id@, name@, Some(args_detail(arguments@))),
    {
        let shown = truncate_chars(arguments, 240);
        self.push_tool_event(ToolStatus::Calling, id, name, Some(concat_str("args ", shown.as_str())));
    }

    /// Shows a tool's completed output, summed up.
    pub fn push_tool_completed(&mut self, id: &str, name: &str, output: &str)
        ensures
            final(self)@ == tool_event(old(self)@, ToolStatus::Called, id@, name@, Some("output "@ + output_summary(output@))),
    {
        let summary = summarize_tool_output(output);
        self.push_tool_event(ToolStatus::Called, id, name, Some(concat_str("output ", summary.as_str())));
    }

    /// Shows a tool's failure, summed up.
    pub fn push_tool_failed(&mut self, id: &str, name: &str, error: &str)
        ensures
            final(self)@ == tool_event(old(self)@, ToolStatus::Failed, id@, name@, Some("error "@ + output_summary(error@))),
    {
        let summary = summarize_tool_output(error);
        self.push_tool_event(ToolStatus::Failed, id, name, Some(concat_str("error ", summary.as_str())));
    }

    /// Shows that a tool call was denied.
    pub fn push_tool_denied(&mut self, id: &str, name: &str)
        ensures
            final(self)@ == tool_event(old(self)@, ToolStatus::Denied, id@, name@, None),
    {
        self.push_tool_event(ToolStatus::Denied, id, name, None);
    }

    /// Shows a tool's reply by what it says.
    pub fn push_tool_result(&mut self, id: &str, name: &str, output: &str)
        ensures
            final(self)@ == tool_result(old(self)@, id@, name@, output@),
    {
        match classify_tool_output(output) {
            ToolStatus::Called => self.push_tool_completed(id, name, output),
            ToolStatus::Failed => self.push_tool_failed(id, name, output),
            ToolStatus::Denied => self.push_tool_denied(id, name),
            ToolStatus::Calling => {
                proof {
                    reveal_strlit("{}");
                    reveal_strlit("args {}");
                    reveal_strlit("args ");
                    assert(args_detail("{}"@) == "args {}"@);
                }
                self.push_tool_started(id, name, "{}")
            },
        }
    }

    /// Shows an event of the turn and says in the status line what is
    /// happening.
    pub fn push_agent_event(&mut self, event: crate::agent::AgentEvent)
        ensures
            match event {
                crate::agent::AgentEvent::AssistantDelta(d) => final(self)@ == (TuiView {
                    status: "Streaming model response..."@,
                    streaming: Some(
                        match old(self)@.streaming {
                            Some(c) => c,
                            None => Seq::<char>::empty(),
                        } + d@,
                    ),
                    ..old(self)@
                }),
                crate::agent::AgentEvent::ContextWindow { .. } => final(self)@ == old(self)@,
                crate::agent::AgentEvent::ToolCallStarted { id, name, arguments } => final(self)@
                    == tool_event(
                    TuiView { status: "Calling tool "@ + name@ + "..."@, ..old(self)@ },
                    ToolStatus::Calling,
                    id@,
                    name@,
                    Some(args_detail(arguments@)),
                ),
                crate::agent::AgentEvent::ToolCallCompleted { id, name, output } => final(self)@
                    == tool_event(
                    TuiView { status: "Tool "@ + name@ + " completed"@, ..old(self)@ },
                    ToolStatus::Called,
                    id@,
                    name@,
                    Some("output "@ + output_summary(output@)),
                ),
                crate::agent::AgentEvent::ToolCallFailed { id, name, error } => final(self)@
                    == tool_event(
                    TuiView { status: "Tool "@ + name@ + " failed"@, ..old(self)@ },
                    ToolStatus::Failed,
                    id@,
                    name@,
                    Some("error "@ + output_summary(error@)),
                ),
                crate::agent::AgentEvent::ToolCallDenied { id, name } => final(self)@ == tool_event(
                    TuiView { status: "Tool "@ + name@ + " denied"@, ..old(self)@ },
                    ToolStatus::Denied,
                    id@,
                    name@,
                    None,
                ),
            },
    {
        match event {
            crate::agent::AgentEvent::AssistantDelta(delta) => {
                self.status = owned("Streaming model response...");
                self.push_assistant_delta(delta.as_str());
            },
            crate::agent::AgentEvent::ContextWindow { .. } => {},
            crate::agent::AgentEvent::ToolCallStarted { id, name, arguments } => {
                let head = concat_str("Calling tool ", name.as_str());
                self.status = concat_str(head.as_str(), "...");
                self.push_tool_started(id.as_str(), name.as_str(), arguments.as_str());
            },
            crate::agent::AgentEvent::ToolCallCompleted { id, name, output } => {
                let head = concat_str("Tool ", name.as_str());
                self.status = concat_str(head.as_str(), " completed");
                self.push_tool_completed(id.as_str(), name.as_str(), output.as_str());
            },
            crate::agent::AgentEvent::ToolCallFailed { id, name, error } => {
                let head = concat_str("Tool ", name.as_str());
                self.status = concat_str(head.as_str(), " failed");
                self.push_tool_failed(id.as_str(), name.as_str(), error.as_str());
            },
            crate::agent::AgentEvent::ToolCallDenied { id, name } => {
                let head = concat_str("Tool ", name.as_str());
                self.status = concat_str(head.as_str(), " denied");
                self.push_tool_denied(id.as_str(), name.as_str());
            },
        }
    }

    /// Scrolls the transcript one line down.
    pub fn scroll_down(&mut self)
        ensures
            final(self)@ == (TuiView {
                scroll: if old(self).scroll < u16::MAX {
                    (old(self).scroll + 1) as u16
                } else {
                    old(self).scroll
                },
                ..old(self)@
            }),
    {
        if self.scroll < u16::MAX {
            self.scroll = self.scroll + 1;
        }
    }

    /// Scrolls the transcript one line up.
    pub fn scroll_up(&mut self)
        ensures
            final(self)@ == (TuiView {
                scroll: if old(self).scroll > 0 {
                    (old(self).scroll - 1) as u16
                } else {
                    0
                },
                ..old(self)@
            }),
    {
        if self.scroll > 0 {
            self.scroll = self.scroll - 1;
        }
    }

    /// Shows the tool calls of an assistant message.
    fn push_calls(&mut self, calls: &Vec<crate::llm::ToolCall>)
        ensures
            final(self)@ == calls_shown(old(self)@, crate::llm::calls_view(calls@)),
    {
        let ghost cs = crate::llm::calls_view(calls@);
        let ghost start = self@;
        let mut i: usize = 0;
        proof {
            assert(cs.take(0) =~= Seq::<crate::llm::ToolCallView>::empty());
        }
        while i < calls.len()
            invariant
                i <= calls.len(),
                cs == crate::llm::calls_view(calls@),
                self@ == calls_shown(start, cs.take(i as int)),
            decreases calls.len() - i,
        {
            let call = &calls[i];
            let arguments = crate::json::compact_arguments(call.function.arguments.as_str());
            self.push_tool_started(call.id.as_str(), call.function.name.as_str(), arguments.as_str());
            proof {
                assert(cs.take(i + 1).drop_last() =~= cs.take(i as int));
                assert(cs.take(i + 1).last() == call@);
            }
            i = i + 1;
        }
        proof {
            assert(cs.take(i as int) =~= cs);
        }
    }

    /// Shows one message of a saved conversation.
    fn push_saved_message(&mut self, message: &crate::llm::ChatMessage)
        ensures
            final(self)@ == message_shown(old(self)@, message@),
    {
        proof {
            reveal_strlit("system");
            reveal_strlit("assistant");
            reveal_strlit("tool");
            assert("system"@[0] != "assistant"@[0]);
            assert("system"@[0] != "tool"@[0]);
            assert("assistant"@[0] != "tool"@[0]);
        }
        if str_eq(message.role.as_str(), "system") {
            return;
        }
        if str_eq(message.role.as_str(), "assistant") {
            match &message.content {
                Some(content) => {
                    if !crate::text::is_blank(content.as_str()) {
                        self.push_message(message.role.as_str(), content.as_str());
                    }
                },
                None => {},
            }
            match &message.tool_calls {
                Some(calls) => self.push_calls(calls),
                None => {},
            }
        } else if str_eq(message.role.as_str(), "tool") {
            let name = match &message.name {
                Some(n) => n.as_str(),
                None => "tool",
            };
            let id = match &message.tool_call_id {
                Some(i) => i.as_str(),
                None => "tool_call",
            };
            let output = match &message.content {
                Some(c) => c.as_str(),
                None => "",
            };
            proof {
                reveal_strlit("");
                assert(id@ == match message@.tool_call_id { Some(i) => i, None => "tool_call"@ });
                assert(name@ == match message@.name { Some(n) => n, None => "tool"@ });
                assert(output@ == crate::context::content_text(message@.content));
                assert(message@.role == "tool"@);
                assert(message_shown(old(self)@, message@) == tool_result(old(self)@, id@, name@, output@));
            }
            self.push_tool_result(id, name, output);
        } else {
            match &message.content {
                Some(content) => {
                    if !crate::text::is_blank(content.as_str()) {
                        self.push_message(message.role.as_str(), content.as_str());
                    }
                },
                None => {},
            }
        }
    }

    /// The interface for a session: its saved conversation shown (or a ready
    /// note when there is nothing to show) and its settings in the status
    /// line; an error when no provider is configured.
    pub fn from_session(session: &crate::agent::AgentSession) -> (r: Result<Self, crate::config::ConfigError>)
        ensures
            session@.config.profiles.len() == 0 ==> r matches Err(crate::config::ConfigError::NoProvider),
            session@.config.profiles.len() > 0 ==> (r matches Ok(t) && {
                let start = TuiView {
                    input: Seq::empty(),
                    lines: Seq::empty(),
                    streaming: None,
                    status: "Session "@ + session@.id + " | "@ + crate::agent::summary_text(
                        session@.agent.name,
                        session@.config.profiles[crate::config::active_index_of(session@.config)],
                        session@.config,
                        session@.approval_policy,
                    ),
                    scroll: 0,
                };
                let shown = transcript_shown(start, session@.messages);
                t@ == if shown.lines.len() == 0 {
                    with_lines(shown, seq![LineView::System(ready_text()), LineView::Blank])
                } else {
                    shown
                }
            }),
    {
        let summary = match session.config_summary() {
            Ok(s) => s,
            Err(e) => {
                return Err(e);
            },
        };
        let head = concat_str("Session ", session.id());
        let with_id = concat_str(head.as_str(), " | ");
        let status = concat_str(with_id.as_str(), summary.as_str());
        let mut state = TuiState {
            input: String::new(),
            lines: Vec::new(),
            streaming_assistant: None,
            status,
            scroll: 0,
        };
        proof {
            assert(lines_view(state.lines@) =~= Seq::<LineView>::empty());
        }
        let messages = session.transcript();
        let ghost ms = msgs_view_of(messages@);
        let ghost start = state@;
        let mut i: usize = 0;
        proof {
            assert(ms.take(0) =~= Seq::<crate::llm::MessageView>::empty());
        }
        while i < messages.len()
            invariant
                i <= messages.len(),
                ms == msgs_view_of(messages@),
                state@ == transcript_shown(start, ms.take(i as int)),
            decreases messages.len() - i,
        {
            state.push_saved_message(&messages[i]);
            proof {
                assert(ms.take(i + 1).drop_last() =~= ms.take(i as int));
                assert(ms.take(i + 1).last() == messages@[i as int]@);
            }
            i = i + 1;
        }
        proof {
            assert(ms.take(i as int) =~= ms);
        }
        if state.lines.len() == 0 {
            state.push_system("Ready. Type a message and press Enter. Esc or Ctrl-C exits.");
        }
        Ok(state)
    }

    /// Takes a key press: edits the input, scrolls, or (on Enter) decides
    /// what the typed line asks for.
    pub fn handle_key(&mut self, key: TuiKey) -> (r: TuiAction)
        ensures
            ({
                let v = old(self)@;
                match key {
                    TuiKey::Esc => r is Exit && final(self)@ == v,
                    TuiKey::Char(c, ctrl) => if ctrl && c == 'c' {
                        r is Exit && final(self)@ == v
                    } else if ctrl && c == 'u' {
                        r is Continue && final(self)@ == (TuiView { input: Seq::empty(), ..v })
                    } else {
                        r is Continue && final(self)@ == (TuiView { input: v.input.push(c), ..v })
                    },
                    TuiKey::Backspace => r is Continue && final(self)@ == (TuiView {
                        input: if v.input.len() > 0 {
                            v.input.drop_last()
                        } else {
                            v.input
                        },
                        ..v
                    }),
                    TuiKey::Up => r is Continue && final(self)@ == (TuiView {
                        scroll: if v.scroll > 0 {
                            (v.scroll - 1) as u16
                        } else {
                            0
                        },
                        ..v
                    }),
                    TuiKey::Down => r is Continue && final(self)@ == (TuiView {
                        scroll: if v.scroll < u16::MAX {
                            (v.scroll + 1) as u16
                        } else {
                            v.scroll
                        },
                        ..v
                    }),
                    TuiKey::Other => r is Continue && final(self)@ == v,
                    TuiKey::Enter => {
                        let line = trim_seq(v.input);
                        let w = TuiView { input: Seq::empty(), ..v };
                        if line.len() == 0 {
                            r is Continue && final(self)@ == w
                        } else if line == "/exit"@ || line == "/quit"@ {
                            r is Exit && final(self)@ == w
                        } else if line == "/help"@ {
                            r is Continue && final(self)@ == with_lines(w, seq![LineView::System(help_text()), LineView::Blank])
                        } else if line == "/id"@ {
                            r is ShowId && final(self)@ == w
                        } else if line == "/config"@ {
                            r is ShowConfig && final(self)@ == w
                        } else {
                            &&& r matches TuiAction::Send(m) && m@ == line
                            &&& final(self)@ == TuiView {
                                status: "Waiting for model response..."@,
                                ..with_lines(w, seq![LineView::Message("user"@, line), LineView::Blank])
                            }
                        }
                    },
                }
            }),
    {
        match key {
            TuiKey::Esc => TuiAction::Exit,
            TuiKey::Char(c, ctrl) => {
                if ctrl && c == 'c' {
                    TuiAction::Exit
                } else if ctrl && c == 'u' {
                    self.input = String::new();
                    TuiAction::Continue
                } else {
                    crate::text::push_char(&mut self.input, c);
                    TuiAction::Continue
                }
            },
            TuiKey::Backspace => {
                let cs = chars_of(self.input.as_str());
                if cs.len() > 0 {
                    self.input = crate::text::string_from_range(&cs, 0, cs.len() - 1);
                    proof {
                        assert(cs@.subrange(0, cs@.len() - 1) =~= cs@.drop_last());
                    }
                }
                TuiAction::Continue
            },
            TuiKey::Up => {
                self.scroll_up();
                TuiAction::Continue
            },
            TuiKey::Down => {
                self.scroll_down();
                TuiAction::Continue
            },
            TuiKey::Other => TuiAction::Continue,
            TuiKey::Enter => {
                let line = trim(self.input.as_str());
                self.input = String::new();
                if line.as_str().is_empty() {
                    TuiAction::Continue
                } else if str_eq(line.as_str(), "/exit") || str_eq(line.as_str(), "/quit") {
                    TuiAction::Exit
                } else if str_eq(line.as_str(), "/help") {
                    self.push_system("/help, /id, /config, /exit are available. Enter sends.");
                    TuiAction::Continue
                } else if str_eq(line.as_str(), "/id") {
                    TuiAction::ShowId
                } else if str_eq(line.as_str(), "/config") {
                    TuiAction::ShowConfig
                } else {
                    self.push_message("user", line.as_str());
                    self.status = owned("Waiting for model response...");
                    TuiAction::Send(line)
                }
            },
        }
    }

    /// Ends a turn that was sent: the reply is shown and the status says the
    /// session was saved; or the error is shown and the stream dropped.
    pub fn finish_turn(&mut self, result: Result<String, String>, session_id: &str)
        ensures
            match result {
                Ok(response) => {
                    let v = old(self)@;
                    let content = match v.streaming {
                        Some(c) => if trim_seq(c).len() > 0 {
                            c
                        } else {
                            response@
                        },
                        None => response@,
                    };
                    let w = TuiView { streaming: None, status: "Session "@ + session_id@ + " saved"@, ..v };
                    final(self)@ == if trim_seq(content).len() == 0 {
                        with_lines(w, seq![LineView::System("Model returned an empty response."@), LineView::Blank])
                    } else {
                        with_lines(w, seq![LineView::Message("assistant"@, content), LineView::Blank])
                    }
                },
                Err(error) => final(self)@ == with_lines(
                    TuiView { streaming: None, status: "Request failed"@, ..old(self)@ },
                    seq![LineView::System("Error: "@ + error@), LineView::Blank],
                ),
            },
    {
        match result {
            Ok(response) => {
                self.finish_assistant_stream(response.as_str());
                let head = concat_str("Session ", session_id);
                self.status = concat_str(head.as_str(), " saved");
            },
            Err(error) => {
                self.streaming_assistant = None;
                let text = concat_str("Error: ", error.as_str());
                self.push_system(text.as_str());
                self.status = owned("Request failed");
            },
        }
    }
}

/// The views of a slice of messages.
pub open spec fn msgs_view_of(ms: Seq<crate::llm::ChatMessage>) -> Seq<crate::llm::MessageView> {
    crate::llm::msgs_view(ms)
}

} // verus!
