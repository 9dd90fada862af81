use vstd::prelude::*;

use crate::agents::MAIN_AGENT_PROMPT;
use crate::text::{
    chars_of, concat_str, ends_with, ends_with_seq, owned, starts_with_seq, strip_prefix,
    string_from_range, str_eq, trim, trim_end_char, trim_end_char_seq, trim_seq,
};
use vstd::string::StringExecFns;

verus! {

broadcast use vstd::string::group_string_axioms;

/// The function a tool call names, with its raw JSON arguments.
#[derive(Debug)]
pub struct ToolCallFunction {
    pub name: String,
    pub arguments: String,
}

/// One tool call that the model asked for.
#[derive(Debug)]
pub struct ToolCall {
    pub id: String,
    pub call_type: String,
    pub function: ToolCallFunction,
}

/// One message of a chat-completions conversation.
#[derive(Debug)]
pub struct ChatMessage {
    pub role: String,
    pub content: Option<String>,
    pub reasoning_content: Option<String>,
    pub tool_calls: Option<Vec<ToolCall>>,
    pub tool_call_id: Option<String>,
    pub name: Option<String>,
}

/// The text of an optional string.
pub open spec fn opt_view(s: Option<String>) -> Option<Seq<char>> {
    match s {
        Some(v) => Some(v@),
        None => None,
    }
}

/// A tool call as text: id, type, function name and arguments.
pub struct ToolCallView {
    pub id: Seq<char>,
    pub call_type: Seq<char>,
    pub name: Seq<char>,
    pub arguments: Seq<char>,
}

impl View for ToolCall {
    type V = ToolCallView;

    open spec fn view(&self) -> ToolCallView {
        ToolCallView {
            id: self.id@,
            call_type: self.call_type@,
            name: self.function.name@,
            arguments: self.function.arguments@,
        }
    }
}

/// The views of a sequence of tool calls.
pub open spec fn calls_view(calls: Seq<ToolCall>) -> Seq<ToolCallView> {
    calls.map_values(|c: ToolCall| c@)
}

/// A chat message as text.
pub struct MessageView {
    pub role: Seq<char>,
    pub content: Option<Seq<char>>,
    pub reasoning_content: Option<Seq<char>>,
    pub tool_calls: Option<Seq<ToolCallView>>,
    pub tool_call_id: Option<Seq<char>>,
    pub name: Option<Seq<char>>,
}

impl View for ChatMessage {
    type V = MessageView;

    open spec fn view(&self) -> MessageView {
        MessageView {
            role: self.role@,
            content: opt_view(self.content),
            reasoning_content: opt_view(self.reasoning_content),
            tool_calls: match self.tool_calls {
                Some(calls) => Some(calls_view(calls@)),
                None => None,
            },
            tool_call_id: opt_view(self.tool_call_id),
            name: opt_view(self.name),
        }
    }
}

/// The views of a sequence of messages.
pub open spec fn msgs_view(messages: Seq<ChatMessage>) -> Seq<MessageView> {
    messages.map_values(|m: ChatMessage| m@)
}

impl Clone for ToolCallFunction {
    fn clone(&self) -> (r: Self)
        ensures
            r.name@ == self.name@,
            r.arguments@ == self.arguments@,
    {
        ToolCallFunction { name: self.name.clone(), arguments: self.arguments.clone() }
    }
}

impl Clone for ToolCall {
    fn clone(&self) -> (r: Self)
        ensures
            r@ == self@,
    {
        ToolCall {
            id: self.id.clone(),
            call_type: self.call_type.clone(),
            function: self.function.clone(),
        }
    }
}

/// A copy of `calls`.
pub fn clone_tool_calls(calls: &Vec<ToolCall>) -> (r: Vec<ToolCall>)
    ensures
        calls_view(r@) == calls_view(calls@),
{
    let mut out: Vec<ToolCall> = Vec::new();
    let mut i: usize = 0;
    while i < calls.len()
        invariant
            i <= calls.len(),
            out.len() == i,
            forall|j: int| 0 <= j < i ==> #[trigger] out@[j]@ == calls@[j]@,
        decreases calls.len() - i,
    {
        out.push(calls[i].clone());
        i += 1;
    }
    assert(calls_view(out@) =~= calls_view(calls@));
    out
}

/// A copy of `s`.
pub fn clone_opt_string(s: &Option<String>) -> (r: Option<String>)
    ensures
        opt_view(r) == opt_view(*s),
{
    match s {
        Some(v) => Some(v.clone()),
        None => None,
    }
}

impl Clone for ChatMessage {
    fn clone(&self) -> (r: Self)
        ensures
            r@ == self@,
    {
        let tool_calls = match &self.tool_calls {
            Some(calls) => Some(clone_tool_calls(calls)),
            None => None,
        };
        ChatMessage {
            role: self.role.clone(),
            content: clone_opt_string(&self.content),
            reasoning_content: clone_opt_string(&self.reasoning_content),
            tool_calls,
            tool_call_id: clone_opt_string(&self.tool_call_id),
            name: clone_opt_string(&self.name),
        }
    }
}

/// A copy of `messages`.
pub fn clone_messages(messages: &[ChatMessage]) -> (r: Vec<ChatMessage>)
    ensures
        msgs_view(r@) == msgs_view(messages@),
{
    let mut out: Vec<ChatMessage> = Vec::new();
    let mut i: usize = 0;
    while i < messages.len()
        invariant
            i <= messages.len(),
            out.len() == i,
            forall|j: int| 0 <= j < i ==> #[trigger] out@[j]@ == messages@[j]@,
        decreases messages.len() - i,
    {
        out.push(messages[i].clone());
        i += 1;
    }
    assert(msgs_view(out@) =~= msgs_view(messages@));
    out
}

/// A plain text message with `role` and `content` and nothing else.
pub open spec fn text_message_view(role: Seq<char>, content: Seq<char>) -> MessageView {
    MessageView {
        role,
        content: Some(content),
        reasoning_content: None,
        tool_calls: None,
        tool_call_id: None,
        name: None,
    }
}

/// The default system message, holding the main agent's prompt.
pub fn system_message() -> (r: ChatMessage)
    ensures
        r@ == text_message_view("system"@, MAIN_AGENT_PROMPT@),
{
    system_text_message(MAIN_AGENT_PROMPT)
}

/// A system message holding `content`.
pub fn system_text_message(content: &str) -> (r: ChatMessage)
    ensures
        r@ == text_message_view("system"@, content@),
{
    ChatMessage {
        role: owned("system"),
        content: Some(owned(content)),
        reasoning_content: None,
        tool_calls: None,
        tool_call_id: None,
        name: None,
    }
}

/// A user message holding `content`.
pub fn user_message(content: &str) -> (r: ChatMessage)
    ensures
        r@ == text_message_view("user"@, content@),
{
    ChatMessage {
        role: owned("user"),
        content: Some(owned(content)),
        reasoning_content: None,
        tool_calls: None,
        tool_call_id: None,
        name: None,
    }
}

/// The assistant message to keep in the transcript for a model reply.
pub fn assistant_message(message: ChatMessage) -> (r: ChatMessage)
    ensures
        r@ == (MessageView { role: "assistant"@, tool_call_id: None, name: None, ..message@ }),
{
    ChatMessage {
        role: owned("assistant"),
        content: message.content,
        reasoning_content: message.reasoning_content,
        tool_calls: message.tool_calls,
        tool_call_id: None,
        name: None,
    }
}

/// An assistant message holding the text `content`.
pub fn assistant_text_message(content: &str) -> (r: ChatMessage)
    ensures
        r@ == text_message_view("assistant"@, content@),
{
    ChatMessage {
        role: owned("assistant"),
        content: Some(owned(content)),
        reasoning_content: None,
        tool_calls: None,
        tool_call_id: None,
        name: None,
    }
}

/// A tool-result message answering the call `tool_call_id` of the tool `name`.
pub fn tool_message(tool_call_id: String, name: String, content: String) -> (r: ChatMessage)
    ensures
        r@ == (MessageView {
            role: "tool"@,
            content: Some(content@),
            reasoning_content: None,
            tool_calls: None,
            tool_call_id: Some(tool_call_id@),
            name: Some(name@),
        }),
{
    ChatMessage {
        role: owned("tool"),
        content: Some(content),
        reasoning_content: None,
        tool_calls: None,
        tool_call_id: Some(tool_call_id),
        name: Some(name),
    }
}

/// The text of an optional message content; empty when there is none.
pub fn content_as_text(content: Option<String>) -> (r: String)
    ensures
        r@ == (match content {
            Some(c) => c@,
            None => Seq::<char>::empty(),
        }),
{
    match content {
        Some(c) => c,
        None => String::new(),
    }
}

/// The path that every chat-completions endpoint ends with.
pub open spec fn completions_suffix() -> Seq<char> {
    "/chat/completions"@
}

/// The chat-completions endpoint for `base_url`: trailing slashes are dropped
/// and `/chat/completions` is appended unless it is already there.
pub open spec fn endpoint_seq(base_url: Seq<char>) -> Seq<char> {
    let normalized = trim_end_char_seq(base_url, '/');
    if ends_with_seq(normalized, completions_suffix()) {
        normalized
    } else {
        normalized + completions_suffix()
    }
}

/// The chat-completions endpoint for a provider base URL.
pub fn chat_completions_endpoint(base_url: &str) -> (r: String)
    ensures
        r@ == endpoint_seq(base_url@),
{
    let normalized = trim_end_char(base_url, '/');
    if ends_with(normalized.as_str(), "/chat/completions") {
        normalized
    } else {
        concat_str(normalized.as_str(), "/chat/completions")
    }
}

/// A text without trailing `c` is empty or does not end with `c`.
pub proof fn lemma_trim_end_char_last(s: Seq<char>, c: char)
    ensures
        trim_end_char_seq(s, c).len() == 0 || trim_end_char_seq(s, c).last() != c,
    decreases s.len(),
{
    if s.len() > 0 && s.last() == c {
        lemma_trim_end_char_last(s.drop_last(), c);
    }
}

/// Building the endpoint from an endpoint gives it back unchanged.
pub proof fn lemma_endpoint_idempotent(base_url: Seq<char>)
    ensures
        endpoint_seq(endpoint_seq(base_url)) == endpoint_seq(base_url),
{
    reveal_strlit("/chat/completions");
    let normalized = trim_end_char_seq(base_url, '/');
    let e = endpoint_seq(base_url);
    lemma_trim_end_char_last(base_url, '/');
    if !ends_with_seq(normalized, completions_suffix()) {
        assert(e.last() == 's');
        assert(e.skip(e.len() - completions_suffix().len()) =~= completions_suffix());
    }
    assert(trim_end_char_seq(e, '/') == e);
}

/// One piece of a streamed tool call, as the provider sends it.
#[derive(Debug)]
pub struct ToolCallDelta {
    pub index: usize,
    pub id: Option<String>,
    pub call_type: Option<String>,
    pub name: Option<String>,
    pub arguments: Option<String>,
}

/// One choice of a streamed chunk: a piece of text and pieces of tool calls.
#[derive(Debug)]
pub struct StreamChoice {
    pub content: Option<String>,
    pub tool_calls: Vec<ToolCallDelta>,
}

/// One decoded `data:` payload of a streamed chat completion.
#[derive(Debug)]
pub struct StreamChunk {
    pub choices: Vec<StreamChoice>,
}

/// A tool call being assembled from streamed pieces.
#[derive(Debug)]
pub struct ToolCallBuilder {
    pub index: usize,
    pub id: Option<String>,
    pub call_type: Option<String>,
    pub name: String,
    pub arguments: String,
}

/// A tool call being assembled, as text.
pub struct BuilderView {
    pub index: usize,
    pub id: Option<Seq<char>>,
    pub call_type: Option<Seq<char>>,
    pub name: Seq<char>,
    pub arguments: Seq<char>,
}

impl View for ToolCallBuilder {
    type V = BuilderView;

    open spec fn view(&self) -> BuilderView {
        BuilderView {
            index: self.index,
            id: opt_view(self.id),
            call_type: opt_view(self.call_type),
            name: self.name@,
            arguments: self.arguments@,
        }
    }
}

/// The views of a sequence of builders.
pub open spec fn builders_view(bs: Seq<ToolCallBuilder>) -> Seq<BuilderView> {
    bs.map_values(|b: ToolCallBuilder| b@)
}

/// The text of an optional string; empty when there is none.
pub open spec fn text_or_empty(s: Option<String>) -> Seq<char> {
    match s {
        Some(v) => v@,
        None => Seq::<char>::empty(),
    }
}

/// A builder with no pieces yet.
pub open spec fn empty_builder(index: usize) -> BuilderView {
    BuilderView {
        index,
        id: None,
        call_type: None,
        name: Seq::<char>::empty(),
        arguments: Seq::<char>::empty(),
    }
}

/// `b` after the piece `d`: id and type are replaced when `d` carries them,
/// name and arguments are extended.
pub open spec fn merge_delta(b: BuilderView, d: ToolCallDelta) -> BuilderView {
    BuilderView {
        index: b.index,
        id: if d.id is Some {
            opt_view(d.id)
        } else {
            b.id
        },
        call_type: if d.call_type is Some {
            opt_view(d.call_type)
        } else {
            b.call_type
        },
        name: b.name + text_or_empty(d.name),
        arguments: b.arguments + text_or_empty(d.arguments),
    }
}

/// A tool-call piece without an id leaves the builder's id as it was, and
/// its index too.
pub proof fn lemma_piece_without_id_keeps_id(b: BuilderView, d: ToolCallDelta)
    requires
        d.id is None,
    ensures
        merge_delta(b, d).id == b.id,
        merge_delta(b, d).index == b.index,
{
}

/// When a call's first piece carries its id and a later piece for the same
/// index carries none, the stream holds one call with that id, its name and
/// its arguments joined in order.
pub proof fn lemma_stream_keeps_first_id(d1: ToolCallDelta, d2: ToolCallDelta)
    requires
        d1.id is Some,
        d2.id is None,
        d1.index == d2.index,
    ensures
        ({
            let bs = apply_deltas(Seq::empty(), Seq::empty().push(d1).push(d2));
            &&& bs.len() == 1
            &&& call_of(bs[0]).id == d1.id.unwrap()@
            &&& bs[0].name == text_or_empty(d1.name) + text_or_empty(d2.name)
            &&& bs[0].arguments == text_or_empty(d1.arguments) + text_or_empty(d2.arguments)
        }),
{
    let ds = Seq::<ToolCallDelta>::empty().push(d1).push(d2);
    assert(ds.drop_last() =~= Seq::<ToolCallDelta>::empty().push(d1));
    assert(ds.drop_last().drop_last() =~= Seq::<ToolCallDelta>::empty());
    let empty = Seq::<BuilderView>::empty();
    let b1 = apply_delta(empty, d1);
    assert(insert_pos(empty, d1.index) == 0);
    assert(b1 =~= seq![merge_delta(empty_builder(d1.index), d1)]);
    assert(b1.drop_first().len() == 0);
    assert(insert_pos(b1, d2.index) == 0);
    assert(apply_deltas(empty, ds.drop_last().drop_last()) == empty);
    assert(apply_deltas(empty, ds.drop_last()) == b1);
    let b2 = apply_delta(b1, d2);
    assert(b2 == b1.update(0, merge_delta(b1[0], d2)));
    assert(apply_deltas(empty, ds) == b2);
    assert(Seq::<char>::empty() + text_or_empty(d1.name) =~= text_or_empty(d1.name));
    assert(Seq::<char>::empty() + text_or_empty(d1.arguments) =~= text_or_empty(d1.arguments));
}

/// Builders ordered by strictly increasing index: a map from index to builder.
pub open spec fn sorted_builders(bs: Seq<BuilderView>) -> bool {
    forall|i: int, j: int| 0 <= i < j < bs.len() ==> bs[i].index < bs[j].index
}

/// The number of leading builders whose index is below `idx`.
pub open spec fn insert_pos(bs: Seq<BuilderView>, idx: usize) -> int
    decreases bs.len(),
{
    if bs.len() == 0 || bs[0].index >= idx {
        0
    } else {
        1 + insert_pos(bs.drop_first(), idx)
    }
}

/// The builders after the piece `d`: the builder with `d`'s index is
/// extended, or a new one is put in its place in index order.
pub open spec fn apply_delta(bs: Seq<BuilderView>, d: ToolCallDelta) -> Seq<BuilderView> {
    let p = insert_pos(bs, d.index);
    if p < bs.len() && bs[p].index == d.index {
        bs.update(p, merge_delta(bs[p], d))
    } else {
        bs.insert(p, merge_delta(empty_builder(d.index), d))
    }
}

/// The builders after the pieces `ds`, taken in order.
pub open spec fn apply_deltas(bs: Seq<BuilderView>, ds: Seq<ToolCallDelta>) -> Seq<BuilderView>
    decreases ds.len(),
{
    if ds.len() == 0 {
        bs
    } else {
        apply_delta(apply_deltas(bs, ds.drop_last()), ds.last())
    }
}

/// The text and the builders of a stream so far.
pub struct StreamView {
    pub content: Seq<char>,
    pub builders: Seq<BuilderView>,
}

/// The stream after one choice: its text is appended and its tool-call
/// pieces applied.
pub open spec fn apply_choice(v: StreamView, c: StreamChoice) -> StreamView {
    StreamView {
        content: v.content + text_or_empty(c.content),
        builders: apply_deltas(v.builders, c.tool_calls@),
    }
}

/// The stream after the choices `cs`, taken in order.
pub open spec fn apply_choices(v: StreamView, cs: Seq<StreamChoice>) -> StreamView
    decreases cs.len(),
{
    if cs.len() == 0 {
        v
    } else {
        apply_choice(apply_choices(v, cs.drop_last()), cs.last())
    }
}

/// The pieces of text that the choices `cs` hand to the caller as they
/// arrive: every non-empty content, in order.
pub open spec fn emitted_deltas(cs: Seq<StreamChoice>) -> Seq<Seq<char>>
    decreases cs.len(),
{
    if cs.len() == 0 {
        seq![]
    } else {
        let t = text_or_empty(cs.last().content);
        if t.len() > 0 {
            emitted_deltas(cs.drop_last()).push(t)
        } else {
            emitted_deltas(cs.drop_last())
        }
    }
}

/// Where `idx` belongs among sorted builders.
pub proof fn lemma_insert_pos(bs: Seq<BuilderView>, idx: usize)
    requires
        sorted_builders(bs),
    ensures
        0 <= insert_pos(bs, idx) <= bs.len(),
        forall|k: int| 0 <= k < insert_pos(bs, idx) ==> #[trigger] bs[k].index < idx,
        forall|k: int| insert_pos(bs, idx) <= k < bs.len() ==> #[trigger] bs[k].index >= idx,
    decreases bs.len(),
{
    if bs.len() > 0 && bs[0].index < idx {
        let t = bs.drop_first();
        assert(sorted_builders(t));
        lemma_insert_pos(t, idx);
        assert forall|k: int| insert_pos(bs, idx) <= k < bs.len() implies #[trigger] bs[k].index
            >= idx by {
            assert(bs[k] == t[k - 1]);
        }
        assert forall|k: int| 0 <= k < insert_pos(bs, idx) implies #[trigger] bs[k].index
            < idx by {
            if k > 0 {
                assert(bs[k] == t[k - 1]);
            }
        }
    } else if bs.len() > 0 {
        assert forall|k: int| 0 <= k < bs.len() implies #[trigger] bs[k].index >= idx by {
            if k > 0 {
                assert(bs[0].index < bs[k].index);
            }
        }
    }
}

/// Applying a piece keeps the builders sorted.
pub proof fn lemma_apply_delta_sorted(bs: Seq<BuilderView>, d: ToolCallDelta)
    requires
        sorted_builders(bs),
    ensures
        sorted_builders(apply_delta(bs, d)),
{
    lemma_insert_pos(bs, d.index);
    let p = insert_pos(bs, d.index);
    let r = apply_delta(bs, d);
    if p < bs.len() && bs[p].index == d.index {
        assert forall|i: int, j: int| 0 <= i < j < r.len() implies r[i].index < r[j].index by {
            assert(r[i].index == bs[i].index);
            assert(r[j].index == bs[j].index);
        }
    } else {
        assert forall|i: int, j: int| 0 <= i < j < r.len() implies r[i].index < r[j].index by {
            if j < p {
            } else if j == p {
                assert(r[i] == bs[i]);
            } else if i < p {
                assert(r[j] == bs[j - 1]);
            } else if i == p {
                assert(r[j] == bs[j - 1]);
            } else {
                assert(r[i] == bs[i - 1]);
                assert(r[j] == bs[j - 1]);
            }
        }
    }
}

/// The builders of a stream in progress, with the part of the text after the
/// last line break that has not been handled yet.
pub struct StreamState {
    pending: Vec<char>,
    content: String,
    builders: Vec<ToolCallBuilder>,
}

/// The lines of `s` that a line break closes, and the text after the last
/// line break.
pub open spec fn split_lines(s: Seq<char>) -> (Seq<Seq<char>>, Seq<char>)
    decreases s.len(),
{
    if s.len() == 0 {
        (seq![], seq![])
    } else {
        let prev = split_lines(s.drop_last());
        if s.last() == '\n' {
            (prev.0.push(prev.1), seq![])
        } else {
            (prev.0, prev.1.push(s.last()))
        }
    }
}

impl StreamState {
    /// The text and builders so far.
    pub closed spec fn view_stream(&self) -> StreamView {
        StreamView { content: self.content@, builders: builders_view(self.builders@) }
    }

    /// The received text after the last line break.
    pub closed spec fn pending_text(&self) -> Seq<char> {
        self.pending@
    }

    /// The builders are kept in strictly increasing index order.
    pub closed spec fn wf(&self) -> bool {
        &&& sorted_builders(builders_view(self.builders@))
        &&& !self.pending@.contains('\n')
    }

    /// A stream that has received nothing.
    pub fn new() -> (r: Self)
        ensures
            r.wf(),
            r.view_stream() == (StreamView { content: seq![], builders: seq![] }),
            r.pending_text() == Seq::<char>::empty(),
    {
        let r = StreamState { pending: Vec::new(), content: String::new(), builders: Vec::new() };
        assert(builders_view(r.builders@) =~= seq![]);
        r
    }

    /// Takes in received text: the lines that it completes are handed back,
    /// each without trailing carriage returns, and the rest is kept.
    pub fn push_text(&mut self, text: &str) -> (lines: Vec<String>)
        requires
            old(self).wf(),
        ensures
            final(self).wf(),
            final(self).view_stream() == old(self).view_stream(),
            final(self).pending_text() == split_lines(old(self).pending_text() + text@).1,
            lines@.map_values(|l: String| l@) == split_lines(
                old(self).pending_text() + text@,
            ).0.map_values(|l: Seq<char>| trim_end_char_seq(l, '\r')),
    {
        let ghost start = self.pending@;
        proof {
            lemma_split_lines_no_break(start);
        }
        let cs = chars_of(text);
        let mut out: Vec<String> = Vec::new();
        let mut i: usize = 0;
        assert(start + cs@.take(0) =~= start);
        while i < cs.len()
            invariant
                i <= cs.len(),
                cs@ == text@,
                self.content@ == old(self).content@,
                builders_view(self.builders@) == builders_view(old(self).builders@),
                sorted_builders(builders_view(self.builders@)),
                split_lines(start + cs@.take(i as int)).1 == self.pending@,
                out@.map_values(|l: String| l@) == split_lines(start + cs@.take(i as int)).0.map_values(
                    |l: Seq<char>| trim_end_char_seq(l, '\r'),
                ),
                !self.pending@.contains('\n'),
            decreases cs.len() - i,
        {
            let c = cs[i];
            let ghost before = start + cs@.take(i as int);
            assert((start + cs@.take(i + 1)).drop_last() =~= before);
            assert((start + cs@.take(i + 1)).last() == c);
            if c == '\n' {
                let line = trim_end_chars_of(&self.pending, '\r');
                let ghost old_out = out@;
                out.push(line);
                self.pending = Vec::new();
                assert(out@.map_values(|l: String| l@) =~= old_out.map_values(|l: String| l@).push(
                    line@,
                ));
                assert(split_lines(start + cs@.take(i + 1)).0 == split_lines(before).0.push(
                    split_lines(before).1,
                ));
                assert(out@.map_values(|l: String| l@) =~= split_lines(start + cs@.take(i + 1)).0.map_values(
                    |l: Seq<char>| trim_end_char_seq(l, '\r'),
                ));
                assert(!self.pending@.contains('\n'));
            } else {
                self.pending.push(c);
                assert(!self.pending@.contains('\n')) by {
                    assert forall|k: int| 0 <= k < self.pending@.len() implies self.pending@[k]
                        != '\n' by {
                        if k < self.pending@.len() - 1 {
                            assert(self.pending@[k] == self.pending@.drop_last()[k]);
                        }
                    }
                }
            }
            i += 1;
        }
        assert(cs@.take(cs.len() as int) =~= cs@);
        out
    }

    /// The text left after the last line break, when it holds more than
    /// white space, without trailing carriage returns.
    pub fn take_last_line(&mut self) -> (r: Option<String>)
        requires
            old(self).wf(),
        ensures
            final(self).wf(),
            final(self).view_stream() == old(self).view_stream(),
            final(self).pending_text() == Seq::<char>::empty(),
            r is Some <==> trim_seq(old(self).pending_text()).len() > 0,
            r matches Some(l) ==> l@ == trim_end_char_seq(old(self).pending_text(), '\r'),
    {
        let (a, b) = crate::text::trim_bounds(&self.pending);
        let r = if a < b {
            Some(trim_end_chars_of(&self.pending, '\r'))
        } else {
            None
        };
        self.pending = Vec::new();
        r
    }

    /// The assistant message that the stream has produced: its text, when
    /// there is any, and the tool calls that got a name, in index order.
    pub fn finish(self) -> (r: ChatMessage)
        requires
            self.wf(),
        ensures
            r@ == finished_message(self.view_stream()),
    {
        let calls = build_tool_calls(&self.builders);
        let content = if self.content.as_str().is_empty() {
            None
        } else {
            Some(self.content)
        };
        let tool_calls = if calls.len() == 0 {
            None
        } else {
            Some(calls)
        };
        ChatMessage {
            role: owned("assistant"),
            content,
            reasoning_content: None,
            tool_calls,
            tool_call_id: None,
            name: None,
        }
    }

    /// Takes in one decoded chunk: its texts are appended to the content and
    /// its tool-call pieces applied; the non-empty texts are handed back in
    /// order, for the caller to show as they arrive.
    pub fn apply_chunk(&mut self, chunk: StreamChunk) -> (deltas: Vec<String>)
        requires
            old(self).wf(),
        ensures
            final(self).wf(),
            final(self).pending_text() == old(self).pending_text(),
            final(self).view_stream() == apply_choices(old(self).view_stream(), chunk.choices@),
            deltas@.map_values(|d: String| d@) == emitted_deltas(chunk.choices@),
    {
        let ghost v0 = self.view_stream();
        let ghost cs = chunk.choices@;
        let mut out: Vec<String> = Vec::new();
        let mut choices = chunk.choices;
        let mut rev: Vec<StreamChoice> = Vec::new();
        // Take the choices out front to back.
        let n = choices.len();
        let mut k: usize = 0;
        assert(cs.take(0) =~= seq![]);
        assert(out@.map_values(|d: String| d@) =~= seq![]);
        while k < n
            invariant
                k <= n == cs.len(),
                choices@ == cs.skip(k as int),
                self.wf(),
                self.pending@ == old(self).pending@,
                self.view_stream() == apply_choices(v0, cs.take(k as int)),
                out@.map_values(|d: String| d@) == emitted_deltas(cs.take(k as int)),
            decreases n - k,
        {
            let choice = choices.remove(0);
            assert(choice == cs[k as int]);
            assert(choices@ =~= cs.skip(k + 1));
            assert(cs.take(k + 1).drop_last() =~= cs.take(k as int));
            assert(cs.take(k + 1).last() == choice);
            let ghost before = self.view_stream();
            match &choice.content {
                Some(text) => {
                    if !text.as_str().is_empty() {
                        let ghost old_out = out@;
                        self.content.append(text.as_str());
                        out.push(text.clone());
                        assert(out@.map_values(|d: String| d@) =~= old_out.map_values(
                            |d: String| d@,
                        ).push(text@));
                    } else {
                        assert(text@ =~= Seq::<char>::empty());
                        assert(self.content@ + text@ =~= self.content@);
                    }
                },
                None => {
                    assert(before.content + Seq::<char>::empty() =~= before.content);
                },
            }
            let ghost mid_builders = builders_view(self.builders@);
            let ghost mid_content = self.content@;
            assert(mid_content == before.content + text_or_empty(choice.content));
            let mut j: usize = 0;
            assert(choice.tool_calls@.take(0) =~= seq![]);
            while j < choice.tool_calls.len()
                invariant
                    j <= choice.tool_calls.len(),
                    sorted_builders(builders_view(self.builders@)),
                    builders_view(self.builders@) == apply_deltas(
                        mid_builders,
                        choice.tool_calls@.take(j as int),
                    ),
                    !self.pending@.contains('\n'),
                    self.pending@ == old(self).pending@,
                    self.content@ == mid_content,
                decreases choice.tool_calls.len() - j,
            {
                let d = &choice.tool_calls[j];
                apply_tool_delta(&mut self.builders, d);
                assert(choice.tool_calls@.take(j + 1).drop_last() =~= choice.tool_calls@.take(
                    j as int,
                ));
                j += 1;
            }
            assert(choice.tool_calls@.take(choice.tool_calls.len() as int)
                =~= choice.tool_calls@);
            assert(self.view_stream() == apply_choice(before, choice));
            k += 1;
        }
        assert(cs.take(n as int) =~= cs);
        out
    }
}

/// `cs` with trailing `c` removed, as a string.
fn trim_end_chars_of(cs: &Vec<char>, c: char) -> (r: String)
    ensures
        r@ == trim_end_char_seq(cs@, c),
{
    let n = cs.len();
    let mut j = n;
    assert(cs@.subrange(0, n as int) =~= cs@);
    while j > 0 && cs[j - 1] == c
        invariant
            j <= n == cs.len(),
            trim_end_char_seq(cs@, c) == trim_end_char_seq(cs@.subrange(0, j as int), c),
        decreases j,
    {
        assert(cs@.subrange(0, j as int).drop_last() =~= cs@.subrange(0, j - 1));
        j -= 1;
    }
    string_from_range(cs, 0, j)
}

/// A text without line breaks is one unfinished line.
pub proof fn lemma_split_lines_no_break(s: Seq<char>)
    requires
        !s.contains('\n'),
    ensures
        split_lines(s) == (Seq::<Seq<char>>::empty(), s),
    decreases s.len(),
{
    if s.len() > 0 {
        let p = s.drop_last();
        assert(!p.contains('\n')) by {
            assert forall|k: int| 0 <= k < p.len() implies p[k] != '\n' by {
                assert(p[k] == s[k]);
            }
        }
        lemma_split_lines_no_break(p);
        assert(s.last() != '\n') by {
            assert(s[s.len() - 1] == s.last());
        }
        assert(p.push(s.last()) =~= s);
    }
}

/// Applies the piece `d` to the builders, kept in index order.
fn apply_tool_delta(builders: &mut Vec<ToolCallBuilder>, d: &ToolCallDelta)
    requires
        sorted_builders(builders_view(old(builders)@)),
    ensures
        builders_view(final(builders)@) == apply_delta(builders_view(old(builders)@), *d),
        sorted_builders(builders_view(final(builders)@)),
{
    let ghost bs = builders_view(builders@);
    proof {
        lemma_insert_pos(bs, d.index);
        lemma_apply_delta_sorted(bs, *d);
    }
    let mut p: usize = 0;
    while p < builders.len() && builders[p].index < d.index
        invariant
            p <= builders.len(),
            bs == builders_view(builders@),
            forall|k: int| 0 <= k < p ==> #[trigger] bs[k].index < d.index,
        decreases builders.len() - p,
    {
        p += 1;
    }
    assert(p as int == insert_pos(bs, d.index)) by {
        let ip = insert_pos(bs, d.index);
        if ip < p {
            assert(bs[ip].index >= d.index);
        } else if ip > p {
            assert(bs[p as int].index < d.index);
        }
    }
    if p < builders.len() && builders[p].index == d.index {
        let old_b = builders.remove(p);
        let b = merge_builder(old_b, d);
        builders.insert(p, b);
        assert(builders_view(builders@) =~= bs.update(p as int, merge_delta(bs[p as int], *d)));
    } else {
        let fresh = ToolCallBuilder {
            index: d.index,
            id: None,
            call_type: None,
            name: String::new(),
            arguments: String::new(),
        };
        assert(fresh@ == empty_builder(d.index));
        let b = merge_builder(fresh, d);
        builders.insert(p, b);
        assert(builders_view(builders@) =~= bs.insert(
            p as int,
            merge_delta(empty_builder(d.index), *d),
        ));
    }
}

/// `b` extended by the piece `d`.
fn merge_builder(b: ToolCallBuilder, d: &ToolCallDelta) -> (r: ToolCallBuilder)
    ensures
        r@ == merge_delta(b@, *d),
{
    let mut b = b;
    if let Some(id) = &d.id {
        b.id = Some(id.clone());
    }
    if let Some(t) = &d.call_type {
        b.call_type = Some(t.clone());
    }
    match &d.name {
        Some(n) => b.name.append(n.as_str()),
        None => {
            assert(b.name@ + Seq::<char>::empty() =~= b.name@);
        },
    }
    match &d.arguments {
        Some(a) => b.arguments.append(a.as_str()),
        None => {
            assert(b.arguments@ + Seq::<char>::empty() =~= b.arguments@);
        },
    }
    b
}

/// The tool call that a finished builder stands for; a missing id becomes
/// `tool_call` and a missing type `function`.
pub open spec fn call_of(b: BuilderView) -> ToolCallView {
    ToolCallView {
        id: match b.id {
            Some(i) => i,
            None => "tool_call"@,
        },
        call_type: match b.call_type {
            Some(t) => t,
            None => "function"@,
        },
        name: b.name,
        arguments: b.arguments,
    }
}

/// The tool calls of the builders that got a name, in order.
pub open spec fn built_calls(bs: Seq<BuilderView>) -> Seq<ToolCallView>
    decreases bs.len(),
{
    if bs.len() == 0 {
        seq![]
    } else {
        let r = built_calls(bs.drop_last());
        if bs.last().name.len() == 0 {
            r
        } else {
            r.push(call_of(bs.last()))
        }
    }
}

/// The message that a finished stream stands for.
pub open spec fn finished_message(v: StreamView) -> MessageView {
    let calls = built_calls(v.builders);
    MessageView {
        role: "assistant"@,
        content: if v.content.len() == 0 {
            None
        } else {
            Some(v.content)
        },
        reasoning_content: None,
        tool_calls: if calls.len() == 0 {
            None
        } else {
            Some(calls)
        },
        tool_call_id: None,
        name: None,
    }
}

/// The tool calls of the builders that got a name, in order.
pub fn build_tool_calls(builders: &Vec<ToolCallBuilder>) -> (r: Vec<ToolCall>)
    ensures
        calls_view(r@) == built_calls(builders_view(builders@)),
{
    let ghost bs = builders_view(builders@);
    let mut out: Vec<ToolCall> = Vec::new();
    let mut i: usize = 0;
    assert(calls_view(out@) =~= built_calls(bs.take(0)));
    while i < builders.len()
        invariant
            i <= builders.len(),
            bs == builders_view(builders@),
            calls_view(out@) == built_calls(bs.take(i as int)),
        decreases builders.len() - i,
    {
        let b = &builders[i];
        assert(bs.take(i + 1).drop_last() =~= bs.take(i as int));
        assert(bs.take(i + 1).last() == b@);
        if !b.name.as_str().is_empty() {
            let id = match &b.id {
                Some(v) => v.clone(),
                None => owned("tool_call"),
            };
            let call_type = match &b.call_type {
                Some(v) => v.clone(),
                None => owned("function"),
            };
            let call = ToolCall {
                id,
                call_type,
                function: ToolCallFunction { name: b.name.clone(), arguments: b.arguments.clone() },
            };
            let ghost old_out = out@;
            out.push(call);
            assert(calls_view(out@) =~= calls_view(old_out).push(call@));
        }
        i += 1;
    }
    assert(bs.take(builders.len() as int) =~= bs);
    out
}

/// The payload of a server-sent-events line: the text after `data:`, trimmed,
/// unless the line is blank, a comment, another field or the `[DONE]` marker.
pub open spec fn sse_payload_seq(line: Seq<char>) -> Option<Seq<char>> {
    let t = trim_seq(line);
    if t.len() == 0 || t[0] == ':' || !starts_with_seq(t, "data:"@) {
        None
    } else {
        let d = trim_seq(t.skip(5));
        if d == "[DONE]"@ {
            None
        } else {
            Some(d)
        }
    }
}

/// The JSON payload that a server-sent-events line carries, if any.
pub fn sse_payload(line: &str) -> (r: Option<String>)
    ensures
        opt_view(r) == sse_payload_seq(line@),
{
    proof {
        reveal_strlit("data:");
    }
    let t = trim(line);
    let tc = chars_of(t.as_str());
    if tc.len() == 0 || tc[0] == ':' {
        return None;
    }
    match strip_prefix(t.as_str(), "data:") {
        None => None,
        Some(rest) => {
            let d = trim(rest.as_str());
            if str_eq(d.as_str(), "[DONE]") {
                None
            } else {
                Some(d)
            }
        },
    }
}

} // verus!
