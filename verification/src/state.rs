use vstd::prelude::*;

use crate::llm::{msgs_view, ChatMessage};
use crate::text::{concat_str, contains_char, is_blank, trim_seq};

verus! {

broadcast use vstd::string::group_string_axioms;

/// A saved conversation: its id, when it was created and last saved (in
/// seconds since the Unix epoch), and its messages.
#[derive(Debug)]
pub struct SessionRecord {
    pub id: String,
    pub created_at: u64,
    pub updated_at: u64,
    pub messages: Vec<ChatMessage>,
}

/// What the session list shows of a saved conversation.
#[derive(Debug)]
pub struct SessionSummary {
    pub id: String,
    pub updated_at: u64,
    pub message_count: usize,
}

/// Why a session request was refused.
#[derive(Debug)]
pub enum StateError {
    /// The id is blank or holds a `/`.
    InvalidId(String),
}

/// A session summary as plain values.
pub struct SummaryView {
    pub id: Seq<char>,
    pub updated_at: u64,
    pub message_count: usize,
}

impl View for SessionSummary {
    type V = SummaryView;

    open spec fn view(&self) -> SummaryView {
        SummaryView {
            id: self.id@,
            updated_at: self.updated_at,
            message_count: self.message_count,
        }
    }
}

impl Clone for SessionSummary {
    fn clone(&self) -> (r: Self)
        ensures
            r@ == self@,
    {
        SessionSummary {
            id: self.id.clone(),
            updated_at: self.updated_at,
            message_count: self.message_count,
        }
    }
}

/// The views of a sequence of summaries.
pub open spec fn summaries_view(s: Seq<SessionSummary>) -> Seq<SummaryView> {
    s.map_values(|x: SessionSummary| x@)
}

/// The current time in whole seconds since the Unix epoch
/// (`std::time::SystemTime::now`, measured from `UNIX_EPOCH`), or 0 when the
/// clock is before it. The time is not a function of anything here, so no
/// value is promised.
#[verifier::external_body]
fn now_seconds() -> (r: u64) {
    match std::time::SystemTime::now().duration_since(std::time::UNIX_EPOCH) {
        Ok(duration) => duration.as_secs(),
        Err(_) => 0,
    }
}

impl SessionRecord {
    /// A new record with `messages`, created and saved now.
    pub fn new(id: String, messages: Vec<ChatMessage>) -> (r: Self)
        ensures
            r.id@ == id@,
            r.created_at == r.updated_at,
            msgs_view(r.messages@) == msgs_view(messages@),
    {
        SessionRecord::new_at(id, messages, now_seconds())
    }

    /// A new record with `messages`, created and saved at `now`.
    pub fn new_at(id: String, messages: Vec<ChatMessage>, now: u64) -> (r: Self)
        ensures
            r.id@ == id@,
            r.created_at == now,
            r.updated_at == now,
            msgs_view(r.messages@) == msgs_view(messages@),
    {
        SessionRecord { id, created_at: now, updated_at: now, messages }
    }
}

/// Whether `id` may name a session file: not blank and without `/`.
pub open spec fn valid_session_id(id: Seq<char>) -> bool {
    trim_seq(id).len() > 0 && !id.contains('/')
}

/// The file that holds the session `id`, relative to the sessions
/// directory: `id` followed by `.json`. Blank ids and ids with a `/` are
/// refused.
pub fn session_path(id: &str) -> (r: Result<String, StateError>)
    ensures
        valid_session_id(id@) ==> (r matches Ok(p) && p@ == id@ + ".json"@),
        !valid_session_id(id@) ==> (r matches Err(StateError::InvalidId(s)) && s@ == id@),
{
    if is_blank(id) || contains_char(id, '/') {
        return Err(StateError::InvalidId(crate::text::owned(id)));
    }
    Ok(concat_str(id, ".json"))
}

impl StateError {
    /// The error as a sentence.
    pub fn to_string(&self) -> (r: String)
        ensures
            match self {
                StateError::InvalidId(id) => r@ == "invalid session id `"@ + id@ + "`"@,
            },
    {
        match self {
            StateError::InvalidId(id) => {
                let head = concat_str("invalid session id `", id.as_str());
                concat_str(head.as_str(), "`")
            },
        }
    }
}

/// The record to save for session `id`: the one saved before, or a new one,
/// stamped with the time now and holding `messages`.
pub fn updated_record(existing: Option<SessionRecord>, id: &str, messages: &[ChatMessage]) -> (r:
    SessionRecord)
    ensures
        match existing {
            Some(old) => r.id@ == old.id@ && r.created_at == old.created_at,
            None => r.id@ == id@,
        },
        msgs_view(r.messages@) == msgs_view(messages@),
{
    updated_record_at(existing, id, messages, now_seconds())
}

/// The record to save for session `id` at time `now`: the one saved before,
/// or a new one created at `now`, stamped with `now` and holding `messages`.
pub fn updated_record_at(
    existing: Option<SessionRecord>,
    id: &str,
    messages: &[ChatMessage],
    now: u64,
) -> (r: SessionRecord)
    ensures
        match existing {
            Some(old) => r.id@ == old.id@ && r.created_at == old.created_at,
            None => r.id@ == id@ && r.created_at == now,
        },
        r.updated_at == now,
        msgs_view(r.messages@) == msgs_view(messages@),
{
    let mut record = match existing {
        Some(old) => old,
        None => SessionRecord::new_at(crate::text::owned(id), Vec::new(), now),
    };
    record.updated_at = now;
    record.messages = crate::llm::clone_messages(messages);
    record
}

/// Where a summary saved at `t` goes in a list sorted newest first: before
/// the first entry saved earlier, so that entries saved at the same time keep
/// their order.
pub open spec fn insert_pos_desc(s: Seq<SummaryView>, t: u64) -> int
    decreases s.len(),
{
    if s.len() == 0 {
        0
    } else if s[0].updated_at < t {
        0
    } else {
        1 + insert_pos_desc(s.drop_first(), t)
    }
}

/// Summaries sorted newest first, entries saved at the same time in the
/// order they came in.
pub open spec fn sort_newest_first(s: Seq<SummaryView>) -> Seq<SummaryView>
    decreases s.len(),
{
    if s.len() == 0 {
        s
    } else {
        let rest = sort_newest_first(s.drop_last());
        rest.insert(insert_pos_desc(rest, s.last().updated_at), s.last())
    }
}

proof fn lemma_insert_pos_desc(s: Seq<SummaryView>, t: u64)
    ensures
        0 <= insert_pos_desc(s, t) <= s.len(),
        forall|j: int| 0 <= j < insert_pos_desc(s, t) ==> #[trigger] s[j].updated_at >= t,
        insert_pos_desc(s, t) < s.len() ==> s[insert_pos_desc(s, t)].updated_at < t,
    decreases s.len(),
{
    if s.len() > 0 && s[0].updated_at >= t {
        lemma_insert_pos_desc(s.drop_first(), t);
        assert forall|j: int| 0 <= j < insert_pos_desc(s, t) implies #[trigger] s[j].updated_at
            >= t by {
            if j > 0 {
                assert(s[j] == s.drop_first()[j - 1]);
            }
        }
    }
}

/// Whether summaries are ordered newest first.
pub open spec fn newest_first(s: Seq<SummaryView>) -> bool {
    forall|i: int, j: int| 0 <= i < j < s.len() ==> s[i].updated_at >= s[j].updated_at
}

/// Sorting puts the newest summary first and keeps every summary, each as
/// often as it came.
pub proof fn lemma_sort_newest_first(s: Seq<SummaryView>)
    ensures
        newest_first(sort_newest_first(s)),
        sort_newest_first(s).to_multiset() == s.to_multiset(),
        sort_newest_first(s).len() == s.len(),
    decreases s.len(),
{
    broadcast use vstd::seq_lib::group_to_multiset_ensures;

    if s.len() > 0 {
        let rest = sort_newest_first(s.drop_last());
        lemma_sort_newest_first(s.drop_last());
        let x = s.last();
        let p = insert_pos_desc(rest, x.updated_at);
        lemma_insert_pos_desc(rest, x.updated_at);
        let r = rest.insert(p, x);
        assert forall|i: int, j: int| 0 <= i < j < r.len() implies r[i].updated_at
            >= r[j].updated_at by {
            if j < p {
            } else if j == p {
                assert(rest[i].updated_at >= x.updated_at);
            } else if i < p {
                assert(r[j] == rest[j - 1]);
            } else if i == p {
                assert(r[j] == rest[j - 1]);
                assert(rest[p].updated_at < x.updated_at);
                assert(rest[p].updated_at >= rest[j - 1].updated_at || p == j - 1);
            } else {
                assert(r[i] == rest[i - 1]);
                assert(r[j] == rest[j - 1]);
            }
        }
        assert(s =~= s.drop_last().push(x));
    }
}

/// Sorts `sessions` newest first; sessions saved at the same time keep their
/// order.
pub fn sort_sessions(sessions: Vec<SessionSummary>) -> (r: Vec<SessionSummary>)
    ensures
        summaries_view(r@) == sort_newest_first(summaries_view(sessions@)),
{
    let ghost input = summaries_view(sessions@);
    let mut sorted: Vec<SessionSummary> = Vec::new();
    let mut i: usize = 0;
    proof {
        assert(input.take(0) =~= Seq::<SummaryView>::empty());
        assert(summaries_view(sorted@) =~= Seq::<SummaryView>::empty());
    }
    while i < sessions.len()
        invariant
            i <= sessions.len(),
            input == summaries_view(sessions@),
            summaries_view(sorted@) == sort_newest_first(input.take(i as int)),
        decreases sessions.len() - i,
    {
        let t = sessions[i].updated_at;
        let ghost sv = summaries_view(sorted@);
        proof {
            lemma_insert_pos_desc(sv, t);
        }
        let mut p: usize = 0;
        while p < sorted.len() && sorted[p].updated_at >= t
            invariant
                p <= sorted.len(),
                sv == summaries_view(sorted@),
                0 <= insert_pos_desc(sv, t) <= sv.len(),
                forall|j: int| 0 <= j < insert_pos_desc(sv, t) ==> #[trigger] sv[j].updated_at >= t,
                insert_pos_desc(sv, t) < sv.len() ==> sv[insert_pos_desc(sv, t)].updated_at < t,
                p <= insert_pos_desc(sv, t),
            decreases sorted.len() - p,
        {
            assert(sv[p as int].updated_at >= t);
            p = p + 1;
        }
        proof {
            if p < insert_pos_desc(sv, t) {
                assert(sv[p as int].updated_at >= t);
            }
        }
        let item = sessions[i].clone();
        sorted.insert(p, item);
        proof {
            assert(input.take(i + 1).drop_last() =~= input.take(i as int));
            assert(input.take(i + 1).last() == sessions@[i as int]@);
            assert(summaries_view(sorted@) =~= sv.insert(p as int, sessions@[i as int]@));
        }
        i = i + 1;
    }
    proof {
        assert(input.take(i as int) =~= input);
    }
    sorted
}

/// The summary shown for a saved record: its id, when it was last saved, and
/// how many messages it holds.
pub open spec fn record_summary(r: &SessionRecord) -> SummaryView {
    SummaryView { id: r.id@, updated_at: r.updated_at, message_count: r.messages@.len() as usize }
}

/// The session list for the records read back: one summary per record,
/// newest first.
pub fn sessions_from_records(records: Vec<SessionRecord>) -> (r: Vec<SessionSummary>)
    ensures
        summaries_view(r@) == sort_newest_first(
            records@.map_values(|x: SessionRecord| record_summary(&x)),
        ),
{
    let ghost all = records@.map_values(|x: SessionRecord| record_summary(&x));
    let mut summaries: Vec<SessionSummary> = Vec::new();
    let mut i: usize = 0;
    while i < records.len()
        invariant
            i <= records.len(),
            all == records@.map_values(|x: SessionRecord| record_summary(&x)),
            summaries_view(summaries@) == all.take(i as int),
        decreases records.len() - i,
    {
        let record = &records[i];
        summaries.push(
            SessionSummary {
                id: record.id.clone(),
                updated_at: record.updated_at,
                message_count: record.messages.len(),
            },
        );
        proof {
            assert(all.take(i + 1) =~= all.take(i as int).push(all[i as int]));
            assert(summaries_view(summaries@) =~= all.take(i + 1));
        }
        i = i + 1;
    }
    proof {
        assert(all.take(i as int) =~= all);
    }
    sort_sessions(summaries)
}

} // verus!
