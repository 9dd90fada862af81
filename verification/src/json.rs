use vstd::prelude::*;

use crate::text::str_eq;

verus! {

broadcast use vstd::string::group_string_axioms;

/// A JSON number as `serde_json` keeps it: a non-negative integer, a
/// negative integer, or any other number, held by its decimal text.
#[derive(Debug)]
pub enum JsonNumber {
    PosInt(u64),
    NegInt(i64),
    Float(String),
}

/// A JSON value: the arguments of a tool call, a tool's parameter schema, or
/// a tool's reply payload. An object keeps its entries in a list.
#[derive(Debug)]
pub enum JsonValue {
    Null,
    Bool(bool),
    Number(JsonNumber),
    String(String),
    Array(Vec<JsonValue>),
    Object(Vec<(String, JsonValue)>),
}

/// A JSON number as plain values.
pub enum NumberView {
    PosInt(u64),
    NegInt(i64),
    Float(Seq<char>),
}

/// A JSON value as plain values.
pub enum JsonView {
    Null,
    Bool(bool),
    Number(NumberView),
    Str(Seq<char>),
    Array(Seq<JsonView>),
    Object(Seq<(Seq<char>, JsonView)>),
}

/// A number as plain values.
pub open spec fn number_view(n: JsonNumber) -> NumberView {
    match n {
        JsonNumber::PosInt(v) => NumberView::PosInt(v),
        JsonNumber::NegInt(v) => NumberView::NegInt(v),
        JsonNumber::Float(t) => NumberView::Float(t@),
    }
}

/// A value as plain values.
pub open spec fn json_view(v: JsonValue) -> JsonView
    decreases v,
{
    match v {
        JsonValue::Null => JsonView::Null,
        JsonValue::Bool(b) => JsonView::Bool(b),
        JsonValue::Number(n) => JsonView::Number(number_view(n)),
        JsonValue::String(s) => JsonView::Str(s@),
        JsonValue::Array(items) => JsonView::Array(items_view(items@)),
        JsonValue::Object(entries) => JsonView::Object(entries_view(entries@)),
    }
}

/// The values of a list as plain values.
pub open spec fn items_view(items: Seq<JsonValue>) -> Seq<JsonView>
    decreases items,
{
    if items.len() == 0 {
        Seq::empty()
    } else {
        items_view(items.drop_last()).push(json_view(items.last()))
    }
}

/// The entries of an object as plain values.
pub open spec fn entries_view(entries: Seq<(String, JsonValue)>) -> Seq<(Seq<char>, JsonView)>
    decreases entries,
{
    if entries.len() == 0 {
        Seq::empty()
    } else {
        entries_view(entries.drop_last()).push(
            (entries.last().0@, json_view(entries.last().1)),
        )
    }
}

impl View for JsonValue {
    type V = JsonView;

    open spec fn view(&self) -> JsonView {
        json_view(*self)
    }
}

/// The listed values keep their length and, one by one, their views.
pub proof fn lemma_items_view(items: Seq<JsonValue>)
    ensures
        items_view(items).len() == items.len(),
        forall|i: int| 0 <= i < items.len() ==> #[trigger] items_view(items)[i] == json_view(items[i]),
    decreases items.len(),
{
    if items.len() > 0 {
        lemma_items_view(items.drop_last());
        assert forall|i: int| 0 <= i < items.len() implies #[trigger] items_view(items)[i]
            == json_view(items[i]) by {
            if i < items.len() - 1 {
                assert(items.drop_last()[i] == items[i]);
            }
        }
    }
}

/// The entries keep their length and, one by one, their keys and views.
pub proof fn lemma_entries_view(entries: Seq<(String, JsonValue)>)
    ensures
        entries_view(entries).len() == entries.len(),
        forall|i: int|
            0 <= i < entries.len() ==> #[trigger] entries_view(entries)[i] == (
                entries[i].0@,
                json_view(entries[i].1),
            ),
    decreases entries.len(),
{
    if entries.len() > 0 {
        lemma_entries_view(entries.drop_last());
        assert forall|i: int| 0 <= i < entries.len() implies #[trigger] entries_view(entries)[i]
            == (entries[i].0@, json_view(entries[i].1)) by {
            if i < entries.len() - 1 {
                assert(entries.drop_last()[i] == entries[i]);
            }
        }
    }
}

impl JsonNumber {
    /// A copy of the number.
    pub fn copy_number(&self) -> (r: JsonNumber)
        ensures
            number_view(r) == number_view(*self),
    {
        match self {
            JsonNumber::PosInt(v) => JsonNumber::PosInt(*v),
            JsonNumber::NegInt(v) => JsonNumber::NegInt(*v),
            JsonNumber::Float(t) => JsonNumber::Float(t.clone()),
        }
    }

    /// The number made from a signed integer, as `serde_json` makes it:
    /// negative ones are kept signed, the others unsigned.
    pub fn from_i64(v: i64) -> (r: JsonNumber)
        ensures
            number_view(r) == int_number(v as int),
    {
        if v < 0 {
            JsonNumber::NegInt(v)
        } else {
            JsonNumber::PosInt(v as u64)
        }
    }
}

/// The number that `serde_json` makes from a signed integer `v`.
pub open spec fn int_number(v: int) -> NumberView {
    if v < 0 {
        NumberView::NegInt(v as i64)
    } else {
        NumberView::PosInt(v as u64)
    }
}

/// The number as an `i64`, where it is an integer in range.
pub open spec fn number_as_i64(n: NumberView) -> Option<i64> {
    match n {
        NumberView::PosInt(v) => if v <= i64::MAX {
            Some(v as i64)
        } else {
            None
        },
        NumberView::NegInt(v) => Some(v),
        NumberView::Float(_) => None,
    }
}

/// The number as a `u64`, where it is a non-negative integer.
pub open spec fn number_as_u64(n: NumberView) -> Option<u64> {
    match n {
        NumberView::PosInt(v) => Some(v),
        _ => None,
    }
}

/// The value under `key` in an object's entries: the first entry with that
/// key.
pub open spec fn lookup(entries: Seq<(Seq<char>, JsonView)>, key: Seq<char>) -> Option<JsonView>
    decreases entries.len(),
{
    if entries.len() == 0 {
        None
    } else if entries[0].0 == key {
        Some(entries[0].1)
    } else {
        lookup(entries.drop_first(), key)
    }
}

/// The value under `key` when `v` is an object holding it.
pub open spec fn get_field(v: JsonView, key: Seq<char>) -> Option<JsonView> {
    match v {
        JsonView::Object(entries) => lookup(entries, key),
        _ => None,
    }
}

/// The text of a string value.
pub open spec fn as_str_view(v: Option<JsonView>) -> Option<Seq<char>> {
    match v {
        Some(JsonView::Str(s)) => Some(s),
        _ => None,
    }
}

/// The `u64` of a non-negative integer value.
pub open spec fn as_u64_view(v: Option<JsonView>) -> Option<u64> {
    match v {
        Some(JsonView::Number(n)) => number_as_u64(n),
        _ => None,
    }
}

/// The `i64` of an integer value in range.
pub open spec fn as_i64_view(v: Option<JsonView>) -> Option<i64> {
    match v {
        Some(JsonView::Number(n)) => number_as_i64(n),
        _ => None,
    }
}

/// The flag of a boolean value.
pub open spec fn as_bool_view(v: Option<JsonView>) -> Option<bool> {
    match v {
        Some(JsonView::Bool(b)) => Some(b),
        _ => None,
    }
}

/// Whether a value is present and is an array.
pub open spec fn is_array_view(v: Option<JsonView>) -> bool {
    v matches Some(JsonView::Array(_))
}

/// The entries with `(key, value)` put in: in place of the first entry with
/// that key, else at the end.
pub open spec fn put_entry(entries: Seq<(Seq<char>, JsonView)>, key: Seq<char>, value: JsonView) -> Seq<
    (Seq<char>, JsonView),
>
    decreases entries.len(),
{
    if entries.len() == 0 {
        seq![(key, value)]
    } else if entries[0].0 == key {
        entries.update(0, (key, value))
    } else {
        seq![entries[0]] + put_entry(entries.drop_first(), key, value)
    }
}

/// Whether no two entries share a key.
pub open spec fn keys_unique(entries: Seq<(Seq<char>, JsonView)>) -> bool {
    forall|i: int, j: int| 0 <= i < j < entries.len() ==> entries[i].0 != entries[j].0
}

/// After putting `(key, value)` in, `key` gives `value`, every other key
/// gives what it gave before, and no key appears twice where none did.
pub proof fn lemma_put_entry(
    entries: Seq<(Seq<char>, JsonView)>,
    key: Seq<char>,
    value: JsonView,
    other: Seq<char>,
)
    ensures
        lookup(put_entry(entries, key, value), key) == Some(value),
        other != key ==> lookup(put_entry(entries, key, value), other) == lookup(entries, other),
        keys_unique(entries) ==> keys_unique(put_entry(entries, key, value)),
        lookup(entries, key) is Some ==> put_entry(entries, key, value).len() == entries.len(),
        lookup(entries, key) is None ==> put_entry(entries, key, value) == entries.push(
            (key, value),
        ),
    decreases entries.len(),
{
    if entries.len() == 0 {
    } else if entries[0].0 == key {
        let r = put_entry(entries, key, value);
        assert(r.drop_first() =~= entries.drop_first());
        assert(r[0] == (key, value));
        if other != key {
            assert(lookup(r, other) == lookup(r.drop_first(), other));
            assert(lookup(entries, other) == lookup(entries.drop_first(), other));
        }
        if keys_unique(entries) {
            assert forall|i: int, j: int| 0 <= i < j < r.len() implies r[i].0 != r[j].0 by {
                assert(entries[i].0 != entries[j].0);
            }
        }
    } else {
        let rest = entries.drop_first();
        lemma_put_entry(rest, key, value, other);
        let r = put_entry(entries, key, value);
        assert(r.drop_first() =~= put_entry(rest, key, value));
        assert(r[0] == entries[0]);
        if other != key && entries[0].0 != other {
            assert(lookup(r, other) == lookup(r.drop_first(), other));
            assert(lookup(entries, other) == lookup(rest, other));
        }
        assert(lookup(r, key) == lookup(r.drop_first(), key));
        if keys_unique(entries) {
            assert(keys_unique(rest)) by {
                assert forall|i: int, j: int| 0 <= i < j < rest.len() implies rest[i].0
                    != rest[j].0 by {
                    assert(entries[i + 1].0 != entries[j + 1].0);
                }
            }
            assert forall|i: int, j: int| 0 <= i < j < r.len() implies r[i].0 != r[j].0 by {
                if i == 0 {
                    let k = j - 1;
                    let pr = put_entry(rest, key, value);
                    assert(r[j] == pr[k]);
                    lemma_put_entry_keys(rest, key, value, k);
                    if pr[k].0 == key {
                    } else {
                        let m = choose|m: int| 0 <= m < rest.len() && rest[m].0 == pr[k].0;
                        assert(entries[m + 1].0 == rest[m].0);
                    }
                } else {
                    assert(r[i] == put_entry(rest, key, value)[i - 1]);
                    assert(r[j] == put_entry(rest, key, value)[j - 1]);
                }
            }
        }
        if lookup(entries, key) is None {
            assert(r =~= entries.push((key, value)));
        }
    }
}

/// Putting in an entry that is already there changes nothing.
pub proof fn lemma_put_same(entries: Seq<(Seq<char>, JsonView)>, key: Seq<char>, value: JsonView)
    requires
        lookup(entries, key) == Some(value),
    ensures
        put_entry(entries, key, value) == entries,
    decreases entries.len(),
{
    if entries[0].0 == key {
        assert(entries.update(0, (key, value)) =~= entries);
    } else {
        lemma_put_same(entries.drop_first(), key, value);
        assert(seq![entries[0]] + entries.drop_first() =~= entries);
    }
}

/// Each key after putting an entry in is that key or was there before.
proof fn lemma_put_entry_keys(
    entries: Seq<(Seq<char>, JsonView)>,
    key: Seq<char>,
    value: JsonView,
    k: int,
)
    requires
        0 <= k < put_entry(entries, key, value).len(),
    ensures
        put_entry(entries, key, value)[k].0 == key || exists|m: int|
            0 <= m < entries.len() && entries[m].0 == put_entry(entries, key, value)[k].0,
    decreases entries.len(),
{
    if entries.len() == 0 {
    } else if entries[0].0 == key {
        if k > 0 {
            assert(entries[k].0 == put_entry(entries, key, value)[k].0);
        }
    } else {
        if k == 0 {
            assert(entries[0].0 == put_entry(entries, key, value)[0].0);
        } else {
            let rest = entries.drop_first();
            lemma_put_entry_keys(rest, key, value, k - 1);
            assert(put_entry(entries, key, value)[k] == put_entry(rest, key, value)[k - 1]);
            if put_entry(rest, key, value)[k - 1].0 != key {
                let m = choose|m: int|
                    0 <= m < rest.len() && rest[m].0 == put_entry(rest, key, value)[k - 1].0;
                assert(entries[m + 1] == rest[m]);
            }
        }
    }
}

impl JsonValue {
    /// A copy of the value.
    pub fn deep_clone(&self) -> (r: JsonValue)
        ensures
            r@ == self@,
        decreases self,
    {
        match self {
            JsonValue::Null => JsonValue::Null,
            JsonValue::Bool(b) => JsonValue::Bool(*b),
            JsonValue::Number(n) => JsonValue::Number(n.copy_number()),
            JsonValue::String(s) => JsonValue::String(s.clone()),
            JsonValue::Array(items) => {
                let mut out: Vec<JsonValue> = Vec::new();
                let mut i: usize = 0;
                while i < items.len()
                    invariant
                        i <= items.len(),
                        *self == JsonValue::Array(*items),
                        items_view(out@) == items_view(items@.take(i as int)),
                    decreases items.len() - i,
                {
                    proof {
                        assert(decreases_to!(*self => (*self)->Array_0));
                        assert(decreases_to!(*items => items@));
                        assert(decreases_to!(items@ => items@[i as int]));
                    }
                    let item = items[i].deep_clone();
                    let ghost before = out@;
                    out.push(item);
                    proof {
                        assert(out@.drop_last() =~= before);
                        assert(items@.take(i + 1).drop_last() =~= items@.take(i as int));
                    }
                    i = i + 1;
                }
                proof {
                    assert(items@.take(i as int) =~= items@);
                }
                JsonValue::Array(out)
            },
            JsonValue::Object(entries) => {
                let mut out: Vec<(String, JsonValue)> = Vec::new();
                let mut i: usize = 0;
                while i < entries.len()
                    invariant
                        i <= entries.len(),
                        *self == JsonValue::Object(*entries),
                        entries_view(out@) == entries_view(entries@.take(i as int)),
                    decreases entries.len() - i,
                {
                    proof {
                        assert(decreases_to!(*self => (*self)->Object_0));
                        assert(decreases_to!(*entries => entries@));
                        assert(decreases_to!(entries@ => entries@[i as int]));
                        assert(decreases_to!(entries@[i as int] => entries@[i as int].1));
                    }
                    let value = entries[i].1.deep_clone();
                    let ghost before = out@;
                    out.push((entries[i].0.clone(), value));
                    proof {
                        assert(out@.drop_last() =~= before);
                        assert(entries@.take(i + 1).drop_last() =~= entries@.take(i as int));
                    }
                    i = i + 1;
                }
                proof {
                    assert(entries@.take(i as int) =~= entries@);
                }
                JsonValue::Object(out)
            },
        }
    }

    /// The value under `key` when this is an object holding it.
    pub fn get(&self, key: &str) -> (r: Option<&JsonValue>)
        ensures
            match r {
                Some(v) => get_field(self@, key@) == Some(v@),
                None => get_field(self@, key@) is None,
            },
    {
        match self {
            JsonValue::Object(entries) => {
                let ghost ev = entries_view(entries@);
                proof {
                    lemma_entries_view(entries@);
                }
                let mut i: usize = 0;
                proof {
                    assert(ev.skip(0) =~= ev);
                }
                while i < entries.len()
                    invariant
                        i <= entries.len(),
                        *self == JsonValue::Object(*entries),
                        ev == entries_view(entries@),
                        ev.len() == entries@.len(),
                        forall|j: int|
                            0 <= j < entries@.len() ==> #[trigger] ev[j] == (
                                entries@[j].0@,
                                json_view(entries@[j].1),
                            ),
                        lookup(ev, key@) == lookup(ev.skip(i as int), key@),
                    decreases entries.len() - i,
                {
                    proof {
                        assert(ev.skip(i as int)[0] == ev[i as int]);
                        assert(ev.skip(i as int).drop_first() =~= ev.skip(i + 1));
                    }
                    if str_eq(entries[i].0.as_str(), key) {
                        proof {
                            assert(lookup(ev.skip(i as int), key@) == Some(ev[i as int].1));
                        }
                        return Some(&entries[i].1);
                    }
                    i = i + 1;
                }
                proof {
                    assert(ev.skip(i as int).len() == 0);
                }
                None
            },
            _ => None,
        }
    }

    /// The text of a string value.
    pub fn as_str(&self) -> (r: Option<&str>)
        ensures
            match r {
                Some(s) => self@ == JsonView::Str(s@),
                None => !(self@ is Str),
            },
    {
        match self {
            JsonValue::String(s) => Some(s.as_str()),
            _ => None,
        }
    }

    /// The `u64` of a non-negative integer value.
    pub fn as_u64(&self) -> (r: Option<u64>)
        ensures
            r == as_u64_view(Some(self@)),
    {
        match self {
            JsonValue::Number(JsonNumber::PosInt(v)) => Some(*v),
            _ => None,
        }
    }

    /// The `i64` of an integer value in range.
    pub fn as_i64(&self) -> (r: Option<i64>)
        ensures
            r == as_i64_view(Some(self@)),
    {
        match self {
            JsonValue::Number(JsonNumber::PosInt(v)) => if *v <= 0x7fff_ffff_ffff_ffff {
                Some(*v as i64)
            } else {
                None
            },
            JsonValue::Number(JsonNumber::NegInt(v)) => Some(*v),
            _ => None,
        }
    }

    /// The flag of a boolean value.
    pub fn as_bool(&self) -> (r: Option<bool>)
        ensures
            r == as_bool_view(Some(self@)),
    {
        match self {
            JsonValue::Bool(b) => Some(*b),
            _ => None,
        }
    }

    /// Whether the value is an array.
    pub fn is_array(&self) -> (r: bool)
        ensures
            r == (self@ is Array),
    {
        match self {
            JsonValue::Array(_) => true,
            _ => false,
        }
    }

    /// Whether the value is `null`.
    pub fn is_null(&self) -> (r: bool)
        ensures
            r == (self@ is Null),
    {
        match self {
            JsonValue::Null => true,
            _ => false,
        }
    }

    /// A string value.
    pub fn string(s: &str) -> (r: JsonValue)
        ensures
            r@ == JsonView::Str(s@),
    {
        JsonValue::String(crate::text::owned(s))
    }

    /// An empty object.
    pub fn empty_object() -> (r: JsonValue)
        ensures
            r@ == JsonView::Object(Seq::empty()),
    {
        JsonValue::Object(Vec::new())
    }

    /// Puts `value` under `key` when this is an object (replacing what was
    /// there); leaves anything else as it is.
    pub fn insert(&mut self, key: &str, value: JsonValue)
        ensures
            match old(self)@ {
                JsonView::Object(entries) => final(self)@ == JsonView::Object(
                    put_entry(entries, key@, value@),
                ),
                _ => final(self)@ == old(self)@,
            },
    {
        match self {
            JsonValue::Object(entries) => {
                insert_entry(entries, key, value);
            },
            _ => {},
        }
    }
}

/// Puts `(key, value)` into the entries of an object.
pub fn insert_entry(entries: &mut Vec<(String, JsonValue)>, key: &str, value: JsonValue)
    ensures
        entries_view(final(entries)@) == put_entry(entries_view(old(entries)@), key@, value@),
{
    let ghost ev = entries_view(entries@);
    proof {
        lemma_entries_view(entries@);
    }
    let mut i: usize = 0;
    while i < entries.len()
        invariant
            i <= entries.len(),
            ev == entries_view(old(entries)@),
            entries@ == old(entries)@,
            ev.len() == entries@.len(),
            forall|j: int|
                0 <= j < entries@.len() ==> #[trigger] ev[j] == (
                    entries@[j].0@,
                    json_view(entries@[j].1),
                ),
            forall|j: int| 0 <= j < i ==> #[trigger] ev[j].0 != key@,
        decreases entries.len() - i,
    {
        if str_eq(entries[i].0.as_str(), key) {
            let ghost vv = value@;
            let old_entry = entries.remove(i);
            entries.insert(i, (crate::text::owned(key), value));
            proof {
                lemma_entries_view(entries@);
                lemma_put_at(ev, key@, vv, i as int);
                assert(entries_view(entries@) =~= ev.update(i as int, (key@, vv)));
            }
            return;
        }
        i = i + 1;
    }
    let ghost vv = value@;
    entries.push((crate::text::owned(key), value));
    proof {
        lemma_entries_view(entries@);
        lemma_put_at(ev, key@, vv, ev.len() as int);
        assert(entries_view(entries@) =~= ev.push((key@, vv)));
    }
}

/// Where the first entry with `key` is at `i` (or none is, when `i` is the
/// length), putting `(key, value)` in replaces it there (or appends).
pub proof fn lemma_put_at(entries: Seq<(Seq<char>, JsonView)>, key: Seq<char>, value: JsonView, i: int)
    requires
        0 <= i <= entries.len(),
        forall|j: int| 0 <= j < i ==> #[trigger] entries[j].0 != key,
        i < entries.len() ==> entries[i].0 == key,
    ensures
        i < entries.len() ==> put_entry(entries, key, value) == entries.update(i, (key, value)),
        i == entries.len() ==> put_entry(entries, key, value) == entries.push((key, value)),
    decreases i,
{
    if i > 0 {
        let rest = entries.drop_first();
        assert forall|j: int| 0 <= j < i - 1 implies #[trigger] rest[j].0 != key by {
            assert(rest[j] == entries[j + 1]);
        }
        lemma_put_at(rest, key, value, i - 1);
        assert(entries[0].0 != key);
        if i < entries.len() {
            assert(seq![entries[0]] + rest.update(i - 1, (key, value)) =~= entries.update(
                i,
                (key, value),
            ));
        } else {
            assert(seq![entries[0]] + rest.push((key, value)) =~= entries.push((key, value)));
        }
    } else if entries.len() > 0 {
    }
}

/// The compact text of the JSON value written in `raw`, as `serde_json`
/// writes it back after reading it; none when `raw` is not JSON.
pub uninterp spec fn reserialized_json(raw: Seq<char>) -> Option<Seq<char>>;

/// `raw` read as JSON (`serde_json::from_str` into a `serde_json::Value`)
/// and written back compactly (`Value::to_string`); none when it does not
/// parse. The result is named, not spelled out: it is a function of the
/// text alone.
#[verifier::external_body]
fn reserialize_json(raw: &str) -> (r: Option<String>)
    ensures
        crate::llm::opt_view(r) == reserialized_json(raw@),
{
    match serde_json::from_str::<serde_json::Value>(raw) {
        Ok(value) => Some(value.to_string()),
        Err(_) => None,
    }
}

/// The compact JSON text of tool-call arguments; an empty object when they
/// are not JSON.
pub open spec fn arguments_text(raw: Seq<char>) -> Seq<char> {
    match reserialized_json(raw) {
        Some(t) => t,
        None => "{}"@,
    }
}

/// The compact JSON text of tool-call arguments written in `raw`; `{}` when
/// they are not JSON.
pub fn compact_arguments(raw: &str) -> (r: String)
    ensures
        r@ == arguments_text(raw@),
{
    match reserialize_json(raw) {
        Some(t) => t,
        None => crate::text::owned("{}"),
    }
}

} // verus!
