use vstd::prelude::*;
use vstd::std_specs::iter::IteratorSpec;
use vstd::string::StringExecFns;
use vstd::utf8::{encode_scalar, encode_utf8, is_scalar};

verus! {

broadcast use vstd::string::group_string_axioms;

/// Unicode `White_Space`: the characters that `char::is_whitespace` accepts.
pub open spec fn is_ws(c: char) -> bool {
    let v = c as u32;
    ||| 0x09 <= v <= 0x0d
    ||| v == 0x20
    ||| v == 0x85
    ||| v == 0xa0
    ||| v == 0x1680
    ||| 0x2000 <= v <= 0x200a
    ||| v == 0x2028
    ||| v == 0x2029
    ||| v == 0x202f
    ||| v == 0x205f
    ||| v == 0x3000
}

/// `s` with its leading white space removed.
pub open spec fn trim_start_seq(s: Seq<char>) -> Seq<char>
    decreases s.len(),
{
    if s.len() > 0 && is_ws(s[0]) {
        trim_start_seq(s.drop_first())
    } else {
        s
    }
}

/// `s` with its trailing white space removed.
pub open spec fn trim_end_seq(s: Seq<char>) -> Seq<char>
    decreases s.len(),
{
    if s.len() > 0 && is_ws(s.last()) {
        trim_end_seq(s.drop_last())
    } else {
        s
    }
}

/// `s` with white space removed at both ends.
pub open spec fn trim_seq(s: Seq<char>) -> Seq<char> {
    trim_end_seq(trim_start_seq(s))
}

/// `s` with every trailing `c` removed.
pub open spec fn trim_end_char_seq(s: Seq<char>, c: char) -> Seq<char>
    decreases s.len(),
{
    if s.len() > 0 && s.last() == c {
        trim_end_char_seq(s.drop_last(), c)
    } else {
        s
    }
}

/// `s` with every leading `c` removed.
pub open spec fn trim_start_char_seq(s: Seq<char>, c: char) -> Seq<char>
    decreases s.len(),
{
    if s.len() > 0 && s[0] == c {
        trim_start_char_seq(s.drop_first(), c)
    } else {
        s
    }
}

/// `s` with every `c` removed at both ends.
pub open spec fn trim_char_seq(s: Seq<char>, c: char) -> Seq<char> {
    trim_end_char_seq(trim_start_char_seq(s, c), c)
}

/// Whether `s` begins with `p`.
pub open spec fn starts_with_seq(s: Seq<char>, p: Seq<char>) -> bool {
    p.len() <= s.len() && s.take(p.len() as int) == p
}

/// Whether `s` ends with `p`.
pub open spec fn ends_with_seq(s: Seq<char>, p: Seq<char>) -> bool {
    p.len() <= s.len() && s.skip(s.len() - p.len()) == p
}

/// Whether `p` occurs in `s` as a contiguous piece.
pub open spec fn contains_seq(s: Seq<char>, p: Seq<char>) -> bool {
    exists|i: int| 0 <= i <= s.len() - p.len() && #[trigger] s.subrange(i, i + p.len()) == p
}

/// The characters of `s`, in order.
pub fn chars_of(s: &str) -> (r: Vec<char>)
    ensures
        r@ == s@,
{
    let mut out: Vec<char> = Vec::new();
    for ch in it: s.chars()
        invariant
            it.seq() == s@,
            out@ == it.seq().take(it.index() as int),
    {
        out.push(ch);
    }
    out
}

/// Appends `c` to `s` (`String::push`): the text afterwards is the old text
/// followed by `c`.
#[verifier::external_body]
pub(crate) fn push_char(s: &mut String, c: char)
    ensures
        final(s)@ == old(s)@.push(c),
{
    s.push(c);
}

/// The string made of the characters `cs[from..to]`.
pub fn string_from_range(cs: &Vec<char>, from: usize, to: usize) -> (r: String)
    requires
        from <= to <= cs.len(),
    ensures
        r@ == cs@.subrange(from as int, to as int),
{
    let mut out = String::new();
    let mut i = from;
    while i < to
        invariant
            from <= i <= to <= cs.len(),
            out@ == cs@.subrange(from as int, i as int),
        decreases to - i,
    {
        push_char(&mut out, cs[i]);
        i += 1;
        assert(out@ =~= cs@.subrange(from as int, i as int));
    }
    out
}

/// The string made of all the characters of `cs`.
pub fn string_from_chars(cs: &Vec<char>) -> (r: String)
    ensures
        r@ == cs@,
{
    let r = string_from_range(cs, 0, cs.len());
    assert(cs@.subrange(0, cs@.len() as int) =~= cs@);
    r
}

/// An owned copy of `s`.
pub fn owned(s: &str) -> (r: String)
    ensures
        r@ == s@,
{
    s.to_owned()
}

/// `a` followed by `b`.
pub fn concat_str(a: &str, b: &str) -> (r: String)
    ensures
        r@ == a@ + b@,
{
    let mut r = a.to_owned();
    r.append(b);
    r
}

/// Whether the two character sequences are equal.
pub fn chars_eq(a: &Vec<char>, b: &Vec<char>) -> (r: bool)
    ensures
        r == (a@ == b@),
{
    if a.len() != b.len() {
        return false;
    }
    let mut i: usize = 0;
    while i < a.len()
        invariant
            a.len() == b.len(),
            i <= a.len(),
            a@.take(i as int) == b@.take(i as int),
        decreases a.len() - i,
    {
        if a[i] != b[i] {
            assert(a@[i as int] != b@[i as int]);
            return false;
        }
        assert(a@.take(i + 1) =~= a@.take(i as int).push(a@[i as int]));
        assert(b@.take(i + 1) =~= b@.take(i as int).push(b@[i as int]));
        i += 1;
    }
    assert(a@ =~= a@.take(a.len() as int));
    assert(b@ =~= b@.take(b.len() as int));
    true
}

/// Whether `a` and `b` hold the same text.
pub fn str_eq(a: &str, b: &str) -> (r: bool)
    ensures
        r == (a@ == b@),
{
    let x = chars_of(a);
    let y = chars_of(b);
    chars_eq(&x, &y)
}

/// Whether `c` is white space (`char::is_whitespace`).
pub fn is_whitespace(c: char) -> (r: bool)
    ensures
        r == is_ws(c),
{
    let v = c as u32;
    (0x09 <= v && v <= 0x0d) || v == 0x20 || v == 0x85 || v == 0xa0 || v == 0x1680 || (0x2000
        <= v && v <= 0x200a) || v == 0x2028 || v == 0x2029 || v == 0x202f || v == 0x205f || v
        == 0x3000
}

proof fn lemma_trim_start_step(s: Seq<char>, i: int)
    requires
        0 <= i < s.len(),
        is_ws(s[i]),
    ensures
        trim_start_seq(s.subrange(i, s.len() as int)) == trim_start_seq(
            s.subrange(i + 1, s.len() as int),
        ),
{
    assert(s.subrange(i, s.len() as int).drop_first() =~= s.subrange(i + 1, s.len() as int));
}

/// The bounds `(from, to)` of `s` with white space trimmed at both ends.
pub fn trim_bounds(cs: &Vec<char>) -> (r: (usize, usize))
    ensures
        r.0 <= r.1 <= cs.len(),
        cs@.subrange(r.0 as int, r.1 as int) == trim_seq(cs@),
{
    let n = cs.len();
    let mut i: usize = 0;
    assert(cs@.subrange(0, n as int) =~= cs@);
    while i < n && is_whitespace(cs[i])
        invariant
            i <= n == cs.len(),
            trim_start_seq(cs@) == trim_start_seq(cs@.subrange(i as int, n as int)),
        decreases n - i,
    {
        proof {
            lemma_trim_start_step(cs@, i as int);
        }
        i += 1;
    }
    assert(cs@.subrange(0, n as int) =~= cs@);
    let ghost rest = cs@.subrange(i as int, n as int);
    assert(trim_start_seq(rest) == rest);
    let mut j: usize = n;
    while j > i && is_whitespace(cs[j - 1])
        invariant
            i <= j <= n == cs.len(),
            rest == cs@.subrange(i as int, n as int),
            trim_end_seq(rest) == trim_end_seq(cs@.subrange(i as int, j as int)),
        decreases j,
    {
        proof {
            let t = cs@.subrange(i as int, j as int);
            assert(t.drop_last() =~= cs@.subrange(i as int, j - 1));
        }
        j -= 1;
    }
    assert(rest.subrange(0, rest.len() as int) =~= rest);
    (i, j)
}

/// `s` with white space removed at both ends (`str::trim`).
pub fn trim(s: &str) -> (r: String)
    ensures
        r@ == trim_seq(s@),
{
    let cs = chars_of(s);
    let (a, b) = trim_bounds(&cs);
    string_from_range(&cs, a, b)
}

/// Whether `s` is empty or white space only.
pub fn is_blank(s: &str) -> (r: bool)
    ensures
        r == (trim_seq(s@).len() == 0),
{
    let cs = chars_of(s);
    let (a, b) = trim_bounds(&cs);
    a == b
}

/// The bounds `(from, to)` of `cs` with every `c` removed at the end.
fn trim_end_char_bound(cs: &Vec<char>, from: usize, c: char) -> (r: usize)
    requires
        from <= cs.len(),
    ensures
        from <= r <= cs.len(),
        cs@.subrange(from as int, r as int) == trim_end_char_seq(
            cs@.subrange(from as int, cs.len() as int),
            c,
        ),
{
    let n = cs.len();
    let mut j = n;
    while j > from && cs[j - 1] == c
        invariant
            from <= j <= n == cs.len(),
            trim_end_char_seq(cs@.subrange(from as int, n as int), c) == trim_end_char_seq(
                cs@.subrange(from as int, j as int),
                c,
            ),
        decreases j,
    {
        assert(cs@.subrange(from as int, j as int).drop_last() =~= cs@.subrange(
            from as int,
            j - 1,
        ));
        j -= 1;
    }
    j
}

/// `s` with every trailing `c` removed (`str::trim_end_matches` with a char).
pub fn trim_end_char(s: &str, c: char) -> (r: String)
    ensures
        r@ == trim_end_char_seq(s@, c),
{
    let cs = chars_of(s);
    let j = trim_end_char_bound(&cs, 0, c);
    assert(cs@.subrange(0, cs.len() as int) =~= cs@);
    string_from_range(&cs, 0, j)
}

/// `s` with every `c` removed at both ends (`str::trim_matches` with a char).
pub fn trim_char(s: &str, c: char) -> (r: String)
    ensures
        r@ == trim_char_seq(s@, c),
{
    let cs = chars_of(s);
    let n = cs.len();
    let mut i: usize = 0;
    assert(cs@.subrange(0, n as int) =~= cs@);
    while i < n && cs[i] == c
        invariant
            i <= n == cs.len(),
            trim_start_char_seq(cs@, c) == trim_start_char_seq(cs@.subrange(i as int, n as int), c),
        decreases n - i,
    {
        assert(cs@.subrange(i as int, n as int).drop_first() =~= cs@.subrange(i + 1, n as int));
        i += 1;
    }
    let j = trim_end_char_bound(&cs, i, c);
    string_from_range(&cs, i, j)
}

/// Whether `s` begins with `p` at character position `at`.
fn matches_at(s: &Vec<char>, p: &Vec<char>, at: usize) -> (r: bool)
    requires
        at <= s.len(),
    ensures
        r == (at + p.len() <= s.len() && s@.subrange(at as int, at + p.len()) == p@),
{
    if p.len() > s.len() - at {
        return false;
    }
    let mut k: usize = 0;
    while k < p.len()
        invariant
            at + p.len() <= s.len(),
            k <= p.len(),
            s@.subrange(at as int, at + k) == p@.take(k as int),
        decreases p.len() - k,
    {
        if s[at + k] != p[k] {
            assert(s@.subrange(at as int, at + p.len())[k as int] != p@[k as int]);
            return false;
        }
        assert(s@.subrange(at as int, at + k + 1) =~= s@.subrange(at as int, at + k).push(
            s@[at + k],
        ));
        assert(p@.take(k + 1) =~= p@.take(k as int).push(p@[k as int]));
        k += 1;
    }
    assert(p@.take(p.len() as int) =~= p@);
    true
}

/// Whether `s` begins with `p` (`str::starts_with`).
pub fn starts_with(s: &str, p: &str) -> (r: bool)
    ensures
        r == starts_with_seq(s@, p@),
{
    let a = chars_of(s);
    let b = chars_of(p);
    let r = matches_at(&a, &b, 0);
    assert(r ==> a@.take(b.len() as int) =~= a@.subrange(0, b.len() as int));
    proof {
        if starts_with_seq(s@, p@) {
            assert(a@.take(b.len() as int) =~= a@.subrange(0, b.len() as int));
        }
    }
    r
}

/// Whether `s` ends with `p` (`str::ends_with`).
pub fn ends_with(s: &str, p: &str) -> (r: bool)
    ensures
        r == ends_with_seq(s@, p@),
{
    let a = chars_of(s);
    let b = chars_of(p);
    if b.len() > a.len() {
        return false;
    }
    let r = matches_at(&a, &b, a.len() - b.len());
    assert(a@.skip(a.len() - b.len()) =~= a@.subrange(a.len() - b.len(), a.len() as int));
    r
}

/// `s` without its prefix `p`, when it has one (`str::strip_prefix`).
pub fn strip_prefix(s: &str, p: &str) -> (r: Option<String>)
    ensures
        r is Some <==> starts_with_seq(s@, p@),
        r matches Some(t) ==> t@ == s@.skip(p@.len() as int),
{
    let a = chars_of(s);
    let b = chars_of(p);
    if matches_at(&a, &b, 0) {
        assert(a@.take(b.len() as int) =~= a@.subrange(0, b.len() as int));
        let t = string_from_range(&a, b.len(), a.len());
        assert(t@ =~= s@.skip(p@.len() as int));
        Some(t)
    } else {
        proof {
            if starts_with_seq(s@, p@) {
                assert(a@.take(b.len() as int) =~= a@.subrange(0, b.len() as int));
            }
        }
        None
    }
}

/// Whether `p` occurs in `s` (`str::contains`).
pub fn contains_chars(a: &Vec<char>, b: &Vec<char>) -> (r: bool)
    ensures
        r == contains_seq(a@, b@),
{
    if b.len() > a.len() {
        return false;
    }
    let last = a.len() - b.len();
    let mut i: usize = 0;
    loop
        invariant
            last == a.len() - b.len(),
            i <= last,
            forall|j: int| 0 <= j < i ==> #[trigger] a@.subrange(j, j + b.len()) != b@,
        decreases last - i,
    {
        if matches_at(a, b, i) {
            return true;
        }
        if i == last {
            return false;
        }
        i += 1;
    }
}

/// Whether `p` occurs in `s` (`str::contains`).
pub fn contains(s: &str, p: &str) -> (r: bool)
    ensures
        r == contains_seq(s@, p@),
{
    let a = chars_of(s);
    let b = chars_of(p);
    contains_chars(&a, &b)
}

/// Whether `c` occurs in `s` (`str::contains` with a char).
pub fn contains_char(s: &str, c: char) -> (r: bool)
    ensures
        r == s@.contains(c),
{
    let a = chars_of(s);
    let mut i: usize = 0;
    while i < a.len()
        invariant
            a@ == s@,
            i <= a.len(),
            forall|j: int| 0 <= j < i ==> a@[j] != c,
        decreases a.len() - i,
    {
        if a[i] == c {
            assert(a@[i as int] == c);
            return true;
        }
        i += 1;
    }
    false
}

/// The maximal runs of characters of `s` that are not separators, in order.
pub open spec fn runs_seq(s: Seq<char>, sep: spec_fn(char) -> bool) -> Seq<Seq<char>>
    decreases s.len(),
{
    if s.len() == 0 {
        seq![]
    } else {
        let p = s.drop_last();
        let c = s.last();
        let w = runs_seq(p, sep);
        if sep(c) {
            w
        } else if p.len() > 0 && !sep(p.last()) {
            w.update(w.len() - 1, w.last().push(c))
        } else {
            w.push(seq![c])
        }
    }
}

/// The maximal runs of non-white-space characters of `s`, in order
/// (the pieces that `str::split_whitespace` yields).
pub open spec fn words_seq(s: Seq<char>) -> Seq<Seq<char>> {
    runs_seq(s, |c: char| is_ws(c))
}

/// The pieces of `ws` joined with `sep` between neighbours.
pub open spec fn join_seq(ws: Seq<Seq<char>>, sep: Seq<char>) -> Seq<char>
    decreases ws.len(),
{
    if ws.len() == 0 {
        seq![]
    } else if ws.len() == 1 {
        ws[0]
    } else {
        join_seq(ws.drop_last(), sep) + sep + ws.last()
    }
}

/// The words of `s` joined by single spaces.
pub open spec fn collapse_ws_seq(s: Seq<char>) -> Seq<char> {
    join_seq(words_seq(s), seq![' '])
}

/// Every run is non-empty and free of separators, and a text that ends in a
/// non-separator has at least one run.
pub proof fn lemma_runs_nonempty(s: Seq<char>, sep: spec_fn(char) -> bool)
    ensures
        forall|k: int| 0 <= k < runs_seq(s, sep).len() ==> #[trigger] runs_seq(s, sep)[k].len() > 0,
        forall|k: int, j: int|
            0 <= k < runs_seq(s, sep).len() && 0 <= j < runs_seq(s, sep)[k].len() ==> !sep(
                #[trigger] runs_seq(s, sep)[k][j],
            ),
        s.len() > 0 && !sep(s.last()) ==> runs_seq(s, sep).len() > 0,
    decreases s.len(),
{
    if s.len() > 0 {
        let p = s.drop_last();
        lemma_runs_nonempty(p, sep);
        let w = runs_seq(p, sep);
        let r = runs_seq(s, sep);
        assert forall|k: int| 0 <= k < r.len() implies #[trigger] r[k].len() > 0 by {
            if k < w.len() {
                assert(w[k].len() > 0);
            }
        }
        assert forall|k: int, j: int| 0 <= k < r.len() && 0 <= j < r[k].len() implies !sep(
            #[trigger] r[k][j],
        ) by {
            if k < w.len() && j < w[k].len() {
                assert(r[k][j] == w[k][j]);
            }
        }
    }
}

/// Every word is non-empty, and a text that ends in a non-white-space
/// character has at least one word.
pub proof fn lemma_words_nonempty(s: Seq<char>)
    ensures
        forall|k: int| 0 <= k < words_seq(s).len() ==> #[trigger] words_seq(s)[k].len() > 0,
        s.len() > 0 && !is_ws(s.last()) ==> words_seq(s).len() > 0,
{
    lemma_runs_nonempty(s, |c: char| is_ws(c));
}

pub proof fn lemma_join_nonempty(ws: Seq<Seq<char>>, sep: Seq<char>)
    requires
        forall|k: int| 0 <= k < ws.len() ==> #[trigger] ws[k].len() > 0,
    ensures
        (join_seq(ws, sep).len() > 0) == (ws.len() > 0),
    decreases ws.len(),
{
    if ws.len() > 1 {
        lemma_join_nonempty(ws.drop_last(), sep);
    }
}

pub proof fn lemma_join_extend_last(ws: Seq<Seq<char>>, sep: Seq<char>, c: char)
    requires
        ws.len() > 0,
    ensures
        join_seq(ws.update(ws.len() - 1, ws.last().push(c)), sep) == join_seq(ws, sep).push(c),
{
    let u = ws.update(ws.len() - 1, ws.last().push(c));
    if ws.len() > 1 {
        assert(u.drop_last() =~= ws.drop_last());
        assert(join_seq(u, sep) =~= join_seq(ws, sep).push(c));
    }
}

pub proof fn lemma_join_push(ws: Seq<Seq<char>>, sep: Seq<char>, w: Seq<char>)
    ensures
        join_seq(ws.push(w), sep) == (if ws.len() == 0 {
            w
        } else {
            join_seq(ws, sep) + sep + w
        }),
{
    assert(ws.push(w).drop_last() =~= ws);
}

/// The words of `s` joined by single spaces
/// (`s.split_whitespace().collect::<Vec<_>>().join(" ")`).
pub fn collapse_whitespace(s: &str) -> (r: Vec<char>)
    ensures
        r@ == collapse_ws_seq(s@),
{
    let cs = chars_of(s);
    let mut out: Vec<char> = Vec::new();
    let mut in_word = false;
    let mut i: usize = 0;
    while i < cs.len()
        invariant
            cs@ == s@,
            i <= cs.len(),
            out@ == collapse_ws_seq(cs@.take(i as int)),
            in_word == (i > 0 && !is_ws(cs@[i - 1])),
        decreases cs.len() - i,
    {
        let c = cs[i];
        let ghost p = cs@.take(i as int);
        assert(cs@.take(i + 1).drop_last() =~= p);
        assert(cs@.take(i + 1).last() == c);
        proof {
            lemma_words_nonempty(p);
            lemma_join_nonempty(words_seq(p), seq![' ']);
            if i > 0 {
                assert(p.last() == cs@[i - 1]);
            }
        }
        if is_whitespace(c) {
            in_word = false;
        } else if in_word {
            proof {
                lemma_join_extend_last(words_seq(p), seq![' '], c);
            }
            out.push(c);
        } else {
            proof {
                lemma_join_push(words_seq(p), seq![' '], seq![c]);
            }
            if out.len() > 0 {
                out.push(' ');
            }
            out.push(c);
            in_word = true;
            assert(out@ =~= collapse_ws_seq(cs@.take(i + 1)));
        }
        i += 1;
    }
    assert(cs@.take(cs.len() as int) =~= cs@);
    out
}

/// The first `n` characters of `cs` (all of them when there are fewer).
pub fn take_chars(cs: &Vec<char>, n: usize) -> (r: String)
    ensures
        r@ == cs@.take(if n < cs.len() { n as int } else { cs.len() as int }),
{
    let end = if n < cs.len() {
        n
    } else {
        cs.len()
    };
    string_from_range(cs, 0, end)
}

/// The decimal digit `d`, for `d < 10`.
pub open spec fn digit_char(d: int) -> char {
    if d == 0 {
        '0'
    } else if d == 1 {
        '1'
    } else if d == 2 {
        '2'
    } else if d == 3 {
        '3'
    } else if d == 4 {
        '4'
    } else if d == 5 {
        '5'
    } else if d == 6 {
        '6'
    } else if d == 7 {
        '7'
    } else if d == 8 {
        '8'
    } else {
        '9'
    }
}

/// The decimal representation of `n`, without leading zeros.
pub open spec fn decimal_seq(n: nat) -> Seq<char>
    decreases n,
{
    if n < 10 {
        seq![digit_char(n as int)]
    } else {
        decimal_seq(n / 10).push(digit_char((n % 10) as int))
    }
}

/// The decimal representation of `n`, with a leading `-` when it is negative.
pub open spec fn signed_decimal_seq(n: int) -> Seq<char> {
    if n < 0 {
        seq!['-'] + decimal_seq((-n) as nat)
    } else {
        decimal_seq(n as nat)
    }
}

fn digit(d: u128) -> (r: char)
    requires
        d < 10,
    ensures
        r == digit_char(d as int),
{
    if d == 0 {
        '0'
    } else if d == 1 {
        '1'
    } else if d == 2 {
        '2'
    } else if d == 3 {
        '3'
    } else if d == 4 {
        '4'
    } else if d == 5 {
        '5'
    } else if d == 6 {
        '6'
    } else if d == 7 {
        '7'
    } else if d == 8 {
        '8'
    } else {
        '9'
    }
}

fn push_decimal(out: &mut Vec<char>, n: u128)
    ensures
        final(out)@ == old(out)@ + decimal_seq(n as nat),
    decreases n,
{
    if n < 10 {
        out.push(digit(n));
    } else {
        push_decimal(out, n / 10);
        out.push(digit(n % 10));
    }
    assert(final(out)@ =~= old(out)@ + decimal_seq(n as nat));
}

/// `n` written in decimal (`u64::to_string`).
pub fn u64_to_text(n: u64) -> (r: String)
    ensures
        r@ == decimal_seq(n as nat),
{
    u128_to_text(n as u128)
}

/// `n` written in decimal (`u128::to_string`).
pub fn u128_to_text(n: u128) -> (r: String)
    ensures
        r@ == decimal_seq(n as nat),
{
    let mut cs: Vec<char> = Vec::new();
    push_decimal(&mut cs, n);
    assert(cs@ =~= decimal_seq(n as nat));
    string_from_chars(&cs)
}

/// Different numbers have different decimal representations.
pub proof fn lemma_decimal_injective(a: nat, b: nat)
    requires
        decimal_seq(a) == decimal_seq(b),
    ensures
        a == b,
    decreases a,
{
    lemma_decimal_len(a / 10);
    lemma_decimal_len(b / 10);
    if a >= 10 && b >= 10 {
        assert(decimal_seq(a) == decimal_seq(a / 10).push(digit_char((a % 10) as int)));
        assert(decimal_seq(b) == decimal_seq(b / 10).push(digit_char((b % 10) as int)));
        assert(decimal_seq(a).drop_last() =~= decimal_seq(a / 10));
        assert(decimal_seq(b).drop_last() =~= decimal_seq(b / 10));
        lemma_decimal_injective(a / 10, b / 10);
        assert(decimal_seq(a).last() == digit_char((a % 10) as int));
        assert(decimal_seq(b).last() == digit_char((b % 10) as int));
        lemma_digit_injective((a % 10) as int, (b % 10) as int);
        assert(a == 10 * (a / 10) + a % 10);
        assert(b == 10 * (b / 10) + b % 10);
    } else if a >= 10 {
        assert(decimal_seq(a).len() == decimal_seq(a / 10).len() + 1);
        assert(decimal_seq(b).len() == 1);
    } else if b >= 10 {
        assert(decimal_seq(b).len() == decimal_seq(b / 10).len() + 1);
        assert(decimal_seq(a).len() == 1);
    } else {
        assert(decimal_seq(a) == seq![digit_char(a as int)]);
        assert(decimal_seq(b) == seq![digit_char(b as int)]);
        assert(seq![digit_char(a as int)][0] == digit_char(a as int));
        assert(seq![digit_char(b as int)][0] == digit_char(b as int));
        lemma_digit_injective(a as int, b as int);
    }
}

proof fn lemma_digit_injective(a: int, b: int)
    requires
        0 <= a < 10,
        0 <= b < 10,
        digit_char(a) == digit_char(b),
    ensures
        a == b,
{
}

/// A decimal representation is never empty.
pub proof fn lemma_decimal_len(n: nat)
    ensures
        decimal_seq(n).len() >= 1,
    decreases n,
{
    if n >= 10 {
        lemma_decimal_len(n / 10);
    }
}

/// `n` written in decimal (`usize::to_string`).
pub fn usize_to_text(n: usize) -> (r: String)
    ensures
        r@ == decimal_seq(n as nat),
{
    u64_to_text(n as u64)
}

/// `n` written in decimal, with a sign when negative (`i64::to_string`).
pub fn i64_to_text(n: i64) -> (r: String)
    ensures
        r@ == signed_decimal_seq(n as int),
{
    let mut cs: Vec<char> = Vec::new();
    if n < 0 {
        cs.push('-');
        let m: u128 = (0i128 - (n as i128)) as u128;
        push_decimal(&mut cs, m);
    } else {
        push_decimal(&mut cs, n as u128);
    }
    assert(cs@ =~= signed_decimal_seq(n as int));
    string_from_chars(&cs)
}

/// Whether `c` is an ASCII letter or digit.
pub open spec fn is_ascii_alnum(c: char) -> bool {
    ('0' <= c <= '9') || ('a' <= c <= 'z') || ('A' <= c <= 'Z')
}

/// `c` with ASCII capitals turned to small letters.
pub open spec fn ascii_lower(c: char) -> char {
    if 'A' <= c <= 'Z' {
        ((c as u32) + 32) as char
    } else {
        c
    }
}

/// Whether `c` is an ASCII letter or digit (`char::is_ascii_alphanumeric`).
pub fn is_ascii_alphanumeric(c: char) -> (r: bool)
    ensures
        r == is_ascii_alnum(c),
{
    ('0' <= c && c <= '9') || ('a' <= c && c <= 'z') || ('A' <= c && c <= 'Z')
}

/// `c` with ASCII capitals turned to small letters (`char::to_ascii_lowercase`).
pub fn to_ascii_lowercase(c: char) -> (r: char)
    ensures
        r == ascii_lower(c),
{
    if 'A' <= c && c <= 'Z' {
        let v: u8 = (c as u8) + 32;
        v as char
    } else {
        c
    }
}

/// The views of a sequence of character vectors.
pub open spec fn vecs_view(vs: Seq<Vec<char>>) -> Seq<Seq<char>> {
    vs.map_values(|v: Vec<char>| v@)
}

/// The maximal runs of characters of `cs` other than `sep`, in order
/// (`str::split(sep)` with the empty pieces left out).
pub fn split_runs(cs: &Vec<char>, sep: char) -> (r: Vec<Vec<char>>)
    ensures
        vecs_view(r@) == runs_seq(cs@, |c: char| c == sep),
{
    let ghost f = |c: char| c == sep;
    let mut out: Vec<Vec<char>> = Vec::new();
    let mut i: usize = 0;
    assert(vecs_view(out@) =~= runs_seq(cs@.take(0), f));
    while i < cs.len()
        invariant
            i <= cs.len(),
            f == (|c: char| c == sep),
            vecs_view(out@) == runs_seq(cs@.take(i as int), f),
        decreases cs.len() - i,
    {
        let c = cs[i];
        let ghost p = cs@.take(i as int);
        assert(cs@.take(i + 1).drop_last() =~= p);
        assert(cs@.take(i + 1).last() == c);
        proof {
            lemma_runs_nonempty(p, f);
            if i > 0 {
                assert(p.last() == cs@[i - 1]);
            }
        }
        if c == sep {
        } else if i > 0 && cs[i - 1] != sep {
            let ghost before = vecs_view(out@);
            let mut last = out.pop().unwrap();
            last.push(c);
            out.push(last);
            assert(vecs_view(out@) =~= before.update(before.len() - 1, before.last().push(c)));
        } else {
            let ghost before = vecs_view(out@);
            let mut fresh: Vec<char> = Vec::new();
            fresh.push(c);
            out.push(fresh);
            assert(vecs_view(out@) =~= before.push(seq![c]));
        }
        i += 1;
    }
    assert(cs@.take(cs.len() as int) =~= cs@);
    out
}

/// `cs` with every character turned to its ASCII small letter.
pub open spec fn lower_seq(cs: Seq<char>) -> Seq<char> {
    cs.map_values(|c: char| ascii_lower(c))
}

/// Lowering a character keeps it a letter or digit, or not.
pub proof fn lemma_lower_alnum(c: char)
    ensures
        is_ascii_alnum(ascii_lower(c)) == is_ascii_alnum(c),
{
    if 'A' <= c <= 'Z' {
        assert('a' <= ascii_lower(c) <= 'z');
    }
}

/// The number of bytes of the UTF-8 encoding of `s`: what `str::len` gives.
pub open spec fn byte_len(s: Seq<char>) -> nat {
    encode_utf8(s).len()
}

/// The byte length that `str::len` reports for a string with these
/// characters.
pub open spec fn str_len(s: Seq<char>) -> nat {
    (byte_len(s) as usize) as nat
}

/// The number of bytes of the UTF-8 encoding of one character.
pub open spec fn char_width(c: char) -> nat {
    let v = c as u32;
    if v < 0x80 {
        1
    } else if v < 0x800 {
        2
    } else if v < 0x10000 {
        3
    } else {
        4
    }
}

/// Encoding a concatenation concatenates the encodings.
pub proof fn lemma_encode_concat(a: Seq<char>, b: Seq<char>)
    ensures
        encode_utf8(a + b) == encode_utf8(a) + encode_utf8(b),
    decreases a.len(),
{
    if a.len() == 0 {
        assert(a + b =~= b);
        assert(encode_utf8(a) =~= Seq::<u8>::empty());
        assert(encode_utf8(a) + encode_utf8(b) =~= encode_utf8(b));
    } else {
        assert((a + b)[0] == a[0]);
        assert((a + b).drop_first() =~= a.drop_first() + b);
        lemma_encode_concat(a.drop_first(), b);
        assert(encode_utf8(a + b) =~= encode_utf8(a) + encode_utf8(b));
    }
}

/// Appending a character adds its width to the byte length.
pub proof fn lemma_byte_len_push(s: Seq<char>, c: char)
    ensures
        byte_len(s.push(c)) == byte_len(s) + char_width(c),
{
    broadcast use vstd::utf8::char_is_scalar;

    assert(s.push(c) =~= s + seq![c]);
    lemma_encode_concat(s, seq![c]);
    assert(seq![c].drop_first() =~= Seq::<char>::empty());
    assert(seq![c][0] == c);
    assert(encode_utf8(Seq::<char>::empty()) =~= Seq::<u8>::empty());
    assert(encode_utf8(seq![c]) == encode_scalar(c as u32) + encode_utf8(seq![c].drop_first()));
    assert(encode_utf8(seq![c]) =~= encode_scalar(c as u32));
    assert(is_scalar(c as u32));
}

/// Byte lengths add up over a concatenation.
pub proof fn lemma_byte_len_concat(a: Seq<char>, b: Seq<char>)
    ensures
        byte_len(a + b) == byte_len(a) + byte_len(b),
{
    lemma_encode_concat(a, b);
}

/// The width of a character, as `char::len_utf8` gives it.
pub fn char_width_of(c: char) -> (r: usize)
    ensures
        r == char_width(c),
{
    let v = c as u32;
    if v < 0x80 {
        1
    } else if v < 0x800 {
        2
    } else if v < 0x10000 {
        3
    } else {
        4
    }
}

/// How many characters from position `k` on can be kept so that the kept
/// prefix takes at most `n` bytes.
pub open spec fn chars_within_from(s: Seq<char>, n: nat, k: nat) -> nat
    decreases s.len() - k,
{
    if k < s.len() && byte_len(s.take((k + 1) as int)) <= n {
        chars_within_from(s, n, k + 1)
    } else {
        k
    }
}

/// The longest prefix of `s` whose encoding takes at most `n` bytes.
pub open spec fn byte_prefix(s: Seq<char>, n: nat) -> Seq<char> {
    s.take(chars_within_from(s, n, 0) as int)
}

/// Whether `String::truncate(n)` accepts `s`: `n` lies past the end or on
/// the boundary between two characters.
pub open spec fn is_byte_boundary(s: Seq<char>, n: nat) -> bool {
    n >= byte_len(s) || byte_len(byte_prefix(s, n)) == n
}

proof fn lemma_chars_within_from(s: Seq<char>, n: nat, k: nat)
    requires
        k <= s.len(),
        byte_len(s.take(k as int)) <= n,
    ensures
        k <= chars_within_from(s, n, k) <= s.len(),
        byte_len(s.take(chars_within_from(s, n, k) as int)) <= n,
    decreases s.len() - k,
{
    if k < s.len() && byte_len(s.take((k + 1) as int)) <= n {
        lemma_chars_within_from(s, n, k + 1);
    }
}

/// A prefix never takes more bytes than the whole.
pub proof fn lemma_byte_len_prefix(s: Seq<char>, k: int)
    requires
        0 <= k <= s.len(),
    ensures
        byte_len(s.take(k)) <= byte_len(s),
{
    assert(s =~= s.take(k) + s.skip(k));
    lemma_byte_len_concat(s.take(k), s.skip(k));
}

proof fn lemma_within_all(s: Seq<char>, n: nat, k: nat)
    requires
        k <= s.len(),
        byte_len(s) <= n,
    ensures
        chars_within_from(s, n, k) == s.len(),
    decreases s.len() - k,
{
    if k < s.len() {
        lemma_byte_len_prefix(s, (k + 1) as int);
        lemma_within_all(s, n, k + 1);
    }
}

/// The longest prefix within `n` bytes takes at most `n` bytes; it is all
/// of `s` when `s` fits; and where `s` takes at least `n` bytes (its reported
/// length being at least `n`), the cut at `n` falls between two characters
/// exactly when that prefix takes `n` bytes.
pub proof fn lemma_byte_prefix(s: Seq<char>, n: nat)
    ensures
        byte_len(byte_prefix(s, n)) <= n,
        byte_len(s) <= n ==> byte_prefix(s, n) == s,
        str_len(s) >= n ==> (is_byte_boundary(s, n) <==> byte_len(byte_prefix(s, n)) == n),
{
    assert(s.take(0) =~= Seq::<char>::empty());
    assert(encode_utf8(Seq::<char>::empty()) =~= Seq::<u8>::empty());
    lemma_chars_within_from(s, n, 0);
    if byte_len(s) <= n {
        lemma_within_all(s, n, 0);
        assert(s.take(s.len() as int) =~= s);
    }
    if str_len(s) >= n {
        if byte_len(s) < n {
            assert(str_len(s) == byte_len(s));
        }
    }
}

/// The longest prefix of `s` that takes at most `n` bytes; all of `s` when
/// it is no longer. This is what `String::truncate(n)` keeps, where `n` is a
/// character boundary.
pub fn truncate_bytes(s: &str, n: usize) -> (r: String)
    ensures
        r@ == byte_prefix(s@, n as nat),
{
    let cs = chars_of(s);
    let mut out = String::new();
    let mut used: usize = 0;
    let mut i: usize = 0;
    proof {
        assert(cs@.take(0) =~= Seq::<char>::empty());
        assert(encode_utf8(Seq::<char>::empty()) =~= Seq::<u8>::empty());
    }
    while i < cs.len()
        invariant
            i <= cs.len(),
            cs@ == s@,
            out@ == cs@.take(i as int),
            used == byte_len(cs@.take(i as int)),
            used <= n,
            chars_within_from(cs@, n as nat, i as nat) == chars_within_from(cs@, n as nat, 0),
        decreases cs.len() - i,
    {
        let w = char_width_of(cs[i]);
        proof {
            assert(cs@.take(i + 1) =~= cs@.take(i as int).push(cs@[i as int]));
            lemma_byte_len_push(cs@.take(i as int), cs@[i as int]);
        }
        if w > n - used {
            return out;
        }
        push_char(&mut out, cs[i]);
        used = used + w;
        i = i + 1;
    }
    proof {
        assert(cs@.take(i as int) =~= cs@);
    }
    out
}

/// The texts of a sequence of strings.
pub open spec fn strings_view(s: Seq<String>) -> Seq<Seq<char>> {
    s.map_values(|x: String| x@)
}

/// The strings joined with `sep` between them.
pub fn join_strings(items: &Vec<String>, sep: &str) -> (r: String)
    ensures
        r@ == join_seq(strings_view(items@), sep@),
{
    let ghost v = strings_view(items@);
    let mut out = String::new();
    let mut i: usize = 0;
    proof {
        assert(v.take(0) =~= Seq::<Seq<char>>::empty());
    }
    while i < items.len()
        invariant
            i <= items.len(),
            v == strings_view(items@),
            out@ == join_seq(v.take(i as int), sep@),
        decreases items.len() - i,
    {
        proof {
            lemma_join_push(v.take(i as int), sep@, v[i as int]);
            assert(v.take(i + 1) =~= v.take(i as int).push(v[i as int]));
        }
        if i > 0 {
            let with_sep = concat_str(out.as_str(), sep);
            out = concat_str(with_sep.as_str(), items[i].as_str());
        } else {
            out = items[i].clone();
        }
        i = i + 1;
    }
    proof {
        assert(v.take(i as int) =~= v);
    }
    out
}

/// Whether `String::truncate(n)` accepts `s`: `n` lies past the end of `s`
/// or between two of its characters.
pub fn is_byte_boundary_at(s: &str, n: usize) -> (r: bool)
    ensures
        r == is_byte_boundary(s@, n as nat),
{
    let cut = truncate_bytes(s, n);
    let cut_chars = chars_of(cut.as_str());
    let all_chars = chars_of(s);
    proof {
        lemma_byte_prefix(s@, n as nat);
        lemma_chars_within_from(s@, n as nat, 0);
        assert(s@.take(0) =~= Seq::<char>::empty());
        assert(encode_utf8(Seq::<char>::empty()) =~= Seq::<u8>::empty());
        if cut@.len() == s@.len() {
            assert(cut@ =~= s@);
        }
    }
    cut.as_str().len() == n || cut_chars.len() == all_chars.len()
}

/// Whether `a` comes before `b` in the order of `str`: character by
/// character by code point (which is also the order of their UTF-8 bytes),
/// a proper prefix first.
pub open spec fn char_seq_lt(a: Seq<char>, b: Seq<char>) -> bool
    decreases a.len(),
{
    if a.len() == 0 {
        b.len() > 0
    } else if b.len() == 0 {
        false
    } else if a[0] != b[0] {
        (a[0] as u32) < (b[0] as u32)
    } else {
        char_seq_lt(a.drop_first(), b.drop_first())
    }
}

/// Whether `a` comes before `b` in the order of `str`.
pub fn str_less(a: &str, b: &str) -> (r: bool)
    ensures
        r == char_seq_lt(a@, b@),
{
    let ac = chars_of(a);
    let bc = chars_of(b);
    let mut i: usize = 0;
    proof {
        assert(ac@.skip(0) =~= ac@);
        assert(bc@.skip(0) =~= bc@);
    }
    while i < ac.len() && i < bc.len() && ac[i] == bc[i]
        invariant
            i <= ac.len(),
            i <= bc.len(),
            ac@ == a@,
            bc@ == b@,
            char_seq_lt(a@, b@) == char_seq_lt(ac@.skip(i as int), bc@.skip(i as int)),
        decreases ac.len() - i,
    {
        proof {
            assert(ac@.skip(i as int).drop_first() =~= ac@.skip(i + 1));
            assert(bc@.skip(i as int).drop_first() =~= bc@.skip(i + 1));
            assert(ac@.skip(i as int)[0] == ac@[i as int]);
            assert(bc@.skip(i as int)[0] == bc@[i as int]);
        }
        i = i + 1;
    }
    if i == ac.len() {
        i < bc.len()
    } else if i == bc.len() {
        false
    } else {
        proof {
            assert(ac@.skip(i as int)[0] == ac@[i as int]);
            assert(bc@.skip(i as int)[0] == bc@[i as int]);
        }
        (ac[i] as u32) < (bc[i] as u32)
    }
}

/// Where an item with key `k` goes in a list sorted by key: after every
/// item whose key does not come after `k`.
pub open spec fn keyed_insert_pos<T>(s: Seq<(String, T)>, k: Seq<char>) -> int
    decreases s.len(),
{
    if s.len() == 0 {
        0
    } else if char_seq_lt(k, s[0].0@) {
        0
    } else {
        1 + keyed_insert_pos(s.drop_first(), k)
    }
}

/// Items sorted by their keys in the order of `str`; items with equal keys
/// keep their order.
pub open spec fn sorted_by_key<T>(s: Seq<(String, T)>) -> Seq<(String, T)>
    decreases s.len(),
{
    if s.len() == 0 {
        s
    } else {
        let rest = sorted_by_key(s.drop_last());
        rest.insert(keyed_insert_pos(rest, s.last().0@), s.last())
    }
}

proof fn lemma_keyed_insert_pos<T>(s: Seq<(String, T)>, k: Seq<char>)
    ensures
        0 <= keyed_insert_pos(s, k) <= s.len(),
        forall|j: int| 0 <= j < keyed_insert_pos(s, k) ==> !char_seq_lt(k, #[trigger] s[j].0@),
        keyed_insert_pos(s, k) < s.len() ==> char_seq_lt(k, s[keyed_insert_pos(s, k)].0@),
    decreases s.len(),
{
    if s.len() > 0 && !char_seq_lt(k, s[0].0@) {
        lemma_keyed_insert_pos(s.drop_first(), k);
        assert forall|j: int| 0 <= j < keyed_insert_pos(s, k) implies !char_seq_lt(
            k,
            #[trigger] s[j].0@,
        ) by {
            if j > 0 {
                assert(s[j] == s.drop_first()[j - 1]);
            }
        }
    }
}

/// Sorts items by their keys in the order of `str`, keeping the order of
/// items with equal keys.
pub fn sort_by_key<T>(items: Vec<(String, T)>) -> (r: Vec<(String, T)>)
    ensures
        r@ == sorted_by_key(items@),
{
    let ghost input = items@;
    let mut rest = items;
    let mut sorted: Vec<(String, T)> = Vec::new();
    let n = rest.len();
    let mut k: usize = 0;
    proof {
        assert(input.take(0) =~= Seq::<(String, T)>::empty());
    }
    while k < n
        invariant
            k <= n == input.len(),
            rest@ == input.skip(k as int),
            sorted@ == sorted_by_key(input.take(k as int)),
        decreases n - k,
    {
        let ghost before = sorted@;
        let item = rest.remove(0);
        proof {
            assert(item == input[k as int]);
            lemma_keyed_insert_pos(before, item.0@);
        }
        let mut p: usize = 0;
        while p < sorted.len() && !str_less(item.0.as_str(), sorted[p].0.as_str())
            invariant
                p <= sorted.len(),
                sorted@ == before,
                0 <= keyed_insert_pos(before, item.0@) <= before.len(),
                forall|j: int| 0 <= j < keyed_insert_pos(before, item.0@) ==> !char_seq_lt(item.0@, #[trigger] before[j].0@),
                keyed_insert_pos(before, item.0@) < before.len() ==> char_seq_lt(item.0@, before[keyed_insert_pos(before, item.0@)].0@),
                p <= keyed_insert_pos(before, item.0@),
            decreases sorted.len() - p,
        {
            proof {
                if p == keyed_insert_pos(before, item.0@) {
                    assert(char_seq_lt(item.0@, before[p as int].0@));
                }
            }
            p = p + 1;
        }
        proof {
            if p < keyed_insert_pos(before, item.0@) {
                assert(!char_seq_lt(item.0@, before[p as int].0@));
            }
        }
        let ghost it = item;
        sorted.insert(p, item);
        proof {
            assert(input.skip(k as int).drop_first() =~= input.skip(k + 1));
            assert(input.take(k + 1).drop_last() =~= input.take(k as int));
            assert(input.take(k + 1).last() == it);
        }
        k = k + 1;
    }
    proof {
        assert(input.take(k as int) =~= input);
    }
    sorted
}

} // verus!
