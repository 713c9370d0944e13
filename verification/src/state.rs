//! State key and JSON pointer helpers.
use vstd::prelude::*;

use crate::text::{owned, push_char, push_str, texts};

verus! {

/// Unique key referencing a persisted state blob.
#[derive(Debug, PartialEq, Eq, Hash)]
pub struct StateKey(pub String);

impl StateKey {
    /// Returns the key as a string slice.
    pub fn as_str(&self) -> (r: &str)
        ensures
            r@ == self.0@,
    {
        self.0.as_str()
    }

    /// Creates a new state key from the provided value.
    pub fn new(value: &str) -> (r: Self)
        ensures
            r.0@ == value@,
    {
        Self(owned(value))
    }
}

impl Clone for StateKey {
    fn clone(&self) -> (r: Self)
        ensures
            r == *self,
    {
        StateKey(self.0.clone())
    }
}

/// Text of a JSON-pointer segment with `~` written `~0` and `/` written `~1`.
pub open spec fn escape_text(s: Seq<char>) -> Seq<char>
    decreases s.len(),
{
    if s.len() == 0 {
        s
    } else {
        escape_char(s[0]) + escape_text(s.drop_first())
    }
}

/// Escaped form of one character.
pub open spec fn escape_char(c: char) -> Seq<char> {
    if c == '~' {
        seq!['~', '0']
    } else if c == '/' {
        seq!['~', '1']
    } else {
        seq![c]
    }
}

/// Every occurrence of `pat` in `s`, scanning from the left without overlap,
/// replaced by `rep` (as `str::replace` does).
pub open spec fn replace_all(s: Seq<char>, pat: Seq<char>, rep: Seq<char>) -> Seq<char>
    recommends
        pat.len() > 0,
    decreases s.len(),
{
    if s.len() == 0 || pat.len() == 0 {
        s
    } else if pat.len() <= s.len() && s.subrange(0, pat.len() as int) == pat {
        rep + replace_all(s.subrange(pat.len() as int, s.len() as int), pat, rep)
    } else {
        seq![s[0]] + replace_all(s.drop_first(), pat, rep)
    }
}

/// Segment text with `~1` read as `/`, then `~0` read as `~`.
pub open spec fn unescape_text(s: Seq<char>) -> Seq<char> {
    replace_all(replace_all(s, seq!['~', '1'], seq!['/']), seq!['~', '0'], seq!['~'])
}

proof fn lemma_escape_append(a: Seq<char>, b: Seq<char>)
    ensures
        escape_text(a + b) == escape_text(a) + escape_text(b),
    decreases a.len(),
{
    if a.len() > 0 {
        assert((a + b).drop_first() =~= a.drop_first() + b);
        lemma_escape_append(a.drop_first(), b);
        assert(escape_char(a[0]) + (escape_text(a.drop_first()) + escape_text(b)) =~= escape_char(
            a[0],
        ) + escape_text(a.drop_first()) + escape_text(b));
    } else {
        assert(a + b =~= b);
    }
}

/// Escapes one pointer segment.
fn escape_segment(segment: &str) -> (r: String)
    ensures
        r@ == escape_text(segment@),
{
    let n = segment.unicode_len();
    let mut out = String::new();
    let mut i: usize = 0;
    while i < n
        invariant
            i <= n,
            n == segment@.len(),
            out@ == escape_text(segment@.subrange(0, i as int)),
        decreases n - i,
    {
        let c = segment.get_char(i);
        proof {
            let pre = segment@.subrange(0, i as int);
            assert(segment@.subrange(0, i + 1) =~= pre + seq![c]);
            lemma_escape_append(pre, seq![c]);
            assert(seq![c].drop_first() =~= Seq::<char>::empty());
            assert(seq![c][0] == c);
            assert(escape_text(seq![c].drop_first()) =~= Seq::<char>::empty());
            assert(escape_text(seq![c]) =~= escape_char(c));
        }
        if c == '~' {
            push_char(&mut out, '~');
            push_char(&mut out, '0');
        } else if c == '/' {
            push_char(&mut out, '~');
            push_char(&mut out, '1');
        } else {
            push_char(&mut out, c);
        }
        assert(out@ =~= escape_text(segment@.subrange(0, i + 1)));
        i = i + 1;
    }
    assert(segment@.subrange(0, n as int) =~= segment@);
    out
}

/// Replaces every occurrence of the two-character pattern `p0 p1` by `rep`.
fn replace_pair(s: &str, p0: char, p1: char, rep: char) -> (r: String)
    ensures
        r@ == replace_all(s@, seq![p0, p1], seq![rep]),
{
    let ghost pat = seq![p0, p1];
    let n = s.unicode_len();
    let mut out = String::new();
    let mut i: usize = 0;
    assert(s@.subrange(0, n as int) =~= s@);
    assert(out@ + s@ =~= s@);
    while i < n
        invariant
            i <= n,
            n == s@.len(),
            pat == seq![p0, p1],
            replace_all(s@, pat, seq![rep]) == out@ + replace_all(
                s@.subrange(i as int, n as int),
                pat,
                seq![rep],
            ),
        decreases n - i,
    {
        let ghost rest = s@.subrange(i as int, n as int);
        let c = s.get_char(i);
        if i + 1 < n && c == p0 && s.get_char(i + 1) == p1 {
            proof {
                assert(rest.subrange(0, 2) =~= pat);
                assert(rest.subrange(2, rest.len() as int) =~= s@.subrange(i + 2, n as int));
            }
            push_char(&mut out, rep);
            i = i + 2;
        } else {
            proof {
                if pat.len() <= rest.len() && rest.subrange(0, 2) == pat {
                    assert(rest.subrange(0, 2)[0] == rest[0]);
                    assert(rest.subrange(0, 2)[1] == rest[1]);
                }
                assert(rest.drop_first() =~= s@.subrange(i + 1, n as int));
            }
            push_char(&mut out, c);
            i = i + 1;
        }
        assert(out@ + replace_all(s@.subrange(i as int, n as int), pat, seq![rep]) =~= replace_all(
            s@,
            pat,
            seq![rep],
        ));
    }
    assert(s@.subrange(n as int, n as int) =~= Seq::<char>::empty());
    out
}

/// Unescapes one pointer segment.
fn unescape_segment(segment: &str) -> (r: String)
    ensures
        r@ == unescape_text(segment@),
{
    let once = replace_pair(segment, '~', '1', '/');
    replace_pair(once.as_str(), '~', '0', '~')
}

/// Intermediate form: `~` escaped as `~0`, `/` kept.
spec fn half_escaped(s: Seq<char>) -> Seq<char>
    decreases s.len(),
{
    if s.len() == 0 {
        s
    } else {
        (if s[0] == '~' {
            seq!['~', '0']
        } else {
            seq![s[0]]
        }) + half_escaped(s.drop_first())
    }
}

proof fn lemma_unescape_first_pass(s: Seq<char>)
    ensures
        replace_all(escape_text(s), seq!['~', '1'], seq!['/']) == half_escaped(s),
    decreases s.len(),
{
    let pat = seq!['~', '1'];
    let rep = seq!['/'];
    if s.len() > 0 {
        let c = s[0];
        let e = escape_text(s.drop_first());
        lemma_unescape_first_pass(s.drop_first());
        let t = escape_text(s);
        assert(t == escape_char(c) + e);
        if c == '~' {
            assert(!(pat.len() <= t.len() && t.subrange(0, pat.len() as int) == pat)) by {
                if pat.len() <= t.len() && t.subrange(0, pat.len() as int) == pat {
                    assert(t.subrange(0, 2)[1] == t[1]);
                    assert(pat[1] == '1');
                }
            }
            let u = t.drop_first();
            assert(u =~= seq!['0'] + e);
            assert(!(pat.len() <= u.len() && u.subrange(0, pat.len() as int) == pat)) by {
                if pat.len() <= u.len() && u.subrange(0, pat.len() as int) == pat {
                    assert(u.subrange(0, 2)[0] == u[0]);
                    assert(pat[0] == '~');
                }
            }
            assert(u.drop_first() =~= e);
            assert(replace_all(u, pat, rep) == seq![u[0]] + replace_all(e, pat, rep));
            assert(replace_all(t, pat, rep) == seq![t[0]] + replace_all(u, pat, rep));
            assert(half_escaped(s) =~= seq!['~'] + (seq!['0'] + half_escaped(s.drop_first())));
        } else if c == '/' {
            assert(t.subrange(0, 2) =~= pat);
            assert(t.subrange(2, t.len() as int) =~= e);
            assert(half_escaped(s) =~= seq!['/'] + half_escaped(s.drop_first()));
        } else {
            assert(!(pat.len() <= t.len() && t.subrange(0, pat.len() as int) == pat)) by {
                if pat.len() <= t.len() && t.subrange(0, pat.len() as int) == pat {
                    assert(t.subrange(0, 2)[0] == t[0]);
                    assert(pat[0] == '~');
                }
            }
            assert(t.drop_first() =~= e);
            assert(half_escaped(s) =~= seq![c] + half_escaped(s.drop_first()));
        }
    }
}

proof fn lemma_unescape_second_pass(s: Seq<char>)
    ensures
        replace_all(half_escaped(s), seq!['~', '0'], seq!['~']) == s,
    decreases s.len(),
{
    let pat = seq!['~', '0'];
    let rep = seq!['~'];
    if s.len() > 0 {
        let c = s[0];
        let h = half_escaped(s.drop_first());
        lemma_unescape_second_pass(s.drop_first());
        let t = half_escaped(s);
        if c == '~' {
            assert(t =~= pat + h);
            assert(t.subrange(0, 2) =~= pat);
            assert(t.subrange(2, t.len() as int) =~= h);
        } else {
            assert(t =~= seq![c] + h);
            assert(!(pat.len() <= t.len() && t.subrange(0, pat.len() as int) == pat)) by {
                if pat.len() <= t.len() && t.subrange(0, pat.len() as int) == pat {
                    assert(t.subrange(0, 2)[0] == t[0]);
                    assert(pat[0] == '~');
                }
            }
            assert(t.drop_first() =~= h);
        }
        assert(seq![c] + s.drop_first() =~= s);
    } else {
        assert(half_escaped(s) == s);
    }
}

/// Unescaping an escaped segment gives the segment back.
pub proof fn law_segment_escape_roundtrip(s: Seq<char>)
    ensures
        unescape_text(escape_text(s)) == s,
{
    lemma_unescape_first_pass(s);
    lemma_unescape_second_pass(s);
}


/// Hierarchical pointer addressing a nested state path.
#[derive(Clone, Debug, PartialEq, Eq, Hash)]
pub struct StatePath {
    /// Pointer segments making up the path.
    pub segments: Vec<String>,
}

/// `/seg1/seg2/...` with every segment escaped.
pub open spec fn pointer_text(segs: Seq<Seq<char>>) -> Seq<char>
    decreases segs.len(),
{
    if segs.len() == 0 {
        Seq::empty()
    } else {
        pointer_text(segs.drop_last()) + seq!['/'] + escape_text(segs.last())
    }
}

/// JSON pointer of a path: `/` for the root.
pub open spec fn spec_to_pointer(segs: Seq<Seq<char>>) -> Seq<char> {
    if segs.len() == 0 {
        seq!['/']
    } else {
        pointer_text(segs)
    }
}

/// The pieces of `s` between occurrences of `c` (as `str::split`).
pub open spec fn split_text(s: Seq<char>, c: char) -> Seq<Seq<char>>
    decreases s.len(),
{
    if s.len() == 0 {
        seq![Seq::empty()]
    } else {
        let p = split_text(s.drop_last(), c);
        if s.last() == c {
            p.push(Seq::empty())
        } else {
            p.update(p.len() - 1, p.last().push(s.last()))
        }
    }
}

/// The pieces with leading empty pieces dropped.
pub open spec fn skip_empty(p: Seq<Seq<char>>) -> Seq<Seq<char>>
    decreases p.len(),
{
    if p.len() > 0 && p[0].len() == 0 {
        skip_empty(p.drop_first())
    } else {
        p
    }
}

/// Segments read from a JSON pointer.
pub open spec fn spec_from_pointer(s: Seq<char>) -> Seq<Seq<char>> {
    if s == seq!['/'] || s.len() == 0 {
        Seq::empty()
    } else {
        skip_empty(split_text(s, '/')).map_values(|x: Seq<char>| unescape_text(x))
    }
}

proof fn lemma_split_nonempty(s: Seq<char>, c: char)
    ensures
        split_text(s, c).len() >= 1,
    decreases s.len(),
{
    if s.len() > 0 {
        lemma_split_nonempty(s.drop_last(), c);
    }
}

impl StatePath {
    /// Creates an empty root path.
    pub fn root() -> (r: Self)
        ensures
            r.segments@.len() == 0,
    {
        Self { segments: Vec::new() }
    }

    /// Pushes a new segment to the path.
    pub fn push(&mut self, segment: &str)
        ensures
            texts(final(self).segments@) == texts(old(self).segments@).push(segment@),
    {
        self.segments.push(owned(segment));
        assert(texts(self.segments@) =~= texts(old(self).segments@).push(segment@));
    }

    /// Returns a JSON pointer representation (`/a/b/c`).
    pub fn to_pointer(&self) -> (r: String)
        ensures
            r@ == spec_to_pointer(texts(self.segments@)),
    {
        if self.segments.len() == 0 {
            proof {
                reveal_strlit("/");
            }
            return owned("/");
        }
        let ghost segs = texts(self.segments@);
        let mut pointer = String::new();
        let mut i: usize = 0;
        while i < self.segments.len()
            invariant
                i <= self.segments.len(),
                segs == texts(self.segments@),
                pointer@ == pointer_text(segs.subrange(0, i as int)),
            decreases self.segments.len() - i,
        {
            push_char(&mut pointer, '/');
            let escaped = escape_segment(self.segments[i].as_str());
            push_str(&mut pointer, escaped.as_str());
            proof {
                assert(segs.subrange(0, i + 1).drop_last() =~= segs.subrange(0, i as int));
            }
            i = i + 1;
        }
        assert(segs.subrange(0, self.segments.len() as int) =~= segs);
        pointer
    }

    /// Creates a path from a JSON pointer representation.
    pub fn from_pointer(pointer: &str) -> (r: Self)
        ensures
            texts(r.segments@) == spec_from_pointer(pointer@),
    {
        let n = pointer.unicode_len();
        if n == 0 || (n == 1 && pointer.get_char(0) == '/') {
            assert(n == 1 ==> pointer@ =~= seq!['/']);
            return Self::root();
        }
        assert(pointer@ != seq!['/']) by {
            if pointer@ == seq!['/'] {
                assert(pointer@[0] == '/');
            }
        }
        // Split on '/'.
        let mut pieces: Vec<String> = Vec::new();
        let mut cur = String::new();
        let mut i: usize = 0;
        while i < n
            invariant
                i <= n,
                n == pointer@.len(),
                texts(pieces@).push(cur@) == split_text(pointer@.subrange(0, i as int), '/'),
            decreases n - i,
        {
            let c = pointer.get_char(i);
            proof {
                assert(pointer@.subrange(0, i + 1).drop_last() =~= pointer@.subrange(0, i as int));
                lemma_split_nonempty(pointer@.subrange(0, i as int), '/');
            }
            if c == '/' {
                let done = cur;
                pieces.push(done);
                cur = String::new();
                assert(texts(pieces@).push(cur@) =~= split_text(pointer@.subrange(0, i + 1), '/'));
            } else {
                push_char(&mut cur, c);
                assert(texts(pieces@).push(cur@) =~= split_text(pointer@.subrange(0, i + 1), '/'));
            }
            i = i + 1;
        }
        pieces.push(cur);
        assert(pointer@.subrange(0, n as int) =~= pointer@);
        let ghost all = split_text(pointer@, '/');
        assert(texts(pieces@) == all);
        // Skip leading empty pieces.
        let mut k: usize = 0;
        assert(all.subrange(0, all.len() as int) =~= all);
        while k < pieces.len() && pieces[k].as_str().unicode_len() == 0
            invariant
                k <= pieces.len(),
                texts(pieces@) == all,
                skip_empty(all) == skip_empty(all.subrange(k as int, all.len() as int)),
            decreases pieces.len() - k,
        {
            proof {
                let rest = all.subrange(k as int, all.len() as int);
                assert(rest[0] == all[k as int]);
                assert(rest.drop_first() =~= all.subrange(k + 1, all.len() as int));
            }
            k = k + 1;
        }
        proof {
            let rest = all.subrange(k as int, all.len() as int);
            if k < pieces.len() {
                assert(rest[0] == all[k as int]);
                assert(rest[0].len() > 0);
            }
        }
        let mut segments: Vec<String> = Vec::new();
        let mut j: usize = k;
        while j < pieces.len()
            invariant
                k <= j <= pieces.len(),
                texts(pieces@) == all,
                texts(segments@) == all.subrange(k as int, j as int).map_values(
                    |x: Seq<char>| unescape_text(x),
                ),
            decreases pieces.len() - j,
        {
            let seg = unescape_segment(pieces[j].as_str());
            assert(texts(pieces@)[j as int] == pieces@[j as int]@);
            let ghost before = texts(segments@);
            segments.push(seg);
            assert(texts(segments@) =~= before.push(unescape_text(all[j as int])));
            assert(texts(segments@) =~= all.subrange(k as int, j + 1).map_values(
                |x: Seq<char>| unescape_text(x),
            ));
            j = j + 1;
        }
        Self { segments }
    }
}

proof fn lemma_escape_no_slash(s: Seq<char>)
    ensures
        forall|i: int| 0 <= i < escape_text(s).len() ==> #[trigger] escape_text(s)[i] != '/',
        s.len() > 0 ==> escape_text(s).len() > 0,
    decreases s.len(),
{
    if s.len() > 0 {
        lemma_escape_no_slash(s.drop_first());
        let e = escape_text(s);
        let head = escape_char(s[0]);
        let tail = escape_text(s.drop_first());
        assert forall|i: int| 0 <= i < e.len() implies #[trigger] e[i] != '/' by {
            if i < head.len() {
                assert(e[i] == head[i]);
            } else {
                assert(e[i] == tail[i - head.len()]);
            }
        }
    }
}

/// Appending text without the separator extends the last piece.
proof fn lemma_split_append_plain(x: Seq<char>, y: Seq<char>, c: char)
    requires
        forall|i: int| 0 <= i < y.len() ==> y[i] != c,
    ensures
        split_text(x + y, c) == split_text(x, c).update(
            split_text(x, c).len() - 1,
            split_text(x, c).last() + y,
        ),
    decreases y.len(),
{
    lemma_split_nonempty(x, c);
    if y.len() == 0 {
        assert(x + y =~= x);
        assert(split_text(x, c).last() + y =~= split_text(x, c).last());
        assert(split_text(x, c).update(split_text(x, c).len() - 1, split_text(x, c).last())
            =~= split_text(x, c));
    } else {
        let y0 = y.drop_last();
        lemma_split_append_plain(x, y0, c);
        assert((x + y).drop_last() =~= x + y0);
        assert((x + y).last() == y.last());
        lemma_split_nonempty(x + y0, c);
        let p = split_text(x, c);
        let big = split_text(x + y0, c);
        assert(y.last() == y[y.len() - 1]);
        assert(y.last() != c);
        assert(big == p.update(p.len() - 1, p.last() + y0));
        assert(big.len() == p.len());
        assert(big.last() == p.last() + y0);
        assert(split_text(x + y, c) == big.update(big.len() - 1, big.last().push(y.last())));
        assert((p.last() + y0).push(y.last()) =~= p.last() + y);
        assert(split_text(x + y, c) =~= p.update(p.len() - 1, p.last() + y));
    }
}

proof fn lemma_split_pointer(segs: Seq<Seq<char>>)
    ensures
        split_text(pointer_text(segs), '/') == seq![Seq::<char>::empty()] + segs.map_values(
            |x: Seq<char>| escape_text(x),
        ),
    decreases segs.len(),
{
    if segs.len() > 0 {
        let u = segs.drop_last();
        lemma_split_pointer(u);
        let p = pointer_text(u);
        let e = escape_text(segs.last());
        lemma_escape_no_slash(segs.last());
        assert((p + seq!['/']).drop_last() =~= p);
        lemma_split_append_plain(p + seq!['/'], e, '/');
        let q = split_text(p + seq!['/'], '/');
        assert(q == split_text(p, '/').push(Seq::empty()));
        assert(q.last() + e =~= e);
        assert(pointer_text(segs) == p + seq!['/'] + e);
        assert(split_text(pointer_text(segs), '/') =~= seq![Seq::<char>::empty()] + segs.map_values(
            |x: Seq<char>| escape_text(x),
        ));
    }
}

/// A path whose first segment is not empty (or the root) survives being
/// written as a JSON pointer and read back.
pub proof fn law_pointer_roundtrip(segs: Seq<Seq<char>>)
    requires
        segs.len() == 0 || segs[0].len() > 0,
    ensures
        spec_from_pointer(spec_to_pointer(segs)) == segs,
{
    if segs.len() > 0 {
        let t = pointer_text(segs);
        lemma_split_pointer(segs);
        let esc = segs.map_values(|x: Seq<char>| escape_text(x));
        let pieces = seq![Seq::<char>::empty()] + esc;
        lemma_escape_no_slash(segs[0]);
        assert(pieces.drop_first() =~= esc);
        assert(esc[0].len() > 0);
        assert(skip_empty(esc) == esc);
        assert(skip_empty(pieces) == esc);
        assert(t.len() >= 2) by {
            lemma_pointer_len(segs);
        }
        assert(t != seq!['/']);
        assert forall|i: int| 0 <= i < segs.len() implies unescape_text(#[trigger] esc[i]) == segs[i] by {
            law_segment_escape_roundtrip(segs[i]);
        }
        assert(esc.map_values(|x: Seq<char>| unescape_text(x)) =~= segs);
    }
}

proof fn lemma_pointer_len(segs: Seq<Seq<char>>)
    requires
        segs.len() > 0,
        segs[0].len() > 0,
    ensures
        pointer_text(segs).len() >= 2,
    decreases segs.len(),
{
    if segs.len() == 1 {
        lemma_escape_no_slash(segs[0]);
        assert(segs.drop_last().len() == 0);
    } else {
        lemma_pointer_len(segs.drop_last());
    }
}

} // verus!
