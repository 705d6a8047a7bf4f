//! Character-level text helpers: whitespace, trimming, splitting into words
//! and joining, each with a specification over `Seq<char>`.

use vstd::prelude::*;

verus! {

/// The Unicode `White_Space` property, which `char::is_whitespace`,
/// `str::trim` and `str::split_whitespace` go by.
pub open spec fn is_ws(c: char) -> bool {
    let u = c as u32;
    ||| 0x09 <= u <= 0x0d
    ||| u == 0x20
    ||| u == 0x85
    ||| u == 0xa0
    ||| u == 0x1680
    ||| 0x2000 <= u <= 0x200a
    ||| u == 0x2028
    ||| u == 0x2029
    ||| u == 0x202f
    ||| u == 0x205f
    ||| u == 0x3000
}

/// Whether `c` has the Unicode `White_Space` property (what
/// `char::is_whitespace` answers).
pub fn char_is_whitespace(c: char) -> (r: bool)
    ensures
        r == is_ws(c),
{
    let u = c as u32;
    (0x09 <= u && u <= 0x0d) || u == 0x20 || u == 0x85 || u == 0xa0 || u == 0x1680
        || (0x2000 <= u && u <= 0x200a) || u == 0x2028 || u == 0x2029 || u == 0x202f
        || u == 0x205f || u == 0x3000
}

/// `String::push` from std: appends one character.
#[verifier::external_body]
pub(crate) fn push_char(s: &mut String, c: char)
    ensures
        final(s)@ == old(s)@.push(c),
{
    s.push(c)
}

/// `s` with its leading whitespace removed.
pub open spec fn trim_start(s: Seq<char>) -> Seq<char>
    decreases s.len(),
{
    if s.len() > 0 && is_ws(s[0]) {
        trim_start(s.drop_first())
    } else {
        s
    }
}

/// `s` with its trailing whitespace removed.
pub open spec fn trim_end(s: Seq<char>) -> Seq<char>
    decreases s.len(),
{
    if s.len() > 0 && is_ws(s.last()) {
        trim_end(s.drop_last())
    } else {
        s
    }
}

/// `s` with whitespace removed at both ends (what `str::trim` returns).
pub open spec fn trim(s: Seq<char>) -> Seq<char> {
    trim_end(trim_start(s))
}

/// `s` with every trailing occurrence of `c` removed
/// (what `str::trim_end_matches(c)` returns).
pub open spec fn trim_end_char(s: Seq<char>, c: char) -> Seq<char>
    decreases s.len(),
{
    if s.len() > 0 && s.last() == c {
        trim_end_char(s.drop_last(), c)
    } else {
        s
    }
}

/// Number of leading non-whitespace characters of `s`.
pub open spec fn word_len(s: Seq<char>) -> nat
    decreases s.len(),
{
    if s.len() > 0 && !is_ws(s[0]) {
        1 + word_len(s.drop_first())
    } else {
        0
    }
}

/// The maximal runs of non-whitespace characters of `s`, in order
/// (what `str::split_whitespace` yields).
pub open spec fn words(s: Seq<char>) -> Seq<Seq<char>>
    decreases s.len(),
{
    let t = trim_start(s);
    if t.len() == 0 {
        Seq::empty()
    } else {
        let k = word_len(t);
        proof {
            lemma_trim_start_len(s);
            lemma_word_len_pos(t);
        }
        if k == 0 {
            Seq::empty()
        } else {
            seq![t.take(k as int)] + words(t.skip(k as int))
        }
    }
}

/// The parts joined with `sep` between each two neighbours
/// (what `[&str]::join(sep)` returns).
pub open spec fn join(parts: Seq<Seq<char>>, sep: Seq<char>) -> Seq<char>
    decreases parts.len(),
{
    if parts.len() == 0 {
        Seq::empty()
    } else if parts.len() == 1 {
        parts[0]
    } else {
        join(parts.drop_last(), sep) + sep + parts.last()
    }
}

/// Trimming the front drops a prefix and leaves a non-whitespace character
/// first, if anything.
pub proof fn lemma_trim_start_len(s: Seq<char>)
    ensures
        trim_start(s).len() <= s.len(),
        trim_start(s).len() > 0 ==> !is_ws(trim_start(s)[0]),
        exists|k: int| 0 <= k <= s.len() && trim_start(s) == s.skip(k),
    decreases s.len(),
{
    if s.len() > 0 && is_ws(s[0]) {
        lemma_trim_start_len(s.drop_first());
        let k = choose|k: int|
            0 <= k <= s.drop_first().len() && trim_start(s.drop_first()) == s.drop_first().skip(
                k,
            );
        assert(s.drop_first().skip(k) =~= s.skip(k + 1));
    } else {
        assert(s.skip(0) =~= s);
    }
}

/// The first word fits in the text, and is not empty when the text starts
/// with a non-whitespace character.
pub proof fn lemma_word_len_pos(s: Seq<char>)
    ensures
        word_len(s) <= s.len(),
        s.len() > 0 && !is_ws(s[0]) ==> word_len(s) > 0,
    decreases s.len(),
{
    if s.len() > 0 && !is_ws(s[0]) {
        lemma_word_len_pos(s.drop_first());
    }
}

/// `word_len` is the position of the first whitespace, or the length.
proof fn lemma_word_len_is(s: Seq<char>, j: int)
    requires
        0 <= j <= s.len(),
        forall|m: int| 0 <= m < j ==> !is_ws(#[trigger] s[m]),
        j == s.len() || is_ws(s[j]),
    ensures
        word_len(s) == j,
    decreases j,
{
    if j > 0 {
        assert(!is_ws(s[0]));
        let t = s.drop_first();
        assert forall|m: int| 0 <= m < j - 1 implies !is_ws(#[trigger] t[m]) by {
            assert(t[m] == s[m + 1]);
        }
        if j < s.len() {
            assert(t[j - 1] == s[j]);
        }
        lemma_word_len_is(t, j - 1);
    }
}

/// Leading whitespace does not change the words.
proof fn lemma_words_skip_ws(s: Seq<char>, i: int)
    requires
        0 <= i < s.len(),
        is_ws(s[i]),
    ensures
        words(s.skip(i)) == words(s.skip(i + 1)),
{
    let t = s.skip(i);
    assert(t.drop_first() =~= s.skip(i + 1));
    assert(trim_start(t) == trim_start(s.skip(i + 1)));
}

/// A word at the front comes out first.
proof fn lemma_words_take_word(s: Seq<char>, i: int, j: int)
    requires
        0 <= i < j <= s.len(),
        forall|m: int| i <= m < j ==> !is_ws(#[trigger] s[m]),
        j == s.len() || is_ws(s[j]),
    ensures
        words(s.skip(i)) == seq![s.subrange(i, j)] + words(s.skip(j)),
{
    let t = s.skip(i);
    assert(!is_ws(t[0]));
    assert(trim_start(t) == t);
    assert forall|m: int| 0 <= m < j - i implies !is_ws(#[trigger] t[m]) by {
        assert(t[m] == s[i + m]);
    }
    if j < s.len() {
        assert(t[j - i] == s[j]);
    }
    lemma_word_len_is(t, j - i);
    assert(t.take(j - i) =~= s.subrange(i, j));
    assert(t.skip(j - i) =~= s.skip(j));
}

/// Every word is non-empty and holds no whitespace.
pub proof fn lemma_words_wellformed(s: Seq<char>)
    ensures
        forall|k: int|
            0 <= k < words(s).len() ==> (#[trigger] words(s)[k]).len() > 0 && forall|m: int|
                0 <= m < words(s)[k].len() ==> !is_ws(#[trigger] words(s)[k][m]),
    decreases s.len(),
{
    let t = trim_start(s);
    lemma_trim_start_len(s);
    if t.len() > 0 {
        let kk = word_len(t);
        lemma_word_len_pos(t);
        if kk > 0 {
            lemma_word_prefix_no_ws(t);
            lemma_words_wellformed(t.skip(kk as int));
            let rest = words(t.skip(kk as int));
            assert forall|k: int| 0 <= k < words(s).len() implies (#[trigger] words(s)[k]).len()
                > 0 && forall|m: int|
                0 <= m < words(s)[k].len() ==> !is_ws(#[trigger] words(s)[k][m]) by {
                if k > 0 {
                    assert(words(s)[k] == rest[k - 1]);
                } else {
                    assert(words(s)[0] == t.take(kk as int));
                }
            }
        }
    }
}

/// The first word holds no whitespace.
proof fn lemma_word_prefix_no_ws(t: Seq<char>)
    ensures
        forall|m: int| 0 <= m < word_len(t) ==> !is_ws(#[trigger] t[m]),
    decreases t.len(),
{
    if t.len() > 0 && !is_ws(t[0]) {
        lemma_word_prefix_no_ws(t.drop_first());
        lemma_word_len_pos(t.drop_first());
        assert forall|m: int| 0 <= m < word_len(t) implies !is_ws(#[trigger] t[m]) by {
            if m > 0 {
                assert(t[m] == t.drop_first()[m - 1]);
            }
        }
    }
}

/// `trim_end` keeps a prefix, ends in a non-whitespace character, and keeps
/// the first character when that one is not whitespace.
pub proof fn lemma_trim_end_props(y: Seq<char>)
    ensures
        exists|k: int| 0 <= k <= y.len() && trim_end(y) == y.take(k),
        trim_end(y).len() > 0 ==> !is_ws(trim_end(y).last()),
        y.len() > 0 && !is_ws(y[0]) ==> trim_end(y).len() > 0 && trim_end(y)[0] == y[0],
    decreases y.len(),
{
    if y.len() > 0 && is_ws(y.last()) {
        lemma_trim_end_props(y.drop_last());
        let k = choose|k: int|
            0 <= k <= y.drop_last().len() && trim_end(y.drop_last()) == y.drop_last().take(k);
        assert(y.drop_last().take(k) =~= y.take(k));
        if y.len() > 0 && !is_ws(y[0]) {
            assert(y.drop_last()[0] == y[0]);
        }
    } else {
        assert(y.take(y.len() as int) =~= y);
    }
}

/// `trim_start` drops only whitespace.
proof fn lemma_trim_start_drops_ws(s: Seq<char>)
    ensures
        trim_start(s).len() <= s.len(),
        trim_start(s) == s.skip(s.len() - trim_start(s).len()),
        forall|m: int| 0 <= m < s.len() - trim_start(s).len() ==> is_ws(#[trigger] s[m]),
    decreases s.len(),
{
    lemma_trim_start_len(s);
    if s.len() > 0 && is_ws(s[0]) {
        lemma_trim_start_drops_ws(s.drop_first());
        let k = s.len() - trim_start(s).len();
        assert(s.drop_first().skip(k - 1) =~= s.skip(k));
        assert forall|m: int| 0 <= m < k implies is_ws(#[trigger] s[m]) by {
            if m > 0 {
                assert(s[m] == s.drop_first()[m - 1]);
            }
        }
    } else {
        assert(s.skip(0) =~= s);
    }
}

/// `trim_end` drops only whitespace.
proof fn lemma_trim_end_drops_ws(s: Seq<char>)
    ensures
        trim_end(s) == s.take(trim_end(s).len() as int),
        trim_end(s).len() <= s.len(),
        forall|m: int| trim_end(s).len() <= m < s.len() ==> is_ws(#[trigger] s[m]),
    decreases s.len(),
{
    if s.len() > 0 && is_ws(s.last()) {
        lemma_trim_end_drops_ws(s.drop_last());
        let k = trim_end(s).len();
        assert(s.drop_last().take(k as int) =~= s.take(k as int));
        assert forall|m: int| k <= m < s.len() implies is_ws(#[trigger] s[m]) by {
            if m < s.len() - 1 {
                assert(s[m] == s.drop_last()[m]);
            }
        }
    } else {
        assert(s.take(s.len() as int) =~= s);
    }
}

/// Trimming removes whitespace at both ends and nothing else: the result is
/// the stretch `x[i..j]` of the text, everything before `i` and from `j` on
/// is whitespace, and the stretch, if not empty, neither starts nor ends with
/// whitespace.
pub proof fn lemma_trim_removes_only_outer_whitespace(x: Seq<char>)
    ensures
        ({
            let i = x.len() - trim_start(x).len();
            let j = i + trim(x).len();
            &&& 0 <= i <= j <= x.len()
            &&& trim(x) == x.subrange(i, j)
            &&& forall|m: int| 0 <= m < i ==> is_ws(#[trigger] x[m])
            &&& forall|m: int| j <= m < x.len() ==> is_ws(#[trigger] x[m])
            &&& trim(x).len() > 0 ==> !is_ws(trim(x)[0]) && !is_ws(trim(x).last())
        }),
{
    lemma_trim_start_drops_ws(x);
    let y = trim_start(x);
    lemma_trim_end_drops_ws(y);
    lemma_trim_props(x);
    let i = x.len() - y.len();
    let j = i + trim(x).len();
    assert(x.skip(i).take(trim(x).len() as int) =~= x.subrange(i, j));
    assert forall|m: int| j <= m < x.len() implies is_ws(#[trigger] x[m]) by {
        assert(x[m] == y[m - i]);
    }
}

/// A non-empty trimmed text starts and ends with a non-whitespace character,
/// and the trimmed text is a stretch of the original.
pub proof fn lemma_trim_props(x: Seq<char>)
    ensures
        trim(x).len() > 0 ==> !is_ws(trim(x)[0]) && !is_ws(trim(x).last()),
        exists|i: int, j: int| 0 <= i <= j <= x.len() && trim(x) == x.subrange(i, j),
{
    lemma_trim_start_len(x);
    let y = trim_start(x);
    lemma_trim_end_props(y);
    let i = choose|i: int| 0 <= i <= x.len() && trim_start(x) == x.skip(i);
    let k = choose|k: int| 0 <= k <= y.len() && trim_end(y) == y.take(k);
    assert(x.skip(i).take(k) =~= x.subrange(i, i + k));
    if trim(x).len() > 0 {
        assert(trim(x)[0] == y[0]);
    }
}

/// Trimming the front of a concatenation: if the first part is all
/// whitespace it vanishes, otherwise only the first part is trimmed.
pub proof fn lemma_trim_start_concat(p: Seq<char>, q: Seq<char>)
    ensures
        trim_start(p + q) == (if trim_start(p).len() == 0 {
            trim_start(q)
        } else {
            trim_start(p) + q
        }),
    decreases p.len(),
{
    if p.len() == 0 {
        assert(p + q =~= q);
    } else if is_ws(p[0]) {
        assert((p + q).drop_first() =~= p.drop_first() + q);
        lemma_trim_start_concat(p.drop_first(), q);
    } else {
        assert((p + q)[0] == p[0]);
    }
}

/// The first word does not run on into what follows when a whitespace ends
/// it or follows it.
pub proof fn lemma_word_len_concat(t: Seq<char>, q: Seq<char>)
    requires
        word_len(t) < t.len() || (q.len() > 0 && is_ws(q[0])),
    ensures
        word_len(t + q) == word_len(t),
    decreases t.len(),
{
    lemma_word_len_pos(t);
    if t.len() == 0 {
        assert(t + q =~= q);
    } else if !is_ws(t[0]) {
        assert((t + q).drop_first() =~= t.drop_first() + q);
        lemma_word_len_concat(t.drop_first(), q);
    } else {
        assert((t + q)[0] == t[0]);
    }
}

/// A space between two texts separates their words.
pub proof fn lemma_words_space(a: Seq<char>, b: Seq<char>)
    ensures
        words(a + seq![' '] + b) == words(a) + words(b),
    decreases a.len(),
{
    let sb = seq![' '] + b;
    assert(a + seq![' '] + b =~= a + sb);
    lemma_trim_start_concat(a, sb);
    lemma_trim_start_len(a);
    if trim_start(a).len() == 0 {
        assert(sb.drop_first() =~= b);
        assert(trim_start(sb) == trim_start(b));
        assert(words(a + sb) == words(b));
        assert(words(a) =~= Seq::<Seq<char>>::empty());
        assert(words(a) + words(b) =~= words(b));
    } else {
        let t = trim_start(a);
        let k = word_len(t);
        lemma_word_len_pos(t);
        lemma_word_len_concat(t, sb);
        assert((t + sb).take(k as int) =~= t.take(k as int));
        assert((t + sb).skip(k as int) =~= t.skip(k as int) + seq![' '] + b);
        let i = choose|i: int| 0 <= i <= a.len() && trim_start(a) == a.skip(i);
        lemma_words_space(t.skip(k as int), b);
        assert(seq![t.take(k as int)] + (words(t.skip(k as int)) + words(b)) =~= (seq![
            t.take(k as int),
        ] + words(t.skip(k as int))) + words(b));
    }
}

/// A word on its own splits into itself.
pub proof fn lemma_words_single(w: Seq<char>)
    requires
        w.len() > 0,
        forall|m: int| 0 <= m < w.len() ==> !is_ws(#[trigger] w[m]),
    ensures
        words(w) == seq![w],
{
    assert(trim_start(w) == w);
    lemma_word_len_is(w, w.len() as int);
    assert(w.take(w.len() as int) =~= w);
    assert(w.skip(w.len() as int) =~= Seq::<char>::empty());
    assert(words(Seq::<char>::empty()) =~= Seq::<Seq<char>>::empty());
    assert(seq![w] + Seq::<Seq<char>>::empty() =~= seq![w]);
}

/// Whether every part is a word: not empty and without whitespace.
pub open spec fn all_words(ws: Seq<Seq<char>>) -> bool {
    forall|k: int|
        0 <= k < ws.len() ==> (#[trigger] ws[k]).len() > 0 && forall|m: int|
            0 <= m < ws[k].len() ==> !is_ws(#[trigger] ws[k][m])
}

/// Words joined by single spaces split back into the same words.
pub proof fn lemma_words_join(ws: Seq<Seq<char>>)
    requires
        all_words(ws),
    ensures
        words(join(ws, seq![' '])) == ws,
    decreases ws.len(),
{
    if ws.len() == 0 {
        assert(words(Seq::<char>::empty()) =~= Seq::<Seq<char>>::empty());
    } else if ws.len() == 1 {
        lemma_words_single(ws[0]);
        assert(seq![ws[0]] =~= ws);
    } else {
        let d = ws.drop_last();
        assert(all_words(d)) by {
            assert forall|k: int| 0 <= k < d.len() implies (#[trigger] d[k]).len() > 0 && forall|
                m: int,
            | 0 <= m < d[k].len() ==> !is_ws(#[trigger] d[k][m]) by {
                assert(d[k] == ws[k]);
            }
        }
        lemma_words_join(d);
        lemma_words_space(join(d, seq![' ']), ws.last());
        assert(ws[ws.len() - 1] == ws.last());
        lemma_words_single(ws.last());
        assert(d + seq![ws.last()] =~= ws);
    }
}

/// The characters of a string slice, in order.
pub fn chars_of(s: &str) -> (v: Vec<char>)
    ensures
        v@ == s@,
{
    let mut v: Vec<char> = Vec::new();
    let chars = s.chars();
    for c in it: chars
        invariant
            v@ == it.seq().take(it.index() as int),
            it.seq() == s@,
    {
        v.push(c);
    }
    v
}

/// A `String` holding exactly the given characters.
pub fn string_of(v: &Vec<char>) -> (s: String)
    ensures
        s@ == v@,
{
    let mut s = String::new();
    let mut i: usize = 0;
    while i < v.len()
        invariant
            i <= v.len(),
            s@ == v@.take(i as int),
        decreases v.len() - i,
    {
        push_char(&mut s, v[i]);
        assert(v@.take(i as int).push(v@[i as int]) =~= v@.take(i + 1));
        i = i + 1;
    }
    assert(v@.take(v.len() as int) =~= v@);
    s
}

/// Appends the characters of `b` to `a`.
pub fn extend_chars(a: &mut Vec<char>, b: &Vec<char>)
    ensures
        final(a)@ == old(a)@ + b@,
{
    let mut i: usize = 0;
    while i < b.len()
        invariant
            i <= b.len(),
            a@ == old(a)@ + b@.take(i as int),
        decreases b.len() - i,
    {
        a.push(b[i]);
        assert(old(a)@ + b@.take(i + 1) =~= old(a)@ + b@.take(i as int) + seq![b@[i as int]]);
        i = i + 1;
    }
    assert(b@.take(b.len() as int) =~= b@);
}

/// The characters of `v` in the half-open range `[from, to)`.
pub fn sub_chars(v: &Vec<char>, from: usize, to: usize) -> (r: Vec<char>)
    requires
        from <= to <= v.len(),
    ensures
        r@ == v@.subrange(from as int, to as int),
{
    let mut r: Vec<char> = Vec::new();
    let mut i: usize = from;
    while i < to
        invariant
            from <= i <= to <= v.len(),
            r@ == v@.subrange(from as int, i as int),
        decreases to - i,
    {
        r.push(v[i]);
        assert(v@.subrange(from as int, i + 1) =~= v@.subrange(from as int, i as int).push(
            v@[i as int],
        ));
        i = i + 1;
    }
    r
}

/// Whether two character vectors hold the same characters.
pub fn chars_eq(a: &Vec<char>, b: &Vec<char>) -> (r: bool)
    ensures
        r == (a@ == b@),
{
    if a.len() != b.len() {
        return false;
    }
    let mut i: usize = 0;
    while i < a.len()
        invariant
            a.len() == b.len(),
            i <= a.len(),
            forall|m: int| 0 <= m < i ==> a@[m] == b@[m],
        decreases a.len() - i,
    {
        if a[i] != b[i] {
            return false;
        }
        i = i + 1;
    }
    assert(a@ =~= b@);
    true
}

/// Bounds of the trimmed part: `trim(v) == v[start..end]`.
pub fn trim_bounds(v: &Vec<char>) -> (r: (usize, usize))
    ensures
        r.0 <= r.1 <= v.len(),
        trim(v@) == v@.subrange(r.0 as int, r.1 as int),
{
    let n = v.len();
    let mut i: usize = 0;
    assert(v@.skip(0) =~= v@);
    while i < n && char_is_whitespace(v[i])
        invariant
            i <= n == v.len(),
            trim_start(v@) == trim_start(v@.skip(i as int)),
        decreases n - i,
    {
        assert(v@.skip(i as int).drop_first() =~= v@.skip(i + 1));
        i = i + 1;
    }
    let ghost rest = v@.skip(i as int);
    assert(trim_start(rest) == rest);
    let mut j: usize = n;
    assert(v@.subrange(i as int, n as int) =~= rest);
    while j > i && char_is_whitespace(v[j - 1])
        invariant
            i <= j <= n == v.len(),
            trim_end(rest) == trim_end(v@.subrange(i as int, j as int)),
        decreases j,
    {
        assert(v@.subrange(i as int, j as int).drop_last() =~= v@.subrange(
            i as int,
            j - 1,
        ));
        j = j - 1;
    }
    assert(trim_end(v@.subrange(i as int, j as int)) == v@.subrange(i as int, j as int));
    (i, j)
}

/// `trim` of a character vector.
pub fn trim_chars(v: &Vec<char>) -> (r: Vec<char>)
    ensures
        r@ == trim(v@),
{
    let (a, b) = trim_bounds(v);
    sub_chars(v, a, b)
}

/// The whitespace-separated words of `v`.
pub fn split_words(v: &Vec<char>) -> (r: Vec<Vec<char>>)
    ensures
        r@.len() == words(v@).len(),
        forall|k: int| 0 <= k < r@.len() ==> (#[trigger] r@[k])@ == words(v@)[k],
{
    let n = v.len();
    let mut out: Vec<Vec<char>> = Vec::new();
    let ghost mut done: Seq<Seq<char>> = Seq::empty();
    let mut i: usize = 0;
    assert(v@.skip(0) =~= v@);
    while i < n
        invariant
            i <= n == v.len(),
            words(v@) == done + words(v@.skip(i as int)),
            out@.len() == done.len(),
            forall|k: int| 0 <= k < out@.len() ==> (#[trigger] out@[k])@ == done[k],
        decreases n - i,
    {
        if char_is_whitespace(v[i]) {
            proof {
                lemma_words_skip_ws(v@, i as int);
            }
            i = i + 1;
        } else {
            let mut j: usize = i + 1;
            while j < n && !char_is_whitespace(v[j])
                invariant
                    i < j <= n == v.len(),
                    forall|m: int| i <= m < j ==> !is_ws(#[trigger] v@[m]),
                decreases n - j,
            {
                j = j + 1;
            }
            proof {
                lemma_words_take_word(v@, i as int, j as int);
            }
            let w = sub_chars(v, i, j);
            out.push(w);
            proof {
                let ghost old_done = done;
                done = done.push(v@.subrange(i as int, j as int));
                assert(old_done + (seq![v@.subrange(i as int, j as int)] + words(
                    v@.skip(j as int),
                )) =~= done + words(v@.skip(j as int)));
            }
            i = j;
        }
    }
    assert(v@.skip(n as int) =~= Seq::<char>::empty());
    assert(words(Seq::<char>::empty()) =~= Seq::<Seq<char>>::empty());
    assert(done + Seq::<Seq<char>>::empty() =~= done);
    out
}

/// The views of the given vectors, as one sequence.
pub open spec fn views(v: Seq<Vec<char>>) -> Seq<Seq<char>> {
    v.map_values(|w: Vec<char>| w@)
}

/// The parts, joined by `sep`, as a character vector.
pub fn join_chars(parts: &Vec<Vec<char>>, sep: &Vec<char>) -> (r: Vec<char>)
    ensures
        r@ == join(views(parts@), sep@),
{
    let mut r: Vec<char> = Vec::new();
    let mut i: usize = 0;
    while i < parts.len()
        invariant
            i <= parts.len(),
            r@ == join(views(parts@).take(i as int), sep@),
        decreases parts.len() - i,
    {
        let ghost pv = views(parts@);
        assert(pv.take(i + 1).drop_last() =~= pv.take(i as int));
        if i > 0 {
            extend_chars(&mut r, sep);
        } else {
            assert(r@ =~= Seq::<char>::empty());
        }
        extend_chars(&mut r, &parts[i]);
        i = i + 1;
    }
    assert(views(parts@).take(parts.len() as int) =~= views(parts@));
    r
}

/// The views of the given strings, as one sequence.
pub open spec fn string_views(v: Seq<String>) -> Seq<Seq<char>> {
    v.map_values(|s: String| s@)
}

/// The strings joined with `sep` between each two neighbours.
pub fn join_strings(parts: &[String], sep: &str) -> (r: String)
    ensures
        r@ == join(string_views(parts@), sep@),
{
    let mut r = String::new();
    let mut i: usize = 0;
    while i < parts.len()
        invariant
            i <= parts.len(),
            r@ == join(string_views(parts@).take(i as int), sep@),
        decreases parts.len() - i,
    {
        let ghost pv = string_views(parts@);
        assert(pv.take(i + 1).drop_last() =~= pv.take(i as int));
        if i > 0 {
            r.append(sep);
        } else {
            assert(r@ =~= Seq::<char>::empty());
        }
        r.append(parts[i].as_str());
        i = i + 1;
    }
    assert(string_views(parts@).take(parts.len() as int) =~= string_views(parts@));
    r
}

} // verus!
