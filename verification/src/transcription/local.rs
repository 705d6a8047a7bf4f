//! Clean-up of transcripts from the local whisper.cpp backend.

use vstd::prelude::*;
use crate::config::profile::Language;
use crate::text::{
    all_words, chars_eq, chars_of, is_ws, join, join_chars, join_strings, lemma_words_join,
    lemma_words_wellformed, split_words, string_of, string_views, sub_chars, trim, trim_chars, views,
    words,
};

verus! {

/// The `len` words of `w` that begin at `start`.
pub open spec fn phrase(w: Seq<Seq<char>>, start: int, len: int) -> Seq<Seq<char>> {
    w.subrange(start, start + len)
}

/// A phrase of at least four words starts at `start` and is repeated,
/// back to back, at least three times in all.
pub open spec fn repeats_thrice(w: Seq<Seq<char>>, len: int, start: int) -> bool {
    &&& 4 <= len
    &&& 0 <= start
    &&& start + 3 * len <= w.len()
    &&& phrase(w, start, len) == phrase(w, start + len, len)
    &&& phrase(w, start + len, len) == phrase(w, start + 2 * len, len)
}

/// The repetition that is found first: the shortest phrase, and among phrases
/// of that length the earliest one.
pub open spec fn first_repeat(w: Seq<Seq<char>>, len: int, start: int) -> bool {
    &&& repeats_thrice(w, len, start)
    &&& forall|l2: int, s2: int| 4 <= l2 < len ==> !#[trigger] repeats_thrice(w, l2, s2)
    &&& forall|s2: int| 0 <= s2 < start ==> !#[trigger] repeats_thrice(w, len, s2)
}

/// Position after every further back-to-back copy of the phrase at `start`,
/// scanning from position `c`.
pub open spec fn run_end(w: Seq<Seq<char>>, start: int, len: int, c: int) -> int
    decreases w.len() - c,
{
    if len > 0 && 0 <= c && c + len <= w.len() && w.subrange(c, c + len) == phrase(w, start, len) {
        run_end(w, start, len, c + len)
    } else {
        c
    }
}

/// The words that remain: everything up to the first copy of the phrase,
/// then everything after the last back-to-back copy.
pub open spec fn collapsed_words(w: Seq<Seq<char>>, len: int, start: int) -> Seq<Seq<char>> {
    w.take(start + len) + w.skip(run_end(w, start, len, start + 3 * len))
}

/// What `collapse_repetitions` returns for `text`: if the trimmed text holds a
/// phrase of four or more words three or more times in a row, the first such
/// run (shortest phrase first, then earliest) is cut down to one copy and the
/// words are joined by single spaces; otherwise the trimmed text.
pub open spec fn collapse_spec(text: Seq<char>) -> Seq<char> {
    let t = trim(text);
    let w = words(t);
    if exists|len: int, start: int| first_repeat(w, len, start) {
        let (len, start) = choose|len: int, start: int| first_repeat(w, len, start);
        join(collapsed_words(w, len, start), seq![' '])
    } else {
        t
    }
}

/// There is at most one first repetition.
pub proof fn lemma_first_repeat_unique(w: Seq<Seq<char>>, l1: int, s1: int, l2: int, s2: int)
    requires
        first_repeat(w, l1, s1),
        first_repeat(w, l2, s2),
    ensures
        l1 == l2 && s1 == s2,
{
    if l1 < l2 {
        assert(!repeats_thrice(w, l1, s1));
    } else if l2 < l1 {
        assert(!repeats_thrice(w, l2, s2));
    } else if s1 < s2 {
        assert(!repeats_thrice(w, l2, s1));
    } else if s2 < s1 {
        assert(!repeats_thrice(w, l1, s2));
    }
}

/// The end of a run lies between its scan position and the end of the
/// words, and no further copy of the phrase follows it.
proof fn lemma_run_end_bounds(w: Seq<Seq<char>>, start: int, len: int, c: int)
    requires
        len > 0,
        0 <= c <= w.len(),
    ensures
        c <= run_end(w, start, len, c) <= w.len(),
        !(run_end(w, start, len, c) + len <= w.len() && w.subrange(
            run_end(w, start, len, c),
            run_end(w, start, len, c) + len,
        ) == phrase(w, start, len)),
    decreases w.len() - c,
{
    if c + len <= w.len() && w.subrange(c, c + len) == phrase(w, start, len) {
        lemma_run_end_bounds(w, start, len, c + len);
    }
}

/// If the text holds no phrase of four or more words three times in a row,
/// the text comes back trimmed and otherwise unchanged.
pub proof fn lemma_no_repetition_passes_through(text: Seq<char>)
    requires
        forall|len: int, start: int| !#[trigger] repeats_thrice(words(trim(text)), len, start),
    ensures
        collapse_spec(text) == trim(text),
{
}

/// A text of fewer than twelve words holds no repetition to collapse and comes
/// back trimmed.
pub proof fn lemma_short_text_passes_through(text: Seq<char>)
    requires
        words(trim(text)).len() < 12,
    ensures
        collapse_spec(text) == trim(text),
{
    let w = words(trim(text));
    assert forall|len: int, start: int| !#[trigger] repeats_thrice(w, len, start) by {}
}

/// When a repetition is collapsed, one copy of the phrase stays where the run
/// began, it is not followed by another copy, and at least two copies' worth
/// of words are gone.
pub proof fn lemma_collapse_keeps_one_copy(w: Seq<Seq<char>>, len: int, start: int)
    requires
        first_repeat(w, len, start),
    ensures
        phrase(collapsed_words(w, len, start), start, len) == phrase(w, start, len),
        !(start + 2 * len <= collapsed_words(w, len, start).len() && phrase(
            collapsed_words(w, len, start),
            start + len,
            len,
        ) == phrase(w, start, len)),
        collapsed_words(w, len, start).len() + 2 * len <= w.len(),
{
    let c = run_end(w, start, len, start + 3 * len);
    lemma_run_end_bounds(w, start, len, start + 3 * len);
    let k = collapsed_words(w, len, start);
    assert(phrase(k, start, len) =~= phrase(w, start, len));
    if start + 2 * len <= k.len() {
        assert(phrase(k, start + len, len) =~= w.subrange(c, c + len));
    }
}

/// Collapsing never adds words and keeps their order: the words of the result
/// are those of the trimmed text, or, when a repetition was collapsed, those
/// of the text with all but one copy of the phrase removed, which is at least
/// eight words fewer.
pub proof fn lemma_collapse_word_count(text: Seq<char>)
    ensures
        words(collapse_spec(text)).len() <= words(trim(text)).len(),
        ({
            let w = words(trim(text));
            if exists|len: int, start: int| first_repeat(w, len, start) {
                let (len, start) = choose|len: int, start: int| first_repeat(w, len, start);
                &&& words(collapse_spec(text)) == collapsed_words(w, len, start)
                &&& words(collapse_spec(text)).len() + 8 <= w.len()
            } else {
                words(collapse_spec(text)) == w
            }
        }),
{
    let w = words(trim(text));
    if exists|len: int, start: int| first_repeat(w, len, start) {
        let (len, start) = choose|len: int, start: int| first_repeat(w, len, start);
        lemma_words_wellformed(trim(text));
        let k = collapsed_words(w, len, start);
        let c = run_end(w, start, len, start + 3 * len);
        lemma_run_end_bounds(w, start, len, start + 3 * len);
        assert(all_words(k)) by {
            assert forall|j: int| 0 <= j < k.len() implies (#[trigger] k[j]).len() > 0 && forall|
                m: int,
            | 0 <= m < k[j].len() ==> !is_ws(#[trigger] k[j][m]) by {
                if j < start + len {
                    assert(k[j] == w[j]);
                } else {
                    assert(k[j] == w[c + (j - (start + len))]);
                }
            }
        }
        lemma_words_join(k);
        lemma_collapse_keeps_one_copy(w, len, start);
    }
}

/// From a position `c` that ends a copy of the phrase, with every word since
/// the phrase's second copy equal to the word `len` before it, the scan of
/// further copies keeps that property up to where it stops.
proof fn lemma_run_end_periodic(w: Seq<Seq<char>>, start: int, len: int, c: int)
    requires
        len > 0,
        0 <= start,
        start + len <= c <= w.len(),
        w.subrange(c - len, c) == phrase(w, start, len),
        forall|i: int| start + len <= i < c ==> #[trigger] w[i] == w[i - len],
    ensures
        forall|i: int|
            start + len <= i < run_end(w, start, len, c) ==> #[trigger] w[i] == w[i - len],
        w.subrange(run_end(w, start, len, c) - len, run_end(w, start, len, c)) == phrase(
            w,
            start,
            len,
        ),
    decreases w.len() - c,
{
    if c + len <= w.len() && w.subrange(c, c + len) == phrase(w, start, len) {
        assert forall|i: int| start + len <= i < c + len implies #[trigger] w[i] == w[i - len] by {
            if i >= c {
                assert(w[i] == w.subrange(c, c + len)[i - c]);
                assert(w[i - len] == w.subrange(c - len, c)[i - c]);
            }
        }
        assert(w.subrange(c + len - len, c + len) =~= w.subrange(c, c + len));
        lemma_run_end_periodic(w, start, len, c + len);
    }
}

/// Three back-to-back copies, stated word by word, make a repetition.
proof fn lemma_periodic_repeats(w: Seq<Seq<char>>, len: int, start: int)
    requires
        stands_thrice(w, len, start),
    ensures
        repeats_thrice(w, len, start),
{
    assert forall|m: int| 0 <= m < len implies #[trigger] phrase(w, start, len)[m] == phrase(
        w,
        start + len,
        len,
    )[m] by {
        assert(w[start + len + m] == w[start + len + m - len]);
    }
    assert forall|m: int| 0 <= m < len implies #[trigger] phrase(w, start + len, len)[m] == phrase(
        w,
        start + 2 * len,
        len,
    )[m] by {
        assert(w[start + 2 * len + m] == w[start + 2 * len + m - len]);
    }
    assert(phrase(w, start, len) =~= phrase(w, start + len, len));
    assert(phrase(w, start + len, len) =~= phrase(w, start + 2 * len, len));
}

/// Whether the `len >= 4` words from `start` stand three times back to back,
/// checked word by word: every word from `start + len` to `start + 3 * len`
/// equals the word `len` before it.
pub open spec fn stands_thrice(w: Seq<Seq<char>>, len: int, start: int) -> bool {
    &&& 4 <= len
    &&& 0 <= start
    &&& start + 3 * len <= w.len()
    &&& forall|i: int| start + len <= i < start + 3 * len ==> #[trigger] w[i] == w[i - len]
}

/// What a collapse that cut the words `w` down to the text `r` must look
/// like, stated word by word: a phrase of `len` words at `start` stands three
/// times in a row and goes on back to back up to `c >= start + 3 * len`
/// (every word in between equals the word `len` before it), with no further
/// copy after `c`; no shorter phrase, and no phrase of the same length
/// further left, stands three times in a row anywhere; and `r` is the words
/// up to and including the first copy followed by the words from `c` on,
/// joined by single spaces.
pub open spec fn cut_run(w: Seq<Seq<char>>, r: Seq<char>, len: int, start: int, c: int) -> bool {
    &&& stands_thrice(w, len, start)
    &&& start + 3 * len <= c <= w.len()
    &&& forall|i: int| start + len <= i < c ==> #[trigger] w[i] == w[i - len]
    &&& !(c + len <= w.len() && forall|i: int| c <= i < c + len ==> #[trigger] w[i] == w[i - len])
    &&& forall|l2: int, s2: int|
        (l2 < len || (l2 == len && s2 < start)) ==> !#[trigger] stands_thrice(w, l2, s2)
    &&& words(r) == w.take(start + len) + w.skip(c)
    &&& r == join(w.take(start + len) + w.skip(c), seq![' '])
}

/// Collapsing deletes nothing but repetitions. Either the text comes back
/// trimmed, or there is a phrase of `len >= 4` words starting at `start`
/// that stands at least three times back to back (every word from
/// `start + len` up to `c >= start + 3 * len` equals the word `len` before
/// it), and the words of the result are the words up to and including the
/// first copy followed by the words from `c` on: exactly the further copies
/// are gone. Consequently a text in which no phrase of four or more words
/// stands three times in a row comes back trimmed.
pub proof fn lemma_collapse_removes_only_repeated_copies(text: Seq<char>)
    ensures
        collapse_spec(text) == trim(text) || exists|len: int, start: int, c: int|
            cut_run(words(trim(text)), collapse_spec(text), len, start, c),
        (forall|len: int, start: int| !#[trigger] stands_thrice(words(trim(text)), len, start))
            ==> collapse_spec(text) == trim(text),
{
    let w = words(trim(text));
    lemma_collapse_word_count(text);
    if exists|l0: int, s0: int| first_repeat(w, l0, s0) {
        let (l0, s0) = choose|l0: int, s0: int| first_repeat(w, l0, s0);
        let c0 = s0 + 3 * l0;
        assert forall|i: int| s0 + l0 <= i < c0 implies #[trigger] w[i] == w[i - l0] by {
            if i < s0 + 2 * l0 {
                assert(w[i] == phrase(w, s0 + l0, l0)[i - s0 - l0]);
                assert(w[i - l0] == phrase(w, s0, l0)[i - s0 - l0]);
            } else {
                assert(w[i] == phrase(w, s0 + 2 * l0, l0)[i - s0 - 2 * l0]);
                assert(w[i - l0] == phrase(w, s0 + l0, l0)[i - s0 - 2 * l0]);
            }
        }
        assert(w.subrange(c0 - l0, c0) == phrase(w, s0 + 2 * l0, l0));
        lemma_run_end_periodic(w, s0, l0, c0);
        lemma_run_end_bounds(w, s0, l0, c0);
        let c = run_end(w, s0, l0, c0);
        assert(words(collapse_spec(text)) == w.take(s0 + l0) + w.skip(c));
        assert(w.subrange(s0, s0 + l0) == phrase(w, s0, l0));
        assert(stands_thrice(w, l0, s0));
        assert(!(c + l0 <= w.len() && forall|i: int|
            c <= i < c + l0 ==> #[trigger] w[i] == w[i - l0])) by {
            if c + l0 <= w.len() && forall|i: int| c <= i < c + l0 ==> #[trigger] w[i] == w[i - l0] {
                assert forall|m: int| 0 <= m < l0 implies #[trigger] w.subrange(c, c + l0)[m] == phrase(
                    w,
                    s0,
                    l0,
                )[m] by {
                    assert(w[c + m] == w[c + m - l0]);
                    assert(w[c + m - l0] == w.subrange(c - l0, c)[m]);
                }
                assert(w.subrange(c, c + l0) =~= phrase(w, s0, l0));
            }
        }
        assert forall|l2: int, s2: int|
            (l2 < l0 || (l2 == l0 && s2 < s0)) implies !#[trigger] stands_thrice(w, l2, s2) by {
            if stands_thrice(w, l2, s2) {
                lemma_periodic_repeats(w, l2, s2);
            }
        }
        assert(collapse_spec(text) == join(w.take(s0 + l0) + w.skip(c), seq![' ']));
        assert(cut_run(w, collapse_spec(text), l0, s0, c));
    }
}

/// A copy of the words `w[from..to]`.
fn copy_words(w: &Vec<Vec<char>>, from: usize, to: usize, out: &mut Vec<Vec<char>>)
    requires
        from <= to <= w.len(),
    ensures
        views(final(out)@) == views(old(out)@) + views(w@).subrange(from as int, to as int),
{
    let mut i: usize = from;
    while i < to
        invariant
            from <= i <= to <= w.len(),
            views(out@) == views(old(out)@) + views(w@).subrange(from as int, i as int),
        decreases to - i,
    {
        let c = sub_chars(&w[i], 0, w[i].len());
        assert(c@ =~= w@[i as int]@);
        let ghost before = out@;
        out.push(c);
        assert(views(out@) =~= views(before).push(c@));
        assert(views(w@).subrange(from as int, i + 1) =~= views(w@).subrange(
            from as int,
            i as int,
        ).push(w@[i as int]@));
        i = i + 1;
    }
}

/// Whether `w[a..a+len]` and `w[b..b+len]` are the same words.
fn phrase_eq(w: &Vec<Vec<char>>, a: usize, b: usize, len: usize) -> (r: bool)
    requires
        a + len <= w.len(),
        b + len <= w.len(),
    ensures
        r == (views(w@).subrange(a as int, a + len) == views(w@).subrange(b as int, b + len)),
{
    let ghost wv = views(w@);
    let ghost pa = wv.subrange(a as int, a + len);
    let ghost pb = wv.subrange(b as int, b + len);
    let mut i: usize = 0;
    while i < len
        invariant
            a + len <= w.len(),
            b + len <= w.len(),
            wv == views(w@),
            pa == wv.subrange(a as int, a + len),
            pb == wv.subrange(b as int, b + len),
            i <= len,
            forall|m: int| 0 <= m < i ==> #[trigger] pa[m] == pb[m],
        decreases len - i,
    {
        if !chars_eq(&w[a + i], &w[b + i]) {
            assert(pa[i as int] != pb[i as int]);
            return false;
        }
        i = i + 1;
    }
    assert(pa =~= pb);
    true
}

/// Safety net against repetition loops left in a transcript: when a phrase of
/// four or more words stands at least three times in a row, the run is cut
/// down to a single copy. The shortest such phrase wins, so that the atomic
/// unit of repetition is found rather than two copies of it.
pub fn collapse_repetitions(text: &str) -> (r: String)
    ensures
        r@ == collapse_spec(text@),
{
    let chars = chars_of(text);
    let t = trim_chars(&chars);
    let ws = split_words(&t);
    let ghost w = words(t@);
    assert(views(ws@) =~= w);
    let n = ws.len();
    let mut len: usize = 4;
    while len <= n / 3
        invariant
            n == ws.len(),
            views(ws@) == w,
            w == words(trim(text@)),
            t@ == trim(text@),
            4 <= len,
            forall|l2: int, s2: int| 4 <= l2 < len ==> !#[trigger] repeats_thrice(w, l2, s2),
        decreases n + 1 - len,
    {
        let mut start: usize = 0;
        while start <= n - len * 3
            invariant
                n == ws.len(),
                views(ws@) == w,
                w == words(trim(text@)),
                4 <= len <= n / 3,
                forall|l2: int, s2: int| 4 <= l2 < len ==> !#[trigger] repeats_thrice(w, l2, s2),
                forall|s2: int| 0 <= s2 < start ==> !#[trigger] repeats_thrice(w, len as int, s2),
            decreases n + 1 - start,
        {
            if phrase_eq(&ws, start, start + len, len) && phrase_eq(
                &ws,
                start + len,
                start + 2 * len,
                len,
            ) {
                assert(first_repeat(w, len as int, start as int));
                let mut cursor: usize = start + len * 3;
                while len <= n - cursor && phrase_eq(&ws, cursor, start, len)
                    invariant
                        n == ws.len(),
                        views(ws@) == w,
                        start + 3 * len <= cursor <= n,
                        len >= 4,
                        run_end(w, start as int, len as int, start + 3 * len) == run_end(
                            w,
                            start as int,
                            len as int,
                            cursor as int,
                        ),
                    decreases n - cursor,
                {
                    cursor = cursor + len;
                }
                let mut kept: Vec<Vec<char>> = Vec::new();
                copy_words(&ws, 0, start + len, &mut kept);
                copy_words(&ws, cursor, n, &mut kept);
                let sep = vec![' '];
                let joined = join_chars(&kept, &sep);
                proof {
                    assert(w.subrange(0, start + len) =~= w.take(start + len));
                    assert(w.subrange(cursor as int, n as int) =~= w.skip(cursor as int));
                    assert(views(kept@) =~= collapsed_words(w, len as int, start as int));
                    let (l0, s0) = choose|l0: int, s0: int| first_repeat(w, l0, s0);
                    lemma_first_repeat_unique(w, l0, s0, len as int, start as int);
                    assert(sep@ =~= seq![' ']);
                }
                return string_of(&joined);
            }
            start = start + 1;
        }
        len = len + 1;
    }
    proof {
        if exists|l0: int, s0: int| first_repeat(w, l0, s0) {
            let (l0, s0) = choose|l0: int, s0: int| first_repeat(w, l0, s0);
            assert(repeats_thrice(w, l0, s0));
        }
    }
    string_of(&t)
}

/// The segments whisper.cpp produced, one after the other.
pub open spec fn concat_all(segments: Seq<String>) -> Seq<char>
    decreases segments.len(),
{
    if segments.len() == 0 {
        Seq::empty()
    } else {
        concat_all(segments.drop_last()) + segments.last()@
    }
}

/// The transcript from whisper.cpp's segments: concatenated, trimmed, and
/// freed of repetition loops.
pub fn finish_transcript(segments: &[String]) -> (r: String)
    ensures
        r@ == collapse_spec(trim(concat_all(segments@))),
{
    let mut text = String::new();
    let mut i: usize = 0;
    while i < segments.len()
        invariant
            i <= segments.len(),
            text@ == concat_all(segments@.take(i as int)),
        decreases segments.len() - i,
    {
        assert(segments@.take(i + 1).drop_last() =~= segments@.take(i as int));
        text.append(segments[i].as_str());
        i = i + 1;
    }
    assert(segments@.take(segments.len() as int) =~= segments@);
    let v = chars_of(text.as_str());
    let t = trim_chars(&v);
    let trimmed = string_of(&t);
    collapse_repetitions(trimmed.as_str())
}

/// Language code passed to whisper.cpp; `None` lets it detect the language.
pub fn lang_code(l: &Language) -> (r: Option<&'static str>)
    ensures
        r matches Some(c) ==> c@ == local_lang_code(*l),
        r is None <==> *l == Language::Auto,
{
    match l {
        Language::De => {
            proof {
                reveal_strlit("de");
            }
            Some("de")
        },
        Language::En => {
            proof {
                reveal_strlit("en");
            }
            Some("en")
        },
        Language::Auto => None,
    }
}

/// The code of a fixed language as whisper.cpp expects it.
pub open spec fn local_lang_code(l: Language) -> Seq<char> {
    match l {
        Language::De => seq!['d', 'e'],
        Language::En => seq!['e', 'n'],
        Language::Auto => Seq::empty(),
    }
}


/// The initial prompt whisper.cpp is given: the vocabulary joined by `", "`,
/// or none when that text is empty.
pub fn initial_prompt(vocabulary: &[String]) -> (r: Option<String>)
    ensures
        match r {
            Some(p) => p@ == join(string_views(vocabulary@), ", "@) && p@.len() > 0,
            None => join(string_views(vocabulary@), ", "@).len() == 0,
        },
{
    let p = join_strings(vocabulary, ", ");
    if p.as_str().unicode_len() == 0 {
        None
    } else {
        Some(p)
    }
}

} // verus!
