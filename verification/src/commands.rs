//! What the settings window's commands decide: the vocabulary's text form,
//! the connection test of the remote server, and the health check of an LLM
//! provider. The keyring, file and network access of these commands is done
//! by the application.

use vstd::prelude::*;
use crate::config::{normalize_remote_url, normalized_url};
use crate::config::profile::is_blank;
use crate::config::provider::LlmProviderConfig;
use crate::text::{chars_of, is_ws, join, lemma_trim_props, trim_end, trim_start, join_strings, string_of, string_views, sub_chars, trim, trim_bounds};

verus! {

/// `s` cut at every `'\n'` (what `str::split('\n')` yields): always at least
/// one piece, the last one after the final separator.
pub open spec fn split_nl(s: Seq<char>) -> Seq<Seq<char>>
    decreases s.len(),
{
    if s.len() == 0 {
        seq![Seq::empty()]
    } else {
        let parts = split_nl(s.drop_last());
        if s.last() == '\n' {
            parts.push(Seq::empty())
        } else {
            parts.update(parts.len() - 1, parts.last().push(s.last()))
        }
    }
}

pub proof fn lemma_split_nl_nonempty(s: Seq<char>)
    ensures
        split_nl(s).len() >= 1,
    decreases s.len(),
{
    if s.len() > 0 {
        lemma_split_nl_nonempty(s.drop_last());
    }
}

/// Whether `s` holds no line break.
pub open spec fn no_nl(s: Seq<char>) -> bool {
    forall|m: int| 0 <= m < s.len() ==> #[trigger] s[m] != '\n'
}

/// Cutting at a line break splits the pieces of both sides apart.
pub proof fn lemma_split_nl_concat(x: Seq<char>, y: Seq<char>)
    ensures
        split_nl(x + seq!['\n'] + y) == split_nl(x) + split_nl(y),
    decreases y.len(),
{
    let z = x + seq!['\n'] + y;
    if y.len() == 0 {
        assert(z.drop_last() =~= x);
        assert(split_nl(x).push(Seq::empty()) =~= split_nl(x) + split_nl(y));
    } else {
        lemma_split_nl_concat(x, y.drop_last());
        assert(z.drop_last() =~= x + seq!['\n'] + y.drop_last());
        lemma_split_nl_nonempty(y.drop_last());
        let a = split_nl(x);
        let b = split_nl(y.drop_last());
        if y.last() == '\n' {
            assert((a + b).push(Seq::empty()) =~= a + b.push(Seq::empty()));
        } else {
            assert((a + b).update((a + b).len() - 1, (a + b).last().push(y.last())) =~= a
                + b.update(b.len() - 1, b.last().push(y.last())));
        }
    }
}

/// A text without line break is a single piece.
pub proof fn lemma_split_nl_single(w: Seq<char>)
    requires
        no_nl(w),
    ensures
        split_nl(w) == seq![w],
    decreases w.len(),
{
    if w.len() > 0 {
        assert(no_nl(w.drop_last())) by {
            assert forall|m: int| 0 <= m < w.drop_last().len() implies #[trigger] w.drop_last()[m]
                != '\n' by {
                assert(w.drop_last()[m] == w[m]);
            }
        }
        lemma_split_nl_single(w.drop_last());
        assert(w[w.len() - 1] != '\n');
        assert(w.drop_last().push(w.last()) =~= w);
        assert(seq![w.drop_last()].update(0, w.drop_last().push(w.last())) =~= seq![w]);
    } else {
        assert(w =~= Seq::<char>::empty());
    }
}

/// Lines joined by line breaks split back into the same lines.
pub proof fn lemma_split_nl_join(v: Seq<Seq<char>>)
    requires
        v.len() >= 1,
        forall|k: int| 0 <= k < v.len() ==> no_nl(#[trigger] v[k]),
    ensures
        split_nl(join(v, "\n"@)) == v,
    decreases v.len(),
{
    reveal_strlit("\n");
    assert("\n"@ =~= seq!['\n']);
    if v.len() == 1 {
        lemma_split_nl_single(v[0]);
        assert(seq![v[0]] =~= v);
    } else {
        let d = v.drop_last();
        assert forall|k: int| 0 <= k < d.len() implies no_nl(#[trigger] d[k]) by {
            assert(d[k] == v[k]);
        }
        lemma_split_nl_join(d);
        lemma_split_nl_concat(join(d, "\n"@), v.last());
        assert(no_nl(v[v.len() - 1]));
        lemma_split_nl_single(v.last());
        assert(d + seq![v.last()] =~= v);
    }
}

/// No piece of a split holds a line break.
pub proof fn lemma_split_nl_pieces(s: Seq<char>)
    ensures
        forall|k: int| 0 <= k < split_nl(s).len() ==> no_nl(#[trigger] split_nl(s)[k]),
    decreases s.len(),
{
    if s.len() > 0 {
        lemma_split_nl_pieces(s.drop_last());
        lemma_split_nl_nonempty(s.drop_last());
        let parts = split_nl(s.drop_last());
        if s.last() != '\n' {
            let last = parts.last().push(s.last());
            assert(no_nl(parts[parts.len() - 1]));
            assert forall|m: int| 0 <= m < last.len() implies #[trigger] last[m] != '\n' by {
                if m < last.len() - 1 {
                    assert(last[m] == parts[parts.len() - 1][m]);
                }
            }
            assert forall|k: int| 0 <= k < split_nl(s).len() implies no_nl(
                #[trigger] split_nl(s)[k],
            ) by {
                if k < parts.len() - 1 {
                    assert(split_nl(s)[k] == parts[k]);
                }
            }
        } else {
            assert forall|k: int| 0 <= k < split_nl(s).len() implies no_nl(
                #[trigger] split_nl(s)[k],
            ) by {
                if k < parts.len() {
                    assert(split_nl(s)[k] == parts[k]);
                }
            }
        }
    }
}

/// A line that is kept as it is by `nonblank_lines`: not empty, without line
/// break, and with non-whitespace at both ends.
pub open spec fn clean_line(l: Seq<char>) -> bool {
    &&& l.len() > 0
    &&& no_nl(l)
    &&& !is_ws(l[0])
    &&& !is_ws(l.last())
}

/// The pieces that `trimmed_nonblank` keeps are clean lines.
pub proof fn lemma_trimmed_nonblank_clean(parts: Seq<Seq<char>>)
    requires
        forall|k: int| 0 <= k < parts.len() ==> no_nl(#[trigger] parts[k]),
    ensures
        forall|k: int|
            0 <= k < trimmed_nonblank(parts).len() ==> clean_line(
                #[trigger] trimmed_nonblank(parts)[k],
            ),
    decreases parts.len(),
{
    if parts.len() > 0 {
        let d = parts.drop_last();
        assert forall|k: int| 0 <= k < d.len() implies no_nl(#[trigger] d[k]) by {
            assert(d[k] == parts[k]);
        }
        lemma_trimmed_nonblank_clean(d);
        let p = parts.last();
        assert(no_nl(parts[parts.len() - 1]));
        lemma_trim_props(p);
        let t = trim(p);
        let (i, j) = choose|i: int, j: int| 0 <= i <= j <= p.len() && trim(p) == p.subrange(i, j);
        assert forall|m: int| 0 <= m < t.len() implies #[trigger] t[m] != '\n' by {
            assert(t[m] == p[i + m]);
        }
        let r = trimmed_nonblank(d);
        assert forall|k: int| 0 <= k < trimmed_nonblank(parts).len() implies clean_line(
            #[trigger] trimmed_nonblank(parts)[k],
        ) by {
            if k < r.len() {
                assert(trimmed_nonblank(parts)[k] == r[k]);
            }
        }
    }
}

/// Clean lines all pass `nonblank_terminated` unchanged.
proof fn lemma_nonblank_terminated_clean(v: Seq<Seq<char>>)
    requires
        forall|k: int| 0 <= k < v.len() ==> clean_line(#[trigger] v[k]),
    ensures
        nonblank_terminated(v) == v,
    decreases v.len(),
{
    if v.len() > 0 {
        let d = v.drop_last();
        assert forall|k: int| 0 <= k < d.len() implies clean_line(#[trigger] d[k]) by {
            assert(d[k] == v[k]);
        }
        lemma_nonblank_terminated_clean(d);
        let l = v.last();
        assert(clean_line(v[v.len() - 1]));
        assert(strip_cr(l) == l);
        assert(trim_start(l) == l);
        assert(trim_end(l) == l);
        assert(d.push(l) =~= v);
    }
}

/// Clean lines all pass `nonblank_lines` unchanged.
pub proof fn lemma_nonblank_lines_clean(v: Seq<Seq<char>>)
    requires
        forall|k: int| 0 <= k < v.len() ==> clean_line(#[trigger] v[k]),
    ensures
        nonblank_lines(v) == v,
{
    if v.len() > 0 {
        let d = v.drop_last();
        assert forall|k: int| 0 <= k < d.len() implies clean_line(#[trigger] d[k]) by {
            assert(d[k] == v[k]);
        }
        lemma_nonblank_terminated_clean(d);
        let l = v.last();
        assert(clean_line(v[v.len() - 1]));
        assert(trim_start(l) == l);
        assert(trim_end(l) == l);
        assert(d.push(l) =~= v);
    }
}

/// What is saved is what is loaded: the vocabulary parsed from the settings
/// window, written as one term per line and read back at the next start,
/// comes back unchanged.
pub proof fn lemma_vocabulary_round_trip(text: Seq<char>)
    ensures
        nonblank_lines(split_nl(join(trimmed_nonblank(split_nl(text)), "\n"@)))
            == trimmed_nonblank(split_nl(text)),
{
    let v = trimmed_nonblank(split_nl(text));
    lemma_split_nl_pieces(text);
    lemma_trimmed_nonblank_clean(split_nl(text));
    if v.len() == 0 {
        assert(join(v, "\n"@) =~= Seq::<char>::empty());
        assert(split_nl(Seq::<char>::empty()) =~= seq![Seq::<char>::empty()]);
        assert(nonblank_lines(seq![Seq::<char>::empty()]) =~= Seq::<Seq<char>>::empty()) by {
            assert(seq![Seq::<char>::empty()].drop_last() =~= Seq::<Seq<char>>::empty());
            assert(trim_start(Seq::<char>::empty()) =~= Seq::<char>::empty());
            assert(trim_end(Seq::<char>::empty()) =~= Seq::<char>::empty());
            let one = seq![Seq::<char>::empty()];
            assert(one.last() == Seq::<char>::empty());
            assert(nonblank_terminated(one.drop_last()) == Seq::<Seq<char>>::empty());
        }
    } else {
        assert forall|k: int| 0 <= k < v.len() implies no_nl(#[trigger] v[k]) by {
            assert(clean_line(v[k]));
        }
        lemma_split_nl_join(v);
        lemma_nonblank_lines_clean(v);
    }
}

/// The pieces trimmed, blank ones left out.
pub open spec fn trimmed_nonblank(parts: Seq<Seq<char>>) -> Seq<Seq<char>>
    decreases parts.len(),
{
    if parts.len() == 0 {
        Seq::empty()
    } else {
        let r = trimmed_nonblank(parts.drop_last());
        let t = trim(parts.last());
        if t.len() == 0 {
            r
        } else {
            r.push(t)
        }
    }
}

/// A line without the `'\r'` that ends it, if any.
pub open spec fn strip_cr(l: Seq<char>) -> Seq<char> {
    if l.len() > 0 && l.last() == '\r' {
        l.drop_last()
    } else {
        l
    }
}

/// Lines that each ended in a `'\n'`: without the `'\r'` before it, if any,
/// blank ones left out, others kept as they are.
pub open spec fn nonblank_terminated(parts: Seq<Seq<char>>) -> Seq<Seq<char>>
    decreases parts.len(),
{
    if parts.len() == 0 {
        Seq::empty()
    } else {
        let r = nonblank_terminated(parts.drop_last());
        let l = strip_cr(parts.last());
        if trim(l).len() == 0 {
            r
        } else {
            r.push(l)
        }
    }
}

/// The lines of a text cut at `'\n'` (what `str::lines` yields), blank ones
/// left out, others kept as they are: a line ended by `"\r\n"` loses the
/// `'\r'`; the last piece, which no line break ends, keeps it.
pub open spec fn nonblank_lines(parts: Seq<Seq<char>>) -> Seq<Seq<char>> {
    if parts.len() == 0 {
        Seq::empty()
    } else {
        let r = nonblank_terminated(parts.drop_last());
        let l = parts.last();
        if trim(l).len() == 0 {
            r
        } else {
            r.push(l)
        }
    }
}

/// Which of the two line treatments a vocabulary text gets.
spec fn line_result(keep_untrimmed: bool, parts: Seq<Seq<char>>) -> Seq<Seq<char>> {
    if keep_untrimmed {
        nonblank_lines(parts)
    } else {
        trimmed_nonblank(parts)
    }
}

/// The line treatment of the lines finished so far, each ended by `'\n'`.
spec fn done_result(keep_untrimmed: bool, parts: Seq<Seq<char>>) -> Seq<Seq<char>> {
    if keep_untrimmed {
        nonblank_terminated(parts)
    } else {
        trimmed_nonblank(parts)
    }
}

/// Adds one finished line to the result; `terminated` says whether a
/// `'\n'` ended it.
fn finish_line(out: &mut Vec<String>, line: &Vec<char>, keep_untrimmed: bool, terminated: bool)
    ensures
        string_views(final(out)@) == (if keep_untrimmed {
            let l = if terminated {
                strip_cr(line@)
            } else {
                line@
            };
            if trim(l).len() == 0 {
                string_views(old(out)@)
            } else {
                string_views(old(out)@).push(l)
            }
        } else {
            if trim(line@).len() == 0 {
                string_views(old(out)@)
            } else {
                string_views(old(out)@).push(trim(line@))
            }
        }),
{
    let ghost before = out@;
    let strip = keep_untrimmed && terminated;
    let l = if strip && line.len() > 0 && line[line.len() - 1] == '\r' {
        sub_chars(line, 0, line.len() - 1)
    } else {
        sub_chars(line, 0, line.len())
    };
    assert(line@.subrange(0, line@.len() as int) =~= line@);
    assert(l@ == (if strip { strip_cr(line@) } else { line@ })) by {
        if strip && line@.len() > 0 && line@.last() == '\r' {
            assert(line@.drop_last() =~= line@.subrange(0, line@.len() - 1));
        }
    }
    let (a, b) = trim_bounds(&l);
    if a == b {
        return;
    }
    if keep_untrimmed {
        out.push(string_of(&l));
    } else {
        let t = sub_chars(&l, a, b);
        out.push(string_of(&t));
    }
    assert(string_views(out@) =~= string_views(before).push(out@.last()@));
}

/// Splits a text into lines and keeps the non-blank ones, trimmed or not.
fn vocabulary_lines(text: &str, keep_untrimmed: bool) -> (r: Vec<String>)
    ensures
        string_views(r@) == line_result(keep_untrimmed, split_nl(text@)),
{
    let v = chars_of(text);
    let mut out: Vec<String> = Vec::new();
    let mut cur: Vec<char> = Vec::new();
    let ghost mut done: Seq<Seq<char>> = Seq::empty();
    let mut i: usize = 0;
    assert(v@.take(0) =~= Seq::<char>::empty());
    while i < v.len()
        invariant
            i <= v.len(),
            v@ == text@,
            split_nl(v@.take(i as int)) == done.push(cur@),
            string_views(out@) == done_result(keep_untrimmed, done),
        decreases v.len() - i,
    {
        assert(v@.take(i + 1).drop_last() =~= v@.take(i as int));
        proof {
            lemma_split_nl_nonempty(v@.take(i as int));
        }
        if v[i] == '\n' {
            finish_line(&mut out, &cur, keep_untrimmed, true);
            proof {
                assert(done.push(cur@).drop_last() =~= done);
                done = done.push(cur@);
            }
            cur = Vec::new();
            assert(split_nl(v@.take(i + 1)) =~= done.push(cur@));
        } else {
            let ghost old_cur = cur@;
            cur.push(v[i]);
            assert(split_nl(v@.take(i + 1)) =~= done.push(cur@)) by {
                assert(done.push(old_cur).update(done.len() as int, old_cur.push(v@[i as int]))
                    =~= done.push(cur@));
            }
        }
        i = i + 1;
    }
    finish_line(&mut out, &cur, keep_untrimmed, false);
    assert(v@.take(v.len() as int) =~= v@);
    assert(done.push(cur@).drop_last() =~= done);
    out
}

/// The vocabulary as the settings window saves it: one term per line, each
/// trimmed, blank lines left out.
pub fn parse_vocabulary(text: &str) -> (r: Vec<String>)
    ensures
        string_views(r@) == trimmed_nonblank(split_nl(text@)),
{
    vocabulary_lines(text, false)
}

/// The vocabulary as it is read from its file at start-up: the non-blank
/// lines, each without the `'\r'` of a `"\r\n"` ending but otherwise as
/// written.
pub fn load_vocabulary(text: &str) -> (r: Vec<String>)
    ensures
        string_views(r@) == nonblank_lines(split_nl(text@)),
{
    vocabulary_lines(text, true)
}

/// The vocabulary as one text, one term per line.
pub fn vocabulary_text(vocabulary: &[String]) -> (r: String)
    ensures
        r@ == join(string_views(vocabulary@), "\n"@),
{
    join_strings(vocabulary, "\n")
}

/// Message when the connection test gets no address.
pub const NO_URL: &'static str = "Keine URL angegeben.";

/// The base address the connection test probes: the normalised address, or
/// an error when only whitespace was entered.
pub fn remote_test_base(url: &str) -> (r: Result<String, String>)
    ensures
        match r {
            Ok(b) => trim(url@).len() != 0 && b@ == normalized_url(url@),
            Err(m) => trim(url@).len() == 0 && m@ == NO_URL@,
        },
{
    let v = chars_of(url);
    let (a, b) = trim_bounds(&v);
    if a == b {
        return Err(NO_URL.to_owned());
    }
    Ok(normalize_remote_url(url))
}

/// Where the connection test takes the Cloudflare Access secret from.
#[derive(Clone, Copy, Debug, PartialEq, Eq, Structural)]
pub enum CfSecretSource {
    /// The secret entered in the form.
    Given,
    /// The secret stored in the keyring (the form's field was left empty
    /// while a client id is set).
    Keyring,
    /// No secret.
    Empty,
}

/// Picks the source of the Cloudflare Access secret for the connection test.
pub fn cf_secret_source(given: &Option<String>, cf_id: &str) -> (r: CfSecretSource)
    ensures
        r == (if given is Some && given->0@.len() != 0 {
            CfSecretSource::Given
        } else if cf_id@.len() != 0 {
            CfSecretSource::Keyring
        } else {
            CfSecretSource::Empty
        }),
{
    match given {
        Some(s) => {
            if s.as_str().unicode_len() != 0 {
                return CfSecretSource::Given;
            }
        },
        None => {},
    }
    if cf_id.unicode_len() != 0 {
        CfSecretSource::Keyring
    } else {
        CfSecretSource::Empty
    }
}

/// The reply of a successful connection test, listing the server's models.
pub open spec fn models_summary_spec(ids: Seq<String>) -> Seq<char> {
    if ids.len() == 0 {
        "Erreichbar, aber keine Modelle gelistet."@
    } else {
        "Erreichbar. Modelle: "@ + join(string_views(ids), ", "@)
    }
}

/// Reports a reachable server with the models it lists.
pub fn models_summary(ids: &[String]) -> (r: String)
    ensures
        r@ == models_summary_spec(ids@),
{
    if ids.len() == 0 {
        return "Erreichbar, aber keine Modelle gelistet.".to_owned();
    }
    let mut r = "Erreichbar. Modelle: ".to_owned();
    let joined = join_strings(ids, ", ");
    r.append(joined.as_str());
    r
}

/// How the probe request of the connection test failed.
#[derive(Clone, Copy, Debug, PartialEq, Eq, Structural)]
pub enum ProbeFailure {
    /// No answer within the timeout.
    Timeout,
    /// The connection was refused or the host is unknown.
    Connect,
    /// Any other network error.
    Other,
}

/// The message of a failed probe; `detail` is the network error's text.
pub open spec fn probe_failure_spec(kind: ProbeFailure, base: Seq<char>, detail: Seq<char>) -> Seq<
    char,
> {
    match kind {
        ProbeFailure::Timeout => "Timeout nach 3 s — Server nicht erreichbar unter "@ + base + "."@,
        ProbeFailure::Connect => "Verbindung abgelehnt oder Host nicht auflösbar: "@ + base + "."@,
        ProbeFailure::Other => "Netzwerkfehler: "@ + detail,
    }
}

/// Explains a failed probe to the user.
pub fn probe_failure_message(kind: ProbeFailure, base: &str, detail: &str) -> (r: String)
    ensures
        r@ == probe_failure_spec(kind, base@, detail@),
{
    match kind {
        ProbeFailure::Timeout => {
            let mut r = "Timeout nach 3 s — Server nicht erreichbar unter ".to_owned();
            r.append(base);
            r.append(".");
            r
        },
        ProbeFailure::Connect => {
            let mut r = "Verbindung abgelehnt oder Host nicht auflösbar: ".to_owned();
            r.append(base);
            r.append(".");
            r
        },
        ProbeFailure::Other => {
            let mut r = "Netzwerkfehler: ".to_owned();
            r.append(detail);
            r
        },
    }
}

/// Explains an unsuccessful HTTP status of the probe; `status` is the
/// status as text.
pub fn probe_status_message(status: &str) -> (r: String)
    ensures
        r@ == "Server antwortet mit HTTP "@ + status@
            + " auf /v1/models — kein OpenAI-kompatibler Whisper-Server?"@,
{
    let mut r = "Server antwortet mit HTTP ".to_owned();
    r.append(status);
    r.append(" auf /v1/models — kein OpenAI-kompatibler Whisper-Server?");
    r
}

/// Explains a probe reply that is not valid JSON; `detail` is the parse
/// error's text.
pub fn invalid_json_message(detail: &str) -> (r: String)
    ensures
        r@ == "Antwort ist kein gültiges JSON: "@ + detail@,
{
    let mut r = "Antwort ist kein gültiges JSON: ".to_owned();
    r.append(detail);
    r
}

/// System prompt of the provider health check.
pub const HEALTHCHECK_SYSTEM: &'static str = "You are a healthcheck. Reply with a single word: ok";

/// User message of the provider health check.
pub const HEALTHCHECK_USER: &'static str = "ping";

/// Message when the provider to check is not configured.
pub const PROVIDER_NOT_FOUND: &'static str = "Provider nicht in Konfiguration gefunden";

/// Message when the provider to check has no default model.
pub const NO_DEFAULT_MODEL: &'static str = "Kein Default-Modell gesetzt";

/// The position of the first provider with the given id.
pub fn find_provider(providers: &[LlmProviderConfig], id: u128) -> (r: Option<usize>)
    ensures
        match r {
            Some(i) => i < providers@.len() && providers@[i as int].id == id && forall|j: int|
                0 <= j < i ==> (#[trigger] providers@[j]).id != id,
            None => forall|j: int| 0 <= j < providers@.len() ==> (#[trigger] providers@[j]).id != id,
        },
{
    let mut i: usize = 0;
    while i < providers.len()
        invariant
            i <= providers.len(),
            forall|j: int| 0 <= j < i ==> (#[trigger] providers@[j]).id != id,
        decreases providers.len() - i,
    {
        if providers[i].id == id {
            return Some(i);
        }
        i = i + 1;
    }
    None
}

/// The model of the health check: the provider's default model, or an error
/// when it is blank.
pub fn healthcheck_model(p: &LlmProviderConfig) -> (r: Result<String, String>)
    ensures
        match r {
            Ok(m) => trim(p.default_model@).len() != 0 && m == p.default_model,
            Err(e) => trim(p.default_model@).len() == 0 && e@ == NO_DEFAULT_MODEL@,
        },
{
    if is_blank(&p.default_model) {
        return Err(NO_DEFAULT_MODEL.to_owned());
    }
    Ok(p.default_model.clone())
}

/// Message when the provider to check has no stored API key; `detail` is
/// the keyring error's text.
pub fn missing_key_message(detail: &str) -> (r: String)
    ensures
        r@ == "Kein API-Key gespeichert ("@ + detail@ + ")"@,
{
    let mut r = "Kein API-Key gespeichert (".to_owned();
    r.append(detail);
    r.append(")");
    r
}

/// Longest reply of the health check that is shown, in characters.
pub const REPLY_LIMIT: usize = 200;

/// The health check's reply as it is shown: trimmed, at most 200 characters.
pub fn shorten_reply(reply: &str) -> (r: String)
    ensures
        r@ == (if trim(reply@).len() <= REPLY_LIMIT {
            trim(reply@)
        } else {
            trim(reply@).take(REPLY_LIMIT as int)
        }),
{
    let v = chars_of(reply);
    let (a, b) = trim_bounds(&v);
    let end: usize = if b - a <= REPLY_LIMIT {
        b
    } else {
        assert(v@.subrange(a as int, b as int).take(REPLY_LIMIT as int) =~= v@.subrange(
            a as int,
            (a + REPLY_LIMIT) as int,
        ));
        a + REPLY_LIMIT
    };
    let t = sub_chars(&v, a, end);
    string_of(&t)
}

} // verus!
