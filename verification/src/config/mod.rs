//! Application configuration, its defaults, and normalisation of the
//! remote server address.

pub mod profile;
pub mod provider;
pub mod text_block;

use vstd::prelude::*;
use crate::text::{chars_of, string_of, trim, trim_chars, trim_end_char};
use self::profile::Profile;
use self::provider::LlmProviderConfig;

verus! {

/// The whole configuration file.
#[derive(Clone, Debug)]
pub struct AppConfig {
    pub profiles: Vec<Profile>,
    pub providers: Vec<LlmProviderConfig>,
    pub general: General,
}

/// Settings that apply to every profile.
#[derive(Clone, Debug)]
pub struct General {
    pub autostart: bool,
    pub sounds: bool,
    pub overlay: bool,
    pub max_recording_seconds: u32,
    pub history_limit: u32,
    pub mic_device: Option<String>,
    pub remote_whisper_url: String,
    /// Cloudflare Access service-token client id; empty means no Cloudflare
    /// Access headers are sent. The matching secret lives in the OS keyring.
    pub cf_access_client_id: String,
    pub show_tooltips: bool,
    pub check_updates: bool,
}

/// Address of the remote Whisper server when none is configured.
pub fn default_remote_whisper_url() -> (r: String)
    ensures
        r@ == "http://192.168.178.43:8000"@,
{
    "http://192.168.178.43:8000".to_owned()
}

/// Default of the boolean settings that are on unless switched off.
pub fn default_true() -> (r: bool)
    ensures
        r,
{
    true
}

/// The defaults of `General`.
pub open spec fn general_is_default(g: General) -> bool {
    &&& !g.autostart
    &&& g.sounds
    &&& g.overlay
    &&& g.max_recording_seconds == 120
    &&& g.history_limit == 100
    &&& g.mic_device is None
    &&& g.remote_whisper_url@ == "http://192.168.178.43:8000"@
    &&& g.cf_access_client_id@ == Seq::<char>::empty()
    &&& g.show_tooltips
    &&& g.check_updates
}

impl Default for General {
    fn default() -> (r: General)
        ensures
            general_is_default(r),
    {
        General {
            autostart: false,
            sounds: true,
            overlay: true,
            max_recording_seconds: 120,
            history_limit: 100,
            mic_device: None,
            remote_whisper_url: default_remote_whisper_url(),
            cf_access_client_id: String::new(),
            show_tooltips: default_true(),
            check_updates: default_true(),
        }
    }
}

impl Default for AppConfig {
    fn default() -> (r: AppConfig)
        ensures
            r.profiles@.len() == 0,
            r.providers@.len() == 0,
            general_is_default(r.general),
    {
        AppConfig { profiles: Vec::new(), providers: Vec::new(), general: General::default() }
    }
}

/// Whether `s` begins with `p`.
pub fn starts_with_chars(s: &Vec<char>, p: &Vec<char>) -> (r: bool)
    ensures
        r == p@.is_prefix_of(s@),
{
    if p.len() > s.len() {
        return false;
    }
    let mut i: usize = 0;
    while i < p.len()
        invariant
            p.len() <= s.len(),
            i <= p.len(),
            forall|m: int| 0 <= m < i ==> #[trigger] p@[m] == s@[m],
        decreases p.len() - i,
    {
        if p[i] != s[i] {
            assert(p@[i as int] != s@.subrange(0, p.len() as int)[i as int]);
            return false;
        }
        i = i + 1;
    }
    assert(p@ =~= s@.subrange(0, p.len() as int));
    true
}

/// `v` without its trailing copies of `c`.
pub fn trim_end_char_chars(v: &Vec<char>, c: char) -> (r: Vec<char>)
    ensures
        r@ == trim_end_char(v@, c),
{
    let mut j: usize = v.len();
    assert(v@.subrange(0, j as int) =~= v@);
    while j > 0 && v[j - 1] == c
        invariant
            j <= v.len(),
            trim_end_char(v@, c) == trim_end_char(v@.subrange(0, j as int), c),
        decreases j,
    {
        assert(v@.subrange(0, j as int).drop_last() =~= v@.subrange(0, j - 1));
        j = j - 1;
    }
    let r = crate::text::sub_chars(v, 0, j);
    r
}

/// A server address as the user typed it, with a scheme ensured: whitespace
/// trimmed, trailing slashes removed, and `https://` put in front unless it
/// already starts with `http://` or `https://`.
pub open spec fn normalized_url(url: Seq<char>) -> Seq<char> {
    let t = trim_end_char(trim(url), '/');
    if "http://"@.is_prefix_of(t) || "https://"@.is_prefix_of(t) {
        t
    } else {
        "https://"@ + t
    }
}

/// Ensures a user-entered server address has a scheme. Bare host names get
/// `https://`; plain `http://` is kept only where the user typed it.
pub fn normalize_remote_url(url: &str) -> (r: String)
    ensures
        r@ == normalized_url(url@),
{
    let v = chars_of(url);
    let t0 = trim_chars(&v);
    let t = trim_end_char_chars(&t0, '/');
    let http = chars_of("http://");
    let https = chars_of("https://");
    if starts_with_chars(&t, &http) || starts_with_chars(&t, &https) {
        string_of(&t)
    } else {
        let mut out = https;
        crate::text::extend_chars(&mut out, &t);
        string_of(&out)
    }
}

/// A normalised address always carries a scheme: it starts with `http://`
/// or `https://`.
pub proof fn lemma_normalized_has_scheme(url: Seq<char>)
    ensures
        "http://"@.is_prefix_of(normalized_url(url)) || "https://"@.is_prefix_of(
            normalized_url(url),
        ),
{
    let t = trim_end_char(trim(url), '/');
    if !("http://"@.is_prefix_of(t) || "https://"@.is_prefix_of(t)) {
        let r = "https://"@ + t;
        assert("https://"@ =~= r.subrange(0, "https://"@.len() as int));
    }
}


/// `trim_end_char` keeps a prefix, drops only `c`s, and leaves no `c` at the
/// end.
proof fn lemma_trim_end_char_props(s: Seq<char>, c: char)
    ensures
        trim_end_char(s, c).len() <= s.len(),
        trim_end_char(s, c) == s.take(trim_end_char(s, c).len() as int),
        forall|i: int| trim_end_char(s, c).len() <= i < s.len() ==> #[trigger] s[i] == c,
        trim_end_char(s, c).len() == 0 || trim_end_char(s, c).last() != c,
    decreases s.len(),
{
    if s.len() > 0 && s.last() == c {
        lemma_trim_end_char_props(s.drop_last(), c);
        let r = trim_end_char(s.drop_last(), c);
        assert(s.drop_last().take(r.len() as int) =~= s.take(r.len() as int));
        assert forall|i: int| r.len() <= i < s.len() implies #[trigger] s[i] == c by {
            if i < s.len() - 1 {
                assert(s[i] == s.drop_last()[i]);
            }
        }
    } else {
        assert(s.take(s.len() as int) =~= s);
    }
}

/// How a server address is normalised, character by character. Let `t` be
/// the address with surrounding whitespace trimmed and `u` the part of `t`
/// before its trailing slashes (the prefix of `t` that is followed only by
/// `'/'` and does not itself end in one). The result is `u` when `u` starts
/// with `http://` or `https://`, and `https://` followed by `u` otherwise:
/// a bare host gets `https`, never `http`.
pub proof fn lemma_normalize_is_scheme_and_host(url: Seq<char>, u: Seq<char>)
    requires
        u.len() <= trim(url).len(),
        u == trim(url).take(u.len() as int),
        forall|i: int| u.len() <= i < trim(url).len() ==> #[trigger] trim(url)[i] == '/',
        u.len() == 0 || u.last() != '/',
    ensures
        normalized_url(url) == if seq!['h', 't', 't', 'p', ':', '/', '/'].is_prefix_of(u) || seq![
            'h',
            't',
            't',
            'p',
            's',
            ':',
            '/',
            '/',
        ].is_prefix_of(u) {
            u
        } else {
            seq!['h', 't', 't', 'p', 's', ':', '/', '/'] + u
        },
{
    reveal_strlit("http://");
    reveal_strlit("https://");
    let t = trim(url);
    lemma_trim_end_char_props(t, '/');
    let r = trim_end_char(t, '/');
    if u.len() < r.len() {
        assert(t[r.len() - 1] == '/');
        assert(r.last() == t[r.len() - 1]);
    } else if r.len() < u.len() {
        assert(t[u.len() - 1] == '/');
        assert(u.last() == t[u.len() - 1]);
    }
    assert(u =~= r);
    assert("http://"@ =~= seq!['h', 't', 't', 'p', ':', '/', '/']);
    assert("https://"@ =~= seq!['h', 't', 't', 'p', 's', ':', '/', '/']);
}

} // verus!
