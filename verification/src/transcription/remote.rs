//! The remote Whisper server backend: OpenAI-compatible
//! `/v1/audio/transcriptions`, optionally behind Cloudflare Access.

use vstd::prelude::*;
use crate::config::profile::Language;
use crate::text::{join, join_strings, string_views};

verus! {

/// Connection settings of the remote Whisper server.
pub struct RemoteWhisperConfig {
    pub base_url: String,
    pub bearer_token: String,
    pub cf_access_client_id: String,
    pub cf_access_client_secret: String,
}

/// Code of the language sent to the server; `auto` lets the server detect it.
pub open spec fn remote_lang_code(l: Language) -> Seq<char> {
    match l {
        Language::De => "de"@,
        Language::En => "en"@,
        Language::Auto => "auto"@,
    }
}

/// The language code for the server.
pub fn lang_code(l: &Language) -> (r: &'static str)
    ensures
        r@ == remote_lang_code(*l),
{
    match l {
        Language::De => "de",
        Language::En => "en",
        Language::Auto => "auto",
    }
}

/// The text fields of the upload form besides the audio file: the model, the
/// response format, the language unless it is `Auto`, and the vocabulary as
/// prompt when there is any.
pub open spec fn form_fields_spec(l: Language, vocabulary: Seq<String>) -> Seq<(Seq<char>, Seq<char>)> {
    let base = seq![("model"@, "whisper-1"@), ("response_format"@, "json"@)];
    let with_lang = if l == Language::Auto {
        base
    } else {
        base.push(("language"@, remote_lang_code(l)))
    };
    if vocabulary.len() == 0 {
        with_lang
    } else {
        with_lang.push(("prompt"@, join(string_views(vocabulary), ", "@)))
    }
}

/// The form fields as character sequences.
pub open spec fn field_views(v: Seq<(String, String)>) -> Seq<(Seq<char>, Seq<char>)> {
    v.map_values(|f: (String, String)| (f.0@, f.1@))
}

/// Builds the text fields of the upload form.
pub fn form_fields(language: &Language, vocabulary: &[String]) -> (r: Vec<(String, String)>)
    ensures
        field_views(r@) == form_fields_spec(*language, vocabulary@),
{
    let mut r: Vec<(String, String)> = Vec::new();
    r.push(("model".to_owned(), "whisper-1".to_owned()));
    r.push(("response_format".to_owned(), "json".to_owned()));
    let lang = lang_code(language);
    if *language != Language::Auto {
        r.push(("language".to_owned(), lang.to_owned()));
    }
    if vocabulary.len() != 0 {
        r.push(("prompt".to_owned(), join_strings(vocabulary, ", ")));
    }
    assert(field_views(r@) =~= form_fields_spec(*language, vocabulary@));
    r
}

impl RemoteWhisperConfig {
    /// Settings without Cloudflare Access credentials.
    pub fn new(base_url: String, bearer_token: String) -> (r: Self)
        ensures
            r.base_url == base_url,
            r.bearer_token == bearer_token,
            r.cf_access_client_id@ == Seq::<char>::empty(),
            r.cf_access_client_secret@ == Seq::<char>::empty(),
    {
        Self::with_cf_access(base_url, bearer_token, String::new(), String::new())
    }

    /// Settings with Cloudflare Access credentials.
    pub fn with_cf_access(
        base_url: String,
        bearer_token: String,
        cf_access_client_id: String,
        cf_access_client_secret: String,
    ) -> (r: Self)
        ensures
            r.base_url == base_url,
            r.bearer_token == bearer_token,
            r.cf_access_client_id == cf_access_client_id,
            r.cf_access_client_secret == cf_access_client_secret,
    {
        RemoteWhisperConfig { base_url, bearer_token, cf_access_client_id, cf_access_client_secret }
    }

    /// The Cloudflare Access headers (client id, then secret), sent only when
    /// both are set.
    pub fn cf_headers(&self) -> (r: Option<(String, String)>)
        ensures
            r is Some <==> (self.cf_access_client_id@.len() != 0
                && self.cf_access_client_secret@.len() != 0),
            r matches Some(h) ==> h.0@ == self.cf_access_client_id@ && h.1@
                == self.cf_access_client_secret@,
    {
        if self.cf_access_client_id.as_str().unicode_len() != 0
            && self.cf_access_client_secret.as_str().unicode_len() != 0 {
            Some((self.cf_access_client_id.clone(), self.cf_access_client_secret.clone()))
        } else {
            None
        }
    }

    /// The bearer token, sent only when it is set.
    pub fn bearer(&self) -> (r: Option<String>)
        ensures
            r is Some <==> self.bearer_token@.len() != 0,
            r matches Some(t) ==> t@ == self.bearer_token@,
    {
        if self.bearer_token.as_str().unicode_len() != 0 {
            Some(self.bearer_token.clone())
        } else {
            None
        }
    }

    /// Address of the model list used as availability probe.
    pub fn models_url(&self) -> (r: String)
        ensures
            r@ == self.base_url@ + "/v1/models"@,
    {
        let mut r = self.base_url.clone();
        r.append("/v1/models");
        r
    }

    /// Address of the transcription endpoint.
    pub fn transcriptions_url(&self) -> (r: String)
        ensures
            r@ == self.base_url@ + "/v1/audio/transcriptions"@,
    {
        let mut r = self.base_url.clone();
        r.append("/v1/audio/transcriptions");
        r
    }
}


/// German is sent as `de`, English as `en` and automatic detection as
/// `auto` (ISO 639-1 codes, as the Whisper API takes them); the local model
/// gets the same codes for the two fixed languages. The upload form names
/// the language exactly when it is fixed, and carries the vocabulary as
/// prompt exactly when there is any.
pub proof fn lemma_language_codes(l: Language, vocabulary: Seq<String>)
    ensures
        remote_lang_code(Language::De) == seq!['d', 'e'],
        remote_lang_code(Language::En) == seq!['e', 'n'],
        remote_lang_code(Language::Auto) == seq!['a', 'u', 't', 'o'],
        l != Language::Auto ==> crate::transcription::local::local_lang_code(l) == remote_lang_code(l),
        form_fields_spec(l, vocabulary).len() == 2 + (if l == Language::Auto {
            0int
        } else {
            1int
        }) + (if vocabulary.len() == 0 {
            0int
        } else {
            1int
        }),
        l != Language::Auto ==> form_fields_spec(l, vocabulary)[2] == ("language"@, remote_lang_code(l)),
        vocabulary.len() > 0 ==> form_fields_spec(l, vocabulary).last() == (
            "prompt"@,
            join(string_views(vocabulary), ", "@),
        ),
{
    reveal_strlit("de");
    reveal_strlit("en");
    reveal_strlit("auto");
}

} // verus!
