//! Transcription through a chat-completion LLM with audio input: the audio is
//! sent base64-encoded as an `input_audio` part next to the instructions.

use vstd::prelude::*;
use base64::Engine;
use crate::config::profile::Language;
use crate::error::{AppError, ErrorKind};
use crate::text::{chars_of, join, join_strings, string_of, string_views, trim, trim_chars};

verus! {

/// Character of the standard base64 alphabet for a 6-bit value.
pub open spec fn b64_char(n: int) -> char {
    if n < 26 {
        ((n + 'A' as int) as u32) as char
    } else if n < 52 {
        ((n - 26 + 'a' as int) as u32) as char
    } else if n < 62 {
        ((n - 52 + '0' as int) as u32) as char
    } else if n == 62 {
        '+'
    } else {
        '/'
    }
}

/// Standard base64 (RFC 4648 alphabet, `=` padding) of `s`: each group of
/// three bytes becomes four characters; a final group of one or two bytes is
/// padded to four characters.
pub open spec fn base64_standard(s: Seq<u8>) -> Seq<char>
    decreases s.len(),
{
    if s.len() == 0 {
        Seq::empty()
    } else {
        let a = s[0] as int;
        if s.len() == 1 {
            seq![b64_char(a / 4), b64_char((a % 4) * 16), '=', '=']
        } else {
            let b = s[1] as int;
            if s.len() == 2 {
                seq![b64_char(a / 4), b64_char((a % 4) * 16 + b / 16), b64_char((b % 16) * 4), '=']
            } else {
                let c = s[2] as int;
                seq![
                    b64_char(a / 4),
                    b64_char((a % 4) * 16 + b / 16),
                    b64_char((b % 16) * 4 + c / 64),
                    b64_char(c % 64),
                ] + base64_standard(s.skip(3))
            }
        }
    }
}

/// `base64::engine::general_purpose::STANDARD.encode`: standard alphabet with
/// padding. It panics when the encoded length overflows `usize`, hence the
/// bound on the input.
#[verifier::external_body]
fn base64_encode(data: &[u8]) -> (r: String)
    requires
        data@.len() <= 3 * (usize::MAX / 4),
    ensures
        r@ == base64_standard(data@),
{
    base64::engine::general_purpose::STANDARD.encode(data)
}

/// The audio as it is embedded in the request.
pub fn audio_payload(wav: &[u8]) -> (r: String)
    requires
        wav@.len() <= 3 * (usize::MAX / 4),
    ensures
        r@ == base64_standard(wav@),
{
    base64_encode(wav)
}

/// How the instructions name the language to transcribe into.
pub open spec fn language_hint_spec(l: Language) -> Seq<char> {
    match l {
        Language::De => "Deutsch"@,
        Language::En => "English"@,
        Language::Auto => "der gesprochenen Sprache"@,
    }
}

/// The language as the instructions name it.
pub fn language_hint(l: &Language) -> (r: &'static str)
    ensures
        r@ == language_hint_spec(*l),
{
    match l {
        Language::De => "Deutsch",
        Language::En => "English",
        Language::Auto => "der gesprochenen Sprache",
    }
}

/// Start of the instructions, before the language.
pub const INSTRUCTIONS_HEAD: &'static str = "Transkribiere das Audio wörtlich in ";

/// Rest of the instructions, after the language.
pub const INSTRUCTIONS_TAIL: &'static str = ". Antworte ausschließlich mit dem reinen Transkript — keine Einleitungen, keine Erklärungen, kein Markdown.";

/// Text that introduces the vocabulary in the instructions.
pub const VOCABULARY_HEAD: &'static str = "\nBerücksichtige diese Fachbegriffe beim Transkribieren: ";

/// The instructions sent with the audio: transcribe verbatim into the
/// language, answer with the bare transcript, and, when there is vocabulary,
/// mind these terms.
pub open spec fn instructions_spec(l: Language, vocabulary: Seq<String>) -> Seq<char> {
    let head = INSTRUCTIONS_HEAD@ + language_hint_spec(l) + INSTRUCTIONS_TAIL@;
    if vocabulary.len() == 0 {
        head
    } else {
        head + VOCABULARY_HEAD@ + join(string_views(vocabulary), ", "@) + "."@
    }
}

/// Builds the instructions sent with the audio.
pub fn instructions(language: &Language, vocabulary: &[String]) -> (r: String)
    ensures
        r@ == instructions_spec(*language, vocabulary@),
{
    let mut r = INSTRUCTIONS_HEAD.to_owned();
    r.append(language_hint(language));
    r.append(INSTRUCTIONS_TAIL);
    if vocabulary.len() != 0 {
        r.append(VOCABULARY_HEAD);
        let joined = join_strings(vocabulary, ", ");
        r.append(joined.as_str());
        r.append(".");
    }
    r
}

/// Address of the chat-completion endpoint under a base address.
pub fn chat_completions_url(base_url: &str) -> (r: String)
    ensures
        r@ == base_url@ + "/v1/chat/completions"@,
{
    let mut r = base_url.to_owned();
    r.append("/v1/chat/completions");
    r
}

/// Message when the reply holds no choice.
pub const EMPTY_REPLY: &'static str = "Leere LLM-Antwort";

/// The transcript from the contents of the reply's choices: the first one,
/// trimmed; an error when there is none.
pub fn transcript_from_choices(choices: &[String]) -> (r: Result<String, AppError>)
    ensures
        match r {
            Ok(t) => choices@.len() > 0 && t@ == trim(choices@[0]@),
            Err(e) => choices@.len() == 0 && e.kind() == ErrorKind::Transcription && e.message()
                == EMPTY_REPLY@,
        },
{
    if choices.len() == 0 {
        return Err(AppError::Transcription(EMPTY_REPLY.to_owned()));
    }
    let v = chars_of(choices[0].as_str());
    let t = trim_chars(&v);
    Ok(string_of(&t))
}

} // verus!
