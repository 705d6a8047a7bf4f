//! The prompt that asks an LLM to correct a dictated text.

use vstd::prelude::*;
use crate::text::{join, join_strings, string_views};

verus! {

/// System prompt used when the profile brings none of its own.
pub const DEFAULT_SYSTEM: &'static str = "Du korrigierst diktierten Text. Verändere den Inhalt nicht. Korrigiere ausschließlich Rechtschreibung, Grammatik, Zeichensetzung und offensichtlich falsche Wort-Erkennungen. Gib ausschließlich den korrigierten Text zurück, ohne Kommentare oder Anführungszeichen.";

/// Text that introduces the vocabulary in the system prompt.
pub const VOCABULARY_INTRO: &'static str = "\n\nVerwende folgendes Vokabular korrekt, wenn es vorkommt:\n";

/// System and user message of a correction request.
pub struct PostProcPrompt {
    pub system: String,
    pub user: String,
}

/// The system prompt: the custom one or the default, followed, when there is
/// any vocabulary, by the introduction and the terms separated by `", "`.
pub open spec fn prompt_system(vocabulary: Seq<String>, custom_system: Option<Seq<char>>) -> Seq<char> {
    let base = match custom_system {
        Some(s) => s,
        None => DEFAULT_SYSTEM@,
    };
    if vocabulary.len() == 0 {
        base
    } else {
        base + VOCABULARY_INTRO@ + join(string_views(vocabulary), ", "@)
    }
}

/// Builds the correction request for a raw transcript.
pub fn build_prompt(raw_text: &str, vocabulary: &[String], custom_system: Option<&str>) -> (r:
    PostProcPrompt)
    ensures
        r.system@ == prompt_system(
            vocabulary@,
            match custom_system {
                Some(s) => Some(s@),
                None => None,
            },
        ),
        r.user@ == raw_text@,
{
    let base: &str = match custom_system {
        Some(s) => s,
        None => DEFAULT_SYSTEM,
    };
    let mut system = base.to_owned();
    if vocabulary.len() != 0 {
        system.append(VOCABULARY_INTRO);
        let joined = join_strings(vocabulary, ", ");
        system.append(joined.as_str());
    }
    PostProcPrompt { system, user: raw_text.to_owned() }
}


/// The system prompt starts with the profile's own prompt, or with the
/// default correction instructions when the profile has none, whatever the
/// vocabulary: the vocabulary only ever adds text after it. Without
/// vocabulary that base is the whole prompt; with vocabulary it is followed
/// by the introduction and every term, in order, separated by `", "`.
pub proof fn lemma_system_prompt_keeps_its_base(vocabulary: Seq<String>, custom_system: Option<Seq<char>>)
    ensures
        ({
            let base = match custom_system {
                Some(s) => s,
                None => DEFAULT_SYSTEM@,
            };
            let sys = prompt_system(vocabulary, custom_system);
            &&& base.is_prefix_of(sys)
            &&& sys.take(base.len() as int) == base
            &&& vocabulary.len() == 0 ==> sys == base
            &&& vocabulary.len() > 0 ==> sys == base + VOCABULARY_INTRO@ + join(
                vocabulary.map_values(|t: String| t@),
                ", "@,
            )
        }),
        custom_system is None ==> DEFAULT_SYSTEM@.is_prefix_of(prompt_system(vocabulary, None)),
        prompt_system(Seq::empty(), custom_system).is_prefix_of(prompt_system(vocabulary, custom_system)),
{
    let base = match custom_system {
        Some(s) => s,
        None => DEFAULT_SYSTEM@,
    };
    let sys = prompt_system(vocabulary, custom_system);
    assert(string_views(vocabulary) == vocabulary.map_values(|t: String| t@));
    if vocabulary.len() > 0 {
        assert(sys == base + (VOCABULARY_INTRO@ + join(string_views(vocabulary), ", "@)));
        assert(sys.take(base.len() as int) =~= base);
    } else {
        assert(sys.take(base.len() as int) =~= base);
    }
    assert(prompt_system(Seq::empty(), custom_system) == base);
}

} // verus!
