//! Errors of the dictation pipeline.

use vstd::prelude::*;

verus! {

/// The stage an error comes from.
#[derive(Clone, Copy, Debug, PartialEq, Eq, Structural)]
pub enum ErrorKind {
    Config,
    Audio,
    Transcription,
    Llm,
    Inject,
    Keyring,
    Io,
    Serde,
}

/// An error of the pipeline, with its message. I/O and JSON errors are held as
/// their messages.
#[derive(Clone, Debug)]
pub enum AppError {
    Config(String),
    Audio(String),
    Transcription(String),
    Llm(String),
    Inject(String),
    Keyring(String),
    Io(String),
    Serde(String),
}

impl AppError {
    /// The stage of the error.
    pub open spec fn kind(self) -> ErrorKind {
        match self {
            AppError::Config(_) => ErrorKind::Config,
            AppError::Audio(_) => ErrorKind::Audio,
            AppError::Transcription(_) => ErrorKind::Transcription,
            AppError::Llm(_) => ErrorKind::Llm,
            AppError::Inject(_) => ErrorKind::Inject,
            AppError::Keyring(_) => ErrorKind::Keyring,
            AppError::Io(_) => ErrorKind::Io,
            AppError::Serde(_) => ErrorKind::Serde,
        }
    }

    /// The message of the error.
    pub open spec fn message(self) -> Seq<char> {
        match self {
            AppError::Config(m) => m@,
            AppError::Audio(m) => m@,
            AppError::Transcription(m) => m@,
            AppError::Llm(m) => m@,
            AppError::Inject(m) => m@,
            AppError::Keyring(m) => m@,
            AppError::Io(m) => m@,
            AppError::Serde(m) => m@,
        }
    }

    /// The error as the text its display shows: the stage's prefix, then the
    /// message.
    pub open spec fn display(self) -> Seq<char> {
        let prefix = match self.kind() {
            ErrorKind::Config => "config error: "@,
            ErrorKind::Audio => "audio error: "@,
            ErrorKind::Transcription => "transcription error: "@,
            ErrorKind::Llm => "llm error: "@,
            ErrorKind::Inject => "injection error: "@,
            ErrorKind::Keyring => "keyring error: "@,
            ErrorKind::Io => "io error: "@,
            ErrorKind::Serde => "serde error: "@,
        };
        prefix + self.message()
    }

    /// The text of the error: the stage's prefix, then the message.
    pub fn to_text(&self) -> (r: String)
        ensures
            r@ == self.display(),
    {
        let (prefix, m): (&str, &String) = match self {
            AppError::Config(m) => ("config error: ", m),
            AppError::Audio(m) => ("audio error: ", m),
            AppError::Transcription(m) => ("transcription error: ", m),
            AppError::Llm(m) => ("llm error: ", m),
            AppError::Inject(m) => ("injection error: ", m),
            AppError::Keyring(m) => ("keyring error: ", m),
            AppError::Io(m) => ("io error: ", m),
            AppError::Serde(m) => ("serde error: ", m),
        };
        let mut r = prefix.to_owned();
        r.append(m.as_str());
        r
    }
}

/// Result of the pipeline's operations.
pub type Result<T> = std::result::Result<T, AppError>;


/// The text of an error is its stage's prefix followed by the message, so the
/// message is always its suffix; configuration errors read `config error: `,
/// transcription errors `transcription error: ` and LLM errors
/// `llm error: ` before the message.
pub proof fn lemma_error_text_ends_with_message(e: AppError)
    ensures
        e.message().is_suffix_of(e.display()),
        e.kind() == ErrorKind::Config ==> e.display() == seq![
            'c', 'o', 'n', 'f', 'i', 'g', ' ', 'e', 'r', 'r', 'o', 'r', ':', ' ',
        ] + e.message(),
        e.kind() == ErrorKind::Transcription ==> e.display() == seq![
            't', 'r', 'a', 'n', 's', 'c', 'r', 'i', 'p', 't', 'i', 'o', 'n', ' ', 'e', 'r', 'r', 'o',
            'r', ':', ' ',
        ] + e.message(),
        e.kind() == ErrorKind::Llm ==> e.display() == seq!['l', 'l', 'm', ' ', 'e', 'r', 'r', 'o', 'r', ':', ' ']
            + e.message(),
{
    reveal_strlit("config error: ");
    reveal_strlit("transcription error: ");
    reveal_strlit("llm error: ");
    let d = e.display();
    let m = e.message();
    assert(d.subrange(d.len() - m.len(), d.len() as int) =~= m);
}

} // verus!
