//! Whisper model files: the known models, their file names and download
//! addresses, the installed-model overview, the choice of the model to load,
//! and the progress record of a download.

use vstd::prelude::*;
use crate::config::starts_with_chars;
use crate::text::chars_of;

verus! {

/// The known whisper.cpp models with their expected size in MB.
pub open spec fn known_models() -> Seq<(Seq<char>, u32)> {
    seq![
        ("tiny"@, 75u32),
        ("base"@, 142u32),
        ("small"@, 466u32),
        ("medium"@, 1500u32),
        ("large-v3"@, 3094u32),
    ]
}

/// The known models, as a table.
pub fn model_table() -> (r: Vec<(&'static str, u32)>)
    ensures
        r@.len() == known_models().len(),
        forall|i: int| 0 <= i < r@.len() ==> (#[trigger] r@[i]).0@ == known_models()[i].0 && r@[i].1
            == known_models()[i].1,
{
    let r = vec![("tiny", 75u32), ("base", 142u32), ("small", 466u32), ("medium", 1500u32), ("large-v3", 3094u32)];
    r
}

/// File name of a model: `ggml-<name>.bin`.
pub open spec fn model_file_name(name: Seq<char>) -> Seq<char> {
    "ggml-"@ + name + ".bin"@
}

/// The file name of a model, as it lies in the models directory.
pub fn file_for(name: &str) -> (r: String)
    ensures
        r@ == model_file_name(name@),
{
    let mut r = "ggml-".to_owned();
    r.append(name);
    r.append(".bin");
    r
}

/// Download address of a model in the whisper.cpp repository on Hugging Face.
pub fn model_url(name: &str) -> (r: String)
    ensures
        r@ == "https://huggingface.co/ggerganov/whisper.cpp/resolve/main/"@ + model_file_name(name@),
{
    let mut r = "https://huggingface.co/ggerganov/whisper.cpp/resolve/main/".to_owned();
    let f = file_for(name);
    r.append(f.as_str());
    r
}

/// Whether the name is one of the known models.
pub open spec fn is_known(name: Seq<char>) -> bool {
    exists|i: int| 0 <= i < known_models().len() && #[trigger] known_models()[i].0 == name
}

/// Whether the name is one of the known models.
pub fn is_known_model(name: &str) -> (r: bool)
    ensures
        r == is_known(name@),
{
    let table = model_table();
    let mut i: usize = 0;
    while i < table.len()
        invariant
            table@.len() == known_models().len(),
            forall|k: int| 0 <= k < table@.len() ==> (#[trigger] table@[k]).0@ == known_models()[k].0,
            i <= table.len(),
            forall|k: int| 0 <= k < i ==> known_models()[k].0 != name@,
        decreases table.len() - i,
    {
        let a = chars_of(table[i].0);
        let b = chars_of(name);
        if crate::text::chars_eq(&a, &b) {
            assert(known_models()[i as int].0 == name@);
            return true;
        }
        i = i + 1;
    }
    false
}

/// Why a download cannot start.
pub open spec fn download_refusal(name: Seq<char>, in_progress: bool) -> Option<Seq<char>> {
    if !is_known(name) {
        Some("unbekanntes Modell: "@ + name)
    } else if in_progress {
        Some("Ein Download läuft bereits"@)
    } else {
        None
    }
}

/// Checks that a download may start: the model is known and no other
/// download runs.
pub fn check_download_request(name: &str, in_progress: bool) -> (r: Result<(), String>)
    ensures
        match r {
            Ok(_) => download_refusal(name@, in_progress) is None,
            Err(m) => download_refusal(name@, in_progress) == Some(m@),
        },
{
    if !is_known_model(name) {
        let mut m = "unbekanntes Modell: ".to_owned();
        m.append(name);
        return Err(m);
    }
    if in_progress {
        return Err("Ein Download läuft bereits".to_owned());
    }
    Ok(())
}

/// Overview entry of one known model.
pub struct ModelInfo {
    pub name: String,
    pub filename: String,
    pub size_mb: u32,
    pub installed: bool,
    pub installed_bytes: u64,
}

/// The overview of the known models, given the size of each model's file in
/// the table's order (0 when it is missing). A model counts as installed when
/// its file is not empty.
pub fn model_infos(installed_bytes: &[u64]) -> (r: Vec<ModelInfo>)
    requires
        installed_bytes@.len() == known_models().len(),
    ensures
        r@.len() == known_models().len(),
        forall|i: int|
            0 <= i < r@.len() ==> {
                &&& (#[trigger] r@[i]).name@ == known_models()[i].0
                &&& r@[i].filename@ == model_file_name(known_models()[i].0)
                &&& r@[i].size_mb == known_models()[i].1
                &&& r@[i].installed_bytes == installed_bytes@[i]
                &&& r@[i].installed == (installed_bytes@[i] > 0)
            },
{
    let table = model_table();
    let mut r: Vec<ModelInfo> = Vec::new();
    let mut i: usize = 0;
    while i < table.len()
        invariant
            table@.len() == known_models().len(),
            installed_bytes@.len() == known_models().len(),
            forall|k: int| 0 <= k < table@.len() ==> (#[trigger] table@[k]).0@ == known_models()[k].0
                && table@[k].1 == known_models()[k].1,
            i <= table.len(),
            r@.len() == i,
            forall|k: int|
                0 <= k < i ==> {
                    &&& (#[trigger] r@[k]).name@ == known_models()[k].0
                    &&& r@[k].filename@ == model_file_name(known_models()[k].0)
                    &&& r@[k].size_mb == known_models()[k].1
                    &&& r@[k].installed_bytes == installed_bytes@[k]
                    &&& r@[k].installed == (installed_bytes@[k] > 0)
                },
        decreases table.len() - i,
    {
        let (name, size_mb) = table[i];
        let bytes = installed_bytes[i];
        r.push(
            ModelInfo {
                name: name.to_owned(),
                filename: file_for(name),
                size_mb,
                installed: bytes > 0,
                installed_bytes: bytes,
            },
        );
        i = i + 1;
    }
    r
}

/// Whether a file name is that of a model: `ggml-` at the start and `.bin` at
/// the end.
pub open spec fn is_model_file(name: Seq<char>) -> bool {
    "ggml-"@.is_prefix_of(name) && ".bin"@.is_suffix_of(name)
}

/// Whether `s` ends with `p`.
pub fn ends_with_chars(s: &Vec<char>, p: &Vec<char>) -> (r: bool)
    ensures
        r == p@.is_suffix_of(s@),
{
    if p.len() > s.len() {
        return false;
    }
    let off = s.len() - p.len();
    let mut i: usize = 0;
    while i < p.len()
        invariant
            p.len() <= s.len(),
            off == s.len() - p.len(),
            i <= p.len(),
            forall|m: int| 0 <= m < i ==> #[trigger] p@[m] == s@[off + m],
        decreases p.len() - i,
    {
        if p[i] != s[off + i] {
            assert(p@[i as int] != s@.subrange(off as int, s.len() as int)[i as int]);
            return false;
        }
        i = i + 1;
    }
    assert(p@ =~= s@.subrange(off as int, s.len() as int));
    true
}

/// Whether a file name is that of a model.
pub fn model_file(name: &str) -> (r: bool)
    ensures
        r == is_model_file(name@),
{
    let v = chars_of(name);
    let pre = chars_of("ggml-");
    let suf = chars_of(".bin");
    starts_with_chars(&v, &pre) && ends_with_chars(&v, &suf)
}

/// The model to load among the files of the models directory, given as
/// (file name, size): the largest model file, the first one listed among
/// equally large ones; `None` when there is no model file.
pub open spec fn best_model(files: Seq<(String, u64)>, i: int) -> bool {
    &&& 0 <= i < files.len()
    &&& is_model_file(files[i].0@)
    &&& forall|j: int|
        0 <= j < files.len() && is_model_file(#[trigger] files[j].0@) ==> files[j].1 <= files[i].1
    &&& forall|j: int|
        0 <= j < i && is_model_file(#[trigger] files[j].0@) ==> files[j].1 < files[i].1
}

/// Picks the model to load: the largest model file, so that large-v3 wins
/// over base when both are installed.
pub fn first_installed_model(files: &[(String, u64)]) -> (r: Option<usize>)
    ensures
        match r {
            Some(i) => best_model(files@, i as int),
            None => forall|j: int| 0 <= j < files@.len() ==> !is_model_file(#[trigger] files@[j].0@),
        },
{
    let mut best: Option<usize> = None;
    let mut i: usize = 0;
    while i < files.len()
        invariant
            i <= files.len(),
            match best {
                Some(b) => {
                    &&& b < i
                    &&& is_model_file(files@[b as int].0@)
                    &&& forall|j: int|
                        0 <= j < i && is_model_file(#[trigger] files@[j].0@) ==> files@[j].1
                            <= files@[b as int].1
                    &&& forall|j: int|
                        0 <= j < b && is_model_file(#[trigger] files@[j].0@) ==> files@[j].1
                            < files@[b as int].1
                },
                None => forall|j: int| 0 <= j < i ==> !is_model_file(#[trigger] files@[j].0@),
            },
        decreases files.len() - i,
    {
        if model_file(files[i].0.as_str()) {
            let size = files[i].1;
            let better = match best {
                Some(b) => size > files[b].1,
                None => true,
            };
            if better {
                best = Some(i);
            }
        }
        i = i + 1;
    }
    best
}

/// Progress of a model download, as the settings window polls it.
pub struct DownloadProgress {
    pub name: Option<String>,
    pub downloaded: u64,
    pub total: u64,
    pub done: bool,
    pub error: Option<String>,
}

impl Default for DownloadProgress {
    fn default() -> (r: DownloadProgress)
        ensures
            r.name is None,
            r.downloaded == 0,
            r.total == 0,
            !r.done,
            r.error is None,
    {
        DownloadProgress { name: None, downloaded: 0, total: 0, done: false, error: None }
    }
}

impl DownloadProgress {
    /// Progress of a download that has just started.
    pub fn started(name: String) -> (r: DownloadProgress)
        ensures
            r.name == Some(name),
            r.downloaded == 0,
            r.total == 0,
            !r.done,
            r.error is None,
    {
        DownloadProgress { name: Some(name), downloaded: 0, total: 0, done: false, error: None }
    }

    /// Records how the download ended: done either way, with the error if it
    /// failed.
    pub fn finish(&mut self, result: Result<(), String>)
        ensures
            final(self).done,
            final(self).name == old(self).name,
            final(self).downloaded == old(self).downloaded,
            final(self).total == old(self).total,
            match result {
                Ok(_) => final(self).error == old(self).error,
                Err(e) => final(self).error == Some(e),
            },
    {
        match result {
            Ok(()) => {
                self.done = true;
            },
            Err(e) => {
                self.error = Some(e);
                self.done = true;
            },
        }
    }
}


/// Every model file the downloader writes is one the loader recognises: the
/// file of any name starts with `ggml-`, ends with `.bin` and holds the name
/// in between. The five known models are `tiny`, `base`, `small`, `medium`
/// and `large-v3`, in that order and growing in size; a name outside them is
/// refused for download, naming it.
pub proof fn lemma_downloaded_files_are_model_files(name: Seq<char>)
    ensures
        is_model_file(model_file_name(name)),
        model_file_name(name) == seq!['g', 'g', 'm', 'l', '-'] + name + seq!['.', 'b', 'i', 'n'],
        known_models().len() == 5,
        known_models()[0] == (seq!['t', 'i', 'n', 'y'], 75u32),
        known_models()[1] == (seq!['b', 'a', 's', 'e'], 142u32),
        known_models()[2] == (seq!['s', 'm', 'a', 'l', 'l'], 466u32),
        known_models()[3] == (seq!['m', 'e', 'd', 'i', 'u', 'm'], 1500u32),
        known_models()[4] == (seq!['l', 'a', 'r', 'g', 'e', '-', 'v', '3'], 3094u32),
        forall|i: int, j: int|
            0 <= i < j < known_models().len() ==> known_models()[i].1 < known_models()[j].1,
        !is_known(name) ==> download_refusal(name, false) == Some(
            seq!['u', 'n', 'b', 'e', 'k', 'a', 'n', 'n', 't', 'e', 's', ' ', 'M', 'o', 'd', 'e', 'l', 'l', ':', ' ']
                + name,
        ),
{
    reveal_strlit("ggml-");
    reveal_strlit(".bin");
    reveal_strlit("tiny");
    reveal_strlit("base");
    reveal_strlit("small");
    reveal_strlit("medium");
    reveal_strlit("large-v3");
    reveal_strlit("unbekanntes Modell: ");
    let f = model_file_name(name);
    assert(f.take(5) =~= "ggml-"@);
    assert("ggml-"@ =~= f.subrange(0, 5));
    assert(".bin"@ =~= f.subrange(f.len() - 4, f.len() as int));
}

} // verus!
