//! The model catalog: the model names the download collaborator knows, the
//! URL and cache file name for each, and the filter that recognizes cached
//! model files. Retrieval itself is the collaborator's job; the library only
//! decides names and URLs.

use vstd::prelude::*;
use crate::text::str_eq;

verus! {

/// The names of the models that can be retrieved.
pub open spec fn known_models() -> Seq<Seq<char>> {
    seq!["tiny"@, "base"@, "small"@, "medium"@, "large"@]
}

/// The URL each known model is fetched from.
pub open spec fn model_url_spec(name: Seq<char>) -> Option<Seq<char>> {
    if name == "tiny"@ {
        Some("https://huggingface.co/ggerganov/whisper.cpp/resolve/main/ggml-tiny.bin"@)
    } else if name == "base"@ {
        Some("https://huggingface.co/ggerganov/whisper.cpp/resolve/main/ggml-base.bin"@)
    } else if name == "small"@ {
        Some("https://huggingface.co/ggerganov/whisper.cpp/resolve/main/ggml-small.bin"@)
    } else if name == "medium"@ {
        Some("https://huggingface.co/ggerganov/whisper.cpp/resolve/main/ggml-medium.bin"@)
    } else if name == "large"@ {
        Some("https://huggingface.co/ggerganov/whisper.cpp/resolve/main/ggml-large.bin"@)
    } else {
        None
    }
}

/// The cache file name of a model: `ggml-<name>.bin`.
pub open spec fn model_filename_spec(name: Seq<char>) -> Seq<char> {
    "ggml-"@ + name + ".bin"@
}

/// Whether a file name looks like a cached model: a non-empty stem followed
/// by the `.bin` extension.
pub open spec fn bin_file_spec(name: Seq<char>) -> bool {
    &&& name.len() > 4
    &&& name[name.len() - 4] == '.'
    &&& name[name.len() - 3] == 'b'
    &&& name[name.len() - 2] == 'i'
    &&& name[name.len() - 1] == 'n'
}

/// The file names among the given ones that look like cached models, in
/// their original order.
pub open spec fn bin_files(names: Seq<Seq<char>>) -> Seq<Seq<char>>
    decreases names.len(),
{
    if names.len() == 0 {
        Seq::empty()
    } else if bin_file_spec(names.last()) {
        bin_files(names.drop_last()).push(names.last())
    } else {
        bin_files(names.drop_last())
    }
}

/// List available models that can be downloaded.
pub fn list_available_models() -> (r: Vec<String>)
    ensures
        r.deep_view() == known_models(),
{
    let mut v: Vec<String> = Vec::new();
    v.push("tiny".to_owned());
    v.push("base".to_owned());
    v.push("small".to_owned());
    v.push("medium".to_owned());
    v.push("large".to_owned());
    proof {
        assert(v.deep_view() =~= known_models());
    }
    v
}

/// The URL a model of the given name is fetched from, if the name is known.
pub fn model_url(name: &str) -> (r: Option<String>)
    ensures
        r.deep_view() == model_url_spec(name@),
{
    if str_eq(name, "tiny") {
        Some(
            "https://huggingface.co/ggerganov/whisper.cpp/resolve/main/ggml-tiny.bin".to_owned(),
        )
    } else if str_eq(name, "base") {
        Some(
            "https://huggingface.co/ggerganov/whisper.cpp/resolve/main/ggml-base.bin".to_owned(),
        )
    } else if str_eq(name, "small") {
        Some(
            "https://huggingface.co/ggerganov/whisper.cpp/resolve/main/ggml-small.bin".to_owned(),
        )
    } else if str_eq(name, "medium") {
        Some(
            "https://huggingface.co/ggerganov/whisper.cpp/resolve/main/ggml-medium.bin".to_owned(),
        )
    } else if str_eq(name, "large") {
        Some(
            "https://huggingface.co/ggerganov/whisper.cpp/resolve/main/ggml-large.bin".to_owned(),
        )
    } else {
        None
    }
}

/// The cache file name of a model.
pub fn model_filename(name: &str) -> (r: String)
    ensures
        r@ == model_filename_spec(name@),
{
    let mut s: String = "ggml-".to_owned();
    s.append(name);
    s.append(".bin");
    s
}

/// The name of the per-user model cache directory.
pub fn models_dir_name() -> (r: String)
    ensures
        r@ == ".whisper-models"@,
{
    ".whisper-models".to_owned()
}

/// Decides `bin_file_spec`.
fn has_bin_extension(name: &str) -> (r: bool)
    ensures
        r == bin_file_spec(name@),
{
    let n = name.unicode_len();
    if n <= 4 {
        return false;
    }
    name.get_char(n - 4) == '.' && name.get_char(n - 3) == 'b' && name.get_char(n - 2) == 'i'
        && name.get_char(n - 1) == 'n'
}

/// The file names among the given ones that look like cached model files.
pub fn filter_model_files(names: &Vec<String>) -> (r: Vec<String>)
    ensures
        r.deep_view() == bin_files(names.deep_view()),
{
    let ghost ns = names.deep_view();
    let n = names.len();
    let mut out: Vec<String> = Vec::new();
    let mut i: usize = 0;
    proof {
        assert(ns.take(0) =~= Seq::<Seq<char>>::empty());
        assert(out.deep_view() =~= bin_files(ns.take(0)));
    }
    while i < n
        invariant
            i <= n,
            n == names.len(),
            ns == names.deep_view(),
            out.deep_view() == bin_files(ns.take(i as int)),
        decreases n - i,
    {
        proof {
            assert(ns.take(i as int + 1).drop_last() =~= ns.take(i as int));
            assert(ns.take(i as int + 1).last() == ns[i as int]);
            assert(ns[i as int] == names@[i as int]@);
        }
        if has_bin_extension(names[i].as_str()) {
            out.push(names[i].clone());
            proof {
                assert(out.deep_view() =~= bin_files(ns.take(i as int + 1)));
            }
        } else {
            proof {
                assert(out.deep_view() =~= bin_files(ns.take(i as int + 1)));
            }
        }
        i = i + 1;
    }
    proof {
        assert(ns.take(n as int) =~= ns);
    }
    out
}

} // verus!
