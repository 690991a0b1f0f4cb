//! The subprocess execution strategy: validating an invocation, locating the
//! engine executable, assembling its argument vector, and normalizing its
//! exit status. Spawning and waiting are done by an unverified adapter; the
//! decisions live here.

use vstd::prelude::*;
use crate::builder::{format_supported, is_format_supported};
use crate::error::{ErrorSpec, WhisperError};
use crate::output::{parse_engine_output, parse_output_post};
use crate::text::str_eq;
use crate::transcript::Transcript;

verus! {

/// The language arguments: nothing for `"auto"` or when no language is
/// given, the `-l` flag and the language otherwise.
pub open spec fn language_args(language: Option<Seq<char>>) -> Seq<Seq<char>> {
    match language {
        Some(l) => if l == "auto"@ {
            Seq::empty()
        } else {
            seq!["-l"@, l]
        },
        None => Seq::empty(),
    }
}

/// The translate flag, when requested.
pub open spec fn translate_args(translate: bool) -> Seq<Seq<char>> {
    if translate {
        seq!["--translate"@]
    } else {
        Seq::empty()
    }
}

/// The output flag for a supported format selector.
pub open spec fn format_flag(f: Seq<char>) -> Seq<char> {
    if f == "txt"@ {
        "--output-txt"@
    } else if f == "srt"@ {
        "--output-srt"@
    } else if f == "vtt"@ {
        "--output-vtt"@
    } else {
        "--output-json"@
    }
}

/// The output-format arguments, when a format is given.
pub open spec fn format_args(format: Option<Seq<char>>) -> Seq<Seq<char>> {
    match format {
        Some(f) => seq![format_flag(f)],
        None => Seq::empty(),
    }
}

/// The output-path arguments, when an output path is given.
pub open spec fn output_args(output: Option<Seq<char>>) -> Seq<Seq<char>> {
    match output {
        Some(o) => seq!["-o"@, o],
        None => Seq::empty(),
    }
}

/// The full argument vector handed to the engine executable: model flag,
/// audio path, language flag unless `"auto"`, translate flag, one
/// output-format flag, output-path flag, then the caller's raw passthrough
/// arguments.
pub open spec fn whisper_args_spec(
    model: Seq<char>,
    audio: Seq<char>,
    output: Option<Seq<char>>,
    language: Option<Seq<char>>,
    translate: bool,
    format: Option<Seq<char>>,
    extra: Seq<Seq<char>>,
) -> Seq<Seq<char>> {
    seq!["-m"@, model, audio] + language_args(language) + translate_args(translate) + format_args(
        format,
    ) + output_args(output) + extra
}

/// Exactly what the argument assembly returns: an unsupported output format
/// fails fast, anything else yields the full argument vector.
pub open spec fn build_args_post(
    model: Seq<char>,
    audio: Seq<char>,
    output: Option<Seq<char>>,
    language: Option<Seq<char>>,
    translate: bool,
    format: Option<Seq<char>>,
    extra: Seq<Seq<char>>,
    r: Result<Vec<String>, WhisperError>,
) -> bool {
    match format {
        Some(f) => if !format_supported(f) {
            r matches Err(e) && e@ == ErrorSpec::UnsupportedOutput(f)
        } else {
            r matches Ok(args) && args.deep_view() == whisper_args_spec(
                model,
                audio,
                output,
                language,
                translate,
                format,
                extra,
            )
        },
        None => r matches Ok(args) && args.deep_view() == whisper_args_spec(
            model,
            audio,
            output,
            language,
            translate,
            format,
            extra,
        ),
    }
}

/// Assemble the argument vector for one engine process invocation.
pub fn build_whisper_args(
    model_path: &str,
    audio_path: &str,
    output_path: Option<&str>,
    language: Option<&str>,
    translate: bool,
    output_format: Option<&str>,
    additional_args: &Vec<String>,
) -> (r: Result<Vec<String>, WhisperError>)
    ensures
        build_args_post(
            model_path@,
            audio_path@,
            output_path.deep_view(),
            language.deep_view(),
            translate,
            output_format.deep_view(),
            additional_args.deep_view(),
            r,
        ),
{
    match output_format {
        Some(f) => {
            if !is_format_supported(f) {
                return Err(WhisperError::UnsupportedOutputFormat(f.to_owned()));
            }
        },
        None => {},
    }
    let ghost head = seq!["-m"@, model_path@, audio_path@];
    let ghost with_language = head + language_args(language.deep_view());
    let ghost with_translate = with_language + translate_args(translate);
    let ghost with_format = with_translate + format_args(output_format.deep_view());
    let ghost with_output = with_format + output_args(output_path.deep_view());

    let mut args: Vec<String> = Vec::new();
    args.push("-m".to_owned());
    args.push(model_path.to_owned());
    args.push(audio_path.to_owned());
    proof {
        assert(args.deep_view() =~= head);
    }
    match language {
        Some(l) => {
            if !str_eq(l, "auto") {
                args.push("-l".to_owned());
                args.push(l.to_owned());
            }
            proof {
                assert(args.deep_view() =~= with_language);
            }
        },
        None => {
            proof {
                assert(args.deep_view() =~= with_language);
            }
        },
    }
    if translate {
        args.push("--translate".to_owned());
    }
    proof {
        assert(args.deep_view() =~= with_translate);
    }
    match output_format {
        Some(f) => {
            if str_eq(f, "txt") {
                args.push("--output-txt".to_owned());
            } else if str_eq(f, "srt") {
                args.push("--output-srt".to_owned());
            } else if str_eq(f, "vtt") {
                args.push("--output-vtt".to_owned());
            } else {
                args.push("--output-json".to_owned());
            }
            proof {
                assert(args.deep_view() =~= with_format);
            }
        },
        None => {
            proof {
                assert(args.deep_view() =~= with_format);
            }
        },
    }
    match output_path {
        Some(o) => {
            args.push("-o".to_owned());
            args.push(o.to_owned());
            proof {
                assert(args.deep_view() =~= with_output);
            }
        },
        None => {
            proof {
                assert(args.deep_view() =~= with_output);
            }
        },
    }
    let ghost extra = additional_args.deep_view();
    let n = additional_args.len();
    let mut i: usize = 0;
    proof {
        assert(extra.take(0) =~= Seq::<Seq<char>>::empty());
        assert(args.deep_view() =~= with_output + extra.take(0));
    }
    while i < n
        invariant
            i <= n,
            n == additional_args.len(),
            extra == additional_args.deep_view(),
            args.deep_view() == with_output + extra.take(i as int),
        decreases n - i,
    {
        let ghost pre = args.deep_view();
        args.push(additional_args[i].clone());
        proof {
            assert(extra[i as int] == additional_args@[i as int]@);
            assert(args.deep_view() =~= pre.push(extra[i as int]));
            assert(extra.take(i as int + 1).drop_last() =~= extra.take(i as int));
            assert(extra.take(i as int + 1).last() == extra[i as int]);
            assert(pre.push(extra[i as int]) =~= with_output + extra.take(i as int + 1));
        }
        i = i + 1;
    }
    proof {
        assert(extra.take(n as int) =~= extra);
        assert(args.deep_view() =~= whisper_args_spec(
            model_path@,
            audio_path@,
            output_path.deep_view(),
            language.deep_view(),
            translate,
            output_format.deep_view(),
            extra,
        ));
    }
    Ok(args)
}

/// Exactly what validating an invocation returns: a missing model file
/// fails first, then a missing audio file, before any expensive work.
pub open spec fn validate_post(
    model_path: Seq<char>,
    audio_path: Seq<char>,
    model_exists: bool,
    audio_exists: bool,
    r: Result<(), WhisperError>,
) -> bool {
    if !model_exists {
        r matches Err(e) && e@ == ErrorSpec::ModelMissing(model_path)
    } else if !audio_exists {
        r matches Err(e) && e@ == ErrorSpec::AudioMissing(audio_path)
    } else {
        r is Ok
    }
}

/// Confirm that the model and audio files exist before spawning anything or
/// touching the engine; missing files short-circuit.
pub fn validate_invocation(
    model_path: &str,
    audio_path: &str,
    model_exists: bool,
    audio_exists: bool,
) -> (r: Result<(), WhisperError>)
    ensures
        validate_post(model_path@, audio_path@, model_exists, audio_exists, r),
{
    if !model_exists {
        Err(WhisperError::ModelNotFound(model_path.to_owned()))
    } else if !audio_exists {
        Err(WhisperError::AudioNotFound(audio_path.to_owned()))
    } else {
        Ok(())
    }
}

/// Exactly what interpreting a process exit returns: success passes, any
/// failure becomes a transcription error carrying the captured standard
/// error text.
pub open spec fn exit_post(success: bool, stderr: Seq<char>, r: Result<(), WhisperError>) -> bool {
    if success {
        r is Ok
    } else {
        r matches Err(e) && e@ == ErrorSpec::Transcription("whisper.cpp command failed: "@ + stderr)
    }
}

/// Normalize a process exit status: a failed exit becomes a transcription
/// error carrying the captured standard error text.
pub fn interpret_exit(success: bool, stderr: &str) -> (r: Result<(), WhisperError>)
    ensures
        exit_post(success, stderr@, r),
{
    if success {
        Ok(())
    } else {
        let mut message: String = "whisper.cpp command failed: ".to_owned();
        message.append(stderr);
        Err(WhisperError::TranscriptionError(message))
    }
}

/// Exactly what completing a subprocess invocation returns: a failed exit
/// becomes a transcription error carrying the standard error text; a
/// successful exit has its captured output parsed into a transcript.
pub open spec fn subprocess_post(
    success: bool,
    stderr: Seq<char>,
    stdout: Seq<char>,
    r: Result<Transcript, WhisperError>,
) -> bool {
    if success {
        parse_output_post(stdout, r)
    } else {
        r matches Err(e) && e@ == ErrorSpec::Transcription("whisper.cpp command failed: "@ + stderr)
    }
}

/// Normalize one finished engine process into the backend-agnostic result
/// shape: no raw exit status escapes, and only a fully parsed output
/// becomes a transcript.
pub fn complete_subprocess(success: bool, stderr: &str, stdout: &str) -> (r: Result<
    Transcript,
    WhisperError,
>)
    ensures
        subprocess_post(success, stderr@, stdout@, r),
{
    match interpret_exit(success, stderr) {
        Err(e) => Err(e),
        Ok(()) => parse_engine_output(stdout),
    }
}

/// How many of the arguments equal a given word.
pub open spec fn count_matches(ss: Seq<Seq<char>>, x: Seq<char>) -> nat
    decreases ss.len(),
{
    if ss.len() == 0 {
        0
    } else {
        count_matches(ss.drop_last(), x) + (if ss.last() == x {
            1nat
        } else {
            0nat
        })
    }
}

/// Counting distributes over concatenation.
proof fn lemma_count_concat(a: Seq<Seq<char>>, b: Seq<Seq<char>>, x: Seq<char>)
    ensures
        count_matches(a + b, x) == count_matches(a, x) + count_matches(b, x),
    decreases b.len(),
{
    if b.len() == 0 {
        assert(a + b =~= a);
    } else {
        lemma_count_concat(a, b.drop_last(), x);
        assert((a + b).drop_last() =~= a + b.drop_last());
        assert((a + b).last() == b.last());
    }
}

/// A word that occurs nowhere counts zero times.
proof fn lemma_count_absent(ss: Seq<Seq<char>>, x: Seq<char>)
    requires
        !ss.contains(x),
    ensures
        count_matches(ss, x) == 0,
    decreases ss.len(),
{
    if ss.len() > 0 {
        assert(ss.last() != x) by {
            if ss.last() == x {
                assert(ss[ss.len() - 1] == x);
                assert(ss.contains(x));
            }
        }
        assert(!ss.drop_last().contains(x)) by {
            if ss.drop_last().contains(x) {
                let j = choose|j: int| 0 <= j < ss.len() - 1 && ss.drop_last()[j] == x;
                assert(ss[j] == x);
                assert(ss.contains(x));
            }
        }
        lemma_count_absent(ss.drop_last(), x);
    }
}

/// Invoked with language `"auto"`, the assembled argument vector carries no
/// `-l` language flag; invoked with any other language (itself not the flag
/// word, and with passthrough arguments that do not carry the flag either)
/// it carries the flag exactly once.
pub proof fn lemma_language_flag_occurrences(
    model: Seq<char>,
    audio: Seq<char>,
    output: Option<Seq<char>>,
    language: Seq<char>,
    translate: bool,
    format: Option<Seq<char>>,
    extra: Seq<Seq<char>>,
)
    requires
        model != "-l"@,
        audio != "-l"@,
        output matches Some(o) ==> o != "-l"@,
        language != "-l"@,
        !extra.contains("-l"@),
    ensures
        language == "auto"@ ==> count_matches(
            whisper_args_spec(model, audio, output, Some(language), translate, format, extra),
            "-l"@,
        ) == 0,
        language != "auto"@ ==> count_matches(
            whisper_args_spec(model, audio, output, Some(language), translate, format, extra),
            "-l"@,
        ) == 1,
{
    let flag = "-l"@;
    reveal_strlit("-l");
    reveal_strlit("-m");
    reveal_strlit("-o");
    reveal_strlit("--translate");
    reveal_strlit("--output-txt");
    reveal_strlit("--output-srt");
    reveal_strlit("--output-vtt");
    reveal_strlit("--output-json");
    let head = seq!["-m"@, model, audio];
    let la = language_args(Some(language));
    let ta = translate_args(translate);
    let fa = format_args(format);
    let oa = output_args(output);
    lemma_count_concat(head + la + ta + fa + oa, extra, flag);
    lemma_count_concat(head + la + ta + fa, oa, flag);
    lemma_count_concat(head + la + ta, fa, flag);
    lemma_count_concat(head + la, ta, flag);
    lemma_count_concat(head, la, flag);

    let s0 = Seq::<Seq<char>>::empty();
    assert("-m"@ != flag) by {
        assert("-m"@[1] == 'm');
        assert(flag[1] == 'l');
    }
    let s2 = seq!["-m"@, model];
    let s1 = seq!["-m"@];
    assert(head.drop_last() =~= s2);
    assert(s2.drop_last() =~= s1);
    assert(s1.drop_last() =~= s0);
    assert(head.last() == audio);
    assert(s2.last() == model);
    assert(s1.last() == "-m"@);
    assert(count_matches(s0, flag) == 0);
    assert(count_matches(s1, flag) == 0);
    assert(count_matches(s2, flag) == 0);
    assert(count_matches(head, flag) == 0);

    if language != "auto"@ {
        let l1 = seq![flag];
        assert(la == seq![flag, language]);
        assert(la.drop_last() =~= l1);
        assert(la.last() == language);
        assert(l1.drop_last() =~= s0);
        assert(l1.last() == flag);
        assert(count_matches(s0, flag) == 0);
        assert(count_matches(l1, flag) == 1);
        assert(count_matches(la, flag) == 1);
    } else {
        assert(count_matches(la, flag) == 0);
    }

    if translate {
        assert("--translate"@ != flag) by {
            assert("--translate"@.len() == 11);
            assert(flag.len() == 2);
        }
        assert(ta.drop_last() =~= s0);
        assert(ta.last() == "--translate"@);
        assert(count_matches(ta, flag) == 0);
    } else {
        assert(count_matches(ta, flag) == 0);
    }

    match format {
        Some(f) => {
            assert(format_flag(f) != flag) by {
                if f == "txt"@ {
                    assert("--output-txt"@.len() == 12);
                } else if f == "srt"@ {
                    assert("--output-srt"@.len() == 12);
                } else if f == "vtt"@ {
                    assert("--output-vtt"@.len() == 12);
                } else {
                    assert("--output-json"@.len() == 13);
                }
                assert(flag.len() == 2);
            }
            assert(fa.drop_last() =~= s0);
            assert(fa.last() == format_flag(f));
            assert(count_matches(fa, flag) == 0);
        },
        None => {
            assert(count_matches(fa, flag) == 0);
        },
    }

    match output {
        Some(o) => {
            assert("-o"@ != flag) by {
                assert("-o"@[1] == 'o');
                assert(flag[1] == 'l');
            }
            let o1 = seq!["-o"@];
            assert(oa.drop_last() =~= o1);
            assert(oa.last() == o);
            assert(o1.drop_last() =~= s0);
            assert(o1.last() == "-o"@);
            assert(count_matches(s0, flag) == 0);
            assert(count_matches(o1, flag) == 0);
            assert(count_matches(oa, flag) == 0);
        },
        None => {
            assert(count_matches(oa, flag) == 0);
        },
    }

    lemma_count_absent(extra, flag);
}

/// The binary names the engine executable is searched under, in order.
pub fn binary_names() -> (r: Vec<String>)
    ensures
        r.deep_view() == seq!["whisper"@, "main"@],
{
    let mut v: Vec<String> = Vec::new();
    v.push("whisper".to_owned());
    v.push("main".to_owned());
    proof {
        assert(v.deep_view() =~= seq!["whisper"@, "main"@]);
    }
    v
}

/// The well-known installation directories searched after the search path,
/// in order.
pub fn well_known_locations() -> (r: Vec<String>)
    ensures
        r.deep_view() == seq![
            "/usr/local/bin/whisper"@,
            "/usr/bin/whisper"@,
            "/opt/whisper/bin/whisper"@,
            "/usr/local/bin/main"@,
            "/usr/bin/main"@,
            "/opt/whisper/bin/main"@,
        ],
{
    let mut v: Vec<String> = Vec::new();
    v.push("/usr/local/bin/whisper".to_owned());
    v.push("/usr/bin/whisper".to_owned());
    v.push("/opt/whisper/bin/whisper".to_owned());
    v.push("/usr/local/bin/main".to_owned());
    v.push("/usr/bin/main".to_owned());
    v.push("/opt/whisper/bin/main".to_owned());
    proof {
        assert(v.deep_view() =~= seq![
            "/usr/local/bin/whisper"@,
            "/usr/bin/whisper"@,
            "/opt/whisper/bin/whisper"@,
            "/usr/local/bin/main"@,
            "/usr/bin/main"@,
            "/opt/whisper/bin/main"@,
        ]);
    }
    v
}

/// The candidate binaries inside a build output directory, in order.
pub fn build_dir_candidates(out_dir: &str) -> (r: Vec<String>)
    ensures
        r.deep_view() == seq![
            out_dir@ + "/whisper.cpp/build/bin/main"@,
            out_dir@ + "/whisper.cpp/build/main"@,
            out_dir@ + "/whisper.cpp/build/whisper"@,
        ],
{
    let mut v: Vec<String> = Vec::new();
    let mut a: String = out_dir.to_owned();
    a.append("/whisper.cpp/build/bin/main");
    v.push(a);
    let mut b: String = out_dir.to_owned();
    b.append("/whisper.cpp/build/main");
    v.push(b);
    let mut c: String = out_dir.to_owned();
    c.append("/whisper.cpp/build/whisper");
    v.push(c);
    proof {
        assert(v.deep_view() =~= seq![
            out_dir@ + "/whisper.cpp/build/bin/main"@,
            out_dir@ + "/whisper.cpp/build/main"@,
            out_dir@ + "/whisper.cpp/build/whisper"@,
        ]);
    }
    v
}

/// Pick the first candidate reported to exist: the index of the first
/// existing candidate, or nothing when every search strategy is exhausted.
pub fn select_binary(candidates: &Vec<String>, exists: &Vec<bool>) -> (r: Option<usize>)
    requires
        candidates@.len() == exists@.len(),
    ensures
        match r {
            Some(i) => i < candidates@.len() && exists@[i as int] && forall|j: int|
                0 <= j < i ==> !exists@[j],
            None => forall|j: int| 0 <= j < exists@.len() ==> !exists@[j],
        },
{
    let n = exists.len();
    let mut i: usize = 0;
    while i < n
        invariant
            i <= n,
            n == exists.len(),
            candidates@.len() == exists@.len(),
            forall|j: int| 0 <= j < i ==> !exists@[j],
        decreases n - i,
    {
        if exists[i] {
            return Some(i);
        }
        i = i + 1;
    }
    None
}

} // verus!
