use whisper_wrapper_rust::backend::{
    binary_names, build_dir_candidates, build_whisper_args, complete_subprocess, interpret_exit,
    select_binary, validate_invocation, well_known_locations,
};
use whisper_wrapper_rust::WhisperError;

#[test]
fn args_auto_language_has_no_language_flag() {
    let args = build_whisper_args(
        "model.bin",
        "audio.wav",
        None,
        Some("auto"),
        false,
        None,
        &Vec::new(),
    )
    .unwrap();
    assert_eq!(args, vec!["-m", "model.bin", "audio.wav"]);
    assert_eq!(args.iter().filter(|a| a.as_str() == "-l").count(), 0);
}

#[test]
fn args_explicit_language_flag_exactly_once() {
    let args = build_whisper_args(
        "model.bin",
        "audio.wav",
        None,
        Some("es"),
        false,
        None,
        &Vec::new(),
    )
    .unwrap();
    assert_eq!(args, vec!["-m", "model.bin", "audio.wav", "-l", "es"]);
    assert_eq!(args.iter().filter(|a| a.as_str() == "-l").count(), 1);
}

#[test]
fn args_full_invocation_exact_vector() {
    let extra = vec!["--threads".to_string(), "4".to_string()];
    let args = build_whisper_args(
        "m.bin",
        "a.wav",
        Some("out.srt"),
        Some("en"),
        true,
        Some("srt"),
        &extra,
    )
    .unwrap();
    assert_eq!(
        args,
        vec![
            "-m",
            "m.bin",
            "a.wav",
            "-l",
            "en",
            "--translate",
            "--output-srt",
            "-o",
            "out.srt",
            "--threads",
            "4",
        ]
    );
}

#[test]
fn args_unsupported_format_rejected() {
    let r = build_whisper_args("m.bin", "a.wav", None, None, false, Some("xml"), &Vec::new());
    match r {
        Err(WhisperError::UnsupportedOutputFormat(f)) => assert_eq!(f, "xml"),
        other => panic!("expected UnsupportedOutputFormat, got {:?}", other),
    }
}

#[test]
fn args_each_supported_format_flag() {
    for (fmt, flag) in [
        ("txt", "--output-txt"),
        ("srt", "--output-srt"),
        ("vtt", "--output-vtt"),
        ("json", "--output-json"),
    ] {
        let args =
            build_whisper_args("m.bin", "a.wav", None, None, false, Some(fmt), &Vec::new())
                .unwrap();
        assert_eq!(args, vec!["-m", "m.bin", "a.wav", flag]);
    }
}

#[test]
fn validation_missing_model_short_circuits() {
    let r = validate_invocation("m.bin", "a.wav", false, true);
    match r {
        Err(WhisperError::ModelNotFound(p)) => assert_eq!(p, "m.bin"),
        other => panic!("expected ModelNotFound, got {:?}", other),
    }
}

#[test]
fn validation_missing_audio_short_circuits() {
    // A spy engine: validation must fail before anything would invoke it.
    let mut engine_calls = 0;
    let r = validate_invocation("m.bin", "a.wav", true, false);
    match &r {
        Err(WhisperError::AudioNotFound(p)) => assert_eq!(p, "a.wav"),
        other => panic!("expected AudioNotFound, got {:?}", other),
    }
    // Only on success would the engine have been spawned.
    if r.is_ok() {
        engine_calls += 1;
    }
    assert_eq!(engine_calls, 0);
}

#[test]
fn validation_passes_when_both_exist() {
    assert!(validate_invocation("m.bin", "a.wav", true, true).is_ok());
}

#[test]
fn exit_failure_carries_stderr() {
    let r = interpret_exit(false, "boom");
    match r {
        Err(WhisperError::TranscriptionError(m)) => {
            assert_eq!(m, "whisper.cpp command failed: boom")
        },
        other => panic!("expected TranscriptionError, got {:?}", other),
    }
    assert!(interpret_exit(true, "").is_ok());
}

#[test]
fn subprocess_output_parsed_into_segments() {
    let stdout = "[00:00:00.000 --> 00:00:02.500]  hello there\n\
                  [00:00:02.500 --> 00:00:04.000]  and goodbye\n";
    let t = complete_subprocess(true, "", stdout).unwrap();
    assert_eq!(t.to_text(), "hello there\nand goodbye");
    let segs = t.segments();
    assert_eq!(segs[0].start_ms, 0);
    assert_eq!(segs[0].end_ms, 2500);
    assert_eq!(segs[1].start_ms, 2500);
    assert_eq!(segs[1].end_ms, 4000);
}

#[test]
fn subprocess_output_blank_lines_skipped() {
    let stdout = "\n[00:01:01.042 --> 00:01:02.000] word\n\n";
    let t = complete_subprocess(true, "", stdout).unwrap();
    let segs = t.segments();
    assert_eq!(segs.len(), 1);
    assert_eq!(segs[0].start_ms, 61042);
    assert_eq!(segs[0].text, "word");
}

#[test]
fn subprocess_malformed_line_is_protocol_error() {
    let r = complete_subprocess(true, "", "whisper initialized\n");
    assert!(matches!(r, Err(WhisperError::EngineProtocolError(_))));
}

#[test]
fn subprocess_out_of_order_output_is_protocol_error() {
    let stdout = "[00:00:05.000 --> 00:00:06.000] late\n\
                  [00:00:01.000 --> 00:00:02.000] early\n";
    let r = complete_subprocess(true, "", stdout);
    assert!(matches!(r, Err(WhisperError::EngineProtocolError(_))));
}

#[test]
fn subprocess_failed_exit_reports_transcription_error() {
    let r = complete_subprocess(false, "segfault", "[00:00:00.000 --> 00:00:01.000] x\n");
    assert!(matches!(r, Err(WhisperError::TranscriptionError(_))));
}

#[test]
fn binary_search_candidates() {
    assert_eq!(binary_names(), vec!["whisper", "main"]);
    assert_eq!(
        well_known_locations(),
        vec![
            "/usr/local/bin/whisper",
            "/usr/bin/whisper",
            "/opt/whisper/bin/whisper",
            "/usr/local/bin/main",
            "/usr/bin/main",
            "/opt/whisper/bin/main",
        ]
    );
    assert_eq!(
        build_dir_candidates("/tmp/out"),
        vec![
            "/tmp/out/whisper.cpp/build/bin/main",
            "/tmp/out/whisper.cpp/build/main",
            "/tmp/out/whisper.cpp/build/whisper",
        ]
    );
}

#[test]
fn first_existing_binary_wins() {
    let candidates = vec!["a".to_string(), "b".to_string(), "c".to_string()];
    assert_eq!(select_binary(&candidates, &vec![false, true, true]), Some(1));
    assert_eq!(select_binary(&candidates, &vec![true, false, false]), Some(0));
    assert_eq!(select_binary(&candidates, &vec![false, false, false]), None);
}
