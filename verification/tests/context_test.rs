use whisper_wrapper_rust::builder::ParameterBuilder;
use whisper_wrapper_rust::{
    EngineProbe, EngineRuntime, Transcript, TranscriptSegment, WhisperContext, WhisperError,
    WhisperParams,
};

#[test]
fn acquire_release_release_is_idempotent() {
    let mut ctx = WhisperContext::new("m.bin", EngineProbe::Ready, 1).unwrap();
    assert!(ctx.is_active());
    assert_eq!(ctx.free_count(), 0);
    ctx.release();
    assert!(!ctx.is_active());
    assert_eq!(ctx.free_count(), 1);
    ctx.release();
    assert!(!ctx.is_active());
    // The underlying resource was freed exactly once.
    assert_eq!(ctx.free_count(), 1);
}

#[test]
fn acquire_missing_model_fails() {
    let r = WhisperContext::new("absent.bin", EngineProbe::ModelMissing, 1);
    match r {
        Err(WhisperError::ModelNotFound(p)) => assert_eq!(p, "absent.bin"),
        other => panic!("expected ModelNotFound, got {:?}", other),
    }
}

#[test]
fn acquire_native_failure_reported() {
    let r = WhisperContext::new("corrupt.bin", EngineProbe::InitFailed, 1);
    match r {
        Err(WhisperError::ModelLoadError { path, message }) => {
            assert_eq!(path, "corrupt.bin");
            assert_eq!(message, "Failed to initialize model");
        },
        other => panic!("expected ModelLoadError, got {:?}", other),
    }
}

#[test]
fn acquire_unencodable_path_rejected() {
    let r = WhisperContext::new("bad\0path.bin", EngineProbe::Ready, 1);
    assert!(matches!(r, Err(WhisperError::InitializationError(_))));
}

#[test]
fn runtime_generations_increase_only_on_success() {
    let mut rt = EngineRuntime::new();
    assert_eq!(rt.acquisitions(), 0);
    let a = rt.acquire("a.bin", EngineProbe::Ready).unwrap();
    assert_eq!(a.generation(), 1);
    let failed = rt.acquire("b.bin", EngineProbe::ModelMissing);
    assert!(failed.is_err());
    assert_eq!(rt.acquisitions(), 1);
    let b = rt.acquire("c.bin", EngineProbe::Ready).unwrap();
    assert_eq!(b.generation(), 2);
    assert_eq!(rt.acquisitions(), 2);
}

#[test]
fn missing_audio_fails_before_any_foreign_call() {
    let ctx = WhisperContext::new("m.bin", EngineProbe::Ready, 1).unwrap();
    let params = WhisperParams::new();
    // A spy standing in for the foreign entry point.
    let mut foreign_calls = 0;
    let r = ctx.begin_transcription("missing.wav", false, &params);
    match &r {
        Err(WhisperError::AudioNotFound(p)) => assert_eq!(p, "missing.wav"),
        other => panic!("expected AudioNotFound, got {:?}", other),
    }
    if let Ok(call) = r {
        // Only a successfully validated request reaches the engine.
        let _ = &call;
        foreign_calls += 1;
    }
    assert_eq!(foreign_calls, 0);
}

#[test]
fn unsupported_format_fails_before_any_foreign_call() {
    let ctx = WhisperContext::new("m.bin", EngineProbe::Ready, 1).unwrap();
    let params = WhisperParams::new().output_format("xml");
    let r = ctx.begin_transcription("a.wav", true, &params);
    match r {
        Err(WhisperError::UnsupportedOutputFormat(f)) => assert_eq!(f, "xml"),
        other => panic!("expected UnsupportedOutputFormat, got {:?}", other),
    }
}

#[test]
fn builder_buffers_stable_across_mocked_call() {
    let params = WhisperParams::new().language("es").translate(true);
    let call = ParameterBuilder::build(&params).unwrap();
    // The language buffer holds the encoded selector, null-terminated.
    let before = call.buffer_bytes();
    assert_eq!(before, vec![b'e', b's', 0]);
    // A mocked foreign call borrows the bundle and reports success.
    let mock_engine = |c: &whisper_wrapper_rust::builder::NativeCall| -> i32 {
        assert!(c.params.language_set);
        assert!(c.params.translate);
        0
    };
    let status = mock_engine(&call);
    assert_eq!(status, 0);
    let after = call.buffer_bytes();
    assert_eq!(before, after);
}

#[test]
fn builder_auto_language_leaves_pointer_unset() {
    let params = WhisperParams::new();
    let call = ParameterBuilder::build(&params).unwrap();
    assert!(!call.params.language_set);
    assert!(call.buffers.language.is_none());
    assert_eq!(call.params.strategy, 0);
    assert_eq!(call.buffer_bytes(), Vec::<u8>::new());
}

#[test]
fn builder_rejects_unsupported_format() {
    let params = WhisperParams::new().output_format("xml");
    let r = ParameterBuilder::build(&params);
    match r {
        Err(WhisperError::UnsupportedOutputFormat(f)) => assert_eq!(f, "xml"),
        other => panic!("expected UnsupportedOutputFormat, got {:?}", other),
    }
}

#[test]
fn builder_rejects_language_with_interior_nul() {
    let params = WhisperParams::new().language("e\0s");
    let r = ParameterBuilder::build(&params);
    assert!(matches!(r, Err(WhisperError::InitializationError(_))));
}

#[test]
fn finish_transcription_maps_status_and_segments() {
    let ctx = WhisperContext::new("m.bin", EngineProbe::Ready, 1).unwrap();
    let r = ctx.finish_transcription(7, Vec::new());
    match r {
        Err(WhisperError::TranscriptionError(m)) => {
            assert_eq!(m, "whisper_full returned 7")
        },
        other => panic!("expected TranscriptionError, got {:?}", other),
    }
    let segs = vec![
        TranscriptSegment { start_ms: 0, end_ms: 800, text: "one".to_string() },
        TranscriptSegment { start_ms: 800, end_ms: 1600, text: "two".to_string() },
    ];
    let t: Transcript = ctx.finish_transcription(0, segs).unwrap();
    assert_eq!(t.to_text(), "one\ntwo");
    let disordered = vec![
        TranscriptSegment { start_ms: 9, end_ms: 10, text: "late".to_string() },
        TranscriptSegment { start_ms: 0, end_ms: 1, text: "early".to_string() },
    ];
    let r = ctx.finish_transcription(0, disordered);
    assert!(matches!(r, Err(WhisperError::EngineProtocolError(_))));
}

#[test]
fn error_messages_render() {
    let e = WhisperError::AudioNotFound("x.wav".to_string());
    assert_eq!(e.message(), "Audio file not found: x.wav");
    let e = WhisperError::ModelLoadError {
        path: "m.bin".to_string(),
        message: "bad magic".to_string(),
    };
    assert_eq!(e.message(), "Failed to load model from m.bin: bad magic");
    let e = WhisperError::UnsupportedOutputFormat("xml".to_string());
    assert_eq!(e.message(), "Unsupported output format: xml");
    let e = WhisperError::InitializationError("Invalid model path".to_string());
    assert_eq!(
        e.message(),
        "Failed to initialize whisper context: Invalid model path"
    );
    let e = WhisperError::TranscriptionError("whisper_full returned 1".to_string());
    assert_eq!(e.message(), "Failed to transcribe audio: whisper_full returned 1");
    let e = WhisperError::DownloadError("connection reset".to_string());
    assert_eq!(e.message(), "Failed to download model: connection reset");
    let e = WhisperError::ModelNotFound("m.bin".to_string());
    assert_eq!(e.message(), "Model file not found: m.bin");
    let e = WhisperError::UnsupportedAudioFormat("ogg".to_string());
    assert_eq!(e.message(), "Unsupported audio format: ogg");
    let e = WhisperError::EngineProtocolError("malformed or out-of-order segments".to_string());
    assert_eq!(
        e.message(),
        "Engine protocol error: malformed or out-of-order segments"
    );
    let e = WhisperError::IoError("permission denied".to_string());
    assert_eq!(e.message(), "IO error: permission denied");
    let e = WhisperError::Other("misc".to_string());
    assert_eq!(e.message(), "misc");
}
