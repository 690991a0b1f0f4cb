use whisper_wrapper_rust::{EngineProbe, WhisperContext, WhisperParams};

#[test]
fn test_params_creation() {
    // Test creating parameters
    let params = WhisperParams::new()
        .language("en")
        .translate(true)
        .output_format("txt");

    assert_eq!(params.get_language(), "en");
    assert_eq!(params.get_translate(), true);
    assert_eq!(params.get_output_format(), "txt");
}

#[test]
fn test_params_defaults() {
    let params = WhisperParams::new();
    assert_eq!(params.get_language(), "auto");
    assert_eq!(params.get_translate(), false);
    assert_eq!(params.get_output_format(), "txt");
    assert!(params.get_param("threads").is_none());
}

#[test]
fn test_params_extra_overrides() {
    let params = WhisperParams::new()
        .param("threads", "2")
        .param("beam", "5")
        .param("threads", "8");
    assert_eq!(params.get_param("threads"), Some(&"8".to_string()));
    assert_eq!(params.get_param("beam"), Some(&"5".to_string()));
    assert!(params.get_param("other").is_none());
}

#[test]
fn test_context_model_path() {
    let ctx = WhisperContext::new("models/ggml-base.bin", EngineProbe::Ready, 1).unwrap();
    assert_eq!(ctx.model_path(), "models/ggml-base.bin");
    assert!(ctx.is_active());
    assert_eq!(ctx.generation(), 1);
}
