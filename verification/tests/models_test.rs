use whisper_wrapper_rust::models::{
    filter_model_files, list_available_models, model_filename, model_url, models_dir_name,
};

#[test]
fn available_models_listed_in_order() {
    assert_eq!(
        list_available_models(),
        vec!["tiny", "base", "small", "medium", "large"]
    );
}

#[test]
fn known_model_urls() {
    assert_eq!(
        model_url("base").unwrap(),
        "https://huggingface.co/ggerganov/whisper.cpp/resolve/main/ggml-base.bin"
    );
    assert_eq!(
        model_url("large").unwrap(),
        "https://huggingface.co/ggerganov/whisper.cpp/resolve/main/ggml-large.bin"
    );
    assert!(model_url("enormous").is_none());
}

#[test]
fn model_cache_names() {
    assert_eq!(model_filename("tiny"), "ggml-tiny.bin");
    assert_eq!(models_dir_name(), ".whisper-models");
}

#[test]
fn only_model_files_kept() {
    let names = vec![
        "ggml-base.bin".to_string(),
        "notes.txt".to_string(),
        ".bin".to_string(),
        "ggml-tiny.bin".to_string(),
        "bin".to_string(),
    ];
    assert_eq!(
        filter_model_files(&names),
        vec!["ggml-base.bin", "ggml-tiny.bin"]
    );
}
