//! The closed error taxonomy that every backend failure is normalized into.
//!
//! No raw native status code or process exit code escapes the library: each
//! is converted at the point of the call into one of these variants.

use vstd::prelude::*;

verus! {

/// Errors that can occur when driving the speech engine.
#[derive(Debug, Clone)]
pub enum WhisperError {
    /// Malformed inputs rejected before any foreign call (e.g. an
    /// unencodable path).
    InitializationError(String),
    /// The native initialization entry point reported failure.
    ModelLoadError { path: String, message: String },
    /// A non-zero native status or a non-zero engine process exit.
    TranscriptionError(String),
    /// A model retrieval failure, reported by the download collaborator.
    DownloadError(String),
    /// The model file does not exist.
    ModelNotFound(String),
    /// The audio file does not exist.
    AudioNotFound(String),
    /// The audio file format is not supported.
    UnsupportedAudioFormat(String),
    /// The requested output format is not one of the supported selectors.
    UnsupportedOutputFormat(String),
    /// A backend produced malformed or out-of-order output.
    EngineProtocolError(String),
    /// A filesystem failure, reported by an adapter.
    IoError(String),
    /// Any other error.
    Other(String),
}

/// The mathematical shape of a `WhisperError`: the same variants over
/// character sequences.
pub enum ErrorSpec {
    Initialization(Seq<char>),
    ModelLoad { path: Seq<char>, message: Seq<char> },
    Transcription(Seq<char>),
    Download(Seq<char>),
    ModelMissing(Seq<char>),
    AudioMissing(Seq<char>),
    UnsupportedAudio(Seq<char>),
    UnsupportedOutput(Seq<char>),
    Protocol(Seq<char>),
    Io(Seq<char>),
    Other(Seq<char>),
}

impl View for WhisperError {
    type V = ErrorSpec;

    open spec fn view(&self) -> ErrorSpec {
        match self {
            WhisperError::InitializationError(m) => ErrorSpec::Initialization(m@),
            WhisperError::ModelLoadError { path, message } => ErrorSpec::ModelLoad {
                path: path@,
                message: message@,
            },
            WhisperError::TranscriptionError(m) => ErrorSpec::Transcription(m@),
            WhisperError::DownloadError(m) => ErrorSpec::Download(m@),
            WhisperError::ModelNotFound(p) => ErrorSpec::ModelMissing(p@),
            WhisperError::AudioNotFound(p) => ErrorSpec::AudioMissing(p@),
            WhisperError::UnsupportedAudioFormat(m) => ErrorSpec::UnsupportedAudio(m@),
            WhisperError::UnsupportedOutputFormat(m) => ErrorSpec::UnsupportedOutput(m@),
            WhisperError::EngineProtocolError(m) => ErrorSpec::Protocol(m@),
            WhisperError::IoError(m) => ErrorSpec::Io(m@),
            WhisperError::Other(m) => ErrorSpec::Other(m@),
        }
    }
}

impl WhisperError {
    /// A human-readable rendering of the error, stated exactly: a fixed
    /// prefix per variant followed by the variant's own text.
    pub fn message(&self) -> (r: String)
        ensures
            r@ == match self@ {
                ErrorSpec::Initialization(m) => "Failed to initialize whisper context: "@ + m,
                ErrorSpec::ModelLoad { path, message } => "Failed to load model from "@ + path
                    + ": "@ + message,
                ErrorSpec::Transcription(m) => "Failed to transcribe audio: "@ + m,
                ErrorSpec::Download(m) => "Failed to download model: "@ + m,
                ErrorSpec::ModelMissing(p) => "Model file not found: "@ + p,
                ErrorSpec::AudioMissing(p) => "Audio file not found: "@ + p,
                ErrorSpec::UnsupportedAudio(m) => "Unsupported audio format: "@ + m,
                ErrorSpec::UnsupportedOutput(m) => "Unsupported output format: "@ + m,
                ErrorSpec::Protocol(m) => "Engine protocol error: "@ + m,
                ErrorSpec::Io(m) => "IO error: "@ + m,
                ErrorSpec::Other(m) => m,
            },
    {
        match self {
            WhisperError::InitializationError(m) => "Failed to initialize whisper context: "
                .to_owned()
                .concat(m.as_str()),
            WhisperError::ModelLoadError { path, message } => "Failed to load model from "
                .to_owned()
                .concat(path.as_str())
                .concat(": ")
                .concat(message.as_str()),
            WhisperError::TranscriptionError(m) => "Failed to transcribe audio: ".to_owned()
                .concat(m.as_str()),
            WhisperError::DownloadError(m) => "Failed to download model: ".to_owned().concat(
                m.as_str(),
            ),
            WhisperError::ModelNotFound(p) => "Model file not found: ".to_owned().concat(
                p.as_str(),
            ),
            WhisperError::AudioNotFound(p) => "Audio file not found: ".to_owned().concat(
                p.as_str(),
            ),
            WhisperError::UnsupportedAudioFormat(m) => "Unsupported audio format: ".to_owned()
                .concat(m.as_str()),
            WhisperError::UnsupportedOutputFormat(m) => "Unsupported output format: ".to_owned()
                .concat(m.as_str()),
            WhisperError::EngineProtocolError(m) => "Engine protocol error: ".to_owned().concat(
                m.as_str(),
            ),
            WhisperError::IoError(m) => "IO error: ".to_owned().concat(m.as_str()),
            WhisperError::Other(m) => m.clone(),
        }
    }
}

} // verus!
