//! A lifecycle-safe bridge to an external speech-recognition engine.
//!
//! The library models the engine-facing logic: marshalling transcription
//! parameters for a foreign call, owning the engine handle's lifecycle,
//! assembling the argument vector for an external engine process, parsing
//! engine output into an ordered transcript, and normalizing every failure
//! signal into one closed error taxonomy. The actual foreign call, process
//! spawning and file probing are performed by thin unverified adapters that
//! feed plain values into these functions.

pub mod backend;
pub mod builder;
pub mod context;
pub mod error;
pub mod models;
pub mod output;
pub mod params;
pub mod text;
pub mod transcript;

pub use context::{EngineProbe, EngineRuntime, WhisperContext};
pub use error::WhisperError;
pub use params::WhisperParams;
pub use transcript::{Transcript, TranscriptSegment};
