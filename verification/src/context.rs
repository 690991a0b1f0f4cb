//! Lifecycle-safe ownership of the foreign engine context.
//!
//! The opaque native handle is modeled by whether the context currently owns
//! a live engine resource and by how many times the underlying free routine
//! has been invoked for it; release is idempotent and never frees the
//! resource twice. The actual foreign entry points are driven by an
//! unverified adapter that reports what it observed as an `EngineProbe` or
//! as a native status code with raw segments.

use vstd::prelude::*;
use crate::builder::{build_post, NativeCall, ParameterBuilder};
use crate::error::{ErrorSpec, WhisperError};
use crate::params::WhisperParams;
use crate::text::{i64_dec, int_dec_spec};
use crate::transcript::{from_segments_post, Transcript, TranscriptSegment};

verus! {

/// What the engine adapter observed while initializing a model.
#[derive(Clone, Copy, Debug, PartialEq, Eq, Structural)]
pub enum EngineProbe {
    /// The model file does not exist.
    ModelMissing,
    /// The native initialization entry point returned a null context.
    InitFailed,
    /// Initialization succeeded and a live context is held.
    Ready,
}

/// The mathematical state of a context: the model path it was created from,
/// whether it still owns the live engine resource, its acquisition
/// generation, and how many times the underlying free routine was invoked.
#[verifier::ext_equal]
pub struct ContextSpec {
    pub model_path: Seq<char>,
    pub active: bool,
    pub generation: u64,
    pub frees: u64,
}

/// A context is well formed while the resource it owns has never been
/// freed, and a released context has been freed at most once.
pub open spec fn context_wf(c: ContextSpec) -> bool {
    &&& c.active ==> c.frees == 0
    &&& c.frees <= 1
}

/// The effect of one release on a context: the resource is no longer owned,
/// and the free routine ran exactly once more if the context still owned it.
pub open spec fn release_step(c: ContextSpec) -> ContextSpec {
    ContextSpec {
        active: false,
        frees: if c.active {
            (c.frees + 1) as u64
        } else {
            c.frees
        },
        ..c
    }
}

/// Exactly what acquiring a context returns: a missing model file fails
/// first; a model path the foreign boundary cannot encode is rejected before
/// any call; a null context from the native side is an initialization
/// failure; otherwise the returned context exclusively owns the live
/// resource.
pub open spec fn acquire_post(
    model_path: Seq<char>,
    probe: EngineProbe,
    generation: u64,
    r: Result<WhisperContext, WhisperError>,
) -> bool {
    match probe {
        EngineProbe::ModelMissing => r matches Err(e) && e@ == ErrorSpec::ModelMissing(model_path),
        EngineProbe::InitFailed => if model_path.contains('\0') {
            r matches Err(e) && e@ == ErrorSpec::Initialization("Invalid model path"@)
        } else {
            r matches Err(e) && e@ == (ErrorSpec::ModelLoad {
                path: model_path,
                message: "Failed to initialize model"@,
            })
        },
        EngineProbe::Ready => if model_path.contains('\0') {
            r matches Err(e) && e@ == ErrorSpec::Initialization("Invalid model path"@)
        } else {
            r matches Ok(c) && c@ == (ContextSpec {
                model_path: model_path,
                active: true,
                generation: generation,
                frees: 0,
            })
        },
    }
}

/// A context for one loaded model inside the engine.
#[derive(Debug)]
pub struct WhisperContext {
    model_path: String,
    active: bool,
    generation: u64,
    frees: u64,
}

impl View for WhisperContext {
    type V = ContextSpec;

    closed spec fn view(&self) -> ContextSpec {
        ContextSpec {
            model_path: self.model_path@,
            active: self.active,
            generation: self.generation,
            frees: self.frees,
        }
    }
}

/// Decides whether a path holds a character the foreign boundary cannot
/// carry inside a null-terminated string.
fn contains_nul(s: &str) -> (r: bool)
    ensures
        r == s@.contains('\0'),
{
    let n = s.unicode_len();
    let mut i: usize = 0;
    while i < n
        invariant
            i <= n,
            n == s@.len(),
            forall|j: int| 0 <= j < i ==> s@[j] != '\0',
        decreases n - i,
    {
        if s.get_char(i) == '\0' {
            return true;
        }
        i = i + 1;
    }
    proof {
        assert(!s@.contains('\0')) by {
            if s@.contains('\0') {
                let j = choose|j: int| 0 <= j < s@.len() && s@[j] == '\0';
                assert(s@[j] != '\0');
            }
        }
    }
    false
}

impl WhisperContext {
    /// Interpret what the adapter observed while initializing the model at
    /// `model_path`, taking exclusive ownership of the live resource on
    /// success and stamping it with the given acquisition generation.
    pub fn new(model_path: &str, probe: EngineProbe, generation: u64) -> (r: Result<
        WhisperContext,
        WhisperError,
    >)
        ensures
            acquire_post(model_path@, probe, generation, r),
            r matches Ok(c) ==> context_wf(c@),
    {
        match probe {
            EngineProbe::ModelMissing => Err(WhisperError::ModelNotFound(model_path.to_owned())),
            EngineProbe::InitFailed => {
                if contains_nul(model_path) {
                    Err(WhisperError::InitializationError("Invalid model path".to_owned()))
                } else {
                    Err(WhisperError::ModelLoadError {
                        path: model_path.to_owned(),
                        message: "Failed to initialize model".to_owned(),
                    })
                }
            },
            EngineProbe::Ready => {
                if contains_nul(model_path) {
                    Err(WhisperError::InitializationError("Invalid model path".to_owned()))
                } else {
                    let c = WhisperContext {
                        model_path: model_path.to_owned(),
                        active: true,
                        generation: generation,
                        frees: 0,
                    };
                    proof {
                        assert(c@ =~= (ContextSpec {
                            model_path: model_path@,
                            active: true,
                            generation: generation,
                            frees: 0,
                        }));
                    }
                    Ok(c)
                }
            },
        }
    }

    /// The model path used at construction, for diagnostics.
    pub fn model_path(&self) -> (r: &str)
        ensures
            r@ == self@.model_path,
    {
        self.model_path.as_str()
    }

    /// Whether the context still owns the live engine resource.
    pub fn is_active(&self) -> (r: bool)
        ensures
            r == self@.active,
    {
        self.active
    }

    /// The acquisition generation stamped on this context.
    pub fn generation(&self) -> (r: u64)
        ensures
            r == self@.generation,
    {
        self.generation
    }

    /// How many times the underlying free routine has been invoked for the
    /// resource this context was created with; for leak detection in tests.
    pub fn free_count(&self) -> (r: u64)
        ensures
            r == self@.frees,
    {
        self.frees
    }

    /// Release the engine resource. Idempotent: releasing an already
    /// released context is a no-op and never frees the resource twice.
    pub fn release(&mut self)
        requires
            context_wf(old(self)@),
        ensures
            final(self)@ == release_step(old(self)@),
            context_wf(final(self)@),
    {
        if self.active {
            self.active = false;
            self.frees = self.frees + 1;
        }
        proof {
            assert(self@ =~= release_step(old(self)@));
        }
    }

    /// Validate one transcription request against this context and marshal
    /// its parameters: a missing audio file short-circuits before any
    /// foreign work, and an unsupported output format fails fast.
    pub fn begin_transcription(
        &self,
        audio_path: &str,
        audio_exists: bool,
        params: &WhisperParams,
    ) -> (r: Result<NativeCall, WhisperError>)
        requires
            self@.active,
        ensures
            !audio_exists ==> (r matches Err(e) && e@ == ErrorSpec::AudioMissing(audio_path@)),
            audio_exists ==> build_post(params@, r),
    {
        if !audio_exists {
            return Err(WhisperError::AudioNotFound(audio_path.to_owned()));
        }
        ParameterBuilder::build(params)
    }

    /// Normalize the outcome of the foreign transcription call: a non-zero
    /// status is a transcription error carrying the status; otherwise the
    /// segments read back from the engine form the transcript, provided
    /// they are well formed and in order.
    pub fn finish_transcription(&self, status: i32, segments: Vec<TranscriptSegment>) -> (r: Result<
        Transcript,
        WhisperError,
    >)
        requires
            self@.active,
        ensures
            status != 0 ==> (r matches Err(e) && e@ == ErrorSpec::Transcription(
                "whisper_full returned "@ + int_dec_spec(status as int),
            )),
            status == 0 ==> from_segments_post(segments.deep_view(), r),
    {
        if status != 0 {
            let mut message: String = "whisper_full returned ".to_owned();
            let digits = i64_dec(status as i64);
            message.append(digits.as_str());
            Err(WhisperError::TranscriptionError(message))
        } else {
            Transcript::from_segments(segments)
        }
    }
}

/// Acquiring a context and releasing it twice is safe: the second release
/// changes nothing, and the underlying resource is freed exactly once.
pub proof fn lemma_release_idempotent(c: ContextSpec)
    requires
        c.active,
        c.frees == 0,
    ensures
        release_step(c).frees == 1,
        !release_step(c).active,
        release_step(release_step(c)) == release_step(c),
{
    assert(release_step(release_step(c)) =~= release_step(c));
}

/// Hands out engine contexts and stamps each successful acquisition with a
/// monotonically increasing generation.
#[derive(Debug)]
pub struct EngineRuntime {
    acquisitions: u64,
}

impl View for EngineRuntime {
    type V = u64;

    closed spec fn view(&self) -> u64 {
        self.acquisitions
    }
}

impl EngineRuntime {
    /// A runtime that has acquired nothing yet.
    pub fn new() -> (r: EngineRuntime)
        ensures
            r@ == 0,
    {
        EngineRuntime { acquisitions: 0 }
    }

    /// How many successful acquisitions this runtime has stamped.
    pub fn acquisitions(&self) -> (r: u64)
        ensures
            r == self@,
    {
        self.acquisitions
    }

    /// Acquire a context for a model, incrementing the generation counter
    /// exactly on success.
    pub fn acquire(&mut self, model_path: &str, probe: EngineProbe) -> (r: Result<
        WhisperContext,
        WhisperError,
    >)
        requires
            old(self)@ < u64::MAX,
        ensures
            acquire_post(model_path@, probe, (old(self)@ + 1) as u64, r),
            r matches Ok(c) ==> context_wf(c@) && final(self)@ == old(self)@ + 1,
            r matches Err(_) ==> final(self)@ == old(self)@,
    {
        let generation = self.acquisitions + 1;
        match WhisperContext::new(model_path, probe, generation) {
            Ok(c) => {
                self.acquisitions = generation;
                Ok(c)
            },
            Err(e) => Err(e),
        }
    }
}

} // verus!
