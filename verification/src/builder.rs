//! Marshalling a transcription configuration into the native parameter
//! representation for one foreign call.
//!
//! The native structure embeds a raw pointer to a null-terminated language
//! string. Here the pointer is modeled by whether it is set, and the bytes it
//! must point at live in `NativeCallBuffers`, bundled with the parameters
//! into one `NativeCall` value so the backing buffers cannot be dropped
//! before the call that reads them returns.

use vstd::prelude::*;
use vstd::utf8::encode_utf8;
use crate::error::{ErrorSpec, WhisperError};
use crate::params::{ParamsSpec, WhisperParams};
use crate::text::str_eq;

verus! {

/// Whether the output-format selector is one the engine understands.
pub open spec fn format_supported(f: Seq<char>) -> bool {
    f == "txt"@ || f == "srt"@ || f == "vtt"@ || f == "json"@
}

/// Decides `format_supported`.
pub fn is_format_supported(f: &str) -> (r: bool)
    ensures
        r == format_supported(f@),
{
    str_eq(f, "txt") || str_eq(f, "srt") || str_eq(f, "vtt") || str_eq(f, "json")
}

/// The native parameter structure handed to the foreign transcription entry
/// point, with its embedded string pointer modeled by whether it is set.
#[derive(Debug)]
pub struct NativeParams {
    /// The sampling strategy selector; zero is the deterministic greedy
    /// strategy, the only one this library requests.
    pub strategy: u8,
    /// Whether the language pointer is set (non-null). The bytes it points
    /// at are the `language` buffer of the bundled `NativeCallBuffers`.
    pub language_set: bool,
    /// Whether the engine should translate the audio to English.
    pub translate: bool,
}

/// The owned byte buffers that back every string pointer embedded in
/// `NativeParams`; they must outlive the foreign call that reads them.
#[derive(Debug)]
pub struct NativeCallBuffers {
    /// The null-terminated language selector bytes, present exactly when the
    /// language pointer is set.
    pub language: Option<Vec<u8>>,
}

/// One foreign call's parameters and their backing buffers, bundled so the
/// buffers live as long as the parameter structure that points into them.
#[derive(Debug)]
pub struct NativeCall {
    pub params: NativeParams,
    pub buffers: NativeCallBuffers,
}

/// A well-formed native call: greedy strategy, and the language pointer set
/// exactly when a buffer backs it, that buffer being null-terminated with no
/// interior null.
pub open spec fn native_call_wf(c: NativeCall) -> bool {
    &&& c.params.strategy == 0
    &&& (c.params.language_set <==> c.buffers.language is Some)
    &&& match c.buffers.language {
        Some(b) => b@.len() > 0 && b@.last() == 0 && !b@.drop_last().contains(0),
        None => true,
    }
}

/// Exactly what `ParameterBuilder::build` returns for a configuration: an
/// unsupported output format fails fast; a language with an interior null
/// cannot be encoded for the foreign boundary; otherwise the call value
/// carries the configuration, the language buffer filled and terminated
/// unless the language is `"auto"`.
pub open spec fn build_post(p: ParamsSpec, r: Result<NativeCall, WhisperError>) -> bool {
    if !format_supported(p.output_format) {
        r matches Err(e) && e@ == ErrorSpec::UnsupportedOutput(p.output_format)
    } else if p.language != "auto"@ && encode_utf8(p.language).contains(0) {
        r matches Err(e) && e@ == ErrorSpec::Initialization("Invalid language string"@)
    } else {
        r matches Ok(c) && {
            &&& native_call_wf(c)
            &&& c.params.translate == p.translate
            &&& if p.language == "auto"@ {
                !c.params.language_set
            } else {
                c.params.language_set && (c.buffers.language matches Some(b) && b@ == encode_utf8(
                    p.language,
                ).push(0u8))
            }
        }
    }
}

/// The byte image of a call's backing buffers, used to observe that they
/// stay intact across the foreign call.
pub open spec fn buffers_bytes_spec(b: NativeCallBuffers) -> Seq<u8> {
    match b.language {
        Some(v) => v@,
        None => Seq::empty(),
    }
}

impl NativeCall {
    /// The byte image of the backing buffers.
    pub fn buffer_bytes(&self) -> (r: Vec<u8>)
        ensures
            r@ == buffers_bytes_spec(self.buffers),
    {
        let mut out: Vec<u8> = Vec::new();
        match &self.buffers.language {
            Some(v) => {
                let n = v.len();
                let mut i: usize = 0;
                while i < n
                    invariant
                        i <= n,
                        n == v.len(),
                        out@ == v@.take(i as int),
                    decreases n - i,
                {
                    out.push(v[i]);
                    proof {
                        assert(out@ =~= v@.take(i as int + 1));
                    }
                    i = i + 1;
                }
                proof {
                    assert(v@.take(n as int) =~= v@);
                }
            },
            None => {
                proof {
                    assert(out@ =~= Seq::<u8>::empty());
                }
            },
        }
        out
    }
}

/// Converts a safe, owned transcription configuration into the native
/// parameter representation, keeping the backing byte buffers alive for the
/// call's duration by bundling them with the parameters.
pub struct ParameterBuilder {}

impl ParameterBuilder {
    /// Build the native call value for a configuration.
    pub fn build(config: &WhisperParams) -> (r: Result<NativeCall, WhisperError>)
        ensures
            build_post(config@, r),
    {
        if !is_format_supported(config.get_output_format()) {
            return Err(WhisperError::UnsupportedOutputFormat(config.get_output_format().to_owned()));
        }
        if str_eq(config.get_language(), "auto") {
            Ok(NativeCall {
                params: NativeParams { strategy: 0, language_set: false, translate: config.get_translate() },
                buffers: NativeCallBuffers { language: None },
            })
        } else {
            let mut bytes = config.get_language().as_bytes_vec();
            let n = bytes.len();
            let mut i: usize = 0;
            while i < n
                invariant
                    i <= n,
                    n == bytes.len(),
                    format_supported(config@.output_format),
                    config@.language != "auto"@,
                    bytes@ == encode_utf8(config@.language),
                    forall|j: int| 0 <= j < i ==> bytes@[j] != 0,
                decreases n - i,
            {
                if bytes[i] == 0 {
                    proof {
                        assert(encode_utf8(config@.language)[i as int] == 0);
                        assert(encode_utf8(config@.language).contains(0));
                    }
                    return Err(WhisperError::InitializationError(
                        "Invalid language string".to_owned(),
                    ));
                }
                i = i + 1;
            }
            proof {
                assert(!encode_utf8(config@.language).contains(0)) by {
                    if encode_utf8(config@.language).contains(0) {
                        let j = choose|j: int|
                            0 <= j < bytes@.len() && bytes@[j] == 0;
                        assert(bytes@[j] != 0);
                    }
                }
            }
            bytes.push(0);
            let call = NativeCall {
                params: NativeParams { strategy: 0, language_set: true, translate: config.get_translate() },
                buffers: NativeCallBuffers { language: Some(bytes) },
            };
            proof {
                let b = call.buffers.language->Some_0;
                assert(b@ == encode_utf8(config@.language).push(0u8));
                assert(b@.last() == 0);
                assert(b@.drop_last() =~= encode_utf8(config@.language));
                assert(native_call_wf(call));
            }
            Ok(call)
        }
    }
}

/// The backing buffers of a built native call are byte-identical before and
/// after the foreign call they outlive: their byte image is a function of
/// the bundled value alone, and the bundle is borrowed, never consumed, by
/// the call.
pub proof fn lemma_buffers_stable(c: NativeCall, before: Seq<u8>, after: Seq<u8>)
    requires
        before == buffers_bytes_spec(c.buffers),
        after == buffers_bytes_spec(c.buffers),
    ensures
        before == after,
{
}

} // verus!
