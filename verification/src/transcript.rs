//! The backend-agnostic transcription result: an ordered sequence of timed
//! segments, with pure renderers to flat text, SRT, VTT and JSON.
//!
//! The ordering invariant is enforced at construction: segments are accepted
//! only with non-decreasing start times and with each start no later than its
//! end; a backend that hands anything else over has broken the engine
//! protocol.

use vstd::prelude::*;
use crate::error::{ErrorSpec, WhisperError};
use crate::text::{dec_spec, pad2_spec, pad3_spec, u64_dec, u64_pad2, u64_pad3};

verus! {

/// One timed unit of recognized text. Times are in milliseconds.
#[derive(Debug, Clone)]
pub struct TranscriptSegment {
    pub start_ms: u64,
    pub end_ms: u64,
    pub text: String,
}

/// The mathematical value of a segment.
#[verifier::ext_equal]
pub struct SegmentSpec {
    pub start_ms: u64,
    pub end_ms: u64,
    pub text: Seq<char>,
}

impl View for TranscriptSegment {
    type V = SegmentSpec;

    open spec fn view(&self) -> SegmentSpec {
        SegmentSpec { start_ms: self.start_ms, end_ms: self.end_ms, text: self.text@ }
    }
}

impl DeepView for TranscriptSegment {
    type V = SegmentSpec;

    open spec fn deep_view(&self) -> SegmentSpec {
        self.view()
    }
}

/// A segment is well formed when it does not end before it starts.
pub open spec fn segment_wf(s: SegmentSpec) -> bool {
    s.start_ms <= s.end_ms
}

/// Segments are acceptable when each is well formed and their start times
/// never decrease.
pub open spec fn segments_ordered(ss: Seq<SegmentSpec>) -> bool {
    &&& forall|i: int| 0 <= i < ss.len() ==> segment_wf(#[trigger] ss[i])
    &&& forall|i: int| 1 <= i < ss.len() ==> (#[trigger] ss[i]).start_ms >= ss[i - 1].start_ms
}

/// An ordered sequence of timed segments.
#[derive(Debug, Clone)]
pub struct Transcript {
    segments: Vec<TranscriptSegment>,
}

impl View for Transcript {
    type V = Seq<SegmentSpec>;

    closed spec fn view(&self) -> Seq<SegmentSpec> {
        self.segments.deep_view()
    }
}

/// Exactly what `Transcript::from_segments` returns: the transcript itself
/// for an ordered sequence, an engine protocol error otherwise.
pub open spec fn from_segments_post(
    ss: Seq<SegmentSpec>,
    r: Result<Transcript, WhisperError>,
) -> bool {
    if segments_ordered(ss) {
        r matches Ok(t) && t@ == ss
    } else {
        r matches Err(e) && e@ == ErrorSpec::Protocol("malformed or out-of-order segments"@)
    }
}

/// The flat text rendering: the segment texts joined by single newlines.
pub open spec fn text_spec(ss: Seq<SegmentSpec>) -> Seq<char>
    decreases ss.len(),
{
    if ss.len() == 0 {
        Seq::empty()
    } else if ss.len() == 1 {
        ss[0].text
    } else {
        text_spec(ss.drop_last()) + seq!['\n'] + ss.last().text
    }
}

/// A subtitle timestamp: hours, minutes, seconds and milliseconds, the first
/// three zero-padded to two digits, the last to three, with the given
/// separator before the milliseconds.
pub open spec fn timestamp_spec(ms: nat, sep: char) -> Seq<char> {
    pad2_spec(ms / 3600000) + seq![':'] + pad2_spec((ms / 60000) % 60) + seq![':'] + pad2_spec(
        (ms / 1000) % 60,
    ) + seq![sep] + pad3_spec(ms % 1000)
}

/// One SRT cue: a one-based index line, a time range line with comma
/// separators, the text, and a blank line.
pub open spec fn srt_entry_spec(s: SegmentSpec, index: nat) -> Seq<char> {
    dec_spec(index) + seq!['\n'] + timestamp_spec(s.start_ms as nat, ',') + seq![
        ' ',
        '-',
        '-',
        '>',
        ' ',
    ] + timestamp_spec(s.end_ms as nat, ',') + seq!['\n'] + s.text + seq!['\n', '\n']
}

/// The first `n` SRT cues.
pub open spec fn srt_upto(ss: Seq<SegmentSpec>, n: int) -> Seq<char>
    decreases n,
{
    if n <= 0 {
        Seq::empty()
    } else {
        srt_upto(ss, n - 1) + srt_entry_spec(ss[n - 1], n as nat)
    }
}

/// The SRT rendering: every cue in order.
pub open spec fn srt_spec(ss: Seq<SegmentSpec>) -> Seq<char> {
    srt_upto(ss, ss.len() as int)
}

/// One VTT cue: a time range line with dot separators, the text, and a blank
/// line.
pub open spec fn vtt_entry_spec(s: SegmentSpec) -> Seq<char> {
    timestamp_spec(s.start_ms as nat, '.') + seq![' ', '-', '-', '>', ' '] + timestamp_spec(
        s.end_ms as nat,
        '.',
    ) + seq!['\n'] + s.text + seq!['\n', '\n']
}

/// The first `n` VTT cues.
pub open spec fn vtt_upto(ss: Seq<SegmentSpec>, n: int) -> Seq<char>
    decreases n,
{
    if n <= 0 {
        Seq::empty()
    } else {
        vtt_upto(ss, n - 1) + vtt_entry_spec(ss[n - 1])
    }
}

/// The VTT rendering: the `WEBVTT` header, a blank line, then every cue.
pub open spec fn vtt_spec(ss: Seq<SegmentSpec>) -> Seq<char> {
    "WEBVTT"@ + seq!['\n', '\n'] + vtt_upto(ss, ss.len() as int)
}

/// The JSON escaping of one character: quotes, backslashes and the common
/// control characters get a backslash escape; everything else stands as is.
pub open spec fn json_escape_char(c: char) -> Seq<char> {
    if c == '"' {
        seq!['\\', '"']
    } else if c == '\\' {
        seq!['\\', '\\']
    } else if c == '\n' {
        seq!['\\', 'n']
    } else if c == '\r' {
        seq!['\\', 'r']
    } else if c == '\t' {
        seq!['\\', 't']
    } else {
        seq![c]
    }
}

/// The JSON escaping of a text, character by character.
pub open spec fn json_escape(t: Seq<char>) -> Seq<char>
    decreases t.len(),
{
    if t.len() == 0 {
        Seq::empty()
    } else {
        json_escape(t.drop_last()) + json_escape_char(t.last())
    }
}

/// One JSON object with the segment's start, end and escaped text.
pub open spec fn json_entry_spec(s: SegmentSpec) -> Seq<char> {
    "{\"start\":"@ + dec_spec(s.start_ms as nat) + ",\"end\":"@ + dec_spec(s.end_ms as nat)
        + ",\"text\":\""@ + json_escape(s.text) + seq!['"', '}']
}

/// The first `n` JSON objects, comma-separated.
pub open spec fn json_upto(ss: Seq<SegmentSpec>, n: int) -> Seq<char>
    decreases n,
{
    if n <= 0 {
        Seq::empty()
    } else if n == 1 {
        json_entry_spec(ss[0])
    } else {
        json_upto(ss, n - 1) + seq![','] + json_entry_spec(ss[n - 1])
    }
}

/// The JSON rendering: an array of one object per segment.
pub open spec fn json_spec(ss: Seq<SegmentSpec>) -> Seq<char> {
    seq!['['] + json_upto(ss, ss.len() as int) + seq![']']
}

/// Renders a subtitle timestamp.
fn render_timestamp(ms: u64, sep: char) -> (s: String)
    ensures
        s@ == timestamp_spec(ms as nat, sep),
{
    let mut s = u64_pad2(ms / 3600000);
    s.push(':');
    let minutes = u64_pad2((ms / 60000) % 60);
    s.append(minutes.as_str());
    s.push(':');
    let seconds = u64_pad2((ms / 1000) % 60);
    s.append(seconds.as_str());
    s.push(sep);
    let millis = u64_pad3(ms % 1000);
    s.append(millis.as_str());
    proof {
        assert(s@ =~= timestamp_spec(ms as nat, sep));
    }
    s
}

/// Renders the escaped form of a text for a JSON string literal.
fn render_json_escaped(t: &str) -> (s: String)
    ensures
        s@ == json_escape(t@),
{
    let n = t.unicode_len();
    let mut s = String::new();
    let mut i: usize = 0;
    proof {
        assert(t@.take(0) =~= Seq::<char>::empty());
    }
    while i < n
        invariant
            i <= n,
            n == t@.len(),
            s@ == json_escape(t@.take(i as int)),
        decreases n - i,
    {
        let c = t.get_char(i);
        if c == '"' {
            s.push('\\');
            s.push('"');
        } else if c == '\\' {
            s.push('\\');
            s.push('\\');
        } else if c == '\n' {
            s.push('\\');
            s.push('n');
        } else if c == '\r' {
            s.push('\\');
            s.push('r');
        } else if c == '\t' {
            s.push('\\');
            s.push('t');
        } else {
            s.push(c);
        }
        proof {
            assert(t@.take(i as int + 1).drop_last() =~= t@.take(i as int));
            assert(t@.take(i as int + 1).last() == t@[i as int]);
            assert(s@ =~= json_escape(t@.take(i as int + 1)));
        }
        i = i + 1;
    }
    proof {
        assert(t@.take(n as int) =~= t@);
    }
    s
}

/// Renders one segment as a JSON object.
fn render_json_entry(seg: &TranscriptSegment) -> (s: String)
    ensures
        s@ == json_entry_spec(seg@),
{
    let mut out: String = "{\"start\":".to_owned();
    let start = u64_dec(seg.start_ms);
    out.append(start.as_str());
    out.append(",\"end\":");
    let end = u64_dec(seg.end_ms);
    out.append(end.as_str());
    out.append(",\"text\":\"");
    let text = render_json_escaped(seg.text.as_str());
    out.append(text.as_str());
    out.push('"');
    out.push('}');
    proof {
        assert(out@ =~= json_entry_spec(seg@));
    }
    out
}

impl Transcript {
    /// Build a transcript, accepting the segments only in non-decreasing
    /// start-time order with each segment well formed; anything else is an
    /// engine protocol violation.
    pub fn from_segments(segments: Vec<TranscriptSegment>) -> (r: Result<Transcript, WhisperError>)
        ensures
            from_segments_post(segments.deep_view(), r),
    {
        let ghost ss = segments.deep_view();
        let n = segments.len();
        let mut i: usize = 0;
        while i < n
            invariant
                i <= n,
                n == segments.len(),
                ss == segments.deep_view(),
                forall|j: int| 0 <= j < i ==> segment_wf(#[trigger] ss[j]),
                forall|j: int| 1 <= j < i ==> (#[trigger] ss[j]).start_ms >= ss[j - 1].start_ms,
            decreases n - i,
        {
            let seg = &segments[i];
            proof {
                assert(ss[i as int] == segments@[i as int]@);
            }
            if seg.start_ms > seg.end_ms {
                proof {
                    assert(!segment_wf(ss[i as int]));
                    assert(!segments_ordered(ss));
                }
                return Err(WhisperError::EngineProtocolError(
                    "malformed or out-of-order segments".to_owned(),
                ));
            }
            if i > 0 {
                let prev = &segments[i - 1];
                proof {
                    assert(ss[i as int - 1] == segments@[i as int - 1]@);
                }
                if seg.start_ms < prev.start_ms {
                    proof {
                        assert(ss[i as int].start_ms < ss[i as int - 1].start_ms);
                        assert(!segments_ordered(ss));
                    }
                    return Err(WhisperError::EngineProtocolError(
                        "malformed or out-of-order segments".to_owned(),
                    ));
                }
            }
            i = i + 1;
        }
        Ok(Transcript { segments })
    }

    /// The segments, in order.
    pub fn segments(&self) -> (r: &Vec<TranscriptSegment>)
        ensures
            r.deep_view() == self@,
    {
        &self.segments
    }

    /// The flat text rendering: segment texts joined by newlines.
    pub fn to_text(&self) -> (r: String)
        ensures
            r@ == text_spec(self@),
    {
        let ghost ss = self@;
        let n = self.segments.len();
        let mut out = String::new();
        let mut i: usize = 0;
        proof {
            assert(ss.take(0) =~= Seq::<SegmentSpec>::empty());
        }
        while i < n
            invariant
                i <= n,
                n == self.segments.len(),
                ss == self@,
                out@ == text_spec(ss.take(i as int)),
            decreases n - i,
        {
            if i > 0 {
                out.push('\n');
            }
            out.append(self.segments[i].text.as_str());
            proof {
                assert(ss.take(i as int + 1).drop_last() =~= ss.take(i as int));
                assert(ss.take(i as int + 1).last() == ss[i as int]);
                if i == 0 {
                    assert(ss.take(1)[0] == ss[0]);
                }
                assert(out@ =~= text_spec(ss.take(i as int + 1)));
            }
            i = i + 1;
        }
        proof {
            assert(ss.take(n as int) =~= ss);
        }
        out
    }

    /// The SRT rendering.
    pub fn to_srt(&self) -> (r: String)
        ensures
            r@ == srt_spec(self@),
    {
        let ghost ss = self@;
        let n = self.segments.len();
        let mut out = String::new();
        let mut i: usize = 0;
        while i < n
            invariant
                i <= n,
                n == self.segments.len(),
                ss == self@,
                out@ == srt_upto(ss, i as int),
            decreases n - i,
        {
            let seg = &self.segments[i];
            let index = u64_dec((i as u64) + 1);
            out.append(index.as_str());
            out.push('\n');
            let start = render_timestamp(seg.start_ms, ',');
            out.append(start.as_str());
            out.append(" --> ");
            let end = render_timestamp(seg.end_ms, ',');
            out.append(end.as_str());
            out.push('\n');
            out.append(seg.text.as_str());
            out.push('\n');
            out.push('\n');
            proof {
                reveal_strlit(" --> ");
                assert(" --> "@ =~= seq![' ', '-', '-', '>', ' ']);
                assert(out@ =~= srt_upto(ss, i as int + 1));
            }
            i = i + 1;
        }
        out
    }

    /// The VTT rendering.
    pub fn to_vtt(&self) -> (r: String)
        ensures
            r@ == vtt_spec(self@),
    {
        let ghost ss = self@;
        let n = self.segments.len();
        let mut body = String::new();
        let mut i: usize = 0;
        while i < n
            invariant
                i <= n,
                n == self.segments.len(),
                ss == self@,
                body@ == vtt_upto(ss, i as int),
            decreases n - i,
        {
            let seg = &self.segments[i];
            proof {
                assert(ss[i as int] == self.segments@[i as int]@);
            }
            let start = render_timestamp(seg.start_ms, '.');
            body.append(start.as_str());
            body.append(" --> ");
            let end = render_timestamp(seg.end_ms, '.');
            body.append(end.as_str());
            body.push('\n');
            body.append(seg.text.as_str());
            body.push('\n');
            body.push('\n');
            proof {
                reveal_strlit(" --> ");
                assert(" --> "@ =~= seq![' ', '-', '-', '>', ' ']);
                assert(body@ =~= vtt_upto(ss, i as int + 1));
            }
            i = i + 1;
        }
        let mut out: String = "WEBVTT".to_owned();
        out.push('\n');
        out.push('\n');
        out.append(body.as_str());
        proof {
            assert(out@ =~= vtt_spec(ss));
        }
        out
    }

    /// The JSON rendering.
    #[verifier::rlimit(100)]
    pub fn to_json(&self) -> (r: String)
        ensures
            r@ == json_spec(self@),
    {
        let ghost ss = self@;
        let n = self.segments.len();
        let mut body = String::new();
        let mut i: usize = 0;
        while i < n
            invariant
                i <= n,
                n == self.segments.len(),
                ss == self@,
                body@ == json_upto(ss, i as int),
            decreases n - i,
        {
            let seg = &self.segments[i];
            proof {
                assert(ss[i as int] == self.segments@[i as int]@);
            }
            if i > 0 {
                body.push(',');
            }
            let entry = render_json_entry(seg);
            body.append(entry.as_str());
            proof {
                if i == 0 {
                    assert(json_upto(ss, 1) == json_entry_spec(ss[0]));
                    assert(body@ =~= json_upto(ss, 1));
                } else {
                    assert(json_upto(ss, i as int + 1) == json_upto(ss, i as int) + seq![',']
                        + json_entry_spec(ss[i as int]));
                    assert(body@ =~= json_upto(ss, i as int + 1));
                }
            }
            i = i + 1;
        }
        let mut out = String::new();
        out.push('[');
        out.append(body.as_str());
        out.push(']');
        proof {
            assert(out@ =~= json_spec(ss));
        }
        out
    }
}

/// Rendering a transcript to flat text is idempotent: any two renderings of
/// the same segment sequence are the same string of characters. (Rendering
/// to SRT or VTT and back is lossy and owes no round trip.)
pub proof fn lemma_to_text_idempotent(ss: Seq<SegmentSpec>, r1: Seq<char>, r2: Seq<char>)
    requires
        r1 == text_spec(ss),
        r2 == text_spec(ss),
    ensures
        r1 == r2,
{
}

} // verus!
