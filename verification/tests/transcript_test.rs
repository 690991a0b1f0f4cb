use whisper_wrapper_rust::{Transcript, TranscriptSegment, WhisperError};

fn seg(start_ms: u64, end_ms: u64, text: &str) -> TranscriptSegment {
    TranscriptSegment { start_ms, end_ms, text: text.to_string() }
}

#[test]
fn out_of_order_segments_rejected() {
    let r = Transcript::from_segments(vec![seg(2, 3, "b"), seg(0, 1, "a")]);
    assert!(matches!(r, Err(WhisperError::EngineProtocolError(_))));
}

#[test]
fn malformed_segment_rejected() {
    let r = Transcript::from_segments(vec![seg(5, 2, "backwards")]);
    assert!(matches!(r, Err(WhisperError::EngineProtocolError(_))));
}

#[test]
fn ordered_segments_accepted() {
    let t = Transcript::from_segments(vec![seg(0, 1, "a"), seg(1, 2, "b")]).unwrap();
    assert_eq!(t.to_text(), "a\nb");
}

#[test]
fn to_text_is_idempotent() {
    let t = Transcript::from_segments(vec![seg(0, 500, "hello"), seg(500, 900, "world")]).unwrap();
    let first = t.to_text();
    let second = t.to_text();
    assert_eq!(first, second);
    assert_eq!(first, "hello\nworld");
}

#[test]
fn empty_transcript_renders_empty_text() {
    let t = Transcript::from_segments(Vec::new()).unwrap();
    assert_eq!(t.to_text(), "");
    assert_eq!(t.to_json(), "[]");
}

#[test]
fn srt_rendering_exact() {
    let t = Transcript::from_segments(vec![
        seg(0, 2500, "hello"),
        seg(3661000, 3662042, "again"),
    ])
    .unwrap();
    let expected = "1\n00:00:00,000 --> 00:00:02,500\nhello\n\n\
                    2\n01:01:01,000 --> 01:01:02,042\nagain\n\n";
    assert_eq!(t.to_srt(), expected);
}

#[test]
fn srt_hours_grow_past_two_digits() {
    // 100 hours: the hour field widens instead of wrapping.
    let t = Transcript::from_segments(vec![seg(360_000_000, 360_000_001, "late night")]).unwrap();
    assert_eq!(
        t.to_srt(),
        "1\n100:00:00,000 --> 100:00:00,001\nlate night\n\n"
    );
}

#[test]
fn vtt_rendering_exact() {
    let t = Transcript::from_segments(vec![seg(0, 1000, "hi")]).unwrap();
    assert_eq!(t.to_vtt(), "WEBVTT\n\n00:00:00.000 --> 00:00:01.000\nhi\n\n");
}

#[test]
fn json_rendering_escapes_text() {
    let t = Transcript::from_segments(vec![seg(0, 10, "say \"hi\"\\now")]).unwrap();
    assert_eq!(
        t.to_json(),
        "[{\"start\":0,\"end\":10,\"text\":\"say \\\"hi\\\"\\\\now\"}]"
    );
}

#[test]
fn json_rendering_two_segments() {
    let t = Transcript::from_segments(vec![seg(0, 1, "a"), seg(1, 2, "b")]).unwrap();
    assert_eq!(
        t.to_json(),
        "[{\"start\":0,\"end\":1,\"text\":\"a\"},{\"start\":1,\"end\":2,\"text\":\"b\"}]"
    );
}

#[test]
fn segments_accessor_keeps_order() {
    let t = Transcript::from_segments(vec![seg(0, 1, "a"), seg(4, 9, "b")]).unwrap();
    let segs = t.segments();
    assert_eq!(segs.len(), 2);
    assert_eq!(segs[0].text, "a");
    assert_eq!(segs[1].start_ms, 4);
    assert_eq!(segs[1].end_ms, 9);
}
