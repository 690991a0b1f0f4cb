//! Parsing the engine process's captured output into a transcript.
//!
//! The engine prints one line per segment: a bracketed time range followed
//! by the recognized text, e.g. `[00:00:00.000 --> 00:00:02.500]  hello`.
//! Anything that does not fit that shape, and any out-of-order range, is a
//! protocol violation, never a silently dropped line.

use vstd::prelude::*;
use crate::error::{ErrorSpec, WhisperError};
use crate::text::str_eq;
use crate::transcript::{from_segments_post, SegmentSpec, Transcript, TranscriptSegment};

verus! {

/// Whether a character is a decimal digit.
pub open spec fn is_digit(c: char) -> bool {
    48 <= c as int && c as int <= 57
}

/// The value of a digit character.
pub open spec fn digit_val(c: char) -> int {
    c as int - 48
}

/// A fixed-width subtitle timestamp: two digits, a colon, two digits, a
/// colon, two digits, a dot, three digits.
pub open spec fn ts_wf(s: Seq<char>) -> bool {
    &&& s.len() == 12
    &&& is_digit(s[0]) && is_digit(s[1])
    &&& s[2] == ':'
    &&& is_digit(s[3]) && is_digit(s[4])
    &&& s[5] == ':'
    &&& is_digit(s[6]) && is_digit(s[7])
    &&& s[8] == '.'
    &&& is_digit(s[9]) && is_digit(s[10]) && is_digit(s[11])
}

/// The milliseconds a timestamp denotes.
pub open spec fn ts_value(s: Seq<char>) -> int {
    (digit_val(s[0]) * 10 + digit_val(s[1])) * 3600000 + (digit_val(s[3]) * 10 + digit_val(s[4]))
        * 60000 + (digit_val(s[6]) * 10 + digit_val(s[7])) * 1000 + digit_val(s[9]) * 100
        + digit_val(s[10]) * 10 + digit_val(s[11])
}

/// A well-formed segment line: `[`, a timestamp, ` --> `, a timestamp, `]`,
/// then the text.
pub open spec fn line_wf(l: Seq<char>) -> bool {
    &&& l.len() >= 31
    &&& l[0] == '['
    &&& ts_wf(l.subrange(1, 13))
    &&& l.subrange(13, 18) == " --> "@
    &&& ts_wf(l.subrange(18, 30))
    &&& l[30] == ']'
}

/// How many spaces the sequence starts with.
pub open spec fn leading_spaces(s: Seq<char>) -> int
    decreases s.len(),
{
    if s.len() == 0 || s[0] != ' ' {
        0
    } else {
        1 + leading_spaces(s.skip(1))
    }
}

/// The text of a segment line: everything after the closing bracket, with
/// the separating spaces removed.
pub open spec fn line_text(l: Seq<char>) -> Seq<char> {
    let rest = l.skip(31);
    rest.skip(leading_spaces(rest))
}

/// The segment a well-formed line denotes.
pub open spec fn line_segment(l: Seq<char>) -> SegmentSpec {
    SegmentSpec {
        start_ms: ts_value(l.subrange(1, 13)) as u64,
        end_ms: ts_value(l.subrange(18, 30)) as u64,
        text: line_text(l),
    }
}

/// One step of splitting on newlines: a newline closes the open line, any
/// other character extends it.
pub open spec fn split_step(acc: (Seq<Seq<char>>, Seq<char>), c: char) -> (Seq<Seq<char>>, Seq<
    char,
>) {
    if c == '\n' {
        (acc.0.push(acc.1), Seq::empty())
    } else {
        (acc.0, acc.1.push(c))
    }
}

/// The lines closed, and the line still open, after the first `i`
/// characters.
pub open spec fn split_state(s: Seq<char>, i: int) -> (Seq<Seq<char>>, Seq<char>)
    decreases i,
{
    if i <= 0 {
        (Seq::empty(), Seq::empty())
    } else {
        split_step(split_state(s, i - 1), s[i - 1])
    }
}

/// The text split at newlines, an unterminated last line included.
pub open spec fn split_lines(s: Seq<char>) -> Seq<Seq<char>> {
    let st = split_state(s, s.len() as int);
    if st.1.len() == 0 {
        st.0
    } else {
        st.0.push(st.1)
    }
}

/// The non-empty lines, in order.
pub open spec fn nonblank(ls: Seq<Seq<char>>) -> Seq<Seq<char>>
    decreases ls.len(),
{
    if ls.len() == 0 {
        Seq::empty()
    } else if ls.last().len() == 0 {
        nonblank(ls.drop_last())
    } else {
        nonblank(ls.drop_last()).push(ls.last())
    }
}

/// The non-empty lines of the engine's output.
pub open spec fn engine_lines(s: Seq<char>) -> Seq<Seq<char>> {
    nonblank(split_lines(s))
}

/// Whether every line is a well-formed segment line.
pub open spec fn all_lines_wf(ls: Seq<Seq<char>>) -> bool {
    forall|i: int| 0 <= i < ls.len() ==> line_wf(#[trigger] ls[i])
}

/// The segments the lines denote, in order.
pub open spec fn lines_segments(ls: Seq<Seq<char>>) -> Seq<SegmentSpec> {
    ls.map_values(|l: Seq<char>| line_segment(l))
}

/// Exactly what parsing the engine output returns: if every non-empty line
/// is a well-formed segment line, the transcript of their segments (itself
/// rejecting out-of-order ranges); otherwise a protocol error.
pub open spec fn parse_output_post(s: Seq<char>, r: Result<Transcript, WhisperError>) -> bool {
    if all_lines_wf(engine_lines(s)) {
        from_segments_post(lines_segments(engine_lines(s)), r)
    } else {
        r matches Err(e) && e@ == ErrorSpec::Protocol("unrecognized engine output line"@)
    }
}

/// A prefix of spaces that ends at a non-space (or at the end) is exactly
/// what `leading_spaces` counts.
proof fn lemma_leading_spaces_eq(s: Seq<char>, k: int)
    requires
        0 <= k <= s.len(),
        forall|j: int| 0 <= j < k ==> s[j] == ' ',
        k < s.len() ==> s[k] != ' ',
    ensures
        leading_spaces(s) == k,
    decreases k,
{
    if k == 0 {
        if s.len() > 0 {
            assert(s[0] != ' ');
        }
    } else {
        assert(s[0] == ' ');
        let t = s.skip(1);
        assert forall|j: int| 0 <= j < k - 1 implies t[j] == ' ' by {
            assert(t[j] == s[j + 1]);
        }
        if k - 1 < t.len() {
            assert(t[k - 1] == s[k]);
        }
        lemma_leading_spaces_eq(t, k - 1);
    }
}

/// Reads the digit at a position.
fn digit_at(s: &str, i: usize) -> (r: Option<u64>)
    requires
        i < s@.len(),
    ensures
        is_digit(s@[i as int]) ==> (r matches Some(v) && v == digit_val(s@[i as int])),
        !is_digit(s@[i as int]) ==> r is None,
{
    let c = s.get_char(i);
    let v = c as u32;
    if 48 <= v && v <= 57 {
        Some((v - 48) as u64)
    } else {
        None
    }
}

/// Parses a fixed-width timestamp into milliseconds.
fn parse_timestamp(ts: &str) -> (r: Option<u64>)
    ensures
        ts_wf(ts@) ==> (r matches Some(v) && v == ts_value(ts@) as u64),
        !ts_wf(ts@) ==> r is None,
{
    let n = ts.unicode_len();
    if n != 12 {
        return None;
    }
    if ts.get_char(2) != ':' || ts.get_char(5) != ':' || ts.get_char(8) != '.' {
        return None;
    }
    let d0 = match digit_at(ts, 0) {
        Some(v) => v,
        None => {
            return None;
        },
    };
    let d1 = match digit_at(ts, 1) {
        Some(v) => v,
        None => {
            return None;
        },
    };
    let d3 = match digit_at(ts, 3) {
        Some(v) => v,
        None => {
            return None;
        },
    };
    let d4 = match digit_at(ts, 4) {
        Some(v) => v,
        None => {
            return None;
        },
    };
    let d6 = match digit_at(ts, 6) {
        Some(v) => v,
        None => {
            return None;
        },
    };
    let d7 = match digit_at(ts, 7) {
        Some(v) => v,
        None => {
            return None;
        },
    };
    let d9 = match digit_at(ts, 9) {
        Some(v) => v,
        None => {
            return None;
        },
    };
    let d10 = match digit_at(ts, 10) {
        Some(v) => v,
        None => {
            return None;
        },
    };
    let d11 = match digit_at(ts, 11) {
        Some(v) => v,
        None => {
            return None;
        },
    };
    let total = (d0 * 10 + d1) * 3600000 + (d3 * 10 + d4) * 60000 + (d6 * 10 + d7) * 1000 + d9
        * 100 + d10 * 10 + d11;
    Some(total)
}

/// Parses one line into its segment, if it is well formed.
fn parse_engine_line(line: &str) -> (r: Option<TranscriptSegment>)
    ensures
        line_wf(line@) ==> (r matches Some(seg) && seg@ == line_segment(line@)),
        !line_wf(line@) ==> r is None,
{
    let n = line.unicode_len();
    if n < 31 {
        return None;
    }
    if line.get_char(0) != '[' {
        return None;
    }
    if line.get_char(30) != ']' {
        return None;
    }
    let arrow = line.substring_char(13, 18);
    if !str_eq(arrow, " --> ") {
        return None;
    }
    let ts1 = line.substring_char(1, 13);
    let start = match parse_timestamp(ts1) {
        Some(v) => v,
        None => {
            return None;
        },
    };
    let ts2 = line.substring_char(18, 30);
    let end = match parse_timestamp(ts2) {
        Some(v) => v,
        None => {
            return None;
        },
    };
    let mut j: usize = 31;
    while j < n && line.get_char(j) == ' '
        invariant
            31 <= j <= n,
            n == line@.len(),
            forall|k: int| 31 <= k < j ==> line@[k] == ' ',
        decreases n - j,
    {
        j = j + 1;
    }
    let text = line.substring_char(j, n);
    proof {
        let rest = line@.skip(31);
        assert forall|k: int| 0 <= k < j - 31 implies rest[k] == ' ' by {
            assert(rest[k] == line@[k + 31]);
        }
        if j < n {
            assert(rest[j - 31] == line@[j as int]);
        }
        lemma_leading_spaces_eq(rest, j - 31);
        assert(rest.skip(j - 31) =~= line@.subrange(j as int, n as int));
        assert(text@ == line_text(line@));
    }
    Some(TranscriptSegment { start_ms: start, end_ms: end, text: text.to_owned() })
}

/// Splits the output into its non-empty lines.
fn split_nonblank_lines(s: &str) -> (r: Vec<String>)
    ensures
        r.deep_view() == engine_lines(s@),
{
    let n = s.unicode_len();
    let mut closed: Vec<String> = Vec::new();
    let mut open: String = String::new();
    let mut i: usize = 0;
    proof {
        assert(closed.deep_view() =~= nonblank(split_state(s@, 0).0));
    }
    while i < n
        invariant
            i <= n,
            n == s@.len(),
            open@ == split_state(s@, i as int).1,
            closed.deep_view() == nonblank(split_state(s@, i as int).0),
        decreases n - i,
    {
        let ghost st = split_state(s@, i as int);
        let c = s.get_char(i);
        if c == '\n' {
            if !open.as_str().is_empty() {
                let ghost pre = closed.deep_view();
                closed.push(open);
                proof {
                    assert(closed.deep_view() =~= pre.push(st.1));
                    assert(st.0.push(st.1).drop_last() =~= st.0);
                    assert(st.0.push(st.1).last() == st.1);
                    assert(nonblank(st.0.push(st.1)) == nonblank(st.0).push(st.1));
                }
                open = String::new();
            } else {
                proof {
                    assert(st.0.push(st.1).drop_last() =~= st.0);
                    assert(st.0.push(st.1).last() == st.1);
                    assert(nonblank(st.0.push(st.1)) == nonblank(st.0));
                }
                open = String::new();
            }
        } else {
            open.push(c);
        }
        proof {
            assert(split_state(s@, i as int + 1) == split_step(st, s@[i as int]));
        }
        i = i + 1;
    }
    let ghost st = split_state(s@, n as int);
    if !open.as_str().is_empty() {
        let ghost pre = closed.deep_view();
        closed.push(open);
        proof {
            assert(closed.deep_view() =~= pre.push(st.1));
            assert(split_lines(s@) == st.0.push(st.1));
            assert(st.0.push(st.1).drop_last() =~= st.0);
            assert(st.0.push(st.1).last() == st.1);
            assert(nonblank(st.0.push(st.1)) == nonblank(st.0).push(st.1));
        }
    } else {
        proof {
            assert(split_lines(s@) == st.0);
        }
    }
    closed
}

/// Parse the engine's captured output into a transcript: every non-empty
/// line must be a well-formed segment line, and the segments must be in
/// order.
pub fn parse_engine_output(output: &str) -> (r: Result<Transcript, WhisperError>)
    ensures
        parse_output_post(output@, r),
{
    let lines = split_nonblank_lines(output);
    let ghost ls = engine_lines(output@);
    let m = lines.len();
    let mut segs: Vec<TranscriptSegment> = Vec::new();
    let mut i: usize = 0;
    proof {
        assert(segs.deep_view() =~= lines_segments(ls.take(0)));
    }
    while i < m
        invariant
            i <= m,
            m == lines.len(),
            ls == lines.deep_view(),
            ls == engine_lines(output@),
            segs.deep_view() == lines_segments(ls.take(i as int)),
            forall|k: int| 0 <= k < i ==> line_wf(#[trigger] ls[k]),
        decreases m - i,
    {
        proof {
            assert(ls[i as int] == lines@[i as int]@);
        }
        match parse_engine_line(lines[i].as_str()) {
            Some(seg) => {
                let ghost pre = segs.deep_view();
                segs.push(seg);
                proof {
                    assert(segs.deep_view() =~= pre.push(seg@));
                    assert(pre.push(seg@) =~= lines_segments(ls.take(i as int + 1)));
                }
            },
            None => {
                proof {
                    assert(!line_wf(ls[i as int]));
                    assert(!all_lines_wf(ls));
                }
                return Err(WhisperError::EngineProtocolError(
                    "unrecognized engine output line".to_owned(),
                ));
            },
        }
        i = i + 1;
    }
    proof {
        assert(ls.take(m as int) =~= ls);
        assert(segs.deep_view() == lines_segments(ls));
        assert(all_lines_wf(ls));
    }
    Transcript::from_segments(segs)
}

} // verus!
