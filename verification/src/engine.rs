//! The transfer engine's decision logic: what to do on each poll, how
//! to read the transport's completion report, and how the collected
//! bytes become the final result.
//!
//! The engine itself owns no I/O. The caller that owns the transport
//! handle applies the setup plan, drives the poll loop, feeds the
//! collector's callbacks, and hands the outcomes back to the functions
//! here.

use vstd::prelude::*;
use vstd::utf8::{decode_utf8, encode_utf8_decode_utf8, valid_utf8};
use vstd::string::StringSliceAdditionalSpecFns;
use crate::collector::Collector;
use crate::error::HttpstatError;
use crate::header::{spec_parse_header, Header, HeaderModel};
use crate::status::{has_http_prefix, spec_has_http_prefix, spec_parse_status, HttpResponseHeader,
    StatusModel};
use crate::text::{remove_crlf, spec_split, split_char, without_crlf};
use crate::timing::Timing;

verus! {

/// What the engine does after one poll of the transport, given the
/// transport's report: the number of transfers still running, or a
/// failure description.
///
/// A positive running count means the transfer is still in flight: the
/// engine yields and arranges to be polled again, never blocking. A
/// count of zero means completion. A failed poll ends the transfer with
/// the transport's description.
#[derive(Debug, Clone)]
pub enum PollStep {
    Repoll,
    Done,
    Fail(String),
}

/// Decides the next step of the poll loop, as the documentation of
/// [`PollStep`] describes.
pub fn poll_step(perform: Result<u32, String>) -> (r: PollStep)
    ensures
        match perform {
            Ok(running) => if running > 0 {
                r is Repoll
            } else {
                r is Done
            },
            Err(d) => r matches PollStep::Fail(m) && m@ == d@,
        },
{
    match perform {
        Ok(running) => if running > 0 {
            PollStep::Repoll
        } else {
            PollStep::Done
        },
        Err(d) => PollStep::Fail(d),
    }
}

/// Reads the transport's completion report for the finished transfer.
///
/// `error` is the failure the transport recorded, if any: whether it was
/// a write-callback failure, and its description. A write-callback
/// failure is the collector's own abort signal — the response-size
/// ceiling was crossed — and is reported as such rather than as a
/// generic transport failure; any other failure keeps the transport's
/// description.
pub fn interpret_completion(error: Option<(bool, String)>) -> (r: Result<(), HttpstatError>)
    ensures
        match error {
            None => r is Ok,
            Some((is_write_error, desc)) => {
                &&& r is Err
                &&& if is_write_error {
                    r matches Err(e) && e is MaxSizeExceeded
                } else {
                    r matches Err(e) && e matches HttpstatError::Transport(m) && m@ == desc@
                }
            },
        },
{
    match error {
        None => Ok(()),
        Some((is_write_error, desc)) => if is_write_error {
            Err(HttpstatError::MaxSizeExceeded)
        } else {
            Err(HttpstatError::Transport(desc))
        },
    }
}

/// Where the outgoing body comes from: absent, given inline, or named
/// by a file path when the argument starts with `@`.
#[derive(Debug, Clone)]
pub enum DataSource {
    Absent,
    Inline(String),
    FilePath(String),
}

/// Classifies the body argument: no argument yields `Absent`; an
/// argument starting with `@` names a file by the rest of the argument;
/// anything else is the body itself.
pub fn upload_data_source(arg: Option<String>) -> (r: DataSource)
    ensures
        match arg {
            None => r is Absent,
            Some(s) => if s@.len() > 0 && s@[0] == '@' {
                r matches DataSource::FilePath(p) && p@ == s@.drop_first()
            } else {
                r matches DataSource::Inline(d) && d@ == s@
            },
        },
{
    match arg {
        None => DataSource::Absent,
        Some(s) => {
            let len = s.as_str().unicode_len();
            if len > 0 && s.as_str().get_char(0) == '@' {
                let path = String::from_str(s.as_str().substring_char(1, len));
                proof {
                    assert(path@ =~= s@.drop_first());
                }
                DataSource::FilePath(path)
            } else {
                DataSource::Inline(s)
            }
        },
    }
}

/// The surviving lines of a header block: each raw line is stripped of
/// every carriage return and line feed, and empty lines are dropped.
pub open spec fn clean_lines_of(lines: Seq<Seq<char>>) -> Seq<Seq<char>>
    decreases lines.len(),
{
    if lines.len() == 0 {
        Seq::empty()
    } else {
        let c = without_crlf(lines[0]);
        (if c.len() > 0 {
            seq![c]
        } else {
            Seq::<Seq<char>>::empty()
        }) + clean_lines_of(lines.drop_first())
    }
}

/// The cleaned lines of a header block: split on line feeds, stripped,
/// empties dropped.
pub open spec fn spec_clean_lines(t: Seq<char>) -> Seq<Seq<char>> {
    clean_lines_of(spec_split(t, '\n'))
}

/// The headers a run of lines yields once the status line is settled:
/// each line with a colon in order, lines without one dropped.
pub open spec fn spec_headers_only(lines: Seq<Seq<char>>) -> Seq<HeaderModel>
    decreases lines.len(),
{
    if lines.len() == 0 {
        Seq::empty()
    } else {
        (match spec_parse_header(lines[0]) {
            Some(h) => seq![h],
            None => Seq::<HeaderModel>::empty(),
        }) + spec_headers_only(lines.drop_first())
    }
}

/// How cleaned lines are classified. The first line bearing the
/// case-insensitive prefix `HTTP/` becomes the status line — malformed,
/// it fails the whole parse with that line — and every other line is a
/// header candidate: kept when it holds a colon, silently dropped when
/// it does not.
pub open spec fn spec_classify(lines: Seq<Seq<char>>) -> Result<
    (Option<StatusModel>, Seq<HeaderModel>),
    Seq<char>,
>
    decreases lines.len(),
{
    if lines.len() == 0 {
        Ok((None, Seq::empty()))
    } else if spec_has_http_prefix(lines[0]) {
        match spec_parse_status(lines[0]) {
            None => Err(lines[0]),
            Some(st) => Ok((Some(st), spec_headers_only(lines.drop_first()))),
        }
    } else {
        match spec_classify(lines.drop_first()) {
            Err(l) => Err(l),
            Ok((st, hs)) => Ok(
                (
                    st,
                    (match spec_parse_header(lines[0]) {
                        Some(h) => seq![h],
                        None => Seq::<HeaderModel>::empty(),
                    }) + hs,
                ),
            ),
        }
    }
}

/// What parsing a whole header block yields.
pub open spec fn spec_block(t: Seq<char>) -> Result<
    (Option<StatusModel>, Seq<HeaderModel>),
    Seq<char>,
> {
    spec_classify(spec_clean_lines(t))
}

/// Splits the collected header text into lines and classifies them, as
/// `spec_block` describes: the first `HTTP/`-prefixed line becomes the
/// status line, the others the ordered header list.
pub fn parse_header_block(text: &str) -> (r: Result<
    (Option<HttpResponseHeader>, Vec<Header>),
    HttpstatError,
>)
    ensures
        match spec_block(text@) {
            Ok((st, hs)) => r matches Ok(p) && (match st {
                None => p.0 is None,
                Some(sm) => p.0 matches Some(h) && h@ == sm,
            }) && p.1.deep_view() == hs,
            Err(l) => r matches Err(e) && e matches HttpstatError::Parse(m) && m@
                == "invalid status line: "@ + l,
        },
{
    let lines = split_char(text, '\n');
    let ghost raw = lines.deep_view();
    let mut cleaned: Vec<String> = Vec::new();
    let mut i: usize = 0;
    proof {
        assert(raw.subrange(0, raw.len() as int) =~~= raw);
        assert(cleaned.deep_view() =~~= Seq::<Seq<char>>::empty());
        assert(cleaned.deep_view() + clean_lines_of(raw) =~~= clean_lines_of(raw));
    }
    while i < lines.len()
        invariant
            i <= lines.len(),
            raw == lines.deep_view(),
            raw.len() == lines@.len(),
            clean_lines_of(raw) =~~= cleaned.deep_view() + clean_lines_of(
                raw.subrange(i as int, raw.len() as int),
            ),
        decreases lines.len() - i,
    {
        let ghost sub = raw.subrange(i as int, raw.len() as int);
        proof {
            assert(sub.drop_first() =~~= raw.subrange(i + 1, raw.len() as int));
            assert(sub[0] == lines@[i as int]@);
        }
        let c = remove_crlf(lines[i].as_str());
        if !c.as_str().is_empty() {
            let ghost before = cleaned@;
            cleaned.push(c);
            proof {
                assert(cleaned.deep_view() =~~= Seq::new(
                    before.len(),
                    |k: int| before[k].deep_view(),
                ).push(cleaned@[before.len() as int]@));
            }
        }
        proof {
            assert(clean_lines_of(raw) =~~= cleaned.deep_view() + clean_lines_of(
                raw.subrange(i + 1, raw.len() as int),
            ));
        }
        i = i + 1;
    }
    proof {
        assert(raw.subrange(raw.len() as int, raw.len() as int) =~~= Seq::<Seq<char>>::empty());
        assert(cleaned.deep_view() + clean_lines_of(Seq::empty()) =~~= cleaned.deep_view());
        assert(cleaned.deep_view() =~~= spec_clean_lines(text@));
    }
    classify_lines(cleaned)
}

/// Walks the cleaned lines once, as `spec_classify` describes.
fn classify_lines(cleaned: Vec<String>) -> (r: Result<
    (Option<HttpResponseHeader>, Vec<Header>),
    HttpstatError,
>)
    ensures
        match spec_classify(cleaned.deep_view()) {
            Ok((st, hs)) => r matches Ok(p) && (match st {
                None => p.0 is None,
                Some(sm) => p.0 matches Some(h) && h@ == sm,
            }) && p.1.deep_view() == hs,
            Err(l) => r matches Err(e) && e matches HttpstatError::Parse(m) && m@
                == "invalid status line: "@ + l,
        },
{
    let ghost all = cleaned.deep_view();
    let mut status: Option<HttpResponseHeader> = None;
    let mut headers: Vec<Header> = Vec::new();
    let mut i: usize = 0;
    proof {
        assert(all.subrange(0, all.len() as int) =~~= all);
        assert(headers.deep_view() =~~= Seq::<HeaderModel>::empty());
        match spec_classify(all) {
            Ok((st, hs)) => {
                assert(headers.deep_view() + hs =~~= hs);
            },
            Err(_) => {},
        }
    }
    while i < cleaned.len()
        invariant
            i <= cleaned.len(),
            all == cleaned.deep_view(),
            all.len() == cleaned@.len(),
            match status {
                None => spec_classify(all) == (match spec_classify(
                    all.subrange(i as int, all.len() as int),
                ) {
                    Err(l) => Err(l),
                    Ok((st, hs)) => Ok((st, headers.deep_view() + hs)),
                }),
                Some(h) => spec_classify(all) == Ok::<_, Seq<char>>(
                    (
                        Some(h@),
                        headers.deep_view() + spec_headers_only(
                            all.subrange(i as int, all.len() as int),
                        ),
                    ),
                ),
            },
        decreases cleaned.len() - i,
    {
        let ghost sub = all.subrange(i as int, all.len() as int);
        let ghost old_hdeep = headers.deep_view();
        proof {
            assert(sub.len() > 0);
            assert(sub.drop_first() =~~= all.subrange(i + 1, all.len() as int));
            assert(sub[0] == cleaned@[i as int]@);
        }
        let no_status_yet = status.is_none();
        if no_status_yet && has_http_prefix(cleaned[i].as_str()) {
            match HttpResponseHeader::parse(cleaned[i].as_str()) {
                Err(e) => {
                    proof {
                        assert(spec_classify(sub) == Err::<
                            (Option<StatusModel>, Seq<HeaderModel>),
                            _,
                        >(sub[0]));
                    }
                    return Err(e);
                },
                Ok(h) => {
                    status = Some(h);
                },
            }
        } else {
            let ghost piece = match spec_parse_header(sub[0]) {
                Some(h) => seq![h],
                None => Seq::<HeaderModel>::empty(),
            };
            match Header::parse(cleaned[i].as_str()) {
                Ok(h) => {
                    let ghost before = headers@;
                    headers.push(h);
                    proof {
                        assert(headers.deep_view() =~~= Seq::new(
                            before.len(),
                            |k: int| before[k].deep_view(),
                        ).push(headers@[before.len() as int]@));
                        assert(headers.deep_view() =~~= old_hdeep + piece);
                    }
                },
                Err(_) => {
                    proof {
                        assert(headers.deep_view() =~~= old_hdeep + piece);
                    }
                },
            }
            proof {
                if no_status_yet {
                    assert(!spec_has_http_prefix(sub[0]));
                    match spec_classify(sub.drop_first()) {
                        Err(l) => {
                            assert(spec_classify(sub) == Err::<
                                (Option<StatusModel>, Seq<HeaderModel>),
                                _,
                            >(l));
                        },
                        Ok((st, hs)) => {
                            assert(spec_classify(sub) == Ok::<_, Seq<char>>(
                                (st, piece + hs),
                            ));
                            assert(old_hdeep + (piece + hs) =~~= (old_hdeep + piece) + hs);
                        },
                    }
                } else {
                    let rest = spec_headers_only(sub.drop_first());
                    assert(spec_headers_only(sub) == piece + rest);
                    assert(old_hdeep + (piece + rest) =~~= (old_hdeep + piece) + rest);
                }
            }
        }
        i = i + 1;
    }
    proof {
        let ghost tail = all.subrange(all.len() as int, all.len() as int);
        assert(tail =~~= Seq::<Seq<char>>::empty());
        if status is None {
            assert(spec_classify(all) == Ok::<_, Seq<char>>(
                (None::<StatusModel>, headers.deep_view() + Seq::<HeaderModel>::empty()),
            ));
            assert(headers.deep_view() + Seq::<HeaderModel>::empty() =~~= headers.deep_view());
        } else {
            assert(headers.deep_view() + spec_headers_only(tail) =~~= headers.deep_view());
        }
    }
    Ok((status, headers))
}

/// The outcome of one completed transfer: the status-line fields (with
/// their no-status defaults), the ordered headers, the body bytes, and
/// the phase timings.
#[derive(Debug, Clone)]
pub struct StatResult {
    pub http_version: String,
    pub response_code: i32,
    pub response_message: Option<String>,
    pub headers: Vec<Header>,
    pub timing: Timing,
    pub body: Vec<u8>,
}

/// Assembles the final result. A response without a status line keeps
/// its headers but reports code `-1`, version `Unknown` and no reason.
pub fn build_result(
    status: Option<HttpResponseHeader>,
    headers: Vec<Header>,
    body: Vec<u8>,
    timing: Timing,
) -> (r: StatResult)
    ensures
        match status {
            None => r.http_version@ == "Unknown"@ && r.response_code == -1 && r.response_message
                is None,
            Some(h) => r.http_version == h.http_version && r.response_code == h.response_code
                && r.response_message == h.response_message,
        },
        r.headers == headers,
        r.body == body,
        r.timing == timing,
{
    match status {
        Some(h) => StatResult {
            http_version: h.http_version,
            response_code: h.response_code,
            response_message: h.response_message,
            headers,
            timing,
            body,
        },
        None => StatResult {
            http_version: String::from_str("Unknown"),
            response_code: -1i32,
            response_message: None,
            headers,
            timing,
            body,
        },
    }
}

/// Relies on `str::from_utf8`: it yields a string slice over exactly
/// the given bytes when they are valid UTF-8, and rejects them
/// otherwise.
#[verifier::external_body]
fn bytes_as_text(v: &[u8]) -> (r: Option<&str>)
    ensures
        match r {
            Some(s) => valid_utf8(v@) && s.spec_bytes() == v@,
            None => !valid_utf8(v@),
        },
{
    match core::str::from_utf8(v) {
        Ok(s) => Some(s),
        Err(_) => None,
    }
}

/// Turns a finished transfer's collected bytes into the final result:
/// decodes the header bytes as text, parses the block, and assembles a
/// [`StatResult`] around the body and timings. Header bytes that are not
/// valid text, or a malformed status line, are parse failures.
pub fn complete_transfer(collector: Collector, timing: Timing) -> (r: Result<
    StatResult,
    HttpstatError,
>)
    ensures
        !valid_utf8(collector.spec_headers()) ==> (r matches Err(e) && e matches
            HttpstatError::Parse(m) && m@ == "header bytes are not valid text"@),
        valid_utf8(collector.spec_headers()) ==> match spec_block(
            decode_utf8(collector.spec_headers()),
        ) {
            Err(l) => r matches Err(e) && e matches HttpstatError::Parse(m) && m@
                == "invalid status line: "@ + l,
            Ok((st, hs)) => r matches Ok(res) && {
                &&& res.body@ == collector.spec_body()
                &&& res.timing == timing
                &&& res.headers.deep_view() == hs
                &&& match st {
                    None => res.http_version@ == "Unknown"@ && res.response_code == -1
                        && res.response_message is None,
                    Some(sm) => res.http_version@ == sm.http_version && res.response_code as int
                        == sm.code && (match (res.response_message, sm.reason) {
                        (None, None) => true,
                        (Some(a), Some(b)) => a@ == b,
                        _ => false,
                    }),
                }
            },
        },
{
    let (body, header_bytes) = collector.into_parts();
    match bytes_as_text(header_bytes.as_slice()) {
        None => Err(HttpstatError::Parse(String::from_str("header bytes are not valid text"))),
        Some(text) => {
            proof {
                encode_utf8_decode_utf8(text@);
            }
            match parse_header_block(text) {
                Err(e) => Err(e),
                Ok((status, headers)) => Ok(build_result(status, headers, body, timing)),
            }
        },
    }
}

/// A header block with no line bearing the `HTTP/` prefix parses
/// without a status line: the assembled result then reports code `-1`,
/// version `Unknown` and no reason, while every header line collected is
/// still returned, in order.
pub proof fn lemma_block_without_status(t: Seq<char>)
    requires
        forall|i: int|
            0 <= i < spec_clean_lines(t).len() ==> !spec_has_http_prefix(spec_clean_lines(t)[i]),
    ensures
        spec_block(t) == Ok::<_, Seq<char>>(
            (None::<StatusModel>, spec_headers_only(spec_clean_lines(t))),
        ),
{
    lemma_classify_without_status(spec_clean_lines(t));
}

/// Classification of lines none of which bears the `HTTP/` prefix:
/// no status, all lines header candidates.
proof fn lemma_classify_without_status(lines: Seq<Seq<char>>)
    requires
        forall|i: int| 0 <= i < lines.len() ==> !spec_has_http_prefix(lines[i]),
    ensures
        spec_classify(lines) == Ok::<_, Seq<char>>(
            (None::<StatusModel>, spec_headers_only(lines)),
        ),
    decreases lines.len(),
{
    if lines.len() > 0 {
        let rest = lines.drop_first();
        assert forall|i: int| 0 <= i < rest.len() implies !spec_has_http_prefix(rest[i]) by {
            assert(rest[i] == lines[i + 1]);
        }
        lemma_classify_without_status(rest);
    }
}

} // verus!
