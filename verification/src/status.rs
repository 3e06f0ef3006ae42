//! The response status line: protocol version, numeric code, optional
//! reason phrase.

use vstd::prelude::*;
use crate::error::HttpstatError;
use crate::num::{parse_i32, spec_parse_i32};
use crate::text::{find_char, lemma_find_props, remove_crlf, spec_find, spec_split, spec_trim,
    split_char, trim, upper_char, without_crlf};

verus! {

/// The parsed status line of a response.
///
/// Taken from the first line matching the case-insensitive prefix
/// `HTTP/`: the remainder after the first `/` is split on single spaces
/// into at most three meaningful tokens — version, numeric code, and an
/// optional reason token.
#[derive(Debug, Clone)]
pub struct HttpResponseHeader {
    pub http_version: String,
    pub response_code: i32,
    pub response_message: Option<String>,
}

/// The mathematical model of a [`HttpResponseHeader`].
#[verifier::ext_equal]
pub struct StatusModel {
    pub http_version: Seq<char>,
    pub code: int,
    pub reason: Option<Seq<char>>,
}

impl View for HttpResponseHeader {
    type V = StatusModel;

    open spec fn view(&self) -> StatusModel {
        StatusModel {
            http_version: self.http_version@,
            code: self.response_code as int,
            reason: match self.response_message {
                Some(m) => Some(m@),
                None => None,
            },
        }
    }
}

/// A status line cleaned for parsing: surrounding whitespace trimmed,
/// every carriage return and line feed removed.
pub open spec fn spec_clean_line(s: Seq<char>) -> Seq<char> {
    without_crlf(spec_trim(s))
}

/// What parsing a status line yields. On the cleaned line, everything
/// after the first `/` is split on spaces: the first token is the
/// version, the second must parse as a 32-bit decimal code, and a third
/// token, when present, is the reason. A line without `/` or without a
/// numeric code is rejected.
pub open spec fn spec_parse_status(s: Seq<char>) -> Option<StatusModel> {
    let cleaned = spec_clean_line(s);
    match spec_find(cleaned, '/') {
        None => None,
        Some(i) => {
            let toks = spec_split(cleaned.subrange(i + 1, cleaned.len() as int), ' ');
            if toks.len() < 2 {
                None
            } else {
                match spec_parse_i32(toks[1]) {
                    None => None,
                    Some(code) => Some(
                        StatusModel {
                            http_version: toks[0],
                            code: code,
                            reason: if toks.len() >= 3 {
                                Some(toks[2])
                            } else {
                                None
                            },
                        },
                    ),
                }
            }
        },
    }
}

/// Whether the line begins with `HTTP/`, compared without regard to
/// ASCII case.
pub open spec fn spec_has_http_prefix(s: Seq<char>) -> bool {
    &&& s.len() >= 5
    &&& upper_char(s[0]) == 'H'
    &&& upper_char(s[1]) == 'T'
    &&& upper_char(s[2]) == 'T'
    &&& upper_char(s[3]) == 'P'
    &&& s[4] == '/'
}

/// Tests for the case-insensitive prefix `HTTP/`.
pub fn has_http_prefix(s: &str) -> (r: bool)
    ensures
        r == spec_has_http_prefix(s@),
{
    let len = s.unicode_len();
    if len < 5 {
        return false;
    }
    let c0 = s.get_char(0);
    let c1 = s.get_char(1);
    let c2 = s.get_char(2);
    let c3 = s.get_char(3);
    let c4 = s.get_char(4);
    (c0 == 'H' || c0 == 'h') && (c1 == 'T' || c1 == 't') && (c2 == 'T' || c2 == 't') && (c3
        == 'P' || c3 == 'p') && c4 == '/'
}

impl HttpResponseHeader {
    /// Parses a status line, as `spec_parse_status` describes: it
    /// succeeds exactly when the cleaned line holds a `/` followed by a
    /// space-separated token list whose second token is a decimal code
    /// in 32-bit range.
    pub fn parse(line: &str) -> (r: Result<HttpResponseHeader, HttpstatError>)
        ensures
            match r {
                Ok(h) => spec_parse_status(line@) == Some(h@),
                Err(e) => {
                    &&& spec_parse_status(line@) is None
                    &&& e matches HttpstatError::Parse(m) && m@ == "invalid status line: "@
                        + line@
                },
            },
    {
        let trimmed = trim(line);
        let cleaned = remove_crlf(trimmed.as_str());
        match find_char(cleaned.as_str(), '/') {
            None => Err(Self::parse_error(line)),
            Some(i) => {
                proof {
                    lemma_find_props(cleaned@, '/');
                }
                let clen = cleaned.as_str().unicode_len();
                let rest = cleaned.as_str().substring_char(i + 1, clen);
                let toks = split_char(rest, ' ');
                if toks.len() < 2 {
                    Err(Self::parse_error(line))
                } else {
                    proof {
                        assert(toks.deep_view()[1] == toks@[1]@);
                        assert(toks.deep_view()[0] == toks@[0]@);
                    }
                    match parse_i32(toks[1].as_str()) {
                        None => Err(Self::parse_error(line)),
                        Some(code) => {
                            let reason = if toks.len() >= 3 {
                                proof {
                                    assert(toks.deep_view()[2] == toks@[2]@);
                                }
                                Some(toks[2].clone())
                            } else {
                                None
                            };
                            Ok(
                                HttpResponseHeader {
                                    http_version: toks[0].clone(),
                                    response_code: code,
                                    response_message: reason,
                                },
                            )
                        },
                    }
                }
            },
        }
    }

    /// The error a malformed status line produces.
    fn parse_error(line: &str) -> (e: HttpstatError)
        ensures
            e matches HttpstatError::Parse(m) && m@ == "invalid status line: "@ + line@,
    {
        let mut m = String::from_str("invalid status line: ");
        m.append(line);
        HttpstatError::Parse(m)
    }
}

} // verus!
