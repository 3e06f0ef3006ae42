//! Response header lines: the `name: value` pairs of the wire format.

use vstd::prelude::*;
use crate::error::HttpstatError;
use crate::text::{find_char, lemma_find_at, lemma_find_props, spec_find, spec_trim, trim,
    trim_start};

verus! {

/// One response header: a name and a value.
///
/// Parsed from a line `name: value`; the name is kept verbatim, the
/// value is trimmed of surrounding whitespace and line terminators.
#[derive(Debug, Clone)]
pub struct Header {
    pub name: String,
    pub value: String,
}

/// The mathematical model of a [`Header`]: its two character sequences.
#[verifier::ext_equal]
pub struct HeaderModel {
    pub name: Seq<char>,
    pub value: Seq<char>,
}

impl View for Header {
    type V = HeaderModel;

    open spec fn view(&self) -> HeaderModel {
        HeaderModel { name: self.name@, value: self.value@ }
    }
}

impl DeepView for Header {
    type V = HeaderModel;

    open spec fn deep_view(&self) -> HeaderModel {
        self@
    }
}

/// What parsing a header line yields: the text before the first colon
/// becomes the name, the text after it, trimmed, becomes the value.
/// A line without a colon is invalid.
pub open spec fn spec_parse_header(s: Seq<char>) -> Option<HeaderModel> {
    match spec_find(s, ':') {
        None => None,
        Some(i) => Some(
            HeaderModel { name: s.subrange(0, i), value: spec_trim(s.subrange(i + 1, s.len() as int)) },
        ),
    }
}

/// The line `name: value` that [`Header::to_line`] produces.
pub open spec fn spec_header_line(h: HeaderModel) -> Seq<char> {
    h.name + seq![':', ' '] + h.value
}

impl Header {
    /// Parses a header line, as `spec_parse_header` describes: it
    /// succeeds exactly when the line holds a colon.
    pub fn parse(s: &str) -> (r: Result<Header, HttpstatError>)
        ensures
            match r {
                Ok(h) => spec_parse_header(s@) == Some(h@),
                Err(e) => {
                    &&& spec_parse_header(s@) is None
                    &&& e matches HttpstatError::Parse(m) && m@ == "invalid header line: "@ + s@
                },
            },
    {
        let len = s.unicode_len();
        match find_char(s, ':') {
            Some(i) => {
                proof {
                    lemma_find_props(s@, ':');
                }
                let name = String::from_str(s.substring_char(0, i));
                let value = trim(s.substring_char(i + 1, len));
                Ok(Header { name, value })
            },
            None => {
                let mut m = String::from_str("invalid header line: ");
                m.append(s);
                Err(HttpstatError::Parse(m))
            },
        }
    }

    /// Formats this header as the line `name: value`.
    pub fn to_line(&self) -> (r: String)
        ensures
            r@ == spec_header_line(self@),
    {
        let mut out = self.name.clone();
        out.append(": ");
        out.append(self.value.as_str());
        proof {
            reveal_strlit(": ");
            assert(out@ =~= spec_header_line(self@));
        }
        out
    }
}

/// Round trip: formatting a header as `name: value` and parsing the line
/// back yields the original name and value, provided the name holds no
/// colon and the value carries no surrounding whitespace. (A value such
/// as `" x"` would come back trimmed, so those inputs are left out.)
pub proof fn lemma_header_round_trip(h: HeaderModel)
    requires
        spec_find(h.name, ':') is None,
        spec_trim(h.value) == h.value,
    ensures
        spec_parse_header(spec_header_line(h)) == Some(h),
{
    let line = spec_header_line(h);
    let n = h.name.len() as int;
    lemma_find_props(h.name, ':');
    assert(line[n] == ':');
    assert forall|k: int| 0 <= k < n implies line[k] != ':' by {
        assert(line[k] == h.name[k]);
    }
    lemma_find_at(line, ':', n);
    assert(line.subrange(0, n) =~= h.name);
    assert(line.subrange(n + 1, line.len() as int) =~= seq![' '] + h.value);
    assert((seq![' '] + h.value).drop_first() =~= h.value);
    assert(trim_start(seq![' '] + h.value) == trim_start(h.value));
}

} // verus!
