//! Character-level utilities shared by the header and status-line parsers:
//! trimming, searching, splitting and ASCII case mapping.

use vstd::prelude::*;

verus! {

/// Characters treated as surrounding whitespace when header values and
/// status lines are trimmed: space, tab, carriage return, line feed.
pub open spec fn is_ws(c: char) -> bool {
    c == ' ' || c == '\t' || c == '\r' || c == '\n'
}

/// The sequence with its leading whitespace removed.
pub open spec fn trim_start(s: Seq<char>) -> Seq<char>
    decreases s.len(),
{
    if s.len() > 0 && is_ws(s[0]) {
        trim_start(s.drop_first())
    } else {
        s
    }
}

/// The sequence with its trailing whitespace removed.
pub open spec fn trim_end(s: Seq<char>) -> Seq<char>
    decreases s.len(),
{
    if s.len() > 0 && is_ws(s[s.len() - 1]) {
        trim_end(s.drop_last())
    } else {
        s
    }
}

/// The sequence with surrounding whitespace removed on both sides.
pub open spec fn spec_trim(s: Seq<char>) -> Seq<char> {
    trim_end(trim_start(s))
}

/// Trims surrounding whitespace, as `spec_trim` describes.
pub fn trim(s: &str) -> (r: String)
    ensures
        r@ == spec_trim(s@),
{
    let len = s.unicode_len();
    proof {
        assert(s@.subrange(0, len as int) =~= s@);
    }
    let mut i: usize = 0;
    while i < len && is_ws_char(s.get_char(i))
        invariant
            i <= len,
            len == s@.len(),
            trim_start(s@) == trim_start(s@.subrange(i as int, len as int)),
        decreases len - i,
    {
        proof {
            assert(s@.subrange(i as int, len as int).drop_first() =~= s@.subrange(
                i + 1,
                len as int,
            ));
        }
        i = i + 1;
    }
    proof {
        if i == len {
            assert(s@.subrange(i as int, len as int) =~= Seq::<char>::empty());
        }
        assert(trim_start(s@) =~= s@.subrange(i as int, len as int));
    }
    let mut j: usize = len;
    while j > i && is_ws_char(s.get_char(j - 1))
        invariant
            i <= j <= len,
            len == s@.len(),
            trim_start(s@) == s@.subrange(i as int, len as int),
            trim_end(s@.subrange(i as int, len as int)) == trim_end(
                s@.subrange(i as int, j as int),
            ),
        decreases j - i,
    {
        proof {
            assert(s@.subrange(i as int, j as int).drop_last() =~= s@.subrange(
                i as int,
                j - 1,
            ));
        }
        j = j - 1;
    }
    proof {
        if j == i {
            assert(s@.subrange(i as int, j as int) =~= Seq::<char>::empty());
        }
        assert(spec_trim(s@) =~= s@.subrange(i as int, j as int));
    }
    let out = s.substring_char(i, j);
    String::from_str(out)
}

/// Whether `c` counts as whitespace for trimming.
pub fn is_ws_char(c: char) -> (r: bool)
    ensures
        r == is_ws(c),
{
    c == ' ' || c == '\t' || c == '\r' || c == '\n'
}

/// Index of the first occurrence of `c` in `s`, if any.
pub open spec fn spec_find(s: Seq<char>, c: char) -> Option<int>
    decreases s.len(),
{
    if s.len() == 0 {
        None
    } else if s[0] == c {
        Some(0int)
    } else {
        match spec_find(s.drop_first(), c) {
            Some(i) => Some(i + 1),
            None => None,
        }
    }
}

/// What a found index means: it is in bounds, holds `c`, and nothing
/// before it does; absence means no position holds `c`.
pub proof fn lemma_find_props(s: Seq<char>, c: char)
    ensures
        match spec_find(s, c) {
            Some(i) => 0 <= i < s.len() && s[i] == c && (forall|k: int| 0 <= k < i ==> s[k] != c),
            None => forall|k: int| 0 <= k < s.len() ==> s[k] != c,
        },
    decreases s.len(),
{
    if s.len() > 0 && s[0] != c {
        let rest = s.drop_first();
        lemma_find_props(rest, c);
        match spec_find(rest, c) {
            Some(i) => {
                assert forall|k: int| 0 <= k < i + 1 implies s[k] != c by {
                    if k > 0 {
                        assert(s[k] == rest[k - 1]);
                    }
                }
            },
            None => {
                assert forall|k: int| 0 <= k < s.len() implies s[k] != c by {
                    if k > 0 {
                        assert(s[k] == rest[k - 1]);
                    }
                }
            },
        }
    }
}

/// The converse: a position holding `c` with none before it is what
/// `spec_find` returns.
pub proof fn lemma_find_at(s: Seq<char>, c: char, i: int)
    requires
        0 <= i < s.len(),
        s[i] == c,
        forall|k: int| 0 <= k < i ==> s[k] != c,
    ensures
        spec_find(s, c) == Some(i),
    decreases i,
{
    if i > 0 {
        lemma_find_at(s.drop_first(), c, i - 1);
    }
}

/// Finds the first occurrence of `c` in `s`.
pub fn find_char(s: &str, c: char) -> (r: Option<usize>)
    ensures
        match r {
            Some(i) => spec_find(s@, c) == Some(i as int),
            None => spec_find(s@, c) is None,
        },
    decreases s@.len(),
{
    let len = s.unicode_len();
    if len == 0 {
        None
    } else if s.get_char(0) == c {
        Some(0)
    } else {
        let rest = s.substring_char(1, len);
        proof {
            assert(rest@ =~= s@.drop_first());
        }
        match find_char(rest, c) {
            Some(i) => {
                proof {
                    lemma_find_props(rest@, c);
                }
                Some(i + 1)
            },
            None => None,
        }
    }
}

/// The pieces of `s` between occurrences of the separator `c`, in order.
/// There is always at least one piece; an empty input gives one empty
/// piece, as splitting does in ordinary Rust.
pub open spec fn spec_split(s: Seq<char>, c: char) -> Seq<Seq<char>>
    decreases s.len(),
{
    match spec_find(s, c) {
        None => seq![s],
        Some(i) => if 0 <= i < s.len() {
            seq![s.subrange(0, i)] + spec_split(s.subrange(i + 1, s.len() as int), c)
        } else {
            // spec_find never yields an out-of-range index; this branch only
            // keeps the recursion well founded.
            seq![s]
        },
    }
}

/// Splits `s` on the separator `c`, as `spec_split` describes.
pub fn split_char(s: &str, c: char) -> (r: Vec<String>)
    ensures
        r.deep_view() == spec_split(s@, c),
        r.len() >= 1,
    decreases s@.len(),
{
    let len = s.unicode_len();
    match find_char(s, c) {
        Some(i) => {
            proof {
                lemma_find_props(s@, c);
            }
            let head = String::from_str(s.substring_char(0, i));
            let rest = s.substring_char(i + 1, len);
            let mut r = split_char(rest, c);
            r.insert(0, head);
            proof {
                assert(r.deep_view() =~~= spec_split(s@, c));
            }
            r
        },
        None => {
            let mut r: Vec<String> = Vec::new();
            r.push(String::from_str(s));
            proof {
                assert(r.deep_view() =~~= spec_split(s@, c));
            }
            r
        },
    }
}

/// The sequence with every carriage return and line feed removed.
pub open spec fn without_crlf(s: Seq<char>) -> Seq<char>
    decreases s.len(),
{
    if s.len() == 0 {
        Seq::empty()
    } else if s[0] == '\r' || s[0] == '\n' {
        without_crlf(s.drop_first())
    } else {
        seq![s[0]] + without_crlf(s.drop_first())
    }
}

/// Removes every carriage return and line feed from `s`.
pub fn remove_crlf(s: &str) -> (r: String)
    ensures
        r@ == without_crlf(s@),
    decreases s@.len(),
{
    let len = s.unicode_len();
    if len == 0 {
        String::new()
    } else {
        let c = s.get_char(0);
        let rest = s.substring_char(1, len);
        proof {
            assert(rest@ =~= s@.drop_first());
        }
        let tail = remove_crlf(rest);
        if c == '\r' || c == '\n' {
            tail
        } else {
            let mut out = String::new();
            push_char(&mut out, c);
            out.append(tail.as_str());
            proof {
                assert(out@ =~= seq![s@[0]] + without_crlf(s@.drop_first()));
            }
            out
        }
    }
}

/// The ASCII upper-case counterpart of `c`; other characters unchanged.
pub open spec fn upper_char(c: char) -> char {
    if 'a' <= c && c <= 'z' {
        ((c as int) - 32) as char
    } else {
        c
    }
}

/// `s` with every ASCII lower-case letter replaced by its upper-case
/// counterpart.
pub open spec fn spec_upper(s: Seq<char>) -> Seq<char>
    decreases s.len(),
{
    if s.len() == 0 {
        Seq::empty()
    } else {
        seq![upper_char(s[0])] + spec_upper(s.drop_first())
    }
}

/// Upper-cases the ASCII letters of `s`, as `spec_upper` describes.
pub fn ascii_upper(s: &str) -> (r: String)
    ensures
        r@ == spec_upper(s@),
    decreases s@.len(),
{
    let len = s.unicode_len();
    if len == 0 {
        String::new()
    } else {
        let c = s.get_char(0);
        let rest = s.substring_char(1, len);
        proof {
            assert(rest@ =~= s@.drop_first());
        }
        let tail = ascii_upper(rest);
        let up = if c >= 'a' && c <= 'z' {
            (((c as u8) - 32)) as char
        } else {
            c
        };
        assert(up == upper_char(s@[0]));
        let mut out = String::new();
        push_char(&mut out, up);
        out.append(tail.as_str());
        proof {
            assert(out@ =~= seq![upper_char(s@[0])] + spec_upper(s@.drop_first()));
        }
        out
    }
}

/// Relies on `String::push`: appends the given character to the end of
/// the string.
#[verifier::external_body]
fn push_char(s: &mut String, c: char)
    ensures
        final(s)@ == old(s)@.push(c),
{
    s.push(c)
}

} // verus!
