//! Framing of one request, `<token>|<payload>`, into its two trimmed fields.

use vstd::prelude::*;

verus! {

/// The character that separates the token from the payload.
pub const DELIMITER: char = '|';

/// Unicode's White_Space property, as `char::is_whitespace` reports it.
pub uninterp spec fn white_space(c: char) -> bool;

/// Relies on `char::is_whitespace`: the character has the White_Space property.
#[verifier::external_body]
fn is_white_space(c: char) -> (r: bool)
    ensures
        r == white_space(c),
{
    c.is_whitespace()
}

/// `s` without its leading white space.
pub open spec fn trim_start(s: Seq<char>) -> Seq<char>
    decreases s.len(),
{
    if s.len() > 0 && white_space(s[0]) {
        trim_start(s.drop_first())
    } else {
        s
    }
}

/// `s` without its trailing white space.
pub open spec fn trim_end(s: Seq<char>) -> Seq<char>
    decreases s.len(),
{
    if s.len() > 0 && white_space(s.last()) {
        trim_end(s.drop_last())
    } else {
        s
    }
}

/// `s` without leading and trailing white space.
pub open spec fn trim(s: Seq<char>) -> Seq<char> {
    trim_end(trim_start(s))
}

/// The index of the first delimiter in `s` at or after `from`, or the length of
/// `s` if there is none.
pub open spec fn delimiter_from(s: Seq<char>, from: int) -> int
    decreases s.len() - from,
{
    if from < 0 || from >= s.len() {
        s.len() as int
    } else if s[from] == DELIMITER {
        from
    } else {
        delimiter_from(s, from + 1)
    }
}

/// The request has at least two fields.
pub open spec fn is_framed(raw: Seq<char>) -> bool {
    delimiter_from(raw, 0) < raw.len()
}

/// The first field: everything before the first delimiter.
pub open spec fn token_field(raw: Seq<char>) -> Seq<char> {
    raw.subrange(0, delimiter_from(raw, 0))
}

/// The second field: from after the first delimiter to the next one or the end.
pub open spec fn payload_field(raw: Seq<char>) -> Seq<char> {
    let i = delimiter_from(raw, 0);
    raw.subrange(i + 1, delimiter_from(raw, i + 1))
}

/// A parsed request: the credential token and the payload, both trimmed.
pub struct Request {
    pub token: String,
    pub payload: String,
}

proof fn lemma_delimiter_bounds(s: Seq<char>, from: int)
    requires
        0 <= from <= s.len(),
    ensures
        from <= delimiter_from(s, from) <= s.len(),
        delimiter_from(s, from) < s.len() ==> s[delimiter_from(s, from)] == DELIMITER,
    decreases s.len() - from,
{
    if from < s.len() && s[from] != DELIMITER {
        lemma_delimiter_bounds(s, from + 1);
    }
}

/// The first delimiter at or after `from`, or the length.
fn find_delimiter(s: &str, n: usize, from: usize) -> (r: usize)
    requires
        n == s@.len(),
        from <= n,
    ensures
        r == delimiter_from(s@, from as int),
{
    let mut i: usize = from;
    while i < n
        invariant
            n == s@.len(),
            from <= i <= n,
            delimiter_from(s@, from as int) == delimiter_from(s@, i as int),
        decreases n - i,
    {
        if s.get_char(i) == DELIMITER {
            return i;
        }
        i = i + 1;
    }
    i
}

/// `s` without leading and trailing white space.
pub fn trim_str(s: &str) -> (r: String)
    ensures
        r@ == trim(s@),
{
    let n = s.unicode_len();
    let mut lo: usize = 0;
    assert(s@.subrange(0, n as int) =~= s@);
    while lo < n && is_white_space(s.get_char(lo))
        invariant
            n == s@.len(),
            lo <= n,
            trim_start(s@) == trim_start(s@.subrange(lo as int, n as int)),
        decreases n - lo,
    {
        assert(s@.subrange(lo as int, n as int).drop_first() =~= s@.subrange(lo + 1, n as int));
        lo = lo + 1;
    }
    assert(trim_start(s@.subrange(lo as int, n as int)) == s@.subrange(lo as int, n as int));
    let mut hi: usize = n;
    while hi > lo && is_white_space(s.get_char(hi - 1))
        invariant
            n == s@.len(),
            lo <= hi <= n,
            trim(s@) == trim_end(s@.subrange(lo as int, hi as int)),
        decreases hi - lo,
    {
        assert(s@.subrange(lo as int, hi as int).drop_last() =~= s@.subrange(
            lo as int,
            hi - 1,
        ));
        hi = hi - 1;
    }
    let t = s.substring_char(lo, hi);
    String::from_str(t)
}

/// Splits a raw request on the delimiter: `None` when it has fewer than two
/// fields, otherwise the first two fields, trimmed.
pub fn parse_request(raw: &str) -> (r: Option<Request>)
    ensures
        r is None <==> !is_framed(raw@),
        r matches Some(q) ==> q.token@ == trim(token_field(raw@)) && q.payload@ == trim(
            payload_field(raw@),
        ),
{
    let n = raw.unicode_len();
    let i = find_delimiter(raw, n, 0);
    proof {
        lemma_delimiter_bounds(raw@, 0);
    }
    if i == n {
        return None;
    }
    let j = find_delimiter(raw, n, i + 1);
    proof {
        lemma_delimiter_bounds(raw@, i + 1);
    }
    let token = trim_str(raw.substring_char(0, i));
    let payload = trim_str(raw.substring_char(i + 1, j));
    Some(Request { token, payload })
}

} // verus!
