//! Credential tokens and the capability that decides whether one is valid.

use vstd::prelude::*;

verus! {

/// The prefix that marks a token as a valid credential.
pub const VALID_TOKEN_PREFIX: &'static str = "AUTH_SYGMA_VALID_";

/// `p` is a prefix of `s`.
pub open spec fn has_prefix(s: Seq<char>, p: Seq<char>) -> bool {
    p.len() <= s.len() && s.subrange(0, p.len() as int) == p
}

/// The default validity rule: the token carries the valid-credential prefix.
pub open spec fn has_valid_prefix(token: Seq<char>) -> bool {
    has_prefix(token, VALID_TOKEN_PREFIX@)
}

/// Whether `s` starts with `p`.
pub fn starts_with(s: &str, p: &str) -> (r: bool)
    ensures
        r == has_prefix(s@, p@),
{
    let n = s.unicode_len();
    let m = p.unicode_len();
    if m > n {
        return false;
    }
    let mut i: usize = 0;
    while i < m
        invariant
            m == p@.len(),
            n == s@.len(),
            m <= n,
            i <= m,
            s@.subrange(0, i as int) == p@.subrange(0, i as int),
        decreases m - i,
    {
        if s.get_char(i) != p.get_char(i) {
            assert(s@.subrange(0, m as int)[i as int] != p@[i as int]);
            return false;
        }
        assert(s@.subrange(0, i + 1) =~= p@.subrange(0, i + 1));
        i = i + 1;
    }
    assert(p@.subrange(0, m as int) =~= p@);
    true
}

/// The single capability a verifier needs: deciding whether a token is valid.
/// The slow path of verification goes through it, so a real proof-verification
/// backend can take the place of the default prefix rule.
pub trait TokenCheck {
    /// The set of tokens this check accepts.
    spec fn accepts(&self, token: Seq<char>) -> bool;

    /// Decides validity; an unreachable backend must answer `false`.
    fn check(&self, token: &str) -> (r: bool)
        ensures
            r == self.accepts(token@),
    ;
}

/// The default check: a token is valid when it carries [`VALID_TOKEN_PREFIX`].
pub struct PrefixCheck;

impl TokenCheck for PrefixCheck {
    open spec fn accepts(&self, token: Seq<char>) -> bool {
        has_valid_prefix(token)
    }

    fn check(&self, token: &str) -> (r: bool) {
        starts_with(token, VALID_TOKEN_PREFIX)
    }
}

} // verus!
