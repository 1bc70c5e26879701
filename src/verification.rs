//! Token verification: the cache first, the slow check on a miss, and only
//! positive outcomes recorded.

use vstd::prelude::*;
use crate::credential::{TokenCheck, PrefixCheck, has_valid_prefix};
use crate::trust_cache::{TrustCache, MAX_TTL_SECS};

verus! {

/// The reference capacity of the trust cache.
pub const DEFAULT_CACHE_CAPACITY: u64 = 10_000;

/// The reference time to live of a trust decision, in seconds.
pub const DEFAULT_CACHE_TTL_SECS: u64 = 300;

/// One more, stopping at the largest `u64`.
pub open spec fn bumped(n: u64) -> u64 {
    if n < u64::MAX {
        (n + 1) as u64
    } else {
        n
    }
}

/// Decides token validity through a [`TokenCheck`], consulting and filling a
/// [`TrustCache`] of positive decisions.
pub struct TrustVerifier<C> {
    check: C,
    cache: TrustCache,
    slow_path_runs: u64,
}

impl<C: TokenCheck> TrustVerifier<C> {
    /// The check behind the slow path.
    pub closed spec fn check_spec(&self) -> C {
        self.check
    }

    /// The decisions the cache may return.
    pub closed spec fn cached(&self) -> Map<Seq<char>, bool> {
        self.cache@
    }

    /// How many times the slow path has run, saturating at the largest `u64`.
    pub closed spec fn runs(&self) -> u64 {
        self.slow_path_runs
    }

    /// The cache holds only positive decisions, and only for tokens the check
    /// accepts.
    pub closed spec fn wf(&self) -> bool {
        forall|t: Seq<char>| #[trigger]
            self.cache@.contains_key(t) ==> self.cache@[t] && self.check.accepts(t)
    }

    /// The result and effect of one verification of `token`, taking `self` to
    /// `next`: the answer is the check's, and either it came from the cache (no
    /// slow-path run, nothing changed) or the slow path ran and a positive
    /// answer was recorded.
    pub open spec fn verified(self, next: Self, token: Seq<char>, r: bool) -> bool {
        &&& r == self.check_spec().accepts(token)
        &&& next.check_spec() == self.check_spec()
        &&& next.wf()
        &&& {
            ||| next.runs() == self.runs() && next.cached() == self.cached()
                && self.cached().contains_key(token)
            ||| next.runs() == bumped(self.runs()) && next.cached() == (if r {
                self.cached().insert(token, true)
            } else {
                self.cached()
            })
        }
    }

    /// A verifier over `check` with an empty cache of `capacity` entries kept
    /// for `ttl_secs` seconds.
    pub fn new(check: C, capacity: u64, ttl_secs: u64) -> (r: Self)
        requires
            ttl_secs <= MAX_TTL_SECS,
        ensures
            r.wf(),
            r.check_spec() == check,
            r.cached() == Map::<Seq<char>, bool>::empty(),
            r.runs() == 0,
    {
        TrustVerifier { check, cache: TrustCache::new(capacity, ttl_secs), slow_path_runs: 0 }
    }

    /// The cache of trust decisions.
    pub fn cache(&self) -> (r: &TrustCache)
        ensures
            r@ == self.cached(),
    {
        &self.cache
    }

    /// How many times the slow path has run.
    pub fn slow_path_runs(&self) -> (r: u64)
        ensures
            r == self.runs(),
    {
        self.slow_path_runs
    }

    /// Whether `token` is valid. A cached decision answers at once; otherwise
    /// the check decides, and a positive answer is cached. A negative answer
    /// is never cached, so no entry exists for a rejected token.
    pub fn verify(&mut self, token: &str) -> (r: bool)
        requires
            old(self).wf(),
        ensures
            old(self).verified(*final(self), token@, r),
            r == old(self).check_spec().accepts(token@),
            !r ==> !final(self).cached().contains_key(token@),
    {
        if let Some(v) = self.cache.get(token) {
            return v;
        }
        let valid = self.check.check(token);
        if self.slow_path_runs < u64::MAX {
            self.slow_path_runs = self.slow_path_runs + 1;
        }
        if valid {
            self.cache.put(token.to_string());
        }
        valid
    }
}

impl TrustVerifier<PrefixCheck> {
    /// A verifier with the default prefix rule and the reference cache
    /// settings.
    pub fn with_defaults() -> (r: Self)
        ensures
            r.wf(),
            r.cached() == Map::<Seq<char>, bool>::empty(),
            r.runs() == 0,
    {
        TrustVerifier::new(PrefixCheck, DEFAULT_CACHE_CAPACITY, DEFAULT_CACHE_TTL_SECS)
    }
}

/// The zero-trust check of the gateway: true exactly for tokens that carry the
/// valid-credential prefix, whatever the cache holds.
pub fn verify_zero_trust_token(verifier: &mut TrustVerifier<PrefixCheck>, token: &str) -> (r: bool)
    requires
        old(verifier).wf(),
    ensures
        r == has_valid_prefix(token@),
        old(verifier).verified(*final(verifier), token@, r),
{
    verifier.verify(token)
}

/// Verifying one token twice in a row gives the same answer both times, and
/// after an accepting first call the token is among the cached positive
/// decisions, from which the second call may be answered without the slow
/// path.
pub proof fn repeated_verification_agrees<C: TokenCheck>(
    s0: TrustVerifier<C>,
    s1: TrustVerifier<C>,
    s2: TrustVerifier<C>,
    token: Seq<char>,
    r1: bool,
    r2: bool,
)
    requires
        s0.wf(),
        s0.verified(s1, token, r1),
        s1.verified(s2, token, r2),
    ensures
        r1 == r2,
        r1 ==> s1.cached().contains_key(token) && s1.cached()[token],
{
}

} // verus!
