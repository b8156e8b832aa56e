//! The validation cache and the middleware guard.
//!
//! The cache maps already-validated tokens to their expiration. The guard
//! consults it before the authenticator: a hit that is still in the future
//! authorizes without a fresh verdict; a hit whose expiration has passed is
//! evicted and the token re-verified; a miss asks the authenticator and
//! memoizes only a successful verdict.

use crate::auth::AuthService;
use crate::bearer::BearerToken;
use crate::error::AuthError;
use crate::time::ExpirationTime;
use vstd::prelude::*;

verus! {

/// Whether no token occurs twice among the entries.
spec fn seq_wf(s: Seq<(BearerToken, ExpirationTime)>) -> bool {
    forall|i: int, j: int| 0 <= i < j < s.len() ==> s[i].0@ != s[j].0@
}

/// The expiration some entry stores for a token, if any entry holds it.
spec fn seq_get(s: Seq<(BearerToken, ExpirationTime)>, token: Seq<u8>) -> Option<u64> {
    if exists|i: int| 0 <= i < s.len() && s[i].0@ == token {
        let i = choose|i: int| 0 <= i < s.len() && s[i].0@ == token;
        Some(s[i].1.millis)
    } else {
        None
    }
}

/// If no entry holds the token, nothing is stored for it.
proof fn lemma_seq_get_absent(s: Seq<(BearerToken, ExpirationTime)>, token: Seq<u8>)
    requires
        forall|k: int| 0 <= k < s.len() ==> s[k].0@ != token,
    ensures
        seq_get(s, token) is None,
{
}

/// If entry `i` holds the token and no token occurs twice, that entry's
/// expiration is what is stored.
proof fn lemma_seq_get_at(s: Seq<(BearerToken, ExpirationTime)>, token: Seq<u8>, i: int)
    requires
        seq_wf(s),
        0 <= i < s.len(),
        s[i].0@ == token,
    ensures
        seq_get(s, token) == Some(s[i].1.millis),
{
    let k = choose|k: int| 0 <= k < s.len() && s[k].0@ == token;
    if k != i {
        assert(s[k].0@ == s[i].0@);
        assert(false);
    }
}

/// If nothing is stored for the token, no entry holds it.
proof fn lemma_seq_get_none_means(s: Seq<(BearerToken, ExpirationTime)>, token: Seq<u8>, k: int)
    requires
        seq_get(s, token) is None,
        0 <= k < s.len(),
    ensures
        s[k].0@ != token,
{
    if s[k].0@ == token {
        assert(exists|i: int| 0 <= i < s.len() && s[i].0@ == token);
        assert(false);
    }
}

/// Removing one entry cannot introduce a duplicate.
proof fn lemma_remove_wf(s: Seq<(BearerToken, ExpirationTime)>, i: int)
    requires
        seq_wf(s),
        0 <= i < s.len(),
    ensures
        seq_wf(s.remove(i)),
{
    let s2 = s.remove(i);
    assert(forall|k: int|
        0 <= k < s2.len() ==> s2[k] == (if k < i {
            s[k]
        } else {
            s[k + 1]
        }));
}

/// Removing one entry does not disturb what is stored for other tokens.
proof fn lemma_remove_keeps_others(s: Seq<(BearerToken, ExpirationTime)>, i: int, t: Seq<u8>)
    requires
        seq_wf(s),
        0 <= i < s.len(),
        s[i].0@ != t,
    ensures
        seq_wf(s.remove(i)),
        seq_get(s.remove(i), t) == seq_get(s, t),
{
    lemma_remove_wf(s, i);
    let s2 = s.remove(i);
    assert(forall|k: int|
        0 <= k < s2.len() ==> s2[k] == (if k < i {
            s[k]
        } else {
            s[k + 1]
        }));
    if exists|k: int| 0 <= k < s.len() && s[k].0@ == t {
        let k = choose|k: int| 0 <= k < s.len() && s[k].0@ == t;
        let k2 = if k < i {
            k
        } else {
            k - 1
        };
        assert(s2[k2] == s[k]);
        lemma_seq_get_at(s, t, k);
        lemma_seq_get_at(s2, t, k2);
    } else {
        assert(forall|k: int| 0 <= k < s2.len() ==> s2[k].0@ != t);
        lemma_seq_get_absent(s2, t);
        lemma_seq_get_absent(s, t);
    }
}

/// Appending an entry for one token disturbs nothing stored for others.
proof fn lemma_push_keeps_others(
    s: Seq<(BearerToken, ExpirationTime)>,
    x: (BearerToken, ExpirationTime),
    t: Seq<u8>,
)
    requires
        seq_wf(s),
        seq_wf(s.push(x)),
        x.0@ != t,
    ensures
        seq_get(s.push(x), t) == seq_get(s, t),
{
    let s2 = s.push(x);
    if exists|k: int| 0 <= k < s.len() && s[k].0@ == t {
        let k = choose|k: int| 0 <= k < s.len() && s[k].0@ == t;
        lemma_seq_get_at(s, t, k);
        lemma_seq_get_at(s2, t, k);
    } else {
        assert(forall|k: int| 0 <= k < s2.len() ==> s2[k].0@ != t);
        lemma_seq_get_absent(s2, t);
        lemma_seq_get_absent(s, t);
    }
}

/// A map from validated bearer tokens to the expiration each was
/// validated with. Entries exist only for tokens the authenticator once
/// accepted; each token occurs at most once.
pub struct TokenCache {
    entries: Vec<(BearerToken, ExpirationTime)>,
}

impl TokenCache {
    /// Well-formed: no token occurs twice.
    pub closed spec fn wf(&self) -> bool {
        seq_wf(self.entries@)
    }

    /// The expiration stored for a token, if any.
    pub closed spec fn spec_get(&self, token: Seq<u8>) -> Option<u64> {
        seq_get(self.entries@, token)
    }

    /// An empty cache.
    pub fn new() -> (r: TokenCache)
        ensures
            r.wf(),
            forall|t: Seq<u8>| r.spec_get(t) is None,
    {
        TokenCache { entries: Vec::new() }
    }

    /// The number of entries held, as a mathematical value.
    pub closed spec fn spec_len(&self) -> nat {
        self.entries@.len()
    }

    /// The number of entries held.
    pub fn len(&self) -> (r: usize)
        ensures
            r == self.spec_len(),
    {
        self.entries.len()
    }

    /// The position of the token's entry, if it has one.
    fn find(&self, token: &BearerToken) -> (r: Option<usize>)
        requires
            self.wf(),
        ensures
            match r {
                Some(i) => {
                    &&& 0 <= i < self.entries@.len()
                    &&& self.entries@[i as int].0@ == token@
                    &&& self.spec_get(token@) == Some(self.entries@[i as int].1.millis)
                },
                None => self.spec_get(token@) is None,
            },
    {
        let n = self.entries.len();
        let mut i: usize = 0;
        while i < n
            invariant
                self.wf(),
                n == self.entries@.len(),
                0 <= i <= n,
                forall|j: int| 0 <= j < i ==> self.entries@[j].0@ != token@,
            decreases n - i,
        {
            if self.entries[i].0 == *token {
                proof {
                    lemma_seq_get_at(self.entries@, token@, i as int);
                }
                return Some(i);
            }
            i += 1;
        }
        proof {
            lemma_seq_get_absent(self.entries@, token@);
        }
        None
    }

    /// The expiration a token was validated with, if it is cached.
    pub fn get(&self, token: &BearerToken) -> (r: Option<ExpirationTime>)
        requires
            self.wf(),
        ensures
            match self.spec_get(token@) {
                Some(m) => r is Some && r->0.millis == m,
                None => r is None,
            },
    {
        match self.find(token) {
            Some(i) => Some(self.entries[i].1),
            None => None,
        }
    }

    /// Drops the token's entry, if it has one; every other entry stays.
    pub fn remove(&mut self, token: &BearerToken)
        requires
            old(self).wf(),
        ensures
            final(self).wf(),
            final(self).spec_get(token@) is None,
            forall|t: Seq<u8>| t != token@ ==> final(self).spec_get(t) == old(self).spec_get(t),
    {
        let found = self.find(token);
        match found {
            None => {},
            Some(i) => {
                let ghost s = self.entries@;
                self.entries.remove(i);
                proof {
                    let s2 = self.entries@;
                    assert forall|k: int| 0 <= k < s2.len() implies s2[k].0@ != token@ by {
                        if k < i {
                            assert(s2[k] == s[k]);
                        } else {
                            assert(s2[k] == s[k + 1]);
                        }
                    }
                    lemma_seq_get_absent(s2, token@);
                    assert forall|t: Seq<u8>| t != token@ implies seq_get(s2, t) == seq_get(
                        s,
                        t,
                    ) by {
                        lemma_remove_keeps_others(s, i as int, t);
                    }
                    lemma_remove_wf(s, i as int);
                }
            },
        }
    }

    /// Stores the token's expiration, replacing any entry it had; every
    /// other entry stays.
    pub fn insert(&mut self, token: BearerToken, expiration: ExpirationTime)
        requires
            old(self).wf(),
        ensures
            final(self).wf(),
            final(self).spec_get(token@) == Some(expiration.millis),
            forall|t: Seq<u8>| t != token@ ==> final(self).spec_get(t) == old(self).spec_get(t),
    {
        self.remove(&token);
        let ghost s = self.entries@;
        let ghost key = token@;
        self.entries.push((token, expiration));
        proof {
            let s2 = self.entries@;
            let n = s.len() as int;
            assert forall|k: int| 0 <= k < n implies s[k].0@ != key by {
                lemma_seq_get_none_means(s, key, k);
            }
            assert(seq_wf(s2));
            lemma_seq_get_at(s2, key, n);
            assert forall|t: Seq<u8>| t != key implies seq_get(s2, t) == seq_get(s, t) by {
                lemma_push_keeps_others(s, s2[n], t);
            }
        }
    }
}

/// Whether one pass of the guard's decision procedure authorizes, given
/// the token's cache entry, the authenticator's verdict were it asked, and
/// the current instant.
pub open spec fn spec_check_result(
    cached: Option<u64>,
    verdict: Result<ExpirationTime, AuthError>,
    now: u64,
) -> bool {
    if cached is Some && now < cached->0 {
        true
    } else {
        verdict is Ok
    }
}

/// The token's cache entry after one pass of the guard's decision
/// procedure: a live hit stays; otherwise only a successful fresh verdict
/// is memoized.
pub open spec fn spec_check_entry(
    cached: Option<u64>,
    verdict: Result<ExpirationTime, AuthError>,
    now: u64,
) -> Option<u64> {
    if cached is Some && now < cached->0 {
        cached
    } else if verdict is Ok {
        Some(verdict->Ok_0.millis)
    } else {
        None
    }
}

/// Middleware checker: gates a protected operation on the validity of the
/// presented bearer token, consulting the shared cache first.
pub struct AuthorizationGuard<A: AuthService> {
    validated_tokens: TokenCache,
    auth_endpoint: A,
}

impl<A: AuthService> AuthorizationGuard<A> {
    /// Well-formed: the cache it holds is.
    pub closed spec fn wf(&self) -> bool {
        self.validated_tokens.wf()
    }

    /// The expiration cached for a token, if any.
    pub closed spec fn cached(&self, token: Seq<u8>) -> Option<u64> {
        self.validated_tokens.spec_get(token)
    }

    /// The validation endpoint the guard falls back to.
    pub closed spec fn endpoint(&self) -> A {
        self.auth_endpoint
    }

    /// A guard over a validation cache and an auth endpoint.
    pub fn new(validated_tokens: TokenCache, auth_endpoint: A) -> (r: AuthorizationGuard<A>)
        requires
            validated_tokens.wf(),
        ensures
            r.wf(),
            r.endpoint() == auth_endpoint,
            forall|t: Seq<u8>| r.cached(t) == validated_tokens.spec_get(t),
    {
        AuthorizationGuard { validated_tokens, auth_endpoint }
    }

    /// The complete authorization decision for one request bearing the
    /// token: authorized or not, with the cache updated as the decision
    /// procedure prescribes. The authenticator's verdict enters the
    /// decision only outside a live cache hit.
    pub fn check(&mut self, bearer: &BearerToken, now: ExpirationTime) -> (r: bool)
        requires
            old(self).wf(),
        ensures
            final(self).wf(),
            final(self).endpoint() == old(self).endpoint(),
            ({
                let cached = old(self).cached(bearer@);
                let verdict = old(self).endpoint().validate_spec(bearer@, now.millis);
                &&& r == spec_check_result(cached, verdict, now.millis)
                &&& final(self).cached(bearer@) == spec_check_entry(cached, verdict, now.millis)
                &&& (cached is Some && now.millis < cached->0 ==> forall|t: Seq<u8>|
                    final(self).cached(t) == old(self).cached(t))
                &&& forall|t: Seq<u8>|
                    t != bearer@ ==> final(self).cached(t) == old(self).cached(t)
            }),
    {
        let mut stale = false;
        match self.validated_tokens.get(bearer) {
            Some(expires) => {
                if !expires.has_passed(now) {
                    return true;
                }
                stale = true;
            },
            None => {},
        }
        if stale {
            self.validated_tokens.remove(bearer);
        }
        match self.auth_endpoint.validate_token(bearer, now) {
            Ok(expires) => {
                self.validated_tokens.insert(bearer.clone(), expires);
                true
            },
            Err(_) => false,
        }
    }
}

/// Cache-coherence law: once a check authorizes a token, a second check
/// for the same token before its recorded expiration authorizes again
/// whatever verdict the authenticator would now give — the fresh verdict
/// does not enter the decision — and leaves the entry as it was.
pub proof fn lemma_cache_coherence(
    cached: Option<u64>,
    verdict: Result<ExpirationTime, AuthError>,
    later_verdict: Result<ExpirationTime, AuthError>,
    now: u64,
    later: u64,
)
    requires
        spec_check_result(cached, verdict, now),
        later < spec_check_entry(cached, verdict, now)->0,
    ensures
        spec_check_entry(cached, verdict, now) is Some,
        spec_check_result(spec_check_entry(cached, verdict, now), later_verdict, later),
        spec_check_entry(spec_check_entry(cached, verdict, now), later_verdict, later)
            == spec_check_entry(cached, verdict, now),
{
}

/// Expired-entry eviction law: a check that finds the token's cached
/// expiration already passed does not let the stale entry decide —
/// authorization and the new entry follow the authenticator's fresh
/// verdict alone, exactly as for a token never cached.
pub proof fn lemma_expired_entry_refreshed(
    stale: u64,
    verdict: Result<ExpirationTime, AuthError>,
    now: u64,
)
    requires
        stale <= now,
    ensures
        spec_check_result(Some(stale), verdict, now) == spec_check_result(None, verdict, now),
        spec_check_entry(Some(stale), verdict, now) == spec_check_entry(None, verdict, now),
        spec_check_result(Some(stale), verdict, now) == (verdict is Ok),
{
}

} // verus!
