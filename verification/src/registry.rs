//! OpenID provider registry: a TTL cache of discovered provider clients.
//!
//! Discovery is a network call and happens outside this crate; the registry
//! holds whatever client value the caller obtained, keyed by provider, and
//! answers lookups only while the entry is fresh. The cache is an explicit
//! value handed to its consumers; population of a missing key is the
//! caller's task (and any single-flight coalescing of concurrent discovery
//! belongs to the code driving the cache).
use vstd::prelude::*;

verus! {

/// Provider for authentication.
#[derive(Clone, Copy, Debug, Hash, PartialEq, Eq, Structural)]
pub enum AuthProvider {
    Google,
    Microsoft,
}

/// The OpenID scopes requested from every provider.
pub const SCOPES: &'static str = "openid profile email";

/// The environment variable prefix under which a provider's keys live.
pub open spec fn spec_env_prefix(p: AuthProvider) -> Seq<char> {
    match p {
        AuthProvider::Google => "GOOGLE_OPENID"@,
        AuthProvider::Microsoft => "MICROSOFT_OPENID"@,
    }
}

impl AuthProvider {
    pub fn all() -> (r: [AuthProvider; 2])
        ensures
            r@ == seq![AuthProvider::Google, AuthProvider::Microsoft],
    {
        let r = [AuthProvider::Google, AuthProvider::Microsoft];
        proof {
            assert(r@ =~= seq![AuthProvider::Google, AuthProvider::Microsoft]);
        }
        r
    }

    /// Environment variable prefix for this provider's keys.
    pub fn env_prefix(&self) -> (r: &'static str)
        ensures
            r@ == spec_env_prefix(*self),
    {
        match self {
            AuthProvider::Google => "GOOGLE_OPENID",
            AuthProvider::Microsoft => "MICROSOFT_OPENID",
        }
    }
}

/// One cached provider client and the time its entry lapses.
pub struct ProviderEntry<C> {
    pub provider: AuthProvider,
    pub client: C,
    pub expires_at: i64,
}

/// There is an entry for `p`.
pub open spec fn has_entry<C>(entries: Seq<ProviderEntry<C>>, p: AuthProvider) -> bool {
    exists|i: int| 0 <= i < entries.len() && entries[i].provider == p
}

/// The entry for `p`; meaningful only when `has_entry` holds.
pub open spec fn entry_of<C>(entries: Seq<ProviderEntry<C>>, p: AuthProvider) -> ProviderEntry<C> {
    entries[choose|i: int| 0 <= i < entries.len() && entries[i].provider == p]
}

/// There is an entry for `p` that has not lapsed at time `now`.
pub open spec fn has_fresh_entry<C>(
    entries: Seq<ProviderEntry<C>>,
    p: AuthProvider,
    now: i64,
) -> bool {
    has_entry(entries, p) && now < entry_of(entries, p).expires_at
}

/// TTL cache of one discovered client per provider.
pub struct ProviderRegistry<C> {
    pub entries: Vec<ProviderEntry<C>>,
    pub ttl_seconds: i64,
}

impl<C> ProviderRegistry<C> {
    /// At most one entry per provider, and a positive TTL.
    pub open spec fn wf(self) -> bool {
        &&& 0 < self.ttl_seconds
        &&& forall|i: int, j: int|
            0 <= i < j < self.entries@.len() ==> (#[trigger] self.entries@[i]).provider != (
            #[trigger] self.entries@[j]).provider
    }

    /// An empty registry whose entries will live `ttl_seconds` once stored.
    pub fn new(ttl_seconds: i64) -> (r: ProviderRegistry<C>)
        requires
            0 < ttl_seconds,
        ensures
            r.wf(),
            r.entries@.len() == 0,
            r.ttl_seconds == ttl_seconds,
    {
        ProviderRegistry { entries: Vec::new(), ttl_seconds }
    }

    fn find_idx(&self, provider: AuthProvider) -> (r: Option<usize>)
        ensures
            match r {
                Some(i) => i < self.entries@.len() && self.entries@[i as int].provider == provider,
                None => !has_entry(self.entries@, provider),
            },
    {
        let mut i: usize = 0;
        while i < self.entries.len()
            invariant
                i <= self.entries@.len(),
                forall|j: int| 0 <= j < i ==> (#[trigger] self.entries@[j]).provider != provider,
            decreases self.entries@.len() - i,
        {
            if self.entries[i].provider == provider {
                return Some(i);
            }
            i = i + 1;
        }
        None
    }

    /// Returns the cached client for `provider` if one is present and
    /// unexpired; the caller must perform discovery and [`Self::store_provider`]
    /// the result otherwise.
    pub fn get_provider(&self, provider: AuthProvider, now: i64) -> (r: Option<&C>)
        requires
            self.wf(),
        ensures
            r is Some <==> has_fresh_entry(self.entries@, provider, now),
            r is Some ==> *r->Some_0 == entry_of(self.entries@, provider).client,
    {
        match self.find_idx(provider) {
            Some(i) => {
                let entry = &self.entries[i];
                if now < entry.expires_at {
                    Some(&entry.client)
                } else {
                    None
                }
            },
            None => None,
        }
    }

    /// Stores a freshly discovered client for `provider`, replacing any
    /// earlier entry; the entry lapses `ttl_seconds` after `now`.
    pub fn store_provider(&mut self, provider: AuthProvider, client: C, now: i64)
        requires
            old(self).wf(),
            now + old(self).ttl_seconds <= i64::MAX,
        ensures
            final(self).wf(),
            final(self).ttl_seconds == old(self).ttl_seconds,
            has_entry(final(self).entries@, provider),
            entry_of(final(self).entries@, provider).client == client,
            entry_of(final(self).entries@, provider).expires_at == now + old(self).ttl_seconds,
            forall|q: AuthProvider|
                q != provider ==> (has_entry(final(self).entries@, q) <==> has_entry(
                    old(self).entries@,
                    q,
                )),
            forall|q: AuthProvider|
                q != provider && has_entry(old(self).entries@, q) ==> entry_of(
                    final(self).entries@,
                    q,
                ) == entry_of(old(self).entries@, q),
    {
        let expires_at = now + self.ttl_seconds;
        let entry = ProviderEntry { provider, client, expires_at };
        match self.find_idx(provider) {
            Some(i) => {
                let ghost old_entries = self.entries@;
                self.entries[i] = entry;
                proof {
                    lemma_entries_updated(old_entries, self.entries@, i as int, provider);
                }
            },
            None => {
                let ghost old_entries = self.entries@;
                self.entries.push(entry);
                proof {
                    lemma_entries_pushed(old_entries, self.entries@, provider);
                }
            },
        }
    }

    /// Lists every known provider with the cached client for it, if a fresh
    /// one is present; a provider with no usable client is listed with
    /// `None` so the caller can see what is temporarily unavailable.
    pub fn get_all_providers(&self, now: i64) -> (r: Vec<(AuthProvider, Option<&C>)>)
        requires
            self.wf(),
        ensures
            r@.len() == 2,
            forall|i: int|
                0 <= i < r@.len() ==> (#[trigger] r@[i]).0 == seq![
                    AuthProvider::Google,
                    AuthProvider::Microsoft,
                ][i],
            forall|i: int|
                0 <= i < r@.len() ==> ((#[trigger] r@[i]).1 is Some <==> has_fresh_entry(
                    self.entries@,
                    r@[i].0,
                    now,
                )),
            forall|i: int|
                0 <= i < r@.len() && r@[i].1 is Some ==> *(#[trigger] r@[i]).1->Some_0 == entry_of(
                    self.entries@,
                    r@[i].0,
                ).client,
    {
        let providers = AuthProvider::all();
        let mut r: Vec<(AuthProvider, Option<&C>)> = Vec::new();
        let c0 = self.get_provider(providers[0], now);
        r.push((providers[0], c0));
        let c1 = self.get_provider(providers[1], now);
        r.push((providers[1], c1));
        r
    }
}

proof fn lemma_entries_updated<C>(
    old_entries: Seq<ProviderEntry<C>>,
    new_entries: Seq<ProviderEntry<C>>,
    i: int,
    p: AuthProvider,
)
    requires
        0 <= i < old_entries.len(),
        old_entries[i].provider == p,
        new_entries.len() == old_entries.len(),
        new_entries[i].provider == p,
        forall|j: int| 0 <= j < old_entries.len() && j != i ==> new_entries[j] == old_entries[j],
        forall|a: int, b: int|
            0 <= a < b < old_entries.len() ==> (#[trigger] old_entries[a]).provider != (
            #[trigger] old_entries[b]).provider,
    ensures
        has_entry(new_entries, p),
        entry_of(new_entries, p) == new_entries[i],
        forall|q: AuthProvider|
            q != p ==> (has_entry(new_entries, q) <==> has_entry(old_entries, q)),
        forall|q: AuthProvider|
            q != p && has_entry(old_entries, q) ==> entry_of(new_entries, q) == entry_of(
                old_entries,
                q,
            ),
        forall|a: int, b: int|
            0 <= a < b < new_entries.len() ==> (#[trigger] new_entries[a]).provider != (
            #[trigger] new_entries[b]).provider,
{
    assert forall|q: AuthProvider| q != p implies (has_entry(new_entries, q) <==> has_entry(
        old_entries,
        q,
    )) by {
        if has_entry(new_entries, q) {
            let w = choose|w: int| 0 <= w < new_entries.len() && new_entries[w].provider == q;
            assert(old_entries[w].provider == q);
        }
        if has_entry(old_entries, q) {
            let w = choose|w: int| 0 <= w < old_entries.len() && old_entries[w].provider == q;
            assert(new_entries[w].provider == q);
        }
    }
    assert forall|q: AuthProvider| q != p && has_entry(old_entries, q) implies entry_of(
        new_entries,
        q,
    ) == entry_of(old_entries, q) by {
        let a = choose|a: int| 0 <= a < new_entries.len() && new_entries[a].provider == q;
        let b = choose|b: int| 0 <= b < old_entries.len() && old_entries[b].provider == q;
        assert(old_entries[a].provider == q);
        if a != b {
            if a < b {
                assert(old_entries[a].provider != old_entries[b].provider);
            } else {
                assert(old_entries[b].provider != old_entries[a].provider);
            }
        }
    }
    let w = choose|w: int| 0 <= w < new_entries.len() && new_entries[w].provider == p;
    if w != i {
        if w < i {
            assert(old_entries[w].provider != old_entries[i].provider);
        } else {
            assert(old_entries[i].provider != old_entries[w].provider);
        }
    }
}

proof fn lemma_entries_pushed<C>(
    old_entries: Seq<ProviderEntry<C>>,
    new_entries: Seq<ProviderEntry<C>>,
    p: AuthProvider,
)
    requires
        !has_entry(old_entries, p),
        new_entries.len() == old_entries.len() + 1,
        new_entries[new_entries.len() - 1].provider == p,
        forall|j: int| 0 <= j < old_entries.len() ==> new_entries[j] == old_entries[j],
        forall|a: int, b: int|
            0 <= a < b < old_entries.len() ==> (#[trigger] old_entries[a]).provider != (
            #[trigger] old_entries[b]).provider,
    ensures
        has_entry(new_entries, p),
        entry_of(new_entries, p) == new_entries[new_entries.len() - 1],
        forall|q: AuthProvider|
            q != p ==> (has_entry(new_entries, q) <==> has_entry(old_entries, q)),
        forall|q: AuthProvider|
            q != p && has_entry(old_entries, q) ==> entry_of(new_entries, q) == entry_of(
                old_entries,
                q,
            ),
        forall|a: int, b: int|
            0 <= a < b < new_entries.len() ==> (#[trigger] new_entries[a]).provider != (
            #[trigger] new_entries[b]).provider,
{
    let n = old_entries.len() as int;
    assert forall|q: AuthProvider| q != p implies (has_entry(new_entries, q) <==> has_entry(
        old_entries,
        q,
    )) by {
        if has_entry(new_entries, q) {
            let w = choose|w: int| 0 <= w < new_entries.len() && new_entries[w].provider == q;
            assert(w < n);
            assert(old_entries[w].provider == q);
        }
        if has_entry(old_entries, q) {
            let w = choose|w: int| 0 <= w < old_entries.len() && old_entries[w].provider == q;
            assert(new_entries[w].provider == q);
        }
    }
    assert forall|q: AuthProvider| q != p && has_entry(old_entries, q) implies entry_of(
        new_entries,
        q,
    ) == entry_of(old_entries, q) by {
        let a = choose|a: int| 0 <= a < new_entries.len() && new_entries[a].provider == q;
        let b = choose|b: int| 0 <= b < old_entries.len() && old_entries[b].provider == q;
        assert(a < n);
        assert(old_entries[a].provider == q);
        if a != b {
            if a < b {
                assert(old_entries[a].provider != old_entries[b].provider);
            } else {
                assert(old_entries[b].provider != old_entries[a].provider);
            }
        }
    }
    let w = choose|w: int| 0 <= w < new_entries.len() && new_entries[w].provider == p;
    if w != n {
        assert(old_entries[w].provider == p);
    }
}

} // verus!
