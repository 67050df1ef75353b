//! The login attempts that wait for their confirmation, keyed by CSRF token.

use vstd::prelude::*;
use dashmap::DashMap;
use crate::context::{AuthenticationContext, ContextView};

verus! {

/// `dashmap::DashMap`, of which nothing is known but what the functions
/// below say of `entries`.
#[verifier::external_type_specification]
#[verifier::external_body]
#[verifier::reject_recursive_types(K)]
#[verifier::reject_recursive_types(V)]
#[verifier::reject_recursive_types(S)]
pub struct ExDashMap<K, V, S>(DashMap<K, V, S>);

/// Pending login attempts as a mathematical map from CSRF token to context.
pub type Attempts = Map<Seq<char>, ContextView>;

/// The entries of a `DashMap` of login attempts that nothing else holds a
/// reference into: each key with the value of the context stored under it.
pub uninterp spec fn entries(map: DashMap<String, AuthenticationContext>) -> Attempts;

/// `DashMap::new`: a map without entries.
#[verifier::external_body]
fn map_new() -> (fresh: DashMap<String, AuthenticationContext>)
    ensures
        entries(fresh) == Attempts::empty(),
{
    DashMap::new()
}

/// `DashMap::len`: the number of entries.
#[verifier::external_body]
fn map_len(map: &DashMap<String, AuthenticationContext>) -> (n: usize)
    ensures
        n == entries(*map).len(),
{
    map.len()
}

/// `DashMap::insert`: `value` stands under `key` afterwards, in place of
/// what stood there before; the other entries stay.
#[verifier::external_body]
fn map_insert(
    map: &mut DashMap<String, AuthenticationContext>,
    key: String,
    value: AuthenticationContext,
)
    ensures
        entries(*final(map)) == entries(*old(map)).insert(key@, value@),
    no_unwind
{
    map.insert(key, value);
}

/// `DashMap::remove`: the entry under `key` leaves the map and is handed
/// out; where there is none, the map stays as it is.
#[verifier::external_body]
fn map_remove(map: &mut DashMap<String, AuthenticationContext>, key: &str) -> (taken: Option<
    AuthenticationContext,
>)
    ensures
        entries(*final(map)) == entries(*old(map)).remove(key@),
        taken is Some <==> entries(*old(map)).contains_key(key@),
        taken matches Some(ctx) ==> ctx@ == entries(*old(map))[key@],
    no_unwind
{
    map.remove(key).map(|(_, ctx)| ctx)
}

/// `DashMap::retain`, keeping the contexts that are alive at `now`:
/// exactly those entries stay, unchanged.
#[verifier::external_body]
fn map_retain_live(map: &mut DashMap<String, AuthenticationContext>, now: u128, ttl: u128)
    ensures
        entries(*final(map)) == swept(entries(*old(map)), now, ttl),
    no_unwind
{
    map.retain(|_, ctx| ctx.alive(now, ttl));
}

/// The keys of the attempts in `m` that have expired at `now`.
pub open spec fn expired_keys(m: Attempts, now: u128, ttl: u128) -> Set<Seq<char>> {
    m.dom().filter(|k: Seq<char>| m[k].expired(now, ttl))
}

/// What a sweep at `now` leaves of `m`: the attempts younger than `ttl`.
pub open spec fn swept(m: Attempts, now: u128, ttl: u128) -> Attempts {
    m.remove_keys(expired_keys(m, now, ttl))
}

/// One where `counted` holds, zero where it does not.
pub open spec fn one_if(counted: bool) -> nat {
    if counted {
        1
    } else {
        0
    }
}

/// Every attempt in `m` is filed under its own CSRF token, and there are
/// finitely many.
pub open spec fn well_keyed(m: Attempts) -> bool {
    &&& m.dom().finite()
    &&& forall|k: Seq<char>| m.contains_key(k) ==> (#[trigger] m[k]).csrf_token == k
}

/// The set of login attempts that have been started and not yet confirmed
/// or swept.
pub struct PendingAuthenticationStore {
    map: DashMap<String, AuthenticationContext>,
}

impl PendingAuthenticationStore {
    #[verifier::type_invariant]
    spec fn inv(self) -> bool {
        well_keyed(entries(self.map))
    }

    /// The pending attempts by CSRF token.
    pub closed spec fn pending(&self) -> Attempts {
        entries(self.map)
    }

    /// A store without pending attempts.
    pub fn new() -> (store: Self)
        ensures
            store.pending() == Attempts::empty(),
    {
        PendingAuthenticationStore { map: map_new() }
    }

    /// The number of pending attempts.
    pub fn len(&self) -> (n: usize)
        ensures
            n == self.pending().len(),
            well_keyed(self.pending()),
    {
        proof {
            use_type_invariant(self);
        }
        map_len(&self.map)
    }

    /// Files `context` under its own CSRF token. An attempt already filed
    /// under that token is replaced.
    pub fn insert(&mut self, context: AuthenticationContext)
        ensures
            final(self).pending() == old(self).pending().insert(context@.csrf_token, context@),
            final(self).pending().len() == old(self).pending().len() + one_if(
                !old(self).pending().contains_key(context@.csrf_token),
            ),
            well_keyed(final(self).pending()),
    {
        proof {
            use_type_invariant(&*self);
        }
        let key = context.csrf_token().clone();
        map_insert(&mut self.map, key, context);
    }

    /// Takes the attempt filed under `csrf_token` out of the store. It is
    /// handed out once: afterwards the token is unknown.
    pub fn take(&mut self, csrf_token: &str) -> (taken: Option<AuthenticationContext>)
        ensures
            final(self).pending() == old(self).pending().remove(csrf_token@),
            taken is Some <==> old(self).pending().contains_key(csrf_token@),
            taken matches Some(ctx) ==> ctx@ == old(self).pending()[csrf_token@]
                && ctx@.csrf_token == csrf_token@,
            final(self).pending().len() + one_if(taken is Some) == old(self).pending().len(),
            well_keyed(final(self).pending()),
    {
        proof {
            use_type_invariant(&*self);
        }
        map_remove(&mut self.map, csrf_token)
    }

    /// Removes every attempt whose age at `now` is `ttl` or more, and says
    /// how many went.
    pub fn sweep(&mut self, now: u128, ttl: u128) -> (removed: usize)
        ensures
            final(self).pending() == swept(old(self).pending(), now, ttl),
            removed == expired_keys(old(self).pending(), now, ttl).len(),
            final(self).pending().len() + removed == old(self).pending().len(),
            well_keyed(final(self).pending()),
    {
        proof {
            use_type_invariant(&*self);
            lemma_sweep_counts(self.pending(), now, ttl);
        }
        let before = map_len(&self.map);
        map_retain_live(&mut self.map, now, ttl);
        let after = map_len(&self.map);
        before - after
    }
}

/// A sweep splits the attempts into those that stay and those that go.
pub proof fn lemma_sweep_counts(m: Attempts, now: u128, ttl: u128)
    requires
        m.dom().finite(),
    ensures
        swept(m, now, ttl).dom().finite(),
        expired_keys(m, now, ttl).finite(),
        swept(m, now, ttl).len() + expired_keys(m, now, ttl).len() == m.len(),
        forall|k: Seq<char>| #[trigger] swept(m, now, ttl).contains_key(k) ==> m.contains_key(k)
            && swept(m, now, ttl)[k] == m[k],
{
    let gone = expired_keys(m, now, ttl);
    let kept = swept(m, now, ttl).dom();
    m.dom().lemma_len_filter(|k: Seq<char>| m[k].expired(now, ttl));
    vstd::set_lib::lemma_len_subset(kept, m.dom());
    assert(kept.disjoint(gone));
    assert(kept + gone =~= m.dom());
    vstd::set_lib::lemma_set_disjoint_lens(kept, gone);
}

} // verus!
