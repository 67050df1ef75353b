//! What holds of the broker over any history of its operations.

use vstd::prelude::*;
use crate::context::ContextView;
use crate::error::LoginErrorView;
use crate::login::{after, claim, confirm, Event};
use crate::store::{expired_keys, lemma_sweep_counts, one_if, swept, well_keyed, Attempts};
use crate::tokens::{
    confirmation, recomputed_hash, token_accepted, IdTokenReportView, TokenGrantView,
};

verus! {

/// The pending attempts of a broker that started empty and went through
/// `events` in turn.
pub open spec fn replay(events: Seq<Event>) -> Attempts
    decreases events.len(),
{
    if events.len() == 0 {
        Map::empty()
    } else {
        after(replay(events.drop_last()), events.last())
    }
}

/// Every attempt in `events` was started under a CSRF token that was not
/// pending at that moment.
pub open spec fn fresh(events: Seq<Event>) -> bool
    decreases events.len(),
{
    events.len() == 0 || {
        &&& fresh(events.drop_last())
        &&& events.last() matches Event::Initiate(context) ==> !replay(
            events.drop_last(),
        ).contains_key(context.csrf_token)
    }
}

/// How many attempts were started in `events`.
pub open spec fn started(events: Seq<Event>) -> nat
    decreases events.len(),
{
    if events.len() == 0 {
        0
    } else {
        started(events.drop_last()) + one_if(events.last() is Initiate)
    }
}

/// How many attempts were handed out for confirmation in `events`.
pub open spec fn consumed(events: Seq<Event>) -> nat
    decreases events.len(),
{
    if events.len() == 0 {
        0
    } else {
        consumed(events.drop_last()) + match events.last() {
            Event::Confirm(state) => one_if(replay(events.drop_last()).contains_key(state)),
            _ => 0nat,
        }
    }
}

/// How many attempts the sweeps in `events` removed.
pub open spec fn swept_away(events: Seq<Event>) -> nat
    decreases events.len(),
{
    if events.len() == 0 {
        0
    } else {
        swept_away(events.drop_last()) + match events.last() {
            Event::Sweep(now, ttl) => expired_keys(replay(events.drop_last()), now, ttl).len(),
            _ => 0nat,
        }
    }
}

/// The pending attempts after `turns` claims of `state` in a row.
pub open spec fn after_claims(pending: Attempts, state: Seq<char>, turns: nat) -> Attempts
    decreases turns,
{
    if turns == 0 {
        pending
    } else {
        after_claims(pending, state, (turns - 1) as nat).remove(state)
    }
}

/// Whatever the history, the pending attempts are finitely many and each
/// is filed under its own CSRF token.
pub proof fn lemma_replay_well_keyed(events: Seq<Event>)
    ensures
        well_keyed(replay(events)),
    decreases events.len(),
{
    if events.len() > 0 {
        lemma_replay_well_keyed(events.drop_last());
        let before = replay(events.drop_last());
        match events.last() {
            Event::Sweep(now, ttl) => {
                lemma_sweep_counts(before, now, ttl);
            },
            _ => {},
        }
    }
}

/// Only the start of an attempt adds to what is pending: a claim or a sweep
/// leaves every attempt either as it was or gone, so that one that has
/// been claimed or swept does not come back.
pub proof fn lemma_only_initiate_adds(pending: Attempts, event: Event)
    requires
        !(event is Initiate),
    ensures
        after(pending, event).submap_of(pending),
{
}

/// The number of pending attempts is the number of attempts started less
/// those handed out for confirmation and those swept, at every point of a
/// history in which no attempt was started under a token then pending.
pub proof fn lemma_size_counts_live_attempts(events: Seq<Event>)
    requires
        fresh(events),
    ensures
        replay(events).dom().finite(),
        replay(events).len() + consumed(events) + swept_away(events) == started(events),
    decreases events.len(),
{
    if events.len() > 0 {
        lemma_size_counts_live_attempts(events.drop_last());
        let before = replay(events.drop_last());
        match events.last() {
            Event::Sweep(now, ttl) => {
                lemma_sweep_counts(before, now, ttl);
            },
            _ => {},
        }
    }
}

/// A state under which no attempt was ever started is unknown, and its
/// confirmation yields no user, whatever the provider would answer.
pub proof fn lemma_unissued_state_is_unknown(
    events: Seq<Event>,
    state: Seq<char>,
    exchange: Result<TokenGrantView, Seq<char>>,
)
    requires
        forall|i: int|
            0 <= i < events.len() ==> (#[trigger] events[i] matches Event::Initiate(context)
                ==> context.csrf_token != state),
    ensures
        !replay(events).contains_key(state),
        claim(replay(events), state) == Err::<ContextView, _>(
            LoginErrorView::UnknownOrExpiredState,
        ),
        confirm(replay(events), state, exchange) == Err::<Seq<char>, _>(
            LoginErrorView::UnknownOrExpiredState,
        ),
    decreases events.len(),
{
    if events.len() > 0 {
        let earlier = events.drop_last();
        assert forall|i: int| 0 <= i < earlier.len() implies (#[trigger] earlier[i] matches Event::Initiate(
            context,
        ) ==> context.csrf_token != state) by {
            assert(earlier[i] == events[i]);
        }
        lemma_unissued_state_is_unknown(earlier, state, exchange);
        assert(events.last() == events[events.len() - 1]);
    }
}

/// Once a state has been claimed, with or without success, claiming it
/// again fails with `UnknownOrExpiredState`, whatever the provider would
/// answer.
pub proof fn lemma_state_is_single_use(
    pending: Attempts,
    state: Seq<char>,
    exchange: Result<TokenGrantView, Seq<char>>,
)
    ensures
        claim(pending.remove(state), state) == Err::<ContextView, _>(
            LoginErrorView::UnknownOrExpiredState,
        ),
        confirm(pending.remove(state), state, exchange) == Err::<Seq<char>, _>(
            LoginErrorView::UnknownOrExpiredState,
        ),
{
}

/// Of any number of claims of one pending state, the first to be served
/// gets the attempt and every later one fails with
/// `UnknownOrExpiredState`.
pub proof fn lemma_one_claim_wins(pending: Attempts, state: Seq<char>, turn: nat)
    requires
        well_keyed(pending),
        pending.contains_key(state),
    ensures
        claim(after_claims(pending, state, 0), state) == Ok::<_, LoginErrorView>(pending[state]),
        turn >= 1 ==> claim(after_claims(pending, state, turn), state) == Err::<ContextView, _>(
            LoginErrorView::UnknownOrExpiredState,
        ),
{
}

/// An ID token that does not carry the nonce of the attempt fails the
/// confirmation with `TokenVerificationError`, and the attempt is gone.
pub proof fn lemma_foreign_nonce_is_rejected(
    pending: Attempts,
    state: Seq<char>,
    grant: TokenGrantView,
)
    requires
        well_keyed(pending),
        pending.contains_key(state),
        grant.id_token matches Some(token) ==> token.nonce != Some(pending[state].nonce),
    ensures
        confirm(pending, state, Ok(grant)) == Err::<Seq<char>, _>(
            LoginErrorView::TokenVerificationError,
        ),
        !after(pending, Event::Confirm(state)).contains_key(state),
{
}

/// An access-token-hash claim that differs from the hash recomputed of the
/// access token fails the confirmation with `AccessTokenSubstitution`,
/// though the ID token was verified and carries the attempt's nonce.
pub proof fn lemma_substituted_access_token_is_rejected(
    context: ContextView,
    state: Seq<char>,
    grant: TokenGrantView,
    token: IdTokenReportView,
    expected: Seq<char>,
    actual: Seq<char>,
)
    requires
        context.csrf_token == state,
        grant.id_token == Some(token),
        token_accepted(context, token),
        token.access_token_hash == Some(expected),
        recomputed_hash(grant.access_token, token) == Some(actual),
        actual != expected,
    ensures
        confirmation(context, state, Ok(grant)) == Err::<Seq<char>, _>(
            LoginErrorView::AccessTokenSubstitution,
        ),
{
}

/// An attempt started at `created` is still pending after a sweep at
/// `created + ttl - 1`, and gone after a sweep at `created + ttl`.
pub proof fn lemma_sweep_boundary(
    pending: Attempts,
    state: Seq<char>,
    early: u128,
    late: u128,
    ttl: u128,
)
    requires
        pending.contains_key(state),
        early == pending[state].created + ttl - 1,
        late == pending[state].created + ttl,
    ensures
        swept(pending, early, ttl).contains_key(state),
        swept(pending, early, ttl)[state] == pending[state],
        !swept(pending, late, ttl).contains_key(state),
{
}

} // verus!
