//! Many requests for the access token of one session, in any interleaving.
use super::refresh::{AttemptView, ResolutionView, StepView, REFRESH_LOCK_LEASE};
use super::resolution_laws::{attempt_of, fits, is_owner_step, next, ReplyView};
use crate::session::laws::{acquires, operated, StoreOperation};
use crate::session::store::{
    after_invalidation, after_refresh, after_release, found_session, live, owned_mutation, owns_lock,
    with_session, StoreView,
};
use crate::session::SessionView;
use vstd::prelude::*;

verus! {

/// A request that is being resolved.
pub struct Requester {
    /// The session whose token is wanted.
    pub session_id: Seq<char>,
    pub step: StepView,
    /// The time of its last try for the refresh lock.
    pub tried_at: u128,
}

/// A store, the requests that work on it, and the time on the store's clock.
pub struct World {
    pub store: StoreView,
    pub requesters: Map<nat, Requester>,
    pub now: u128,
}

/// Whether the store may answer the work of a step at `now` with the reply and be left as `after`.
/// An operation whose reply is a failure may or may not have taken effect.
pub open spec fn store_answers(
    store: StoreView,
    ttl: u128,
    now: u128,
    step: StepView,
    reply: ReplyView,
    after: StoreView,
) -> bool {
    let before = live(store, ttl, now);
    match step {
        StepView::AcquireLock { attempt, .. } => {
            let id = attempt.session_id;
            let taken = operated(
                store,
                ttl,
                StoreOperation::Acquire {
                    session_id: id,
                    owner_id: attempt.owner_id,
                    lease: REFRESH_LOCK_LEASE,
                },
                now,
            );
            match reply {
                ReplyView::Lock(Ok(acquired)) => acquired == acquires(
                    store,
                    ttl,
                    id,
                    REFRESH_LOCK_LEASE,
                    now,
                ) && after == taken,
                _ => after == store || after == taken,
            }
        },
        StepView::Release { attempt, .. } => {
            let released = after_release(before, attempt.session_id, attempt.owner_id);
            match reply {
                ReplyView::Lock(Ok(owned)) => owned == owns_lock(
                    before,
                    attempt.session_id,
                    attempt.owner_id,
                ) && after == released,
                _ => after == store || after == released,
            }
        },
        StepView::Update { attempt, refreshed } => {
            let written = after_refresh(before, attempt.session_id, attempt.owner_id, refreshed);
            match reply {
                ReplyView::Mutation(Ok(mutation)) => mutation == owned_mutation(
                    before,
                    attempt.session_id,
                    attempt.owner_id,
                ) && after == written,
                _ => after == store || after == written,
            }
        },
        StepView::Invalidate { attempt } => {
            let ended = after_invalidation(before, attempt.session_id, attempt.owner_id);
            match reply {
                ReplyView::Mutation(Ok(mutation)) => mutation == owned_mutation(
                    before,
                    attempt.session_id,
                    attempt.owner_id,
                ) && after == ended,
                _ => after == store || after == ended,
            }
        },
        StepView::ReadSession { session_id, .. } => look_up_answers(
            store,
            before,
            session_id,
            reply,
            after,
        ),
        StepView::Wait { attempt, .. } => look_up_answers(
            store,
            before,
            attempt.session_id,
            reply,
            after,
        ),
        StepView::ReadOwned { attempt, .. } => look_up_answers(
            store,
            before,
            attempt.session_id,
            reply,
            after,
        ),
        _ => after == store,
    }
}

/// Whether the store may answer a look-up with the reply and be left as `after`.
pub open spec fn look_up_answers(
    store: StoreView,
    before: StoreView,
    session_id: Seq<char>,
    reply: ReplyView,
    after: StoreView,
) -> bool {
    match reply {
        ReplyView::Session(Ok(found)) => found == found_session(before, session_id) && after
            == before,
        _ => after == store || after == before,
    }
}

/// Whether no request other than `id` competes under the owner id.
pub open spec fn is_unused(requesters: Map<nat, Requester>, id: nat, owner_id: Seq<char>) -> bool {
    forall|other: nat|
        requesters.contains_key(other) && other != id ==> match attempt_of(
            (#[trigger] requesters[other]).step,
        ) {
            Some(attempt) => attempt.owner_id != owner_id,
            None => true,
        }
}

/// A request does the work of its step and goes on with the reply.
pub open spec fn turns(before: World, after: World, ttl: u128, id: nat, reply: ReplyView) -> bool {
    let requester = before.requesters[id];
    &&& before.requesters.contains_key(id)
    &&& fits(requester.step, reply)
    &&& reply matches ReplyView::Owner(owner_id) ==> is_unused(before.requesters, id, owner_id)
    &&& store_answers(before.store, ttl, after.now, requester.step, reply, after.store)
    &&& after.requesters == before.requesters.insert(
        id,
        Requester {
            session_id: requester.session_id,
            step: next(requester.step, reply, after.now),
            tried_at: if requester.step is AcquireLock {
                after.now
            } else {
                requester.tried_at
            },
        },
    )
}

/// A request comes in.
pub open spec fn arrives(
    before: World,
    after: World,
    id: nat,
    session_id: Seq<char>,
    unix_time: u64,
) -> bool {
    &&& !before.requesters.contains_key(id)
    &&& after.store == before.store
    &&& after.requesters == before.requesters.insert(
        id,
        Requester {
            session_id,
            step: StepView::ReadSession { session_id, now: unix_time },
            tried_at: after.now,
        },
    )
}

/// A sign-in puts a session in.
pub open spec fn signs_in(
    before: World,
    after: World,
    ttl: u128,
    session_id: Seq<char>,
    session: SessionView,
) -> bool {
    &&& after.requesters == before.requesters
    &&& after.store == with_session(
        live(before.store, ttl, after.now),
        session_id,
        session,
        after.now,
    )
}

/// One thing happens, and time does not run backwards.
pub open spec fn moves(before: World, after: World, ttl: u128) -> bool {
    &&& before.now <= after.now
    &&& {
        ||| exists|id: nat, reply: ReplyView| turns(before, after, ttl, id, reply)
        ||| exists|id: nat, session_id: Seq<char>, unix_time: u64|
            arrives(before, after, id, session_id, unix_time)
        ||| exists|session_id: Seq<char>, session: SessionView|
            signs_in(before, after, ttl, session_id, session)
    }
}

/// Whether the worlds follow from one another, starting without requests.
pub open spec fn is_history(worlds: Seq<World>, ttl: u128) -> bool {
    &&& worlds.len() > 0
    &&& worlds[0].requesters == Map::<nat, Requester>::empty()
    &&& forall|i: int| 0 < i < worlds.len() ==> moves(worlds[i - 1], #[trigger] worlds[i], ttl)
}

/// Whether a request works as the owner of the refresh lock, within its lease.
pub open spec fn works_as_owner(world: World, id: nat, attempt: AttemptView) -> bool {
    &&& world.requesters.contains_key(id)
    &&& is_owner_step(world.requesters[id].step)
    &&& attempt_of(world.requesters[id].step) == Some(attempt)
    &&& world.now < world.requesters[id].tried_at + REFRESH_LOCK_LEASE
}

spec fn owners_hold_locks(world: World) -> bool {
    forall|id: nat, attempt: AttemptView| #[trigger]
        works_as_owner(world, id, attempt) ==> holds(
            world.store,
            attempt,
            world.requesters[id].tried_at,
        )
}

spec fn holds(store: StoreView, attempt: AttemptView, taken_at: u128) -> bool {
    &&& store.refresh_locks.contains_key(attempt.session_id)
    &&& store.refresh_locks[attempt.session_id].owner_id == attempt.owner_id
    &&& store.refresh_locks[attempt.session_id].expires_at == taken_at + REFRESH_LOCK_LEASE
}

spec fn owner_ids_differ(world: World) -> bool {
    forall|id: nat, other: nat|
        #![trigger world.requesters[id], world.requesters[other]]
        world.requesters.contains_key(id) && world.requesters.contains_key(other) && id != other
            && attempt_of(world.requesters[id].step) is Some && attempt_of(
            world.requesters[other].step,
        ) is Some ==> attempt_of(world.requesters[id].step)->Some_0.owner_id != attempt_of(
            world.requesters[other].step,
        )->Some_0.owner_id
}

/// A lock within its lease survives whatever another request does.
proof fn lock_survives(
    store: StoreView,
    ttl: u128,
    now: u128,
    step: StepView,
    reply: ReplyView,
    after: StoreView,
    attempt: AttemptView,
    taken_at: u128,
)
    requires
        fits(step, reply),
        store_answers(store, ttl, now, step, reply, after),
        holds(store, attempt, taken_at),
        now < taken_at + REFRESH_LOCK_LEASE,
        attempt_of(step) is Some ==> attempt_of(step)->Some_0.owner_id != attempt.owner_id || !(
        step is Release),
    ensures
        holds(after, attempt, taken_at),
{
    let before = live(store, ttl, now);
    assert(holds(before, attempt, taken_at));
}

/// What a step keeps of its attempt.
proof fn attempt_is_kept(step: StepView, reply: ReplyView, instant: u128)
    requires
        fits(step, reply),
    ensures
        attempt_of(next(step, reply, instant)) matches Some(attempt) ==> {
            ||| attempt_of(step) == Some(attempt)
            ||| attempt_of(step) is None && reply == ReplyView::Owner(attempt.owner_id)
        },
        is_owner_step(next(step, reply, instant)) ==> attempt_of(next(step, reply, instant))
            == attempt_of(step) && !(step is Release),
        is_owner_step(next(step, reply, instant)) && !is_owner_step(step) ==> step is AcquireLock
            && reply == ReplyView::Lock(Ok(true)),
        is_owner_step(step) ==> !(step is AcquireLock),
{
}

proof fn turn_keeps_owners(before: World, after: World, ttl: u128, id: nat, reply: ReplyView)
    requires
        before.now <= after.now,
        owners_hold_locks(before),
        owner_ids_differ(before),
        turns(before, after, ttl, id, reply),
    ensures
        owners_hold_locks(after),
        owner_ids_differ(after),
{
    let mover = before.requesters[id];
    attempt_is_kept(mover.step, reply, after.now);
    assert forall|one: nat, other: nat|
        #![trigger after.requesters[one], after.requesters[other]]
        after.requesters.contains_key(one) && after.requesters.contains_key(other) && one != other
            && attempt_of(after.requesters[one].step) is Some && attempt_of(
            after.requesters[other].step,
        ) is Some implies attempt_of(after.requesters[one].step)->Some_0.owner_id != attempt_of(
        after.requesters[other].step,
    )->Some_0.owner_id by {
        let b1 = before.requesters[one];
        let b2 = before.requesters[other];
    }
    assert forall|one: nat, attempt: AttemptView| #[trigger]
        works_as_owner(after, one, attempt) implies holds(
        after.store,
        attempt,
        after.requesters[one].tried_at,
    ) by {
        if one != id {
            assert(works_as_owner(before, one, attempt));
            let other = before.requesters[one];
            lock_survives(
                before.store,
                ttl,
                after.now,
                mover.step,
                reply,
                after.store,
                attempt,
                other.tried_at,
            );
        } else if is_owner_step(mover.step) {
            assert(works_as_owner(before, id, attempt));
            lock_survives(
                before.store,
                ttl,
                after.now,
                mover.step,
                reply,
                after.store,
                attempt,
                mover.tried_at,
            );
        } else {
            assert(mover.step is AcquireLock);
            assert(acquires(
                before.store,
                ttl,
                attempt.session_id,
                REFRESH_LOCK_LEASE,
                after.now,
            ));
        }
    }
}

proof fn move_keeps_owners(before: World, after: World, ttl: u128)
    requires
        owners_hold_locks(before),
        owner_ids_differ(before),
        moves(before, after, ttl),
    ensures
        owners_hold_locks(after),
        owner_ids_differ(after),
{
    if exists|id: nat, reply: ReplyView| turns(before, after, ttl, id, reply) {
        let (id, reply) = choose|id: nat, reply: ReplyView| turns(before, after, ttl, id, reply);
        turn_keeps_owners(before, after, ttl, id, reply);
    } else {
        assert forall|one: nat, attempt: AttemptView| #[trigger]
            works_as_owner(after, one, attempt) implies holds(
            after.store,
            attempt,
            after.requesters[one].tried_at,
        ) by {
            assert(works_as_owner(before, one, attempt));
            assert(holds(live(before.store, ttl, after.now), attempt, before.requesters[one].tried_at));
        }
        assert forall|one: nat, other: nat|
            #![trigger after.requesters[one], after.requesters[other]]
            after.requesters.contains_key(one) && after.requesters.contains_key(other) && one
                != other && attempt_of(after.requesters[one].step) is Some && attempt_of(
                after.requesters[other].step,
            ) is Some implies attempt_of(after.requesters[one].step)->Some_0.owner_id
            != attempt_of(after.requesters[other].step)->Some_0.owner_id by {
            let b1 = before.requesters[one];
            let b2 = before.requesters[other];
        }
    }
}

proof fn history_keeps_owners(worlds: Seq<World>, ttl: u128, i: int)
    requires
        is_history(worlds, ttl),
        0 <= i < worlds.len(),
    ensures
        owners_hold_locks(worlds[i]),
        owner_ids_differ(worlds[i]),
    decreases i,
{
    if i > 0 {
        history_keeps_owners(worlds, ttl, i - 1);
        move_keeps_owners(worlds[i - 1], worlds[i], ttl);
    }
}

/// Whatever requests come for a session and however their steps interleave, at no time do two of
/// them work as owners of its refresh lock within their leases. In particular, at most one at a
/// time is at the exchange of the refresh token.
pub proof fn at_most_one_owner(
    worlds: Seq<World>,
    ttl: u128,
    i: int,
    one: nat,
    one_attempt: AttemptView,
    other: nat,
    other_attempt: AttemptView,
)
    requires
        is_history(worlds, ttl),
        0 <= i < worlds.len(),
        works_as_owner(worlds[i], one, one_attempt),
        works_as_owner(worlds[i], other, other_attempt),
        one_attempt.session_id == other_attempt.session_id,
    ensures
        one == other,
{
    history_keeps_owners(worlds, ttl, i);
    let world = worlds[i];
    if one != other {
        assert(holds(world.store, one_attempt, world.requesters[one].tried_at));
        assert(holds(world.store, other_attempt, world.requesters[other].tried_at));
    }
}

/// Who works as owner has the store's lock for as long as the lease runs.
pub proof fn owner_has_the_lock(
    worlds: Seq<World>,
    ttl: u128,
    i: int,
    id: nat,
    attempt: AttemptView,
    time: u128,
)
    requires
        is_history(worlds, ttl),
        0 <= i < worlds.len(),
        works_as_owner(worlds[i], id, attempt),
        time < worlds[i].requesters[id].tried_at + REFRESH_LOCK_LEASE,
    ensures
        owns_lock(live(worlds[i].store, ttl, time), attempt.session_id, attempt.owner_id),
{
    history_keeps_owners(worlds, ttl, i);
    let world = worlds[i];
    assert(holds(world.store, attempt, world.requesters[id].tried_at));
}

/// Whether the store holds an access token for a session.
pub open spec fn holds_token(store: StoreView, session_id: Seq<char>, token: Seq<char>) -> bool {
    store.sessions.contains_key(session_id) && store.sessions[session_id].session.access_token
        == token
}

/// Whether one of the first worlds, up to `i`, holds an access token for a session.
pub open spec fn was_held(
    worlds: Seq<World>,
    i: int,
    session_id: Seq<char>,
    token: Seq<char>,
) -> bool {
    exists|j: int| 0 <= j <= i && holds_token((#[trigger] worlds[j]).store, session_id, token)
}

/// The token that a step hands out, or will once the lock is given back.
spec fn token_of(step: StepView) -> Option<Seq<char>> {
    match step {
        StepView::Release { result: ResolutionView::Ready(token), .. } => Some(token),
        StepView::Finished(ResolutionView::Ready(token)) => Some(token),
        _ => None,
    }
}

/// The session that a step works on.
pub open spec fn session_of(step: StepView) -> Option<Seq<char>> {
    match step {
        StepView::ReadSession { session_id, .. } => Some(session_id),
        StepView::NeedOwnership { session_id, .. } => Some(session_id),
        _ => match attempt_of(step) {
            Some(attempt) => Some(attempt.session_id),
            None => None,
        },
    }
}

proof fn session_is_kept(step: StepView, reply: ReplyView, instant: u128)
    requires
        fits(step, reply),
    ensures
        session_of(step) is Some,
        session_of(next(step, reply, instant)) matches Some(id) ==> session_of(step) == Some(id),
{
}

/// A token that a step comes to hand out is in the store right then, unless it was on its way
/// before.
proof fn new_token_is_held(
    store: StoreView,
    ttl: u128,
    now: u128,
    step: StepView,
    reply: ReplyView,
    after: StoreView,
    token: Seq<char>,
)
    requires
        fits(step, reply),
        store_answers(store, ttl, now, step, reply, after),
        token_of(next(step, reply, now)) == Some(token),
    ensures
        token_of(step) == Some(token) || holds_token(after, session_of(step)->Some_0, token),
{
}

spec fn tokens_were_held(worlds: Seq<World>, i: int) -> bool {
    forall|id: nat|
        worlds[i].requesters.contains_key(id) ==> {
            let requester = #[trigger] worlds[i].requesters[id];
            &&& session_of(requester.step) matches Some(session_id) ==> session_id
                == requester.session_id
            &&& token_of(requester.step) matches Some(token) ==> was_held(
                worlds,
                i,
                requester.session_id,
                token,
            )
        }
}

proof fn history_keeps_tokens(worlds: Seq<World>, ttl: u128, i: int)
    requires
        is_history(worlds, ttl),
        0 <= i < worlds.len(),
    ensures
        tokens_were_held(worlds, i),
    decreases i,
{
    if i > 0 {
        history_keeps_tokens(worlds, ttl, i - 1);
        let before = worlds[i - 1];
        let after = worlds[i];
        assert(moves(before, after, ttl));
        assert forall|id: nat| after.requesters.contains_key(id) implies {
            let requester = #[trigger] after.requesters[id];
            &&& session_of(requester.step) matches Some(session_id) ==> session_id
                == requester.session_id
            &&& token_of(requester.step) matches Some(token) ==> was_held(
                worlds,
                i,
                requester.session_id,
                token,
            )
        } by {
            let requester = after.requesters[id];
            if before.requesters.contains_key(id) && before.requesters[id] == requester {
                if token_of(requester.step) is Some {
                    earlier_is_still_held(worlds, i, requester);
                }
            } else if exists|mover: nat, reply: ReplyView|
                turns(before, after, ttl, mover, reply) {
                let (mover, reply) = choose|mover: nat, reply: ReplyView|
                    turns(before, after, ttl, mover, reply);
                let old = before.requesters[id];
                assert(mover == id);
                session_is_kept(old.step, reply, after.now);
                if token_of(requester.step) is Some {
                    let token = token_of(requester.step)->Some_0;
                    new_token_is_held(
                        before.store,
                        ttl,
                        after.now,
                        old.step,
                        reply,
                        after.store,
                        token,
                    );
                    if token_of(old.step) == Some(token) {
                        earlier_is_still_held(worlds, i, requester);
                    } else {
                        assert(holds_token(worlds[i].store, requester.session_id, token));
                    }
                }
            }
        }
    }
}

proof fn earlier_is_still_held(worlds: Seq<World>, i: int, requester: Requester)
    requires
        0 < i,
        token_of(requester.step) is Some,
        was_held(worlds, i - 1, requester.session_id, token_of(requester.step)->Some_0),
    ensures
        was_held(worlds, i, requester.session_id, token_of(requester.step)->Some_0),
{
    let token = token_of(requester.step)->Some_0;
    let j = choose|j: int|
        0 <= j <= i - 1 && holds_token((#[trigger] worlds[j]).store, requester.session_id, token);
    assert(holds_token(worlds[j].store, requester.session_id, token));
}

/// A request works on the session whose token it wants.
pub proof fn request_stays_with_its_session(worlds: Seq<World>, ttl: u128, i: int, id: nat)
    requires
        is_history(worlds, ttl),
        0 <= i < worlds.len(),
        worlds[i].requesters.contains_key(id),
    ensures
        session_of(worlds[i].requesters[id].step) matches Some(session_id) ==> session_id
            == worlds[i].requesters[id].session_id,
{
    history_keeps_tokens(worlds, ttl, i);
    let requester = worlds[i].requesters[id];
}

/// Whatever requests come and however their steps interleave, an access token that is handed out
/// to one of them is one that the store held for its very session.
pub proof fn handed_out_token_was_stored(
    worlds: Seq<World>,
    ttl: u128,
    i: int,
    id: nat,
    token: Seq<char>,
)
    requires
        is_history(worlds, ttl),
        0 <= i < worlds.len(),
        worlds[i].requesters.contains_key(id),
        worlds[i].requesters[id].step == StepView::Finished(ResolutionView::Ready(token)),
    ensures
        was_held(worlds, i, worlds[i].requesters[id].session_id, token),
{
    history_keeps_tokens(worlds, ttl, i);
    let requester = worlds[i].requesters[id];
    assert(token_of(requester.step) == Some(token));
}

} // verus!
