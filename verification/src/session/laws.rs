//! What holds of every session store, over any number of operations.
use super::store::{
    after_invalidation, after_refresh, after_release, elapsed, empty_store, found_session, live,
    lock_is_live, owned_mutation, owns_lock, session_is_live, with_lock, with_session, StoreView,
    TestStoreState,
};
use super::{RefreshOwnedMutation, SessionView};
use vstd::prelude::*;

verus! {

/// A session that was put in is found, with the tokens it was put in with, for as long as its
/// lifetime runs and no longer.
pub proof fn put_then_get(
    store: StoreView,
    ttl: u128,
    session_id: Seq<char>,
    session: SessionView,
    put_at: u128,
    read_at: u128,
)
    ensures
        found_session(
            live(with_session(live(store, ttl, put_at), session_id, session, put_at), ttl, read_at),
            session_id,
        ) == if elapsed(put_at, read_at) < ttl {
            Some(session)
        } else {
            None::<SessionView>
        },
{
}

/// Putting a session in leaves every other session and all locks as they were.
pub proof fn put_leaves_others(
    store: StoreView,
    session_id: Seq<char>,
    session: SessionView,
    now: u128,
    other_id: Seq<char>,
)
    requires
        other_id != session_id,
    ensures
        found_session(with_session(store, session_id, session, now), other_id) == found_session(
            store,
            other_id,
        ),
        with_session(store, session_id, session, now).refresh_locks == store.refresh_locks,
{
}

/// A look-up extends no lifetime: whatever a later moment leaves of the store, it leaves with or
/// without a look-up before.
pub proof fn lookup_extends_nothing(store: StoreView, ttl: u128, earlier: u128, later: u128)
    requires
        earlier <= later,
    ensures
        live(live(store, ttl, earlier), ttl, later) == live(store, ttl, later),
{
    let once = live(store, ttl, later);
    let twice = live(live(store, ttl, earlier), ttl, later);
    assert(once.sessions =~= twice.sessions);
    assert(once.refresh_locks =~= twice.refresh_locks);
}

/// A refresh that was written keeps the moment at which the lifetime of the session began: the
/// session ends when it would have ended without the refresh, and no other session changes.
pub proof fn refresh_keeps_lifetime(
    store: StoreView,
    ttl: u128,
    session_id: Seq<char>,
    owner_id: Seq<char>,
    session: SessionView,
    later: u128,
    any_id: Seq<char>,
)
    ensures
        ({
            let after = after_refresh(store, session_id, owner_id, session);
            &&& after.sessions.dom() == store.sessions.dom()
            &&& store.sessions.contains_key(any_id) ==> after.sessions[any_id].stored_at
                == store.sessions[any_id].stored_at
            &&& store.sessions.contains_key(any_id) && any_id != session_id
                ==> after.sessions[any_id] == store.sessions[any_id]
            &&& live(after, ttl, later).sessions.contains_key(any_id) == live(
                store,
                ttl,
                later,
            ).sessions.contains_key(any_id)
        }),
{
    let after = after_refresh(store, session_id, owner_id, session);
    assert(after.sessions.dom() =~= store.sessions.dom());
}

/// A refresh that was written is what the next look-up finds while the session lives.
pub proof fn refresh_then_get(
    store: StoreView,
    ttl: u128,
    session_id: Seq<char>,
    owner_id: Seq<char>,
    session: SessionView,
    later: u128,
)
    requires
        owned_mutation(store, session_id, owner_id) == RefreshOwnedMutation::Applied,
        session_is_live(store.sessions[session_id], ttl, later),
    ensures
        found_session(
            live(after_refresh(store, session_id, owner_id, session), ttl, later),
            session_id,
        ) == Some(session),
{
}

/// A session that is gone is not created again by a refresh.
pub proof fn refresh_recreates_nothing(
    store: StoreView,
    session_id: Seq<char>,
    owner_id: Seq<char>,
    session: SessionView,
)
    requires
        !store.sessions.contains_key(session_id),
    ensures
        after_refresh(store, session_id, owner_id, session) == store,
        owned_mutation(store, session_id, owner_id) != RefreshOwnedMutation::Applied,
{
}

/// A session that was ended under the lock is found no more.
pub proof fn invalidated_session_is_gone(
    store: StoreView,
    ttl: u128,
    session_id: Seq<char>,
    owner_id: Seq<char>,
    later: u128,
)
    requires
        owns_lock(store, session_id, owner_id),
    ensures
        found_session(live(after_invalidation(store, session_id, owner_id), ttl, later), session_id)
            is None,
{
}

/// Who does not hold the lock changes nothing: neither a write, nor an invalidation, nor a
/// release has an effect.
pub proof fn stranger_changes_nothing(
    store: StoreView,
    session_id: Seq<char>,
    owner_id: Seq<char>,
    session: SessionView,
)
    requires
        !owns_lock(store, session_id, owner_id),
    ensures
        owned_mutation(store, session_id, owner_id) == RefreshOwnedMutation::OwnershipLost,
        after_refresh(store, session_id, owner_id, session) == store,
        after_invalidation(store, session_id, owner_id) == store,
        after_release(store, session_id, owner_id) == store,
{
}

/// An operation on the store.
pub enum StoreOperation {
    Put { session_id: Seq<char>, session: SessionView },
    Get { session_id: Seq<char> },
    Acquire { session_id: Seq<char>, owner_id: Seq<char>, lease: u128 },
    Release { session_id: Seq<char>, owner_id: Seq<char> },
    Update { session_id: Seq<char>, owner_id: Seq<char>, session: SessionView },
    Invalidate { session_id: Seq<char>, owner_id: Seq<char> },
}

/// The store after an operation that did not fail.
pub open spec fn operated(store: StoreView, ttl: u128, operation: StoreOperation, now: u128)
    -> StoreView {
    let before = live(store, ttl, now);
    match operation {
        StoreOperation::Put { session_id, session } => with_session(
            before,
            session_id,
            session,
            now,
        ),
        StoreOperation::Get { session_id } => before,
        StoreOperation::Acquire { session_id, owner_id, lease } => if acquires(
            store,
            ttl,
            session_id,
            lease,
            now,
        ) {
            with_lock(before, session_id, owner_id, (now + lease) as u128)
        } else {
            before
        },
        StoreOperation::Release { session_id, owner_id } => after_release(
            before,
            session_id,
            owner_id,
        ),
        StoreOperation::Update { session_id, owner_id, session } => after_refresh(
            before,
            session_id,
            owner_id,
            session,
        ),
        StoreOperation::Invalidate { session_id, owner_id } => after_invalidation(
            before,
            session_id,
            owner_id,
        ),
    }
}

/// Whether a try for the lock succeeds.
pub open spec fn acquires(
    store: StoreView,
    ttl: u128,
    session_id: Seq<char>,
    lease: u128,
    now: u128,
) -> bool {
    0 < lease && now + lease <= u128::MAX && !live(store, ttl, now).refresh_locks.contains_key(
        session_id,
    )
}

/// The store after a row of operations, each at its own time.
pub open spec fn operated_all(
    store: StoreView,
    ttl: u128,
    operations: Seq<(StoreOperation, u128)>,
) -> StoreView
    decreases operations.len(),
{
    if operations.len() == 0 {
        store
    } else {
        let before = operated_all(store, ttl, operations.drop_last());
        operated(before, ttl, operations.last().0, operations.last().1)
    }
}

/// Whether an operation is the release of the lock by its owner.
pub open spec fn gives_back(
    operation: StoreOperation,
    session_id: Seq<char>,
    owner_id: Seq<char>,
) -> bool {
    operation == (StoreOperation::Release { session_id, owner_id })
}

/// A lock stays with its owner until its lease is over or the owner gives it back, whatever
/// others do to the store meanwhile.
pub proof fn lock_stays_with_owner(
    store: StoreView,
    ttl: u128,
    session_id: Seq<char>,
    owner_id: Seq<char>,
    operations: Seq<(StoreOperation, u128)>,
)
    requires
        owns_lock(store, session_id, owner_id),
        forall|i: int|
            0 <= i < operations.len() ==> !gives_back(
                (#[trigger] operations[i]).0,
                session_id,
                owner_id,
            ) && lock_is_live(store.refresh_locks[session_id], operations[i].1),
    ensures
        owns_lock(operated_all(store, ttl, operations), session_id, owner_id),
        operated_all(store, ttl, operations).refresh_locks[session_id]
            == store.refresh_locks[session_id],
    decreases operations.len(),
{
    if operations.len() > 0 {
        let init = operations.drop_last();
        assert(forall|i: int| 0 <= i < init.len() ==> init[i] == operations[i]);
        lock_stays_with_owner(store, ttl, session_id, owner_id, init);
        let before = operated_all(store, ttl, init);
        let (operation, now) = operations[operations.len() - 1];
        assert(live(before, ttl, now).refresh_locks.contains_key(session_id));
        assert(live(before, ttl, now).refresh_locks[session_id] == before.refresh_locks[session_id]);
    }
}

/// While the lease of an owner runs and the lock was not given back, nobody takes the lock.
pub proof fn lock_is_exclusive(
    store: StoreView,
    ttl: u128,
    session_id: Seq<char>,
    owner_id: Seq<char>,
    operations: Seq<(StoreOperation, u128)>,
    lease: u128,
    now: u128,
)
    requires
        owns_lock(store, session_id, owner_id),
        lock_is_live(store.refresh_locks[session_id], now),
        forall|i: int|
            0 <= i < operations.len() ==> !gives_back(
                (#[trigger] operations[i]).0,
                session_id,
                owner_id,
            ) && lock_is_live(store.refresh_locks[session_id], operations[i].1),
    ensures
        !acquires(operated_all(store, ttl, operations), ttl, session_id, lease, now),
{
    lock_stays_with_owner(store, ttl, session_id, owner_id, operations);
}

/// Once the lease is over, the lock can be taken by another, and from then on the former owner
/// can neither write, nor end the session, nor release the lock.
pub proof fn expired_owner_is_locked_out(
    store: StoreView,
    ttl: u128,
    session_id: Seq<char>,
    former: Seq<char>,
    new_owner: Seq<char>,
    lease: u128,
    now: u128,
    session: SessionView,
)
    requires
        former != new_owner,
        owns_lock(store, session_id, former),
        !lock_is_live(store.refresh_locks[session_id], now),
        0 < lease,
        now + lease <= u128::MAX,
    ensures
        acquires(store, ttl, session_id, lease, now),
        ({
            let taken = operated(
                store,
                ttl,
                StoreOperation::Acquire { session_id, owner_id: new_owner, lease },
                now,
            );
            &&& owns_lock(taken, session_id, new_owner)
            &&& owned_mutation(taken, session_id, former) == RefreshOwnedMutation::OwnershipLost
            &&& after_refresh(taken, session_id, former, session) == taken
            &&& after_invalidation(taken, session_id, former) == taken
            &&& after_release(taken, session_id, former) == taken
        }),
{
}

/// Whether an operation puts a session in under an id at a time.
pub open spec fn puts_at(entry: (StoreOperation, u128), session_id: Seq<char>, time: u128) -> bool {
    entry.0 matches StoreOperation::Put { session_id: id, .. } && id == session_id && entry.1 == time
}

/// Whether one of the operations puts a session in under an id at a time.
pub open spec fn was_put_at(
    operations: Seq<(StoreOperation, u128)>,
    session_id: Seq<char>,
    time: u128,
) -> bool {
    exists|i: int| 0 <= i < operations.len() && puts_at(#[trigger] operations[i], session_id, time)
}

proof fn sessions_were_put(ttl: u128, operations: Seq<(StoreOperation, u128)>, session_id: Seq<char>)
    requires
        operated_all(empty_store(), ttl, operations).sessions.contains_key(session_id),
    ensures
        was_put_at(
            operations,
            session_id,
            operated_all(empty_store(), ttl, operations).sessions[session_id].stored_at,
        ),
    decreases operations.len(),
{
    if operations.len() > 0 {
        let init = operations.drop_last();
        let before = operated_all(empty_store(), ttl, init);
        let after = operated_all(empty_store(), ttl, operations);
        let time = after.sessions[session_id].stored_at;
        let last = operations[operations.len() - 1];
        if !puts_at(last, session_id, time) {
            assert(before.sessions.contains_key(session_id));
            assert(before.sessions[session_id].stored_at == time);
            sessions_were_put(ttl, init, session_id);
            let i = choose|i: int|
                0 <= i < init.len() && puts_at(#[trigger] init[i], session_id, time);
            assert(puts_at(operations[i], session_id, time));
        }
    }
}

/// The lifetime of a session is bounded, whatever is done to it: a session that is found was put in
/// by a sign-in less than its lifetime ago. Neither look-ups nor refreshes extend it, and nothing
/// but a sign-in creates it.
pub proof fn sessions_end(
    ttl: u128,
    operations: Seq<(StoreOperation, u128)>,
    session_id: Seq<char>,
    now: u128,
)
    requires
        found_session(live(operated_all(empty_store(), ttl, operations), ttl, now), session_id)
            is Some,
    ensures
        exists|put_at: u128| #[trigger]
            was_put_at(operations, session_id, put_at) && elapsed(put_at, now) < ttl,
{
    sessions_were_put(ttl, operations, session_id);
}

/// The time between two moments is their difference, and none where the later comes first.
pub proof fn elapsed_is_the_difference(start: u128, now: u128)
    ensures
        start <= now ==> elapsed(start, now) == now - start,
        now < start ==> elapsed(start, now) == 0,
{
}

/// A session is found for as long as its lifetime has not run since it was put in, counted in
/// nanoseconds, and not from then on.
pub proof fn sessions_live_for_their_lifetime(
    store: StoreView,
    ttl: u128,
    session_id: Seq<char>,
    put_at: u128,
    read_at: u128,
)
    requires
        store.sessions.contains_key(session_id),
        store.sessions[session_id].stored_at == put_at,
        put_at <= read_at,
    ensures
        read_at - put_at < ttl ==> found_session(live(store, ttl, read_at), session_id) == Some(
            store.sessions[session_id].session,
        ),
        read_at - put_at >= ttl ==> found_session(live(store, ttl, read_at), session_id) is None,
{
}

/// A lock that was taken is its owner's until its lease has run, counted in nanoseconds, and free
/// from then on.
pub proof fn locks_run_for_their_lease(
    store: StoreView,
    ttl: u128,
    session_id: Seq<char>,
    owner_id: Seq<char>,
    lease: u128,
    taken_at: u128,
    later: u128,
    next_lease: u128,
)
    requires
        !store.refresh_locks.contains_key(session_id),
        0 < lease,
        taken_at + lease <= u128::MAX,
        0 < next_lease,
        later + next_lease <= u128::MAX,
    ensures
        ({
            let taken = operated(
                store,
                ttl,
                StoreOperation::Acquire { session_id, owner_id, lease },
                taken_at,
            );
            &&& owns_lock(live(taken, ttl, later), session_id, owner_id) <==> later < taken_at + lease
            &&& acquires(taken, ttl, session_id, next_lease, later) <==> later >= taken_at + lease
        }),
{
}

/// A change under the lock is applied exactly if the caller holds the lock and the session is there.
/// Who does not hold the lock is told so, whatever there is; who does is told of a missing session.
/// What is applied is what was asked for, and nothing else changes.
pub proof fn changes_are_for_the_owner(
    store: StoreView,
    session_id: Seq<char>,
    owner_id: Seq<char>,
    session: SessionView,
    other_id: Seq<char>,
)
    requires
        other_id != session_id,
    ensures
        ({
            let owned = store.refresh_locks.contains_key(session_id)
                && store.refresh_locks[session_id].owner_id == owner_id;
            let there = store.sessions.contains_key(session_id);
            let told = owned_mutation(store, session_id, owner_id);
            let written = after_refresh(store, session_id, owner_id, session);
            let ended = after_invalidation(store, session_id, owner_id);
            let released = after_release(store, session_id, owner_id);
            &&& told == RefreshOwnedMutation::Applied <==> owned && there
            &&& told == RefreshOwnedMutation::SessionMissing <==> owned && !there
            &&& told == RefreshOwnedMutation::OwnershipLost <==> !owned
            &&& owned && there ==> written.sessions[session_id].session == session
                && written.sessions[session_id].stored_at == store.sessions[session_id].stored_at
                && !ended.sessions.contains_key(session_id)
            &&& !(owned && there) ==> written == store && ended == store
            &&& owned ==> !released.refresh_locks.contains_key(session_id)
            &&& !owned ==> released == store
            &&& written.refresh_locks == store.refresh_locks
            &&& ended.refresh_locks == store.refresh_locks
            &&& released.sessions == store.sessions
            &&& ended.sessions.contains_key(other_id) == store.sessions.contains_key(other_id)
            &&& store.sessions.contains_key(other_id) ==> ended.sessions[other_id]
                == store.sessions[other_id]
            &&& released.refresh_locks.contains_key(other_id) == store.refresh_locks.contains_key(
                other_id,
            )
            &&& store.refresh_locks.contains_key(other_id) ==> released.refresh_locks[other_id]
                == store.refresh_locks[other_id]
        }),
{
}

/// A look-up finds the session under the very id, with its very tokens, or nothing.
pub proof fn look_ups_find_what_is_there(store: StoreView, session_id: Seq<char>)
    ensures
        store.sessions.contains_key(session_id) ==> found_session(store, session_id) == Some(
            store.sessions[session_id].session,
        ),
        !store.sessions.contains_key(session_id) ==> found_session(store, session_id) is None,
{
}

/// A store is seen as it is: every session with its tokens and the time of its creation, and every
/// lock with its owner and the end of its lease.
pub proof fn store_is_seen_as_it_is(state: TestStoreState, id: Seq<char>)
    ensures
        state@.sessions.contains_key(id) == state.sessions@.contains_key(id),
        state.sessions@.contains_key(id) ==> state@.sessions[id].session
            == state.sessions@[id].session@ && state@.sessions[id].stored_at
            == state.sessions@[id].stored_at,
        state@.refresh_locks.contains_key(id) == state.refresh_locks@.contains_key(id),
        state.refresh_locks@.contains_key(id) ==> state@.refresh_locks[id].owner_id
            == state.refresh_locks@[id].owner_id@ && state@.refresh_locks[id].expires_at
            == state.refresh_locks@[id].expires_at,
{
}

} // verus!
