//! Overlapping requests for the access token of one session whose refresh succeeds.
use super::refresh::{
    advanced, sufficiently_valid, ResolutionView, StepView, REFRESH_LOCK_LEASE,
    REFRESH_WAIT_TIMEOUT,
};
use super::resolution_laws::{
    attempt_of, is_owner_step, is_provider_failure, is_store_failure, ReplyView,
};
use super::single_flight::{
    arrives, at_most_one_owner, is_history, moves, owner_has_the_lock,
    request_stays_with_its_session, session_of, signs_in, store_answers, turns, works_as_owner,
    Requester, World,
};
use crate::session::store::{elapsed, live, owns_lock, session_is_live, StoreView};
use crate::session::SessionView;
use vstd::prelude::*;

verus! {

/// What happens between two worlds.
pub enum WorldEvent {
    /// A request does the work of its step and gets the reply.
    Turn { id: nat, reply: ReplyView },
    /// A request comes in.
    Arrival { id: nat, session_id: Seq<char>, unix_time: u64 },
    /// A sign-in puts a session in.
    SignIn { session_id: Seq<char>, session: SessionView },
}

/// Whether an event leads from one world to another.
pub open spec fn happens(before: World, event: WorldEvent, after: World, ttl: u128) -> bool {
    &&& before.now <= after.now
    &&& match event {
        WorldEvent::Turn { id, reply } => turns(before, after, ttl, id, reply),
        WorldEvent::Arrival { id, session_id, unix_time } => arrives(
            before,
            after,
            id,
            session_id,
            unix_time,
        ),
        WorldEvent::SignIn { session_id, session } => signs_in(
            before,
            after,
            ttl,
            session_id,
            session,
        ),
    }
}

/// Whether the events, in their order, lead from each world to the next, starting without requests.
pub open spec fn is_record(worlds: Seq<World>, events: Seq<WorldEvent>, ttl: u128) -> bool {
    &&& worlds.len() == events.len() + 1
    &&& worlds[0].requesters == Map::<nat, Requester>::empty()
    &&& forall|i: int|
        #![trigger events[i]]
        0 <= i < events.len() ==> happens(worlds[i], events[i], worlds[i + 1], ttl)
}

proof fn record_is_history(worlds: Seq<World>, events: Seq<WorldEvent>, ttl: u128)
    requires
        is_record(worlds, events, ttl),
    ensures
        is_history(worlds, ttl),
{
    assert forall|i: int| 0 < i < worlds.len() implies moves(
        worlds[i - 1],
        #[trigger] worlds[i],
        ttl,
    ) by {
        assert(happens(worlds[i - 1], events[i - 1], worlds[i], ttl));
        match events[i - 1] {
            WorldEvent::Turn { id, reply } => {
                assert(turns(worlds[i - 1], worlds[i], ttl, id, reply));
            },
            WorldEvent::Arrival { id, session_id, unix_time } => {
                assert(arrives(worlds[i - 1], worlds[i], id, session_id, unix_time));
            },
            WorldEvent::SignIn { session_id, session } => {
                assert(signs_in(worlds[i - 1], worlds[i], ttl, session_id, session));
            },
        }
    }
}

/// An event that leads from one world to another.
spec fn event_between(before: World, after: World, ttl: u128) -> WorldEvent {
    choose|event: WorldEvent| #[trigger] happens(before, event, after, ttl)
}

/// Every history has a record of what happened in it.
pub proof fn history_has_record(worlds: Seq<World>, ttl: u128)
    requires
        is_history(worlds, ttl),
    ensures
        exists|events: Seq<WorldEvent>| is_record(worlds, events, ttl),
{
    let events = Seq::new(
        (worlds.len() - 1) as nat,
        |i: int| event_between(worlds[i], worlds[i + 1], ttl),
    );
    assert forall|i: int|
        #![trigger events[i]]
        0 <= i < events.len() implies happens(worlds[i], events[i], worlds[i + 1], ttl) by {
        let before = worlds[i];
        let after = worlds[i + 1];
        assert(moves(worlds[i + 1 - 1], worlds[i + 1], ttl));
        if exists|id: nat, reply: ReplyView| turns(before, after, ttl, id, reply) {
            let (id, reply) = choose|id: nat, reply: ReplyView| turns(before, after, ttl, id, reply);
            assert(happens(before, WorldEvent::Turn { id, reply }, after, ttl));
        } else if exists|id: nat, session_id: Seq<char>, unix_time: u64|
            arrives(before, after, id, session_id, unix_time) {
            let (id, session_id, unix_time) = choose|
                id: nat,
                session_id: Seq<char>,
                unix_time: u64,
            |
                arrives(before, after, id, session_id, unix_time);
            assert(happens(
                before,
                WorldEvent::Arrival { id, session_id, unix_time },
                after,
                ttl,
            ));
        } else {
            let (session_id, session) = choose|session_id: Seq<char>, session: SessionView|
                signs_in(before, after, ttl, session_id, session);
            assert(happens(before, WorldEvent::SignIn { session_id, session }, after, ttl));
        }
    }
    assert(is_record(worlds, events, ttl));
}

/// Whether a request for the session's token is there.
pub open spec fn wants(world: World, id: nat, session_id: Seq<char>) -> bool {
    world.requesters.contains_key(id) && world.requesters[id].session_id == session_id
}

/// The Unix time by which a step judges what it reads at an instant.
pub open spec fn judging_time(step: StepView, instant: u128) -> Option<u64> {
    match step {
        StepView::ReadSession { now, .. } => Some(now),
        StepView::Wait { attempt, .. } => Some(
            advanced(attempt.now, attempt.started_at, instant),
        ),
        StepView::ReadOwned { effective_now, .. } => Some(effective_now),
        _ => None,
    }
}

/// Whether a turn of a request goes as it should: neither the store nor the provider fails, an
/// owner acts within its lease, nobody is kept beyond the end of its wait, and the session as it
/// was at first needs a refresh.
pub open spec fn goes_well(
    requester: Requester,
    reply: ReplyView,
    instant: u128,
    stale: SessionView,
) -> bool {
    let step = requester.step;
    &&& !is_store_failure(reply)
    &&& !is_provider_failure(reply)
    &&& reply matches ReplyView::Exchange(exchange) ==> exchange is Tokens
    &&& is_owner_step(step) ==> instant < requester.tried_at + REFRESH_LOCK_LEASE
    &&& step matches StepView::AcquireLock { attempt, .. } ==> elapsed(attempt.started_at, instant)
        < REFRESH_WAIT_TIMEOUT
    &&& step matches StepView::Wait { attempt, .. } ==> elapsed(attempt.started_at, instant)
        < REFRESH_WAIT_TIMEOUT
    &&& judging_time(step, instant) matches Some(time) ==> !sufficiently_valid(
        stale.access_token_expires_at,
        time,
    )
}

/// Whether an event is a turn of a request for the session's token.
pub open spec fn is_turn_for(
    worlds: Seq<World>,
    events: Seq<WorldEvent>,
    i: int,
    session_id: Seq<char>,
) -> bool {
    events[i] is Turn && wants(worlds[i], events[i]->Turn_id, session_id)
}

/// Whether an event is the exchange of the session's refresh token.
pub open spec fn is_exchange_for(
    worlds: Seq<World>,
    events: Seq<WorldEvent>,
    i: int,
    session_id: Seq<char>,
) -> bool {
    is_turn_for(worlds, events, i, session_id)
        && worlds[i].requesters[events[i]->Turn_id].step is Exchange
}

/// The session that the exchange of an event leaves to be written.
pub open spec fn renewed_session(
    worlds: Seq<World>,
    events: Seq<WorldEvent>,
    i: int,
) -> SessionView {
    worlds[i + 1].requesters[events[i]->Turn_id].step->Update_refreshed
}

/// Whether a session's refresh succeeds throughout a record: the session is there with a refresh
/// token and lives, nobody signs in under its id anew, every turn for it goes well, owners stay
/// within their leases, and a renewed token is valid beyond the refresh skew for whoever judges it.
pub open spec fn refresh_succeeds(
    worlds: Seq<World>,
    events: Seq<WorldEvent>,
    ttl: u128,
    session_id: Seq<char>,
    stale: SessionView,
) -> bool {
    &&& worlds[0].store.sessions.contains_key(session_id)
    &&& worlds[0].store.sessions[session_id].session == stale
    &&& stale.refresh_token is Some
    &&& forall|i: int|
        0 <= i < worlds.len() ==> session_is_live(
            worlds[0].store.sessions[session_id],
            ttl,
            (#[trigger] worlds[i]).now,
        )
    &&& forall|i: int|
        0 <= i < events.len() ==> ((#[trigger] events[i]) matches WorldEvent::SignIn {
            session_id: id,
            ..
        } ==> id != session_id)
    &&& forall|i: int|
        0 <= i < events.len() && #[trigger] is_turn_for(worlds, events, i, session_id)
            ==> goes_well(
            worlds[i].requesters[events[i]->Turn_id],
            events[i]->Turn_reply,
            worlds[i + 1].now,
            stale,
        )
    &&& forall|i: int, id: nat|
        #![trigger wants(worlds[i], id, session_id)]
        0 <= i < worlds.len() && wants(worlds[i], id, session_id) && is_owner_step(
            worlds[i].requesters[id].step,
        ) ==> worlds[i].now < worlds[i].requesters[id].tried_at + REFRESH_LOCK_LEASE
    &&& forall|i: int, j: int|
        #![trigger
            is_turn_for(worlds, events, i, session_id),
            is_exchange_for(worlds, events, j, session_id),
        ]
        0 <= j < i < events.len() && is_exchange_for(worlds, events, j, session_id) && is_turn_for(
            worlds,
            events,
            i,
            session_id,
        ) ==> (judging_time(
            worlds[i].requesters[events[i]->Turn_id].step,
            worlds[i + 1].now,
        ) matches Some(time) ==> sufficiently_valid(
            renewed_session(worlds, events, j).access_token_expires_at,
            time,
        ))
}

/// Whether a request does not own the lock yet.
spec fn is_early(step: StepView) -> bool {
    step is ReadSession || step is NeedOwnership || step is AcquireLock || step is Wait
}

/// How far the refresh of the session has come.
enum Phase {
    /// Nobody has come to the exchange.
    Stale,
    /// A request is at the exchange.
    Exchanging { owner: nat },
    /// The request has exchanged, at the event, and is to write.
    Exchanged { owner: nat, event: int },
    /// The request has exchanged, at the event, and the renewed session is written.
    Renewed { owner: nat, event: int },
}

/// Whether a request is past the lock without having come to the exchange.
spec fn is_looking(step: StepView) -> bool {
    step is ReadOwned || step is ResolveMetadata
}

/// Whether a request gives the lock back and then ends with the token.
spec fn gives_back_with(step: StepView, token: Seq<char>) -> bool {
    step matches StepView::Release { result, .. } && result == ResolutionView::Ready(token)
}

/// Whether a request has got the token, or still has to look.
spec fn is_served(step: StepView, token: Seq<char>) -> bool {
    ||| is_early(step)
    ||| step is ReadOwned
    ||| gives_back_with(step, token)
    ||| step == StepView::Finished(ResolutionView::Ready(token))
}

spec fn steps_fit(
    worlds: Seq<World>,
    events: Seq<WorldEvent>,
    session_id: Seq<char>,
    i: int,
    phase: Phase,
) -> bool {
    forall|id: nat| #[trigger]
        wants(worlds[i], id, session_id) ==> {
            let step = worlds[i].requesters[id].step;
            match phase {
                Phase::Stale => is_early(step) || is_looking(step),
                Phase::Exchanging { owner } => if id == owner {
                    step is Exchange
                } else {
                    is_early(step)
                },
                Phase::Exchanged { owner, event } => if id == owner {
                    step is Update && step->Update_refreshed == renewed_session(
                        worlds,
                        events,
                        event,
                    )
                } else {
                    is_early(step)
                },
                Phase::Renewed { owner, event } => is_served(
                    step,
                    renewed_session(worlds, events, event).access_token,
                ),
            }
        }
}

spec fn store_fits(
    worlds: Seq<World>,
    events: Seq<WorldEvent>,
    session_id: Seq<char>,
    stale: SessionView,
    i: int,
    phase: Phase,
) -> bool {
    let sessions = worlds[i].store.sessions;
    &&& sessions.contains_key(session_id)
    &&& sessions[session_id].stored_at == worlds[0].store.sessions[session_id].stored_at
    &&& sessions[session_id].session == match phase {
        Phase::Renewed { owner, event } => renewed_session(worlds, events, event),
        _ => stale,
    }
}

/// Whether only one request has come to the exchange, and only one event was an exchange.
spec fn exchanges_fit(
    worlds: Seq<World>,
    events: Seq<WorldEvent>,
    session_id: Seq<char>,
    i: int,
    phase: Phase,
) -> bool {
    &&& forall|k: int, id: nat|
        #![trigger wants(worlds[k], id, session_id)]
        0 <= k <= i && wants(worlds[k], id, session_id) && worlds[k].requesters[id].step is Exchange
            ==> match phase {
            Phase::Stale => false,
            Phase::Exchanging { owner } => id == owner,
            Phase::Exchanged { owner, event } => id == owner,
            Phase::Renewed { owner, event } => id == owner,
        }
    &&& forall|k: int|
        0 <= k < i && #[trigger] is_exchange_for(worlds, events, k, session_id) ==> match phase {
            Phase::Stale => false,
            Phase::Exchanging { owner } => false,
            Phase::Exchanged { owner, event } => k == event,
            Phase::Renewed { owner, event } => k == event,
        }
    &&& match phase {
        Phase::Stale => true,
        Phase::Exchanging { owner } => wants(worlds[i], owner, session_id),
        Phase::Exchanged { owner, event } => wants(worlds[i], owner, session_id) && 0 <= event < i
            && is_exchange_for(worlds, events, event, session_id),
        Phase::Renewed { owner, event } => 0 <= event < i && is_exchange_for(
            worlds,
            events,
            event,
            session_id,
        ),
    }
}

spec fn in_phase(
    worlds: Seq<World>,
    events: Seq<WorldEvent>,
    session_id: Seq<char>,
    stale: SessionView,
    i: int,
    phase: Phase,
) -> bool {
    &&& steps_fit(worlds, events, session_id, i, phase)
    &&& store_fits(worlds, events, session_id, stale, i, phase)
    &&& exchanges_fit(worlds, events, session_id, i, phase)
}

/// What a turn leaves of a session that it does not write.
proof fn entry_is_kept(
    store: StoreView,
    ttl: u128,
    now: u128,
    step: StepView,
    reply: ReplyView,
    after: StoreView,
    session_id: Seq<char>,
)
    requires
        store.sessions.contains_key(session_id),
        session_is_live(store.sessions[session_id], ttl, now),
        store_answers(store, ttl, now, step, reply, after),
        session_of(step) == Some(session_id) ==> !(step is Update) && !(step is Invalidate),
    ensures
        after.sessions.contains_key(session_id),
        after.sessions[session_id] == store.sessions[session_id],
{
    let before = live(store, ttl, now);
    assert(before.sessions.contains_key(session_id));
    assert(before.sessions[session_id] == store.sessions[session_id]);
}

/// What a look-up of a session that is there gives.
proof fn look_up_finds(
    store: StoreView,
    ttl: u128,
    now: u128,
    step: StepView,
    reply: ReplyView,
    after: StoreView,
    session_id: Seq<char>,
)
    requires
        store.sessions.contains_key(session_id),
        session_is_live(store.sessions[session_id], ttl, now),
        store_answers(store, ttl, now, step, reply, after),
        session_of(step) == Some(session_id),
        step is ReadSession || step is Wait || step is ReadOwned,
        reply is Session,
        !is_store_failure(reply),
    ensures
        reply == ReplyView::Session(Ok(Some(store.sessions[session_id].session))),
{
    let before = live(store, ttl, now);
    assert(before.sessions.contains_key(session_id));
}

/// At one time one request at most is past the lock.
proof fn one_owner(
    worlds: Seq<World>,
    events: Seq<WorldEvent>,
    ttl: u128,
    session_id: Seq<char>,
    stale: SessionView,
    i: int,
    one: nat,
    other: nat,
)
    requires
        is_record(worlds, events, ttl),
        refresh_succeeds(worlds, events, ttl, session_id, stale),
        0 <= i < worlds.len(),
        wants(worlds[i], one, session_id),
        wants(worlds[i], other, session_id),
        is_owner_step(worlds[i].requesters[one].step),
        is_owner_step(worlds[i].requesters[other].step),
    ensures
        one == other,
{
    record_is_history(worlds, events, ttl);
    request_stays_with_its_session(worlds, ttl, i, one);
    request_stays_with_its_session(worlds, ttl, i, other);
    let one_attempt = attempt_of(worlds[i].requesters[one].step)->Some_0;
    let other_attempt = attempt_of(worlds[i].requesters[other].step)->Some_0;
    assert(works_as_owner(worlds[i], one, one_attempt));
    assert(works_as_owner(worlds[i], other, other_attempt));
    at_most_one_owner(worlds, ttl, i, one, one_attempt, other, other_attempt);
}

/// What a turn for the session makes of its request in each phase.
proof fn mover_goes_on(
    worlds: Seq<World>,
    events: Seq<WorldEvent>,
    ttl: u128,
    session_id: Seq<char>,
    stale: SessionView,
    i: int,
    phase: Phase,
)
    requires
        is_record(worlds, events, ttl),
        refresh_succeeds(worlds, events, ttl, session_id, stale),
        0 <= i < events.len(),
        in_phase(worlds, events, session_id, stale, i, phase),
        is_turn_for(worlds, events, i, session_id),
    ensures
        ({
            let id = events[i]->Turn_id;
            let before = worlds[i].requesters[id].step;
            let after = worlds[i + 1].requesters[id].step;
            &&& wants(worlds[i + 1], id, session_id)
            &&& match phase {
                Phase::Stale => {
                    ||| is_early(before) && (is_early(after) || after is ReadOwned)
                    ||| before is ReadOwned && after is ResolveMetadata
                    ||| before is ResolveMetadata && after is Exchange
                },
                Phase::Exchanging { owner } => {
                    ||| is_early(before) && id != owner && (is_early(after) || after is ReadOwned)
                    ||| before is Exchange && id == owner && after is Update
                },
                Phase::Exchanged { owner, event } => {
                    ||| is_early(before) && id != owner && (is_early(after) || after is ReadOwned)
                    ||| before is Update && id == owner && gives_back_with(
                        after,
                        renewed_session(worlds, events, event).access_token,
                    )
                },
                Phase::Renewed { owner, event } => is_served(
                    after,
                    renewed_session(worlds, events, event).access_token,
                ) && !(before is Update) && !(before is Invalidate) && !(before is Exchange),
            }
        }),
{
    record_is_history(worlds, events, ttl);
    let id = events[i]->Turn_id;
    let reply = events[i]->Turn_reply;
    let requester = worlds[i].requesters[id];
    let step = requester.step;
    let now = worlds[i + 1].now;
    let store = worlds[i].store;
    assert(happens(worlds[i], events[i], worlds[i + 1], ttl));
    assert(turns(worlds[i], worlds[i + 1], ttl, id, reply));
    assert(goes_well(requester, reply, now, stale));
    request_stays_with_its_session(worlds, ttl, i, id);
    assert(wants(worlds[i], id, session_id));
    assert(session_is_live(worlds[0].store.sessions[session_id], ttl, worlds[i + 1].now));
    assert(session_is_live(store.sessions[session_id], ttl, now));
    if step is ReadSession || step is Wait || step is ReadOwned {
        look_up_finds(store, ttl, now, step, reply, worlds[i + 1].store, session_id);
        match phase {
            Phase::Renewed { owner, event } => {
                assert(is_exchange_for(worlds, events, event, session_id));
                assert(is_turn_for(worlds, events, i, session_id));
            },
            _ => {},
        }
    }
    if step is Update || step is Release {
        let attempt = attempt_of(step)->Some_0;
        assert(works_as_owner(worlds[i], id, attempt));
        owner_has_the_lock(worlds, ttl, i, id, attempt, now);
        assert(owns_lock(live(store, ttl, now), attempt.session_id, attempt.owner_id));
        assert(live(store, ttl, now).sessions.contains_key(session_id));
    }
}

/// What a turn for the session makes of the store in each phase.
proof fn store_goes_on(
    worlds: Seq<World>,
    events: Seq<WorldEvent>,
    ttl: u128,
    session_id: Seq<char>,
    stale: SessionView,
    i: int,
    phase: Phase,
)
    requires
        is_record(worlds, events, ttl),
        refresh_succeeds(worlds, events, ttl, session_id, stale),
        0 <= i < events.len(),
        in_phase(worlds, events, session_id, stale, i, phase),
    ensures
        worlds[i + 1].store.sessions.contains_key(session_id),
        worlds[i + 1].store.sessions[session_id].stored_at
            == worlds[i].store.sessions[session_id].stored_at,
        worlds[i + 1].store.sessions[session_id].session == if is_turn_for(
            worlds,
            events,
            i,
            session_id,
        ) && worlds[i].requesters[events[i]->Turn_id].step is Update {
            worlds[i].requesters[events[i]->Turn_id].step->Update_refreshed
        } else {
            worlds[i].store.sessions[session_id].session
        },
{
    record_is_history(worlds, events, ttl);
    let store = worlds[i].store;
    let now = worlds[i + 1].now;
    assert(happens(worlds[i], events[i], worlds[i + 1], ttl));
    assert(session_is_live(worlds[0].store.sessions[session_id], ttl, worlds[i + 1].now));
    assert(session_is_live(store.sessions[session_id], ttl, now));
    assert(live(store, ttl, now).sessions.contains_key(session_id));
    match events[i] {
        WorldEvent::Turn { id, reply } => {
            let requester = worlds[i].requesters[id];
            let step = requester.step;
            assert(turns(worlds[i], worlds[i + 1], ttl, id, reply));
            request_stays_with_its_session(worlds, ttl, i, id);
            if requester.session_id == session_id {
                assert(is_turn_for(worlds, events, i, session_id));
                assert(goes_well(requester, reply, now, stale));
                assert(wants(worlds[i], id, session_id));
                if step is Update {
                    let attempt = attempt_of(step)->Some_0;
                    assert(works_as_owner(worlds[i], id, attempt));
                    owner_has_the_lock(worlds, ttl, i, id, attempt, now);
                } else {
                    assert(!(step is Invalidate));
                    entry_is_kept(store, ttl, now, step, reply, worlds[i + 1].store, session_id);
                }
            } else {
                entry_is_kept(store, ttl, now, step, reply, worlds[i + 1].store, session_id);
            }
        },
        WorldEvent::Arrival { .. } => {},
        WorldEvent::SignIn { session_id: other, session } => {
            assert(events[i] is SignIn);
            assert(other != session_id);
        },
    }
}

/// A request that the event does not move is as it was, or has just come.
proof fn others_stay(
    worlds: Seq<World>,
    events: Seq<WorldEvent>,
    ttl: u128,
    session_id: Seq<char>,
    i: int,
    id: nat,
)
    requires
        is_record(worlds, events, ttl),
        0 <= i < events.len(),
        wants(worlds[i + 1], id, session_id),
        !(is_turn_for(worlds, events, i, session_id) && events[i]->Turn_id == id),
    ensures
        !worlds[i].requesters.contains_key(id) ==> worlds[i + 1].requesters[id].step is ReadSession,
        worlds[i].requesters.contains_key(id) ==> wants(worlds[i], id, session_id)
            && worlds[i + 1].requesters[id] == worlds[i].requesters[id],
{
    assert(happens(worlds[i], events[i], worlds[i + 1], ttl));
    match events[i] {
        WorldEvent::Turn { id: mover, reply } => {
            assert(turns(worlds[i], worlds[i + 1], ttl, mover, reply));
            if mover == id {
                assert(wants(worlds[i], id, session_id));
            }
        },
        WorldEvent::Arrival { id: newcomer, .. } => {},
        WorldEvent::SignIn { .. } => {},
    }
}

/// The phase after an event.
spec fn next_phase(
    worlds: Seq<World>,
    events: Seq<WorldEvent>,
    session_id: Seq<char>,
    i: int,
    phase: Phase,
) -> Phase {
    if is_turn_for(worlds, events, i, session_id) {
        let id = events[i]->Turn_id;
        let after = worlds[i + 1].requesters[id].step;
        match phase {
            Phase::Stale => if after is Exchange {
                Phase::Exchanging { owner: id }
            } else {
                Phase::Stale
            },
            Phase::Exchanging { owner } => if id == owner {
                Phase::Exchanged { owner, event: i }
            } else {
                phase
            },
            Phase::Exchanged { owner, event } => if id == owner {
                Phase::Renewed { owner, event }
            } else {
                phase
            },
            Phase::Renewed { owner, event } => phase,
        }
    } else {
        phase
    }
}

proof fn steps_go_on(
    worlds: Seq<World>,
    events: Seq<WorldEvent>,
    ttl: u128,
    session_id: Seq<char>,
    stale: SessionView,
    i: int,
    phase: Phase,
)
    requires
        is_record(worlds, events, ttl),
        refresh_succeeds(worlds, events, ttl, session_id, stale),
        0 <= i < events.len(),
        in_phase(worlds, events, session_id, stale, i, phase),
    ensures
        steps_fit(
            worlds,
            events,
            session_id,
            i + 1,
            next_phase(worlds, events, session_id, i, phase),
        ),
{
    let after = next_phase(worlds, events, session_id, i, phase);
    let turn = is_turn_for(worlds, events, i, session_id);
    let mover = events[i]->Turn_id;
    if turn {
        mover_goes_on(worlds, events, ttl, session_id, stale, i, phase);
    }
    let holder = match after {
        Phase::Stale => None,
        Phase::Exchanging { owner } => Some(owner),
        Phase::Exchanged { owner, event } => Some(owner),
        Phase::Renewed { owner, event } => None,
    };
    if holder is Some {
        let owner = holder->Some_0;
        if !(turn && mover == owner) {
            assert(wants(worlds[i], owner, session_id));
            assert(happens(worlds[i], events[i], worlds[i + 1], ttl));
            assert(worlds[i + 1].requesters[owner] == worlds[i].requesters[owner]);
        }
        assert(wants(worlds[i + 1], owner, session_id));
        assert(is_owner_step(worlds[i + 1].requesters[owner].step));
    }
    assert forall|id: nat| #[trigger] wants(worlds[i + 1], id, session_id) implies {
        let step = worlds[i + 1].requesters[id].step;
        match after {
            Phase::Stale => is_early(step) || is_looking(step),
            Phase::Exchanging { owner } => if id == owner {
                step is Exchange
            } else {
                is_early(step)
            },
            Phase::Exchanged { owner, event } => if id == owner {
                step is Update && step->Update_refreshed == renewed_session(worlds, events, event)
            } else {
                is_early(step)
            },
            Phase::Renewed { owner, event } => is_served(
                step,
                renewed_session(worlds, events, event).access_token,
            ),
        }
    } by {
        if !(turn && mover == id) {
            others_stay(worlds, events, ttl, session_id, i, id);
        }
        if holder is Some && holder->Some_0 != id && is_owner_step(
            worlds[i + 1].requesters[id].step,
        ) {
            one_owner(worlds, events, ttl, session_id, stale, i + 1, holder->Some_0, id);
        }
    }
}

proof fn exchanges_go_on(
    worlds: Seq<World>,
    events: Seq<WorldEvent>,
    ttl: u128,
    session_id: Seq<char>,
    stale: SessionView,
    i: int,
    phase: Phase,
)
    requires
        is_record(worlds, events, ttl),
        refresh_succeeds(worlds, events, ttl, session_id, stale),
        0 <= i < events.len(),
        in_phase(worlds, events, session_id, stale, i, phase),
        steps_fit(
            worlds,
            events,
            session_id,
            i + 1,
            next_phase(worlds, events, session_id, i, phase),
        ),
    ensures
        exchanges_fit(
            worlds,
            events,
            session_id,
            i + 1,
            next_phase(worlds, events, session_id, i, phase),
        ),
{
    let after = next_phase(worlds, events, session_id, i, phase);
    let turn = is_turn_for(worlds, events, i, session_id);
    let mover = events[i]->Turn_id;
    if turn {
        mover_goes_on(worlds, events, ttl, session_id, stale, i, phase);
        assert(wants(worlds[i], mover, session_id));
    }
    assert(happens(worlds[i], events[i], worlds[i + 1], ttl));
    assert forall|k: int, id: nat|
        #![trigger wants(worlds[k], id, session_id)]
        0 <= k <= i + 1 && wants(worlds[k], id, session_id)
            && worlds[k].requesters[id].step is Exchange implies match after {
        Phase::Stale => false,
        Phase::Exchanging { owner } => id == owner,
        Phase::Exchanged { owner, event } => id == owner,
        Phase::Renewed { owner, event } => id == owner,
    } by {
        if k == i + 1 {
            assert(wants(worlds[i + 1], id, session_id));
        }
    }
    assert forall|k: int|
        0 <= k < i + 1 && #[trigger] is_exchange_for(
            worlds,
            events,
            k,
            session_id,
        ) implies match after {
        Phase::Stale => false,
        Phase::Exchanging { owner } => false,
        Phase::Exchanged { owner, event } => k == event,
        Phase::Renewed { owner, event } => k == event,
    } by {
        if k == i {
            assert(turn);
        }
    }
    match after {
        Phase::Stale => {},
        Phase::Exchanging { owner } => {
            if !(turn && mover == owner) {
                assert(wants(worlds[i], owner, session_id));
            }
        },
        Phase::Exchanged { owner, event } => {
            if event == i {
                assert(is_exchange_for(worlds, events, i, session_id));
            }
            if !(turn && mover == owner) {
                assert(wants(worlds[i], owner, session_id));
            }
        },
        Phase::Renewed { owner, event } => {},
    }
}

proof fn phase_at(
    worlds: Seq<World>,
    events: Seq<WorldEvent>,
    ttl: u128,
    session_id: Seq<char>,
    stale: SessionView,
    i: int,
) -> (phase: Phase)
    requires
        is_record(worlds, events, ttl),
        refresh_succeeds(worlds, events, ttl, session_id, stale),
        0 <= i < worlds.len(),
    ensures
        in_phase(worlds, events, session_id, stale, i, phase),
    decreases i,
{
    if i == 0 {
        Phase::Stale
    } else {
        let before = phase_at(worlds, events, ttl, session_id, stale, i - 1);
        let after = next_phase(worlds, events, session_id, i - 1, before);
        steps_go_on(worlds, events, ttl, session_id, stale, i - 1, before);
        exchanges_go_on(worlds, events, ttl, session_id, stale, i - 1, before);
        store_goes_on(worlds, events, ttl, session_id, stale, i - 1, before);
        if is_turn_for(worlds, events, i - 1, session_id) {
            mover_goes_on(worlds, events, ttl, session_id, stale, i - 1, before);
            assert(wants(worlds[i - 1], events[i - 1]->Turn_id, session_id));
        }
        after
    }
}

/// Overlapping requests refresh once: where the refresh of a session succeeds, one request at most
/// ever comes to the exchange of its refresh token, however many want the token and however their
/// steps interleave.
pub proof fn one_request_exchanges(
    worlds: Seq<World>,
    events: Seq<WorldEvent>,
    ttl: u128,
    session_id: Seq<char>,
    stale: SessionView,
    i: int,
    one: nat,
    j: int,
    other: nat,
)
    requires
        is_record(worlds, events, ttl),
        refresh_succeeds(worlds, events, ttl, session_id, stale),
        0 <= i < worlds.len(),
        0 <= j < worlds.len(),
        wants(worlds[i], one, session_id),
        wants(worlds[j], other, session_id),
        worlds[i].requesters[one].step is Exchange,
        worlds[j].requesters[other].step is Exchange,
    ensures
        one == other,
{
    let last = worlds.len() - 1;
    let phase = phase_at(worlds, events, ttl, session_id, stale, last);
}

/// Overlapping requests refresh once: where the refresh of a session succeeds, its refresh token is
/// exchanged once at most.
pub proof fn one_exchange(
    worlds: Seq<World>,
    events: Seq<WorldEvent>,
    ttl: u128,
    session_id: Seq<char>,
    stale: SessionView,
    i: int,
    j: int,
)
    requires
        is_record(worlds, events, ttl),
        refresh_succeeds(worlds, events, ttl, session_id, stale),
        0 <= i < events.len(),
        0 <= j < events.len(),
        is_exchange_for(worlds, events, i, session_id),
        is_exchange_for(worlds, events, j, session_id),
    ensures
        i == j,
{
    let last = worlds.len() - 1;
    let phase = phase_at(worlds, events, ttl, session_id, stale, last);
}

/// Overlapping requests share what one of them got: where the refresh of a session succeeds, every
/// request that has ended has ended with the token of an exchange that was made before, be it its
/// own or that of another.
pub proof fn all_get_the_token(
    worlds: Seq<World>,
    events: Seq<WorldEvent>,
    ttl: u128,
    session_id: Seq<char>,
    stale: SessionView,
    i: int,
    id: nat,
)
    requires
        is_record(worlds, events, ttl),
        refresh_succeeds(worlds, events, ttl, session_id, stale),
        0 <= i < worlds.len(),
        wants(worlds[i], id, session_id),
        worlds[i].requesters[id].step is Finished,
    ensures
        exists|j: int|
            0 <= j < i && #[trigger] is_exchange_for(worlds, events, j, session_id)
                && worlds[i].requesters[id].step == StepView::Finished(
                ResolutionView::Ready(renewed_session(worlds, events, j).access_token),
            ),
{
    let phase = phase_at(worlds, events, ttl, session_id, stale, i);
    match phase {
        Phase::Renewed { owner, event } => {
            assert(is_exchange_for(worlds, events, event, session_id));
        },
        _ => {},
    }
}

} // verus!
