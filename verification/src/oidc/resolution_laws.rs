//! What holds of every resolution of an access token, from its first step to its last.
use super::refresh::{
    advanced, after_exchange, after_initial_read, after_lock_attempt, after_lock_release,
    after_metadata, after_owned_read, after_rejected_refresh, after_update, after_wait,
    first_lock_attempt, lookup_view, refreshed_expiry, resolution_start, sufficiently_valid,
    AccessTokenResolution, Attempt, AttemptView, ExchangeReply, RefreshNeed, ResolutionStep,
    ExchangeReplyView, NeedView, ResolutionView, StepView, OIDC_REQUEST_TIMEOUT_SECONDS,
    REFRESH_LOCK_LEASE, REFRESH_LOCK_LEASE_SECONDS, REFRESH_OPERATION_BOUND_SECONDS,
    REFRESH_WAIT_INITIAL_DELAY, REFRESH_WAIT_MARGIN_SECONDS, REFRESH_WAIT_MAX_DELAY,
    REFRESH_WAIT_TIMEOUT,
};
use crate::session::store::elapsed;
use crate::session::{text_view, AuthenticatedSession, RefreshOwnedMutation, SessionView};
use vstd::prelude::*;

verus! {

/// What came back from the work that a step asks for.
pub enum ReplyView {
    /// From a session look-up.
    Session(Result<Option<SessionView>, ()>),
    /// From drawing an owner id.
    Owner(Seq<char>),
    /// From a try for the lock, or from its release.
    Lock(Result<bool, ()>),
    /// Whether the provider's metadata are to be had.
    Metadata(bool),
    /// From the exchange of a refresh token.
    Exchange(ExchangeReplyView),
    /// From a write or an invalidation.
    Mutation(Result<RefreshOwnedMutation, ()>),
}

/// Whether a reply is of the kind that a step waits for.
pub open spec fn fits(step: StepView, reply: ReplyView) -> bool {
    match step {
        StepView::ReadSession { .. } => reply is Session,
        StepView::NeedOwnership { .. } => reply is Owner,
        StepView::AcquireLock { .. } => reply is Lock,
        StepView::Wait { .. } => reply is Session,
        StepView::ReadOwned { .. } => reply is Session,
        StepView::ResolveMetadata { .. } => reply is Metadata,
        StepView::Exchange { .. } => reply is Exchange,
        StepView::Update { .. } => reply is Mutation,
        StepView::Invalidate { .. } => reply is Mutation,
        StepView::Release { .. } => reply is Lock,
        StepView::Finished(_) => false,
    }
}

/// The step that follows a reply at an instant: what the `answer` method of the step gives.
pub open spec fn next(step: StepView, reply: ReplyView, instant: u128) -> StepView
    recommends
        fits(step, reply),
{
    match step {
        StepView::ReadSession { session_id, now } => after_initial_read(
            session_id,
            now,
            reply->Session_0,
        ),
        StepView::NeedOwnership { session_id, now } => first_lock_attempt(
            session_id,
            reply->Owner_0,
            now,
            instant,
        ),
        StepView::AcquireLock { attempt, effective_now, wait_delay } => after_lock_attempt(
            attempt,
            effective_now,
            wait_delay,
            reply->Lock_0,
            instant,
        ),
        StepView::Wait { attempt, pause, wait_delay } => after_wait(
            attempt,
            wait_delay,
            reply->Session_0,
            instant,
        ),
        StepView::ReadOwned { attempt, effective_now } => after_owned_read(
            attempt,
            effective_now,
            reply->Session_0,
            instant,
        ),
        StepView::ResolveMetadata { need } => after_metadata(need, reply->Metadata_0),
        StepView::Exchange { need } => after_exchange(need, reply->Exchange_0, instant),
        StepView::Update { attempt, refreshed } => after_update(
            attempt,
            refreshed,
            reply->Mutation_0,
        ),
        StepView::Invalidate { attempt } => after_rejected_refresh(attempt, reply->Mutation_0),
        StepView::Release { attempt, result } => after_lock_release(result, reply->Lock_0),
        StepView::Finished(result) => step,
    }
}

/// A step and the reply that it got.
pub struct Turn {
    pub step: StepView,
    pub reply: ReplyView,
    pub instant: u128,
}

/// Whether the turns are the beginning of a resolution for a session at a Unix time.
pub open spec fn is_run(turns: Seq<Turn>, session_id: Seq<char>, now: u64) -> bool {
    &&& turns.len() > 0
    &&& turns[0].step == (StepView::ReadSession { session_id, now })
    &&& forall|i: int| 0 <= i < turns.len() ==> fits((#[trigger] turns[i]).step, turns[i].reply)
    &&& forall|i: int|
        0 < i < turns.len() ==> (#[trigger] turns[i]).step == next(
            turns[i - 1].step,
            turns[i - 1].reply,
            turns[i - 1].instant,
        )
}

/// The step after `count` turns.
pub open spec fn step_after(turns: Seq<Turn>, count: int) -> StepView {
    if count == 0 {
        turns[0].step
    } else {
        next(turns[count - 1].step, turns[count - 1].reply, turns[count - 1].instant)
    }
}

/// The step that a run has reached.
pub open spec fn reached(turns: Seq<Turn>) -> StepView {
    step_after(turns, turns.len() as int)
}

/// How far a step lies from the beginning.
spec fn rank(step: StepView) -> int {
    match step {
        StepView::ReadSession { .. } => 0,
        StepView::NeedOwnership { .. } => 1,
        StepView::AcquireLock { .. } => 2,
        StepView::Wait { .. } => 2,
        StepView::ReadOwned { .. } => 3,
        StepView::ResolveMetadata { .. } => 4,
        StepView::Exchange { .. } => 5,
        StepView::Update { .. } => 6,
        StepView::Invalidate { .. } => 6,
        StepView::Release { .. } => 7,
        StepView::Finished(_) => 8,
    }
}

proof fn rank_grows(turns: Seq<Turn>, session_id: Seq<char>, now: u64, i: int, j: int)
    requires
        is_run(turns, session_id, now),
        0 <= i < j <= turns.len(),
    ensures
        rank(turns[i].step) <= rank(step_after(turns, j)),
        !(turns[i].step is AcquireLock || turns[i].step is Wait) ==> rank(turns[i].step) < rank(
            step_after(turns, j),
        ),
    decreases j - i,
{
    if j > i + 1 {
        rank_grows(turns, session_id, now, i, j - 1);
        assert(turns[j - 1].step == step_after(turns, j - 1));
    }
    assert(fits(turns[j - 1].step, turns[j - 1].reply));
}

/// A resolution exchanges a refresh token at most once.
pub proof fn at_most_one_exchange(
    turns: Seq<Turn>,
    session_id: Seq<char>,
    now: u64,
    i: int,
    j: int,
)
    requires
        is_run(turns, session_id, now),
        0 <= i < turns.len(),
        0 <= j < turns.len(),
        turns[i].step is Exchange,
        turns[j].step is Exchange,
    ensures
        i == j,
{
    if i < j {
        rank_grows(turns, session_id, now, i, j);
    }
    if j < i {
        rank_grows(turns, session_id, now, j, i);
    }
}

/// Whether a turn takes the refresh lock for the attempt.
pub open spec fn takes_lock(turn: Turn, attempt: AttemptView) -> bool {
    &&& turn.step matches StepView::AcquireLock { attempt: a, .. } && a == attempt
    &&& turn.reply == ReplyView::Lock(Ok(true))
}

/// Whether one of the first `count` turns takes the refresh lock for the attempt.
pub open spec fn lock_was_taken(turns: Seq<Turn>, count: int, attempt: AttemptView) -> bool {
    exists|i: int| 0 <= i < count && takes_lock(#[trigger] turns[i], attempt)
}

/// Whether a turn reads a session that holds the token, at a time at which the token is valid for
/// longer than the refresh skew.
pub open spec fn reads_valid_token(turn: Turn, token: Seq<char>) -> bool {
    &&& turn.reply matches ReplyView::Session(Ok(Some(session))) && session.access_token == token
        && match turn.step {
        StepView::ReadSession { now, .. } => sufficiently_valid(
            session.access_token_expires_at,
            now,
        ),
        StepView::Wait { attempt, .. } => sufficiently_valid(
            session.access_token_expires_at,
            advanced(attempt.now, attempt.started_at, turn.instant),
        ),
        StepView::ReadOwned { effective_now, .. } => sufficiently_valid(
            session.access_token_expires_at,
            effective_now,
        ),
        _ => false,
    }
}

/// Whether a turn wrote a session with the token to the store.
pub open spec fn writes_token(turn: Turn, token: Seq<char>) -> bool {
    &&& turn.step matches StepView::Update { refreshed, .. } && refreshed.access_token == token
    &&& turn.reply == ReplyView::Mutation(Ok(RefreshOwnedMutation::Applied))
}

/// Whether one of the first `count` turns read or wrote the token in the store.
pub open spec fn token_is_stored(turns: Seq<Turn>, count: int, token: Seq<char>) -> bool {
    exists|i: int|
        0 <= i < count && (reads_valid_token(#[trigger] turns[i], token) || writes_token(
            turns[i],
            token,
        ))
}

/// Whether one of the first `count` turns was the exchange of the need.
pub open spec fn exchanged(turns: Seq<Turn>, count: int, attempt: AttemptView) -> bool {
    exists|i: int|
        0 <= i < count && (#[trigger] turns[i]).step is Exchange
            && turns[i].step->Exchange_need.attempt == attempt
}

/// The attempt of a step that has one.
pub open spec fn attempt_of(step: StepView) -> Option<AttemptView> {
    match step {
        StepView::AcquireLock { attempt, .. } => Some(attempt),
        StepView::Wait { attempt, .. } => Some(attempt),
        StepView::ReadOwned { attempt, .. } => Some(attempt),
        StepView::ResolveMetadata { need } => Some(need.attempt),
        StepView::Exchange { need } => Some(need.attempt),
        StepView::Update { attempt, .. } => Some(attempt),
        StepView::Invalidate { attempt } => Some(attempt),
        StepView::Release { attempt, .. } => Some(attempt),
        _ => None,
    }
}

/// Whether a step is one that only the owner of the refresh lock takes.
pub open spec fn is_owner_step(step: StepView) -> bool {
    ||| step is ReadOwned
    ||| step is ResolveMetadata
    ||| step is Exchange
    ||| step is Update
    ||| step is Invalidate
    ||| step is Release
}

/// What the first `count` turns guarantee of the step after them.
spec fn backed(turns: Seq<Turn>, session_id: Seq<char>, now: u64, count: int) -> bool {
    let step = step_after(turns, count);
    &&& attempt_of(step) matches Some(attempt) ==> attempt.session_id == session_id && attempt.now
        == now
    &&& is_owner_step(step) ==> lock_was_taken(turns, count, attempt_of(step)->Some_0)
    &&& step matches StepView::NeedOwnership { session_id: id, now: t } ==> id == session_id && t
        == now
    &&& step matches StepView::Release { result: ResolutionView::Ready(token), .. }
        ==> token_is_stored(turns, count, token)
    &&& step matches StepView::Finished(ResolutionView::Ready(token)) ==> token_is_stored(
        turns,
        count,
        token,
    )
}

proof fn every_step_is_backed(turns: Seq<Turn>, session_id: Seq<char>, now: u64, count: int)
    requires
        is_run(turns, session_id, now),
        0 <= count <= turns.len(),
    ensures
        backed(turns, session_id, now, count),
    decreases count,
{
    if count > 0 {
        every_step_is_backed(turns, session_id, now, count - 1);
        let turn = turns[count - 1];
        let before = step_after(turns, count - 1);
        let step = step_after(turns, count);
        assert(turn.step == before);
        assert(fits(turn.step, turn.reply));
        if is_owner_step(step) {
            let attempt = attempt_of(step)->Some_0;
            if is_owner_step(before) {
                let i = choose|i: int| 0 <= i < count - 1 && takes_lock(#[trigger] turns[i], attempt);
                assert(takes_lock(turns[i], attempt));
            } else {
                assert(takes_lock(turns[count - 1], attempt));
            }
        }
        let token = match step {
            StepView::Release { result: ResolutionView::Ready(token), .. } => Some(token),
            StepView::Finished(ResolutionView::Ready(token)) => Some(token),
            _ => None,
        };
        if token is Some {
            let token = token->Some_0;
            if before is Release {
                let i = choose|i: int|
                    0 <= i < count - 1 && (reads_valid_token(#[trigger] turns[i], token)
                        || writes_token(turns[i], token));
                assert(reads_valid_token(turns[i], token) || writes_token(turns[i], token));
            } else if before is Update {
                assert(writes_token(turns[count - 1], token));
            } else {
                assert(reads_valid_token(turns[count - 1], token));
            }
        }
    }
}

/// Every step that only an owner may take, the exchange among them, comes after the refresh lock
/// was taken for the very session and owner that the step names; and the session is the one whose
/// token was asked for.
pub proof fn owner_steps_follow_the_lock(
    turns: Seq<Turn>,
    session_id: Seq<char>,
    now: u64,
    i: int,
)
    requires
        is_run(turns, session_id, now),
        0 <= i < turns.len(),
        is_owner_step(turns[i].step),
    ensures
        attempt_of(turns[i].step) is Some,
        attempt_of(turns[i].step)->Some_0.session_id == session_id,
        lock_was_taken(turns, i, attempt_of(turns[i].step)->Some_0),
{
    every_step_is_backed(turns, session_id, now, i);
    assert(turns[i].step == step_after(turns, i));
}

/// An access token is handed out only if the store holds it: it was read from the store while
/// valid for longer than the refresh skew, or the write of the refreshed session took effect.
pub proof fn ready_token_is_stored(
    turns: Seq<Turn>,
    session_id: Seq<char>,
    now: u64,
    token: Seq<char>,
)
    requires
        is_run(turns, session_id, now),
        reached(turns) == StepView::Finished(ResolutionView::Ready(token)),
    ensures
        token_is_stored(turns, turns.len() as int, token),
{
    every_step_is_backed(turns, session_id, now, turns.len() as int);
}

proof fn owner_goes_on(step: StepView, reply: ReplyView, instant: u128, attempt: AttemptView)
    requires
        fits(step, reply),
        is_owner_step(step),
        attempt_of(step) == Some(attempt),
    ensures
        ({
            let after = next(step, reply, instant);
            ||| is_owner_step(after) && attempt_of(after) == Some(attempt)
            ||| after is Finished && step is Release
        }),
{
}

proof fn owner_stays_until_release(
    turns: Seq<Turn>,
    session_id: Seq<char>,
    now: u64,
    i: int,
    attempt: AttemptView,
    count: int,
)
    requires
        is_run(turns, session_id, now),
        0 <= i < count <= turns.len(),
        takes_lock(turns[i], attempt),
    ensures
        ({
            let step = step_after(turns, count);
            ||| is_owner_step(step) && attempt_of(step) == Some(attempt)
            ||| step is Finished && count >= 1 && turns[count - 1].step is Release && attempt_of(
                turns[count - 1].step,
            ) == Some(attempt)
        }),
    decreases count,
{
    if count > i + 1 {
        owner_stays_until_release(turns, session_id, now, i, attempt, count - 1);
        let turn = turns[count - 1];
        assert(turn.step == step_after(turns, count - 1));
        assert(fits(turn.step, turn.reply));
        owner_goes_on(turn.step, turn.reply, turn.instant, attempt);
    }
}

/// Who took the refresh lock ends only after trying to give it back.
pub proof fn owner_releases_before_finishing(
    turns: Seq<Turn>,
    session_id: Seq<char>,
    now: u64,
    i: int,
    attempt: AttemptView,
)
    requires
        is_run(turns, session_id, now),
        0 <= i < turns.len(),
        takes_lock(turns[i], attempt),
        reached(turns) is Finished,
    ensures
        turns.last().step is Release,
        attempt_of(turns.last().step) == Some(attempt),
{
    owner_stays_until_release(turns, session_id, now, i, attempt, turns.len() as int);
}

/// A session whose access token is valid for longer than the refresh skew is answered from the
/// first read: no lock is tried and the provider is not asked.
pub proof fn valid_token_is_reused(
    turns: Seq<Turn>,
    session_id: Seq<char>,
    now: u64,
    session: SessionView,
)
    requires
        is_run(turns, session_id, now),
        turns[0].reply == ReplyView::Session(Ok(Some(session))),
        sufficiently_valid(session.access_token_expires_at, now),
    ensures
        turns.len() == 1,
        reached(turns) == StepView::Finished(ResolutionView::Ready(session.access_token)),
{
    if turns.len() > 1 {
        assert(fits(turns[1].step, turns[1].reply));
        assert(turns[1].step == next(turns[0].step, turns[0].reply, turns[0].instant));
    }
}

/// A session that needs a refresh and has no refresh token asks for a new sign-in: no lock is
/// tried and the provider is not asked.
pub proof fn missing_refresh_token_ends_at_once(
    turns: Seq<Turn>,
    session_id: Seq<char>,
    now: u64,
    session: SessionView,
)
    requires
        is_run(turns, session_id, now),
        turns[0].reply == ReplyView::Session(Ok(Some(session))),
        !sufficiently_valid(session.access_token_expires_at, now),
        session.refresh_token is None,
    ensures
        turns.len() == 1,
        reached(turns) == StepView::Finished(ResolutionView::ReauthenticationRequired),
{
    if turns.len() > 1 {
        assert(fits(turns[1].step, turns[1].reply));
        assert(turns[1].step == next(turns[0].step, turns[0].reply, turns[0].instant));
    }
}

/// A session is ended only after the provider refused its refresh token for good.
pub proof fn only_refused_grants_end_sessions(
    turns: Seq<Turn>,
    session_id: Seq<char>,
    now: u64,
    i: int,
)
    requires
        is_run(turns, session_id, now),
        0 <= i < turns.len(),
        turns[i].step is Invalidate,
    ensures
        i > 0,
        turns[i - 1].step is Exchange,
        turns[i - 1].reply == ReplyView::Exchange(ExchangeReplyView::InvalidGrant),
{
    assert(fits(turns[i - 1].step, turns[i - 1].reply));
}

/// A refused grant leads to the end of the session, and no token is handed out.
pub proof fn refused_grant_ends_session(need: NeedView, reply: Result<RefreshOwnedMutation, ()>, instant: u128)
    ensures
        next(
            StepView::Exchange { need },
            ReplyView::Exchange(ExchangeReplyView::InvalidGrant),
            instant,
        ) == (StepView::Invalidate { attempt: need.attempt }),
        next(StepView::Invalidate { attempt: need.attempt }, ReplyView::Mutation(reply), instant)
            matches StepView::Release { result, .. } && !(result is Ready),
{
}

/// Whether a reply is the failure of the store.
pub open spec fn is_store_failure(reply: ReplyView) -> bool {
    match reply {
        ReplyView::Session(found) => found is Err,
        ReplyView::Lock(held) => held is Err,
        ReplyView::Mutation(mutation) => mutation is Err,
        _ => false,
    }
}

/// Whether a reply is the failure of the provider for another reason than a refused grant.
pub open spec fn is_provider_failure(reply: ReplyView) -> bool {
    match reply {
        ReplyView::Metadata(available) => !available,
        ReplyView::Exchange(exchange) => exchange is Failed,
        _ => false,
    }
}

/// Whether a resolution has failed for now, or will once the lock is given back.
spec fn has_failed(step: StepView) -> bool {
    ||| step == StepView::Finished(ResolutionView::TemporarilyUnavailable)
    ||| step matches StepView::Release { result, .. } && result
        == ResolutionView::TemporarilyUnavailable
}

proof fn failure_stays(turns: Seq<Turn>, session_id: Seq<char>, now: u64, i: int, count: int)
    requires
        is_run(turns, session_id, now),
        0 <= i < count <= turns.len(),
        is_store_failure(turns[i].reply) || is_provider_failure(turns[i].reply),
    ensures
        has_failed(step_after(turns, count)),
    decreases count,
{
    if count > i + 1 {
        failure_stays(turns, session_id, now, i, count - 1);
        assert(turns[count - 1].step == step_after(turns, count - 1));
    }
    assert(fits(turns[count - 1].step, turns[count - 1].reply));
}

/// Failures of the store and of the provider fail closed: from then on no token is handed out, no
/// session is written or ended, and the resolution ends as temporarily unavailable.
pub proof fn failures_fail_closed(
    turns: Seq<Turn>,
    session_id: Seq<char>,
    now: u64,
    i: int,
)
    requires
        is_run(turns, session_id, now),
        0 <= i < turns.len(),
        is_store_failure(turns[i].reply) || is_provider_failure(turns[i].reply),
    ensures
        reached(turns) is Finished ==> reached(turns) == StepView::Finished(
            ResolutionView::TemporarilyUnavailable,
        ),
        forall|j: int|
            i < j < turns.len() ==> !((#[trigger] turns[j]).step is Update)
                && !(turns[j].step is Invalidate),
{
    failure_stays(turns, session_id, now, i, turns.len() as int);
    assert forall|j: int| i < j < turns.len() implies !((#[trigger] turns[j]).step is Update)
        && !(turns[j].step is Invalidate) by {
        failure_stays(turns, session_id, now, i, j);
        assert(turns[j].step == step_after(turns, j));
    }
}

/// A new refresh token takes the place of the one that was used; where the provider gave none,
/// the one that was used stays. The expiry counts from the arrival of the reply.
pub proof fn refresh_token_rotation(
    need: NeedView,
    access_token: Seq<char>,
    refresh_token: Option<Seq<char>>,
    expires_in: Option<u64>,
    instant: u128,
)
    ensures
        ({
            let tokens = ExchangeReplyView::Tokens { access_token, refresh_token, expires_in };
            let after = next(StepView::Exchange { need }, ReplyView::Exchange(tokens), instant);
            &&& after matches StepView::Update { attempt, refreshed }
            && attempt == need.attempt
            && refreshed.access_token == access_token
            && refreshed.refresh_token == Some(
                if refresh_token is Some {
                    refresh_token->Some_0
                } else {
                    need.refresh_token
                },
            )
            && refreshed.access_token_expires_at == refreshed_expiry(
                advanced(need.effective_now, need.refresh_started_at, instant),
                expires_in,
            )
        }),
{
}

/// Whether the refresh token of the exchange is the one that the owner read from the store.
pub open spec fn exchanges_stored_token(turns: Seq<Turn>, i: int) -> bool {
    &&& i >= 2
    &&& turns[i - 2].step is ReadOwned
    &&& turns[i].step matches StepView::Exchange { need }
    && turns[i - 2].reply matches ReplyView::Session(Ok(Some(session)))
    && session.refresh_token == Some(need.refresh_token)
    && !sufficiently_valid(session.access_token_expires_at, need.effective_now)
}

/// Only the refresh token that the owner of the lock read from the store, from a session whose
/// access token needs a refresh, goes to the provider.
pub proof fn exchange_uses_stored_token(
    turns: Seq<Turn>,
    session_id: Seq<char>,
    now: u64,
    i: int,
)
    requires
        is_run(turns, session_id, now),
        0 <= i < turns.len(),
        turns[i].step is Exchange,
    ensures
        exchanges_stored_token(turns, i),
{
    assert(fits(turns[i - 1].step, turns[i - 1].reply));
    assert(turns[i].step == next(turns[i - 1].step, turns[i - 1].reply, turns[i - 1].instant));
    assert(turns[i - 1].step is ResolveMetadata);
    assert(fits(turns[i - 2].step, turns[i - 2].reply));
    assert(turns[i - 1].step == next(turns[i - 2].step, turns[i - 2].reply, turns[i - 2].instant));
}

/// Whether time passes in a run as clocks and pauses promise: it does not run backwards, and a
/// pause lasts at least as long as it should.
pub open spec fn time_passes(turns: Seq<Turn>) -> bool {
    &&& forall|i: int|
        0 < i < turns.len() ==> turns[i - 1].instant <= (#[trigger] turns[i]).instant
    &&& forall|i: int|
        0 < i < turns.len() ==> ((#[trigger] turns[i]).step matches StepView::Wait { pause, .. }
            ==> turns[i - 1].instant + pause <= turns[i].instant)
}

/// The number of pauses in a run.
pub open spec fn pauses(turns: Seq<Turn>) -> nat
    decreases turns.len(),
{
    if turns.len() == 0 {
        0
    } else {
        pauses(turns.drop_last()) + if turns.last().step is Wait {
            1nat
        } else {
            0
        }
    }
}

spec fn waited(turns: Seq<Turn>, count: int) -> bool {
    let done = pauses(turns.take(count));
    match step_after(turns, count) {
        StepView::ReadSession { .. } => done == 0,
        StepView::NeedOwnership { .. } => done == 0,
        StepView::AcquireLock { attempt, wait_delay, .. } => {
            &&& count > 0
            &&& REFRESH_WAIT_INITIAL_DELAY <= wait_delay
            &&& attempt.started_at <= turns[count - 1].instant
            &&& done * REFRESH_WAIT_INITIAL_DELAY <= turns[count - 1].instant - attempt.started_at
            &&& turns[count - 1].instant - attempt.started_at < REFRESH_WAIT_TIMEOUT
        },
        StepView::Wait { attempt, pause, wait_delay } => {
            &&& count > 0
            &&& REFRESH_WAIT_INITIAL_DELAY <= wait_delay
            &&& attempt.started_at <= turns[count - 1].instant
            &&& done * REFRESH_WAIT_INITIAL_DELAY <= turns[count - 1].instant - attempt.started_at
            &&& turns[count - 1].instant - attempt.started_at < REFRESH_WAIT_TIMEOUT
            &&& pause == wait_delay || turns[count - 1].instant - attempt.started_at + pause
                == REFRESH_WAIT_TIMEOUT
        },
        _ => done * REFRESH_WAIT_INITIAL_DELAY <= REFRESH_WAIT_TIMEOUT,
    }
}

proof fn waiting_adds_up(turns: Seq<Turn>, session_id: Seq<char>, now: u64, count: int)
    requires
        is_run(turns, session_id, now),
        time_passes(turns),
        0 <= count <= turns.len(),
    ensures
        waited(turns, count),
    decreases count,
{
    if count == 0 {
        assert(turns.take(0).len() == 0);
    } else {
        waiting_adds_up(turns, session_id, now, count - 1);
        let turn = turns[count - 1];
        assert(turn.step == step_after(turns, count - 1));
        assert(turns.take(count).drop_last() =~= turns.take(count - 1));
        assert(turns.take(count).last() == turn);
        assert(fits(turn.step, turn.reply));
        if count >= 2 {
            assert(turns[count - 2].instant <= turn.instant);
        }
    }
}

/// A request waits within bounds for the refresh of another: as long as time passes, it makes at
/// most as many pauses as the shortest pause fits into the longest wait.
pub proof fn waiting_is_bounded(turns: Seq<Turn>, session_id: Seq<char>, now: u64)
    requires
        is_run(turns, session_id, now),
        time_passes(turns),
    ensures
        pauses(turns) * REFRESH_WAIT_INITIAL_DELAY <= REFRESH_WAIT_TIMEOUT,
{
    waiting_adds_up(turns, session_id, now, turns.len() as int);
    assert(turns.take(turns.len() as int) =~= turns);
}

/// No pause reaches beyond the end of the wait.
pub proof fn pause_ends_in_time(
    attempt: AttemptView,
    effective_now: u64,
    wait_delay: u128,
    reply: Result<bool, ()>,
    instant: u128,
)
    ensures
        after_lock_attempt(attempt, effective_now, wait_delay, reply, instant) matches StepView::Wait {
            pause,
            ..
        } ==> pause <= wait_delay && elapsed(attempt.started_at, instant) + pause
            <= REFRESH_WAIT_TIMEOUT,
{
}

/// The lease outlives a whole refresh, and a waiting request outlives the lease.
pub proof fn lease_outlives_refresh()
    ensures
        REFRESH_OPERATION_BOUND_SECONDS >= 3 * OIDC_REQUEST_TIMEOUT_SECONDS,
        REFRESH_LOCK_LEASE_SECONDS > REFRESH_OPERATION_BOUND_SECONDS,
        REFRESH_LOCK_LEASE == REFRESH_LOCK_LEASE_SECONDS * 1_000_000_000,
        REFRESH_WAIT_TIMEOUT == (REFRESH_LOCK_LEASE_SECONDS + REFRESH_WAIT_MARGIN_SECONDS)
            * 1_000_000_000,
        REFRESH_WAIT_TIMEOUT > REFRESH_LOCK_LEASE,
        REFRESH_WAIT_INITIAL_DELAY <= REFRESH_WAIT_MAX_DELAY,
{
}

/// An access token may be used without a refresh exactly if it ends more than thirty seconds from
/// now, or if its end is not known. So a token that has ended may not; and one that needs a refresh
/// needs one at every later time.
pub proof fn tokens_are_used_until_the_skew(end: u64, now: u64, later: u64)
    ensures
        sufficiently_valid(Some(end), now) <==> end > now + 30,
        sufficiently_valid(None, now),
        end <= now ==> !sufficiently_valid(Some(end), now),
        now <= later && !sufficiently_valid(Some(end), now) ==> !sufficiently_valid(
            Some(end),
            later,
        ),
{
}

/// Unix time goes on by the whole seconds that pass on the monotonic clock, and stands still at the
/// largest number.
pub proof fn unix_time_goes_on(now: u64, from: u128, to: u128)
    ensures
        to <= from ==> advanced(now, from, to) == now,
        from <= to && now + (to - from) / 1_000_000_000 <= 0xffff_ffff_ffff_ffff ==> advanced(
            now,
            from,
            to,
        ) == now + (to - from) / 1_000_000_000,
        from <= to && now + (to - from) / 1_000_000_000 > 0xffff_ffff_ffff_ffff ==> advanced(
            now,
            from,
            to,
        ) == 0xffff_ffff_ffff_ffff,
{
}

/// A refreshed token ends its lifetime after the reply came; without a lifetime, or where the sum
/// does not fit into 64 bits, its end is not known.
pub proof fn refreshed_tokens_end(now: u64, lifetime: u64)
    ensures
        refreshed_expiry(now, None) is None,
        now + lifetime <= 0xffff_ffff_ffff_ffff ==> refreshed_expiry(now, Some(lifetime)) == Some(
            (now + lifetime) as u64,
        ),
        now + lifetime > 0xffff_ffff_ffff_ffff ==> refreshed_expiry(now, Some(lifetime)) is None,
{
}

/// The outcome of a resolution that has ended, or that only has to give the lock back.
pub open spec fn outcome_at(step: StepView) -> Option<ResolutionView> {
    match step {
        StepView::Release { result, .. } => Some(result),
        StepView::Finished(result) => Some(result),
        _ => None,
    }
}

/// What reading a session decides, by the Unix time at which it is judged: the access token is
/// handed out exactly if its end is not known or lies more than thirty seconds ahead. Else it is
/// not handed out: without a refresh token the browser has to sign in again, and with one the
/// resolution goes on. Without a session the browser has to sign in again, and where the store
/// cannot tell, nothing can be said.
pub proof fn reading_decides(step: StepView, session: SessionView, time: u64, instant: u128)
    requires
        match step {
            StepView::ReadSession { now, .. } => time == now,
            StepView::ReadOwned { effective_now, .. } => time == effective_now,
            StepView::Wait { attempt, .. } => attempt.started_at <= instant && time == attempt.now + (
            instant - attempt.started_at) / 1_000_000_000 && instant - attempt.started_at
                < 65_000_000_000,
            _ => false,
        },
    ensures
        ({
            let after = next(step, ReplyView::Session(Ok(Some(session))), instant);
            let usable = match session.access_token_expires_at {
                None => true,
                Some(end) => end > time + 30,
            };
            &&& usable ==> outcome_at(after) == Some(ResolutionView::Ready(session.access_token))
            &&& !usable && session.refresh_token is None ==> outcome_at(after) == Some(
                ResolutionView::ReauthenticationRequired,
            )
            &&& !usable && session.refresh_token is Some ==> outcome_at(after) is None
            &&& !usable && session.refresh_token is Some ==> match step {
                StepView::ReadSession { session_id, now } => after == (StepView::NeedOwnership {
                    session_id,
                    now,
                }),
                StepView::ReadOwned { attempt, effective_now } => after
                    == (StepView::ResolveMetadata {
                    need: NeedView {
                        attempt,
                        effective_now,
                        refresh_started_at: instant,
                        refresh_token: session.refresh_token->Some_0,
                    },
                }),
                StepView::Wait { attempt, wait_delay, .. } => after == (StepView::AcquireLock {
                    attempt,
                    effective_now: time,
                    wait_delay: if 2 * wait_delay < 500_000_000 {
                        (2 * wait_delay) as u128
                    } else {
                        500_000_000
                    },
                }),
                _ => false,
            }
        }),
        outcome_at(next(step, ReplyView::Session(Ok(None)), instant)) == Some(
            ResolutionView::ReauthenticationRequired,
        ),
        outcome_at(next(step, ReplyView::Session(Err(())), instant)) == Some(
            ResolutionView::TemporarilyUnavailable,
        ),
{
}

/// A token that has ended is never handed out by whoever reads it from the store, whatever the
/// time by which it is judged is made of.
pub proof fn ended_token_is_not_handed_out(
    step: StepView,
    session: SessionView,
    end: u64,
    instant: u128,
)
    requires
        session.access_token_expires_at == Some(end),
        match step {
            StepView::ReadSession { now, .. } => end <= now,
            StepView::ReadOwned { effective_now, .. } => end <= effective_now,
            StepView::Wait { attempt, .. } => end <= attempt.now,
            _ => false,
        },
    ensures
        outcome_at(next(step, ReplyView::Session(Ok(Some(session))), instant)) is None || !(
        outcome_at(next(step, ReplyView::Session(Ok(Some(session))), instant))->Some_0 is Ready),
{
}

/// Competing for the lock: a request takes part under the owner id that it drew, from the moment it
/// drew it, with a first pause of 25 milliseconds. Whoever gets the lock goes on as its owner, with
/// the time at which it tried; whoever does not pauses, for as long as it is its turn to but not
/// beyond 65 seconds from the beginning, and then gives up.
pub proof fn competing_for_the_lock(
    session_id: Seq<char>,
    owner_id: Seq<char>,
    now: u64,
    attempt: AttemptView,
    effective_now: u64,
    wait_delay: u128,
    instant: u128,
)
    ensures
        next(StepView::NeedOwnership { session_id, now }, ReplyView::Owner(owner_id), instant) == (
        StepView::AcquireLock {
            attempt: AttemptView { session_id, owner_id, now, started_at: instant },
            effective_now: now,
            wait_delay: 25_000_000,
        }),
        next(
            StepView::AcquireLock { attempt, effective_now, wait_delay },
            ReplyView::Lock(Ok(true)),
            instant,
        ) == (StepView::ReadOwned { attempt, effective_now }),
        attempt.started_at <= instant && instant - attempt.started_at < 65_000_000_000 ==> next(
            StepView::AcquireLock { attempt, effective_now, wait_delay },
            ReplyView::Lock(Ok(false)),
            instant,
        ) == (StepView::Wait {
            attempt,
            pause: if wait_delay <= 65_000_000_000 - (instant - attempt.started_at) {
                wait_delay
            } else {
                (65_000_000_000 - (instant - attempt.started_at)) as u128
            },
            wait_delay,
        }),
        attempt.started_at + 65_000_000_000 <= instant ==> next(
            StepView::AcquireLock { attempt, effective_now, wait_delay },
            ReplyView::Lock(Ok(false)),
            instant,
        ) == StepView::Finished(ResolutionView::TemporarilyUnavailable),
        next(
            StepView::AcquireLock { attempt, effective_now, wait_delay },
            ReplyView::Lock(Err(())),
            instant,
        ) == StepView::Finished(ResolutionView::TemporarilyUnavailable),
{
}

/// A refresh under the lock: what the owner read is what is exchanged, what the provider issued is
/// what is written, and only what was written is handed out; and only if the lock was still held in
/// the end.
pub proof fn refreshing_under_the_lock(
    need: NeedView,
    attempt: AttemptView,
    refreshed: SessionView,
    result: ResolutionView,
    instant: u128,
)
    ensures
        next(StepView::ResolveMetadata { need }, ReplyView::Metadata(true), instant) == (
        StepView::Exchange { need }),
        next(StepView::ResolveMetadata { need }, ReplyView::Metadata(false), instant) == (
        StepView::Release { attempt: need.attempt, result: ResolutionView::TemporarilyUnavailable }),
        next(
            StepView::Exchange { need },
            ReplyView::Exchange(ExchangeReplyView::Failed),
            instant,
        ) == (StepView::Release {
            attempt: need.attempt,
            result: ResolutionView::TemporarilyUnavailable,
        }),
        next(
            StepView::Update { attempt, refreshed },
            ReplyView::Mutation(Ok(RefreshOwnedMutation::Applied)),
            instant,
        ) == (StepView::Release { attempt, result: ResolutionView::Ready(refreshed.access_token) }),
        next(
            StepView::Update { attempt, refreshed },
            ReplyView::Mutation(Ok(RefreshOwnedMutation::SessionMissing)),
            instant,
        ) == (StepView::Release { attempt, result: ResolutionView::ReauthenticationRequired }),
        next(
            StepView::Update { attempt, refreshed },
            ReplyView::Mutation(Ok(RefreshOwnedMutation::OwnershipLost)),
            instant,
        ) == (StepView::Release { attempt, result: ResolutionView::TemporarilyUnavailable }),
        next(StepView::Update { attempt, refreshed }, ReplyView::Mutation(Err(())), instant) == (
        StepView::Release { attempt, result: ResolutionView::TemporarilyUnavailable }),
        next(
            StepView::Invalidate { attempt },
            ReplyView::Mutation(Ok(RefreshOwnedMutation::Applied)),
            instant,
        ) == (StepView::Release { attempt, result: ResolutionView::ReauthenticationRequired }),
        next(
            StepView::Invalidate { attempt },
            ReplyView::Mutation(Ok(RefreshOwnedMutation::SessionMissing)),
            instant,
        ) == (StepView::Release { attempt, result: ResolutionView::ReauthenticationRequired }),
        next(
            StepView::Invalidate { attempt },
            ReplyView::Mutation(Ok(RefreshOwnedMutation::OwnershipLost)),
            instant,
        ) == (StepView::Release { attempt, result: ResolutionView::TemporarilyUnavailable }),
        next(StepView::Invalidate { attempt }, ReplyView::Mutation(Err(())), instant) == (
        StepView::Release { attempt, result: ResolutionView::TemporarilyUnavailable }),
        next(StepView::Release { attempt, result }, ReplyView::Lock(Ok(true)), instant)
            == StepView::Finished(result),
        next(StepView::Release { attempt, result }, ReplyView::Lock(Ok(false)), instant)
            == StepView::Finished(ResolutionView::TemporarilyUnavailable),
        next(StepView::Release { attempt, result }, ReplyView::Lock(Err(())), instant)
            == StepView::Finished(ResolutionView::TemporarilyUnavailable),
{
}

/// What the provider issues at a refresh, and the expiry in numbers: the new access token, the new
/// refresh token or else the one that was used, and an end that lies the lifetime after the arrival
/// of the reply, counted in whole seconds from the beginning of the refresh.
pub proof fn refreshed_session_in_numbers(
    need: NeedView,
    access_token: Seq<char>,
    refresh_token: Option<Seq<char>>,
    lifetime: Option<u64>,
    instant: u128,
)
    requires
        need.refresh_started_at <= instant,
    ensures
        ({
            let tokens = ExchangeReplyView::Tokens {
                access_token,
                refresh_token,
                expires_in: lifetime,
            };
            let after = next(StepView::Exchange { need }, ReplyView::Exchange(tokens), instant);
            let arrival = need.effective_now + (instant - need.refresh_started_at) / 1_000_000_000;
            &&& after is Update
            &&& after->Update_attempt == need.attempt
            &&& after->Update_refreshed.access_token == access_token
            &&& after->Update_refreshed.refresh_token == match refresh_token {
                Some(rotated) => Some(rotated),
                None => Some(need.refresh_token),
            }
            &&& lifetime is None ==> after->Update_refreshed.access_token_expires_at is None
            &&& lifetime matches Some(seconds) ==> (arrival + seconds <= 0xffff_ffff_ffff_ffff
                ==> after->Update_refreshed.access_token_expires_at == Some(
                (arrival + seconds) as u64,
            ))
        }),
{
}

/// What comes back is seen as it is.
pub proof fn replies_are_seen_as_they_are(
    session: AuthenticatedSession,
    access_token: String,
    refresh_token: Option<String>,
    expires_in: Option<u64>,
)
    ensures
        lookup_view(Ok(Some(session))) == Ok::<Option<SessionView>, ()>(Some(session@)),
        lookup_view(Ok(None)) == Ok::<Option<SessionView>, ()>(None),
        lookup_view(Err(())) is Err,
        (ExchangeReply::Tokens { access_token, refresh_token, expires_in })@ == (
        ExchangeReplyView::Tokens {
            access_token: access_token@,
            refresh_token: text_view(refresh_token),
            expires_in,
        }),
        ExchangeReply::InvalidGrant@ == ExchangeReplyView::InvalidGrant,
        ExchangeReply::Failed@ == ExchangeReplyView::Failed,
        AccessTokenResolution::Ready(access_token)@ == ResolutionView::Ready(access_token@),
        AccessTokenResolution::ReauthenticationRequired@ == ResolutionView::ReauthenticationRequired,
        AccessTokenResolution::TemporarilyUnavailable@ == ResolutionView::TemporarilyUnavailable,
{
}

/// Every step of a resolution is seen as it is.
pub proof fn resolution_is_seen_as_it_is(step: ResolutionStep, attempt: Attempt, need: RefreshNeed)
    ensures
        attempt@.session_id == attempt.session_id@,
        attempt@.owner_id == attempt.owner_id@,
        attempt@.now == attempt.now,
        attempt@.started_at == attempt.started_at,
        need@.attempt == need.attempt@,
        need@.effective_now == need.effective_now,
        need@.refresh_started_at == need.refresh_started_at,
        need@.refresh_token == need.refresh_token@,
        match step {
            ResolutionStep::ReadSession(s) => step@ == (StepView::ReadSession {
                session_id: s.session_id@,
                now: s.now,
            }),
            ResolutionStep::NeedOwnership(s) => step@ == (StepView::NeedOwnership {
                session_id: s.session_id@,
                now: s.now,
            }),
            ResolutionStep::AcquireLock(s) => step@ == (StepView::AcquireLock {
                attempt: s.attempt@,
                effective_now: s.effective_now,
                wait_delay: s.wait_delay,
            }),
            ResolutionStep::Wait(s) => step@ == (StepView::Wait {
                attempt: s.attempt@,
                pause: s.pause,
                wait_delay: s.wait_delay,
            }),
            ResolutionStep::ReadOwned(s) => step@ == (StepView::ReadOwned {
                attempt: s.attempt@,
                effective_now: s.effective_now,
            }),
            ResolutionStep::ResolveMetadata(s) => step@ == (StepView::ResolveMetadata {
                need: s.need@,
            }),
            ResolutionStep::Exchange(s) => step@ == (StepView::Exchange { need: s.need@ }),
            ResolutionStep::Update(s) => step@ == (StepView::Update {
                attempt: s.attempt@,
                refreshed: s.refreshed@,
            }),
            ResolutionStep::Invalidate(s) => step@ == (StepView::Invalidate { attempt: s.attempt@ }),
            ResolutionStep::Release(s) => step@ == (StepView::Release {
                attempt: s.attempt@,
                result: s.result@,
            }),
            ResolutionStep::Finished(result) => step@ == StepView::Finished(result@),
        },
{
}

/// A resolution begins with the reading of the very session, at the time that the clock told; without
/// a time nothing can be said.
pub proof fn resolution_begins_with_reading(session_id: Seq<char>, now: u64)
    ensures
        resolution_start(session_id, Some(now)) == (StepView::ReadSession { session_id, now }),
        resolution_start(session_id, None) == StepView::Finished(
            ResolutionView::TemporarilyUnavailable,
        ),
{
}

} // verus!
