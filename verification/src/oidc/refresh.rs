//! Resolution of a usable access token for a browser session.
//!
//! The resolution is a chain of steps. Each step names one piece of outside work (a store
//! operation, a pause, a request to the provider); its `answer` method takes what came back,
//! together with a reading of the monotonic clock in nanoseconds, and gives the next step.
use crate::random::encodes_bytes;
use crate::session::{
    new_refresh_owner_id, text_view, AuthenticatedSession, RefreshOwnedMutation, SessionView,
};
use crate::session::store::elapsed;
use vstd::prelude::*;

verus! {

/// An access token is refreshed this many seconds before it ends.
pub const ACCESS_TOKEN_REFRESH_SKEW_SECONDS: u64 = 30;

/// Bound on a single request to the provider, in seconds.
pub const OIDC_REQUEST_TIMEOUT_SECONDS: u64 = 15;

/// Requests of a provider discovery: the configuration and the key set.
pub const COLD_PROVIDER_DISCOVERY_HTTP_REQUESTS: u64 = 2;

/// Requests of a refresh-token exchange.
pub const TOKEN_REFRESH_HTTP_REQUESTS: u64 = 1;

/// Requests that a refresh makes at most.
pub const MAX_REFRESH_HTTP_REQUESTS: u64 = COLD_PROVIDER_DISCOVERY_HTTP_REQUESTS
    + TOKEN_REFRESH_HTTP_REQUESTS;

/// Headroom for store operations and scheduling, in seconds.
pub const REFRESH_COORDINATION_MARGIN_SECONDS: u64 = 10;

/// Bound on a whole refresh, in seconds.
pub const REFRESH_OPERATION_BOUND_SECONDS: u64 = OIDC_REQUEST_TIMEOUT_SECONDS
    * MAX_REFRESH_HTTP_REQUESTS + REFRESH_COORDINATION_MARGIN_SECONDS;

/// How much longer than a refresh the lease of its lock runs, in seconds.
pub const REFRESH_LOCK_MARGIN_SECONDS: u64 = 5;

/// Lease of the refresh lock, in seconds.
pub const REFRESH_LOCK_LEASE_SECONDS: u64 = REFRESH_OPERATION_BOUND_SECONDS
    + REFRESH_LOCK_MARGIN_SECONDS;

/// Lease of the refresh lock, in nanoseconds.
pub const REFRESH_LOCK_LEASE: u128 = 60_000_000_000;

/// How much longer than the lease a request waits, in seconds.
pub const REFRESH_WAIT_MARGIN_SECONDS: u64 = 5;

/// How long a request waits for the refresh of another, in nanoseconds.
pub const REFRESH_WAIT_TIMEOUT: u128 = 65_000_000_000;

/// First pause of a waiting request, in nanoseconds.
pub const REFRESH_WAIT_INITIAL_DELAY: u128 = 25_000_000;

/// Longest pause of a waiting request, in nanoseconds.
pub const REFRESH_WAIT_MAX_DELAY: u128 = 500_000_000;

/// What became of a request for an access token.
pub enum AccessTokenResolution {
    /// The access token may be used.
    Ready(String),
    /// The browser has to sign in again.
    ReauthenticationRequired,
    /// The token cannot be told now.
    TemporarilyUnavailable,
}

/// What an [`AccessTokenResolution`] holds.
pub enum ResolutionView {
    Ready(Seq<char>),
    ReauthenticationRequired,
    TemporarilyUnavailable,
}

impl View for AccessTokenResolution {
    type V = ResolutionView;

    open spec fn view(&self) -> ResolutionView {
        match *self {
            AccessTokenResolution::Ready(token) => ResolutionView::Ready(token@),
            AccessTokenResolution::ReauthenticationRequired => {
                ResolutionView::ReauthenticationRequired
            },
            AccessTokenResolution::TemporarilyUnavailable => ResolutionView::TemporarilyUnavailable,
        }
    }
}

/// The sum, held at the largest `u64`.
pub open spec fn saturating_sum(a: u64, b: int) -> u64
    recommends
        b >= 0,
{
    if a + b > u64::MAX {
        u64::MAX
    } else {
        (a + b) as u64
    }
}

/// Whether an access token with this expiry stays valid for longer than the refresh skew. One
/// without a known expiry is kept.
pub open spec fn sufficiently_valid(expires_at: Option<u64>, now: u64) -> bool {
    match expires_at {
        None => true,
        Some(end) => end > saturating_sum(now, ACCESS_TOKEN_REFRESH_SKEW_SECONDS as int),
    }
}

/// Whether the access token of a session can be used without a refresh.
pub fn access_token_is_sufficiently_valid(session: &AuthenticatedSession, now: u64) -> (valid: bool)
    ensures
        valid == sufficiently_valid(session.access_token_expires_at, now),
        valid == match session.access_token_expires_at {
            None => true,
            Some(end) => end > now + 30,
        },
{
    match session.access_token_expires_at {
        None => true,
        Some(end) => end > now.saturating_add(ACCESS_TOKEN_REFRESH_SKEW_SECONDS),
    }
}

/// The expiry of an access token that arrived at `now` and lives for `expires_in` seconds: none
/// where the lifetime is unknown or the sum does not fit.
pub open spec fn refreshed_expiry(now: u64, expires_in: Option<u64>) -> Option<u64> {
    match expires_in {
        Some(seconds) if now + seconds <= u64::MAX => Some((now + seconds) as u64),
        _ => None,
    }
}

/// Expiry of a refreshed access token.
pub fn refreshed_access_token_expiry(now: u64, expires_in: Option<u64>) -> (expiry: Option<u64>)
    ensures
        expiry == refreshed_expiry(now, expires_in),
        expires_in is None ==> expiry is None,
        expires_in matches Some(seconds) ==> match expiry {
            Some(end) => end == now + seconds,
            None => now + seconds > 0xffff_ffff_ffff_ffff,
        },
{
    match expires_in {
        Some(seconds) => now.checked_add(seconds),
        None => None,
    }
}

/// Unix time in seconds after a while: `now` and the whole seconds between the two instants.
pub open spec fn advanced(now: u64, from: u128, to: u128) -> u64 {
    saturating_sum(now, elapsed(from, to) / 1_000_000_000)
}

fn advance(now: u64, from: u128, to: u128) -> (later: u64)
    ensures
        later == advanced(now, from, to),
{
    let seconds: u128 = to.saturating_sub(from) / 1_000_000_000;
    if seconds > u64::MAX as u128 {
        u64::MAX
    } else {
        now.saturating_add(seconds as u64)
    }
}

/// One request for an access token from the moment it competes for the refresh lock.
pub struct Attempt {
    /// Session whose token is wanted.
    pub session_id: String,
    /// Value under which this request holds the refresh lock.
    pub owner_id: String,
    /// Unix time in seconds at which the request came.
    pub now: u64,
    /// Monotonic time at which the wait began.
    pub started_at: u128,
}

/// What an [`Attempt`] holds.
pub struct AttemptView {
    pub session_id: Seq<char>,
    pub owner_id: Seq<char>,
    pub now: u64,
    pub started_at: u128,
}

impl View for Attempt {
    type V = AttemptView;

    open spec fn view(&self) -> AttemptView {
        AttemptView {
            session_id: self.session_id@,
            owner_id: self.owner_id@,
            now: self.now,
            started_at: self.started_at,
        }
    }
}

/// Step: read the session.
pub struct InitialRead {
    pub session_id: String,
    pub now: u64,
}

/// Step: draw an owner id and start waiting for the refresh lock.
pub struct OwnershipNeeded {
    pub session_id: String,
    pub now: u64,
}

/// Step: try to take the refresh lock.
pub struct LockAttempt {
    pub attempt: Attempt,
    /// Unix time in seconds at which the lock is tried.
    pub effective_now: u64,
    /// Pause that follows if the lock is taken.
    pub wait_delay: u128,
}

/// Step: pause, then read the session.
pub struct Waiting {
    pub attempt: Attempt,
    /// Pause to make.
    pub pause: u128,
    pub wait_delay: u128,
}

/// Step: read the session once more, as the owner of the refresh lock.
pub struct OwnedRead {
    pub attempt: Attempt,
    pub effective_now: u64,
}

/// What a refresh needs to know of the session that it refreshes.
pub struct RefreshNeed {
    pub attempt: Attempt,
    pub effective_now: u64,
    /// Monotonic time at which the refresh began.
    pub refresh_started_at: u128,
    pub refresh_token: String,
}

/// Step: get hold of the provider's metadata.
pub struct MetadataNeeded {
    pub need: RefreshNeed,
}

/// Step: exchange the refresh token at the provider.
pub struct ExchangeNeeded {
    pub need: RefreshNeed,
}

/// Step: write the refreshed tokens to the session.
pub struct UpdateNeeded {
    pub attempt: Attempt,
    pub refreshed: AuthenticatedSession,
}

/// Step: end the session.
pub struct InvalidationNeeded {
    pub attempt: Attempt,
}

/// Step: give the refresh lock back.
pub struct ReleaseNeeded {
    pub attempt: Attempt,
    /// Outcome if the lock was still held.
    pub result: AccessTokenResolution,
}

/// What to do next in the resolution of an access token.
pub enum ResolutionStep {
    ReadSession(InitialRead),
    NeedOwnership(OwnershipNeeded),
    AcquireLock(LockAttempt),
    Wait(Waiting),
    ReadOwned(OwnedRead),
    ResolveMetadata(MetadataNeeded),
    Exchange(ExchangeNeeded),
    Update(UpdateNeeded),
    Invalidate(InvalidationNeeded),
    Release(ReleaseNeeded),
    Finished(AccessTokenResolution),
}

/// What a [`RefreshNeed`] holds.
pub struct NeedView {
    pub attempt: AttemptView,
    pub effective_now: u64,
    pub refresh_started_at: u128,
    pub refresh_token: Seq<char>,
}

impl View for RefreshNeed {
    type V = NeedView;

    open spec fn view(&self) -> NeedView {
        NeedView {
            attempt: self.attempt@,
            effective_now: self.effective_now,
            refresh_started_at: self.refresh_started_at,
            refresh_token: self.refresh_token@,
        }
    }
}

/// What a [`ResolutionStep`] holds.
pub enum StepView {
    ReadSession { session_id: Seq<char>, now: u64 },
    NeedOwnership { session_id: Seq<char>, now: u64 },
    AcquireLock { attempt: AttemptView, effective_now: u64, wait_delay: u128 },
    Wait { attempt: AttemptView, pause: u128, wait_delay: u128 },
    ReadOwned { attempt: AttemptView, effective_now: u64 },
    ResolveMetadata { need: NeedView },
    Exchange { need: NeedView },
    Update { attempt: AttemptView, refreshed: SessionView },
    Invalidate { attempt: AttemptView },
    Release { attempt: AttemptView, result: ResolutionView },
    Finished(ResolutionView),
}

impl View for ResolutionStep {
    type V = StepView;

    open spec fn view(&self) -> StepView {
        match *self {
            ResolutionStep::ReadSession(s) => StepView::ReadSession {
                session_id: s.session_id@,
                now: s.now,
            },
            ResolutionStep::NeedOwnership(s) => StepView::NeedOwnership {
                session_id: s.session_id@,
                now: s.now,
            },
            ResolutionStep::AcquireLock(s) => StepView::AcquireLock {
                attempt: s.attempt@,
                effective_now: s.effective_now,
                wait_delay: s.wait_delay,
            },
            ResolutionStep::Wait(s) => StepView::Wait {
                attempt: s.attempt@,
                pause: s.pause,
                wait_delay: s.wait_delay,
            },
            ResolutionStep::ReadOwned(s) => StepView::ReadOwned {
                attempt: s.attempt@,
                effective_now: s.effective_now,
            },
            ResolutionStep::ResolveMetadata(s) => StepView::ResolveMetadata { need: s.need@ },
            ResolutionStep::Exchange(s) => StepView::Exchange { need: s.need@ },
            ResolutionStep::Update(s) => StepView::Update {
                attempt: s.attempt@,
                refreshed: s.refreshed@,
            },
            ResolutionStep::Invalidate(s) => StepView::Invalidate { attempt: s.attempt@ },
            ResolutionStep::Release(s) => StepView::Release {
                attempt: s.attempt@,
                result: s.result@,
            },
            ResolutionStep::Finished(result) => StepView::Finished(result@),
        }
    }
}

/// What a session look-up gave.
pub open spec fn lookup_view(reply: Result<Option<AuthenticatedSession>, ()>) -> Result<
    Option<SessionView>,
    (),
> {
    match reply {
        Ok(Some(session)) => Ok(Some(session@)),
        Ok(None) => Ok(None),
        Err(_) => Err(()),
    }
}

/// What a look-up decides by itself: the outcome where none but the stored session is needed,
/// and otherwise the refresh token with which to go on.
pub open spec fn judged(reply: Result<Option<SessionView>, ()>, now: u64) -> Result<
    Seq<char>,
    ResolutionView,
> {
    match reply {
        Err(_) => Err(ResolutionView::TemporarilyUnavailable),
        Ok(None) => Err(ResolutionView::ReauthenticationRequired),
        Ok(Some(session)) => if sufficiently_valid(session.access_token_expires_at, now) {
            Err(ResolutionView::Ready(session.access_token))
        } else {
            match session.refresh_token {
                None => Err(ResolutionView::ReauthenticationRequired),
                Some(token) => Ok(token),
            }
        },
    }
}

fn judge(reply: Result<Option<AuthenticatedSession>, ()>, now: u64) -> (verdict: Result<
    String,
    AccessTokenResolution,
>)
    ensures
        match verdict {
            Ok(token) => judged(lookup_view(reply), now) == Ok::<Seq<char>, ResolutionView>(
                token@,
            ),
            Err(result) => judged(lookup_view(reply), now) == Err::<Seq<char>, ResolutionView>(
                result@,
            ),
        },
{
    match reply {
        Err(_) => Err(AccessTokenResolution::TemporarilyUnavailable),
        Ok(None) => Err(AccessTokenResolution::ReauthenticationRequired),
        Ok(Some(session)) => {
            if access_token_is_sufficiently_valid(&session, now) {
                Err(AccessTokenResolution::Ready(session.access_token))
            } else {
                match session.refresh_token {
                    None => Err(AccessTokenResolution::ReauthenticationRequired),
                    Some(token) => Ok(token),
                }
            }
        },
    }
}

/// Starts the resolution of the access token of a session at a Unix time in seconds.
pub fn resolve_access_token_at(session_id: &str, now: u64) -> (step: ResolutionStep)
    ensures
        step@ == (StepView::ReadSession { session_id: session_id@, now }),
{
    ResolutionStep::ReadSession(InitialRead { session_id: session_id.to_owned(), now })
}

/// Starts the resolution of the access token of a session at the given Unix time, if the clock
/// could tell one.
pub open spec fn resolution_start(session_id: Seq<char>, clock: Option<u64>) -> StepView {
    match clock {
        Some(now) => StepView::ReadSession { session_id, now },
        None => StepView::Finished(ResolutionView::TemporarilyUnavailable),
    }
}

/// Starts the resolution of the access token of a session on a clock reading.
pub fn resolve_access_token_on_clock(session_id: &str, clock: Option<u64>) -> (step: ResolutionStep)
    ensures
        step@ == resolution_start(session_id@, clock),
{
    match clock {
        Some(now) => resolve_access_token_at(session_id, now),
        None => ResolutionStep::Finished(AccessTokenResolution::TemporarilyUnavailable),
    }
}

/// Starts the resolution of the access token of a session now.
pub fn resolve_access_token(session_id: &str) -> (step: ResolutionStep)
    ensures
        exists|clock: Option<u64>| step@ == #[trigger] resolution_start(session_id@, clock),
{
    resolve_access_token_on_clock(session_id, crate::clock::unix_time_seconds())
}

/// The step after the first read.
pub open spec fn after_initial_read(
    session_id: Seq<char>,
    now: u64,
    reply: Result<Option<SessionView>, ()>,
) -> StepView {
    match judged(reply, now) {
        Ok(_) => StepView::NeedOwnership { session_id, now },
        Err(result) => StepView::Finished(result),
    }
}

impl InitialRead {
    /// Goes on with what the look-up gave.
    pub fn answer(self, reply: Result<Option<AuthenticatedSession>, ()>) -> (step: ResolutionStep)
        ensures
            step@ == after_initial_read(self.session_id@, self.now, lookup_view(reply)),
    {
        match judge(reply, self.now) {
            Ok(_) => ResolutionStep::NeedOwnership(
                OwnershipNeeded { session_id: self.session_id, now: self.now },
            ),
            Err(result) => ResolutionStep::Finished(result),
        }
    }
}

/// The first try for the lock.
pub open spec fn first_lock_attempt(
    session_id: Seq<char>,
    owner_id: Seq<char>,
    now: u64,
    instant: u128,
) -> StepView {
    StepView::AcquireLock {
        attempt: AttemptView { session_id, owner_id, now, started_at: instant },
        effective_now: now,
        wait_delay: REFRESH_WAIT_INITIAL_DELAY,
    }
}

impl OwnershipNeeded {
    /// Competes for the refresh lock under the given owner id.
    pub fn answer(self, owner_id: String, instant: u128) -> (step: ResolutionStep)
        ensures
            step@ == first_lock_attempt(self.session_id@, owner_id@, self.now, instant),
    {
        ResolutionStep::AcquireLock(
            LockAttempt {
                attempt: Attempt {
                    session_id: self.session_id,
                    owner_id,
                    now: self.now,
                    started_at: instant,
                },
                effective_now: self.now,
                wait_delay: REFRESH_WAIT_INITIAL_DELAY,
            },
        )
    }

    /// Competes for the refresh lock under a new owner id.
    pub fn start(self, instant: u128) -> (step: ResolutionStep)
        ensures
            exists|owner_id: Seq<char>|
                encodes_bytes(owner_id, 32) && step@ == #[trigger] first_lock_attempt(
                    self.session_id@,
                    owner_id,
                    self.now,
                    instant,
                ),
    {
        let owner_id: String = new_refresh_owner_id();
        self.answer(owner_id, instant)
    }
}

/// The smaller of two durations.
pub open spec fn smaller(a: u128, b: int) -> u128 {
    if a <= b {
        a
    } else {
        b as u128
    }
}

/// The step after a try for the lock.
pub open spec fn after_lock_attempt(
    attempt: AttemptView,
    effective_now: u64,
    wait_delay: u128,
    reply: Result<bool, ()>,
    instant: u128,
) -> StepView {
    match reply {
        Err(_) => StepView::Finished(ResolutionView::TemporarilyUnavailable),
        Ok(true) => StepView::ReadOwned { attempt, effective_now },
        Ok(false) => {
            let waited = elapsed(attempt.started_at, instant);
            if waited >= REFRESH_WAIT_TIMEOUT {
                StepView::Finished(ResolutionView::TemporarilyUnavailable)
            } else {
                StepView::Wait {
                    attempt,
                    pause: smaller(wait_delay, REFRESH_WAIT_TIMEOUT - waited),
                    wait_delay,
                }
            }
        },
    }
}

impl LockAttempt {
    /// Goes on with what the store said of the lock.
    pub fn answer(self, reply: Result<bool, ()>, instant: u128) -> (step: ResolutionStep)
        ensures
            step@ == after_lock_attempt(
                self.attempt@,
                self.effective_now,
                self.wait_delay,
                reply,
                instant,
            ),
    {
        match reply {
            Err(_) => ResolutionStep::Finished(AccessTokenResolution::TemporarilyUnavailable),
            Ok(true) => ResolutionStep::ReadOwned(
                OwnedRead { attempt: self.attempt, effective_now: self.effective_now },
            ),
            Ok(false) => {
                let waited: u128 = instant.saturating_sub(self.attempt.started_at);
                if waited >= REFRESH_WAIT_TIMEOUT {
                    return ResolutionStep::Finished(AccessTokenResolution::TemporarilyUnavailable);
                }
                let remaining: u128 = REFRESH_WAIT_TIMEOUT - waited;
                let pause: u128 = if self.wait_delay <= remaining {
                    self.wait_delay
                } else {
                    remaining
                };
                ResolutionStep::Wait(
                    Waiting { attempt: self.attempt, pause, wait_delay: self.wait_delay },
                )
            },
        }
    }
}

/// The pause that follows one of `wait_delay`: twice as long, up to the longest.
pub open spec fn next_delay(wait_delay: u128) -> u128 {
    smaller(REFRESH_WAIT_MAX_DELAY, 2 * wait_delay)
}

/// The step after a pause and the read that follows it.
pub open spec fn after_wait(
    attempt: AttemptView,
    wait_delay: u128,
    reply: Result<Option<SessionView>, ()>,
    instant: u128,
) -> StepView {
    let effective_now = advanced(attempt.now, attempt.started_at, instant);
    match judged(reply, effective_now) {
        Err(result) => StepView::Finished(result),
        Ok(_) => if elapsed(attempt.started_at, instant) >= REFRESH_WAIT_TIMEOUT {
            StepView::Finished(ResolutionView::TemporarilyUnavailable)
        } else {
            StepView::AcquireLock { attempt, effective_now, wait_delay: next_delay(wait_delay) }
        },
    }
}

impl Waiting {
    /// Goes on with what the look-up after the pause gave.
    pub fn answer(self, reply: Result<Option<AuthenticatedSession>, ()>, instant: u128) -> (step:
        ResolutionStep)
        ensures
            step@ == after_wait(self.attempt@, self.wait_delay, lookup_view(reply), instant),
    {
        let effective_now: u64 = advance(self.attempt.now, self.attempt.started_at, instant);
        match judge(reply, effective_now) {
            Err(result) => ResolutionStep::Finished(result),
            Ok(_) => {
                let waited: u128 = instant.saturating_sub(self.attempt.started_at);
                if waited >= REFRESH_WAIT_TIMEOUT {
                    return ResolutionStep::Finished(AccessTokenResolution::TemporarilyUnavailable);
                }
                let doubled: u128 = self.wait_delay.saturating_add(self.wait_delay);
                let wait_delay: u128 = if doubled < REFRESH_WAIT_MAX_DELAY {
                    doubled
                } else {
                    REFRESH_WAIT_MAX_DELAY
                };
                ResolutionStep::AcquireLock(
                    LockAttempt { attempt: self.attempt, effective_now, wait_delay },
                )
            },
        }
    }
}

/// The step after the owner's read.
pub open spec fn after_owned_read(
    attempt: AttemptView,
    effective_now: u64,
    reply: Result<Option<SessionView>, ()>,
    instant: u128,
) -> StepView {
    match judged(reply, effective_now) {
        Err(result) => StepView::Release { attempt, result },
        Ok(refresh_token) => StepView::ResolveMetadata {
            need: NeedView { attempt, effective_now, refresh_started_at: instant, refresh_token },
        },
    }
}

impl OwnedRead {
    /// Goes on with what the owner's look-up gave.
    pub fn answer(self, reply: Result<Option<AuthenticatedSession>, ()>, instant: u128) -> (step:
        ResolutionStep)
        ensures
            step@ == after_owned_read(
                self.attempt@,
                self.effective_now,
                lookup_view(reply),
                instant,
            ),
    {
        match judge(reply, self.effective_now) {
            Err(result) => ResolutionStep::Release(
                ReleaseNeeded { attempt: self.attempt, result },
            ),
            Ok(refresh_token) => ResolutionStep::ResolveMetadata(
                MetadataNeeded {
                    need: RefreshNeed {
                        attempt: self.attempt,
                        effective_now: self.effective_now,
                        refresh_started_at: instant,
                        refresh_token,
                    },
                },
            ),
        }
    }
}

/// The step after the provider's metadata were asked for.
pub open spec fn after_metadata(need: NeedView, available: bool) -> StepView {
    if available {
        StepView::Exchange { need }
    } else {
        StepView::Release {
            attempt: need.attempt,
            result: ResolutionView::TemporarilyUnavailable,
        }
    }
}

impl MetadataNeeded {
    /// Goes on once it is known whether the metadata are to be had.
    pub fn answer(self, available: bool) -> (step: ResolutionStep)
        ensures
            step@ == after_metadata(self.need@, available),
    {
        if available {
            ResolutionStep::Exchange(ExchangeNeeded { need: self.need })
        } else {
            ResolutionStep::Release(
                ReleaseNeeded {
                    attempt: self.need.attempt,
                    result: AccessTokenResolution::TemporarilyUnavailable,
                },
            )
        }
    }
}

/// What the provider said to a refresh-token exchange.
pub enum ExchangeReply {
    /// New tokens.
    Tokens {
        access_token: String,
        refresh_token: Option<String>,
        /// Lifetime of the access token in seconds.
        expires_in: Option<u64>,
    },
    /// The refresh token was refused for good: `invalid_grant`.
    InvalidGrant,
    /// The request could not be made or failed in another way.
    Failed,
}

/// What an [`ExchangeReply`] holds.
pub enum ExchangeReplyView {
    Tokens {
        access_token: Seq<char>,
        refresh_token: Option<Seq<char>>,
        expires_in: Option<u64>,
    },
    InvalidGrant,
    Failed,
}

impl View for ExchangeReply {
    type V = ExchangeReplyView;

    open spec fn view(&self) -> ExchangeReplyView {
        match *self {
            ExchangeReply::Tokens { access_token, refresh_token, expires_in } => {
                ExchangeReplyView::Tokens {
                    access_token: access_token@,
                    refresh_token: text_view(refresh_token),
                    expires_in,
                }
            },
            ExchangeReply::InvalidGrant => ExchangeReplyView::InvalidGrant,
            ExchangeReply::Failed => ExchangeReplyView::Failed,
        }
    }
}

/// The session that a refresh leaves: the new access token, the new refresh token where there is
/// one and else the one that was used, and the expiry counted from the arrival of the reply.
pub open spec fn refreshed_session(
    need: NeedView,
    access_token: Seq<char>,
    refresh_token: Option<Seq<char>>,
    expires_in: Option<u64>,
    instant: u128,
) -> SessionView {
    SessionView {
        access_token,
        refresh_token: match refresh_token {
            Some(rotated) => Some(rotated),
            None => Some(need.refresh_token),
        },
        access_token_expires_at: refreshed_expiry(
            advanced(need.effective_now, need.refresh_started_at, instant),
            expires_in,
        ),
    }
}

/// The step after the exchange.
pub open spec fn after_exchange(
    need: NeedView,
    reply: ExchangeReplyView,
    instant: u128,
) -> StepView {
    match reply {
        ExchangeReplyView::Tokens { access_token, refresh_token, expires_in } => StepView::Update {
            attempt: need.attempt,
            refreshed: refreshed_session(need, access_token, refresh_token, expires_in, instant),
        },
        ExchangeReplyView::InvalidGrant => StepView::Invalidate { attempt: need.attempt },
        ExchangeReplyView::Failed => StepView::Release {
            attempt: need.attempt,
            result: ResolutionView::TemporarilyUnavailable,
        },
    }
}

impl ExchangeNeeded {
    /// Goes on with the provider's reply.
    pub fn answer(self, reply: ExchangeReply, instant: u128) -> (step: ResolutionStep)
        ensures
            step@ == after_exchange(self.need@, reply@, instant),
    {
        match reply {
            ExchangeReply::Tokens { access_token, refresh_token, expires_in } => {
                let response_now: u64 = advance(
                    self.need.effective_now,
                    self.need.refresh_started_at,
                    instant,
                );
                let refresh_token: Option<String> = match refresh_token {
                    Some(rotated) => Some(rotated),
                    None => Some(self.need.refresh_token),
                };
                ResolutionStep::Update(
                    UpdateNeeded {
                        attempt: self.need.attempt,
                        refreshed: AuthenticatedSession {
                            access_token,
                            refresh_token,
                            access_token_expires_at: refreshed_access_token_expiry(
                                response_now,
                                expires_in,
                            ),
                        },
                    },
                )
            },
            ExchangeReply::InvalidGrant => ResolutionStep::Invalidate(
                InvalidationNeeded { attempt: self.need.attempt },
            ),
            ExchangeReply::Failed => ResolutionStep::Release(
                ReleaseNeeded {
                    attempt: self.need.attempt,
                    result: AccessTokenResolution::TemporarilyUnavailable,
                },
            ),
        }
    }
}

/// The step after the refreshed tokens were written.
pub open spec fn after_update(
    attempt: AttemptView,
    refreshed: SessionView,
    reply: Result<RefreshOwnedMutation, ()>,
) -> StepView {
    StepView::Release {
        attempt,
        result: match reply {
            Ok(RefreshOwnedMutation::Applied) => ResolutionView::Ready(refreshed.access_token),
            Ok(RefreshOwnedMutation::SessionMissing) => ResolutionView::ReauthenticationRequired,
            Ok(RefreshOwnedMutation::OwnershipLost) => ResolutionView::TemporarilyUnavailable,
            Err(_) => ResolutionView::TemporarilyUnavailable,
        },
    }
}

impl UpdateNeeded {
    /// Goes on with what became of the write.
    pub fn answer(self, reply: Result<RefreshOwnedMutation, ()>) -> (step: ResolutionStep)
        ensures
            step@ == after_update(self.attempt@, self.refreshed@, reply),
    {
        let result: AccessTokenResolution = match reply {
            Ok(RefreshOwnedMutation::Applied) => AccessTokenResolution::Ready(
                self.refreshed.access_token,
            ),
            Ok(RefreshOwnedMutation::SessionMissing) => {
                AccessTokenResolution::ReauthenticationRequired
            },
            Ok(RefreshOwnedMutation::OwnershipLost) => AccessTokenResolution::TemporarilyUnavailable,
            Err(_) => AccessTokenResolution::TemporarilyUnavailable,
        };
        ResolutionStep::Release(ReleaseNeeded { attempt: self.attempt, result })
    }
}

/// The step after a session with a refused refresh token was ended.
pub open spec fn after_rejected_refresh(
    attempt: AttemptView,
    reply: Result<RefreshOwnedMutation, ()>,
) -> StepView {
    StepView::Release {
        attempt,
        result: match reply {
            Ok(RefreshOwnedMutation::Applied) => ResolutionView::ReauthenticationRequired,
            Ok(RefreshOwnedMutation::SessionMissing) => ResolutionView::ReauthenticationRequired,
            Ok(RefreshOwnedMutation::OwnershipLost) => ResolutionView::TemporarilyUnavailable,
            Err(_) => ResolutionView::TemporarilyUnavailable,
        },
    }
}

impl InvalidationNeeded {
    /// Goes on with what became of the session.
    pub fn answer(self, reply: Result<RefreshOwnedMutation, ()>) -> (step: ResolutionStep)
        ensures
            step@ == after_rejected_refresh(self.attempt@, reply),
    {
        let result: AccessTokenResolution = match reply {
            Ok(RefreshOwnedMutation::Applied) => AccessTokenResolution::ReauthenticationRequired,
            Ok(RefreshOwnedMutation::SessionMissing) => {
                AccessTokenResolution::ReauthenticationRequired
            },
            Ok(RefreshOwnedMutation::OwnershipLost) => AccessTokenResolution::TemporarilyUnavailable,
            Err(_) => AccessTokenResolution::TemporarilyUnavailable,
        };
        ResolutionStep::Release(ReleaseNeeded { attempt: self.attempt, result })
    }
}

/// The step after the lock was given back.
pub open spec fn after_lock_release(result: ResolutionView, reply: Result<bool, ()>) -> StepView {
    match reply {
        Ok(true) => StepView::Finished(result),
        _ => StepView::Finished(ResolutionView::TemporarilyUnavailable),
    }
}

impl ReleaseNeeded {
    /// Ends with the outcome if the lock was still held.
    pub fn answer(self, reply: Result<bool, ()>) -> (step: ResolutionStep)
        ensures
            step@ == after_lock_release(self.result@, reply),
    {
        match reply {
            Ok(true) => ResolutionStep::Finished(self.result),
            _ => ResolutionStep::Finished(AccessTokenResolution::TemporarilyUnavailable),
        }
    }
}

} // verus!
