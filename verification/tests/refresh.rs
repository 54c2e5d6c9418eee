use rtp_bff::oidc::refresh::{
    access_token_is_sufficiently_valid, refreshed_access_token_expiry, resolve_access_token,
    resolve_access_token_at, resolve_access_token_on_clock, AccessTokenResolution, ExchangeReply,
    ResolutionStep, REFRESH_LOCK_LEASE, REFRESH_LOCK_LEASE_SECONDS,
    REFRESH_OPERATION_BOUND_SECONDS, REFRESH_WAIT_INITIAL_DELAY, REFRESH_WAIT_MAX_DELAY,
    REFRESH_WAIT_TIMEOUT,
};
use rtp_bff::session::store::SessionStore;
use rtp_bff::session::{
    new_refresh_owner_id, new_session_id, AuthenticatedSession, RefreshOwnedMutation,
};

const TEST_NOW: u64 = 1_800_000_000;
const SECOND: u128 = 1_000_000_000;

#[derive(Clone, Copy, PartialEq)]
enum Outcome {
    SuccessWithRotation,
    SuccessWithoutRotation,
    InvalidGrant,
    TemporaryFailure,
}

/// A provider that counts exchanges and takes a while for each.
struct Provider {
    refresh_token: String,
    access_token: String,
    rotated_refresh_token: String,
    outcome: Outcome,
    delay: u128,
    reachable: bool,
    calls: usize,
}

fn provider(refresh_token: &str, outcome: Outcome) -> Provider {
    Provider {
        refresh_token: refresh_token.to_owned(),
        access_token: new_session_id(),
        rotated_refresh_token: new_session_id(),
        outcome,
        delay: 0,
        reachable: true,
        calls: 0,
    }
}

impl Provider {
    fn exchange(&mut self, refresh_token: &str) -> ExchangeReply {
        self.calls += 1;
        assert_eq!(refresh_token, self.refresh_token);
        match self.outcome {
            Outcome::InvalidGrant => ExchangeReply::InvalidGrant,
            Outcome::TemporaryFailure => ExchangeReply::Failed,
            _ => ExchangeReply::Tokens {
                access_token: self.access_token.clone(),
                refresh_token: if self.outcome == Outcome::SuccessWithRotation {
                    Some(self.rotated_refresh_token.clone())
                } else {
                    None
                },
                expires_in: Some(300),
            },
        }
    }
}

/// Does the work of one step.
fn work(
    step: ResolutionStep,
    store: &mut SessionStore,
    provider: &mut Provider,
    clock: &mut u128,
) -> ResolutionStep {
    match step {
        ResolutionStep::ReadSession(step) => {
            let found = store.get(&step.session_id, *clock);
            step.answer(found)
        }
        ResolutionStep::NeedOwnership(step) => step.start(*clock),
        ResolutionStep::AcquireLock(step) => {
            let held = store.try_acquire_refresh_lock(
                &step.attempt.session_id,
                &step.attempt.owner_id,
                REFRESH_LOCK_LEASE,
                *clock,
            );
            step.answer(held, *clock)
        }
        ResolutionStep::Wait(step) => {
            *clock += step.pause;
            let found = store.get(&step.attempt.session_id, *clock);
            step.answer(found, *clock)
        }
        ResolutionStep::ReadOwned(step) => {
            let found = store.get(&step.attempt.session_id, *clock);
            step.answer(found, *clock)
        }
        ResolutionStep::ResolveMetadata(step) => step.answer(provider.reachable),
        ResolutionStep::Exchange(step) => {
            let reply = provider.exchange(&step.need.refresh_token);
            *clock += provider.delay;
            step.answer(reply, *clock)
        }
        ResolutionStep::Update(step) => {
            let mutation = store.update_after_refresh(
                &step.attempt.session_id,
                &step.attempt.owner_id,
                &step.refreshed,
                *clock,
            );
            step.answer(mutation)
        }
        ResolutionStep::Invalidate(step) => {
            let mutation = store.invalidate_for_refresh(
                &step.attempt.session_id,
                &step.attempt.owner_id,
                *clock,
            );
            step.answer(mutation)
        }
        ResolutionStep::Release(step) => {
            let released = store.release_refresh_lock(
                &step.attempt.session_id,
                &step.attempt.owner_id,
                *clock,
            );
            step.answer(released)
        }
        ResolutionStep::Finished(_) => panic!("nothing is left to do"),
    }
}

fn run(
    mut step: ResolutionStep,
    store: &mut SessionStore,
    provider: &mut Provider,
    clock: &mut u128,
) -> AccessTokenResolution {
    loop {
        if let ResolutionStep::Finished(resolution) = step {
            return resolution;
        }
        step = work(step, store, provider, clock);
    }
}

fn resolve(
    store: &mut SessionStore,
    provider: &mut Provider,
    session_id: &str,
) -> AccessTokenResolution {
    let mut clock: u128 = SECOND;
    run(
        resolve_access_token_at(session_id, TEST_NOW),
        store,
        provider,
        &mut clock,
    )
}

fn put(
    store: &mut SessionStore,
    session_id: &str,
    access: &str,
    refresh: Option<&str>,
    expiry: Option<u64>,
) {
    store
        .put(
            session_id,
            &AuthenticatedSession {
                access_token: access.to_owned(),
                refresh_token: refresh.map(str::to_owned),
                access_token_expires_at: expiry,
            },
            0,
        )
        .expect("test session write must succeed");
}

fn stored(store: &mut SessionStore, session_id: &str) -> AuthenticatedSession {
    store
        .get(session_id, 2 * SECOND)
        .expect("session read must succeed")
        .expect("session must be there")
}

fn assert_ready_token(resolution: AccessTokenResolution, expected: &str) {
    match resolution {
        AccessTokenResolution::Ready(token) => assert_eq!(token, expected),
        AccessTokenResolution::ReauthenticationRequired => {
            panic!("expected a usable access token, got reauthentication-required")
        }
        AccessTokenResolution::TemporarilyUnavailable => {
            panic!("expected a usable access token, got temporary-unavailable")
        }
    }
}

#[test]
fn runtime_token_resolution_reuses_token_without_expiry_hint() {
    let mut store = SessionStore::for_tests();
    let mut provider = provider("rt", Outcome::SuccessWithRotation);
    put(&mut store, "id", "current", Some("rt"), None);

    let mut clock = SECOND;
    let resolution = run(
        resolve_access_token("id"),
        &mut store,
        &mut provider,
        &mut clock,
    );

    assert_ready_token(resolution, "current");
    assert_eq!(provider.calls, 0);
}

#[test]
fn valid_access_token_is_reused_without_refresh() {
    let mut store = SessionStore::for_tests();
    let mut provider = provider("rt", Outcome::SuccessWithRotation);
    put(&mut store, "id", "current", Some("rt"), Some(TEST_NOW + 300));

    assert_ready_token(resolve(&mut store, &mut provider, "id"), "current");
    assert_eq!(provider.calls, 0);
}

#[test]
fn expiring_access_token_is_refreshed_and_persisted() {
    let mut store = SessionStore::for_tests();
    let mut provider = provider("rt", Outcome::SuccessWithRotation);
    put(&mut store, "id", "current", Some("rt"), Some(TEST_NOW + 10));

    let resolution = resolve(&mut store, &mut provider, "id");

    assert_ready_token(resolution, &provider.access_token);
    assert_eq!(provider.calls, 1);
    let session = stored(&mut store, "id");
    assert_eq!(session.access_token, provider.access_token);
    assert_eq!(
        session.refresh_token.as_deref(),
        Some(provider.rotated_refresh_token.as_str())
    );
    assert_eq!(session.access_token_expires_at, Some(TEST_NOW + 300));
    assert_eq!(
        store.try_acquire_refresh_lock("id", "next", 1, 2 * SECOND),
        Ok(true),
        "the owner must have given the lock back"
    );
}

#[test]
fn rotated_refresh_token_replaces_previous_value() {
    let mut store = SessionStore::for_tests();
    let mut provider = provider("rt", Outcome::SuccessWithRotation);
    put(&mut store, "id", "current", Some("rt"), Some(TEST_NOW));

    assert_ready_token(
        resolve(&mut store, &mut provider, "id"),
        &provider.access_token.clone(),
    );
    let session = stored(&mut store, "id");
    assert_eq!(
        session.refresh_token.as_deref(),
        Some(provider.rotated_refresh_token.as_str())
    );
    assert_ne!(session.refresh_token.as_deref(), Some("rt"));
}

#[test]
fn missing_rotated_refresh_token_preserves_previous_value() {
    let mut store = SessionStore::for_tests();
    let mut provider = provider("rt", Outcome::SuccessWithoutRotation);
    put(&mut store, "id", "current", Some("rt"), Some(TEST_NOW));

    assert_ready_token(
        resolve(&mut store, &mut provider, "id"),
        &provider.access_token.clone(),
    );
    assert_eq!(
        stored(&mut store, "id").refresh_token.as_deref(),
        Some("rt")
    );
}

#[test]
fn missing_refresh_token_requires_reauthentication() {
    let mut store = SessionStore::for_tests();
    let mut provider = provider("rt", Outcome::SuccessWithRotation);
    put(&mut store, "id", "current", None, Some(TEST_NOW));

    assert!(matches!(
        resolve(&mut store, &mut provider, "id"),
        AccessTokenResolution::ReauthenticationRequired
    ));
    assert_eq!(provider.calls, 0);
}

#[test]
fn unknown_session_requires_reauthentication() {
    let mut store = SessionStore::for_tests();
    let mut provider = provider("rt", Outcome::SuccessWithRotation);

    assert!(matches!(
        resolve(&mut store, &mut provider, "id"),
        AccessTokenResolution::ReauthenticationRequired
    ));
    assert_eq!(provider.calls, 0);
}

#[test]
fn invalid_grant_invalidates_authenticated_session() {
    let mut store = SessionStore::for_tests();
    let mut provider = provider("rt", Outcome::InvalidGrant);
    put(&mut store, "id", "current", Some("rt"), Some(TEST_NOW));

    assert!(matches!(
        resolve(&mut store, &mut provider, "id"),
        AccessTokenResolution::ReauthenticationRequired
    ));
    assert_eq!(provider.calls, 1);
    assert!(
        store
            .get("id", 2 * SECOND)
            .expect("session read must succeed")
            .is_none(),
        "invalid_grant must invalidate the authenticated BFF session"
    );
}

#[test]
fn temporary_token_endpoint_failure_fails_closed_without_destroying_session() {
    let mut store = SessionStore::for_tests();
    let mut provider = provider("rt", Outcome::TemporaryFailure);
    put(&mut store, "id", "current", Some("rt"), Some(TEST_NOW));

    assert!(matches!(
        resolve(&mut store, &mut provider, "id"),
        AccessTokenResolution::TemporarilyUnavailable
    ));
    assert_eq!(provider.calls, 1);
    let session = stored(&mut store, "id");
    assert_eq!(session.access_token, "current");
    assert_eq!(session.refresh_token.as_deref(), Some("rt"));
}

#[test]
fn missing_provider_metadata_fail_closed() {
    let mut store = SessionStore::for_tests();
    let mut provider = provider("rt", Outcome::SuccessWithRotation);
    provider.reachable = false;
    put(&mut store, "id", "current", Some("rt"), Some(TEST_NOW));

    assert!(matches!(
        resolve(&mut store, &mut provider, "id"),
        AccessTokenResolution::TemporarilyUnavailable
    ));
    assert_eq!(provider.calls, 0);
    assert_eq!(stored(&mut store, "id").access_token, "current");
}

#[test]
fn refresh_persistence_failure_fails_closed() {
    let mut store = SessionStore::for_tests_failing_refresh_mutations();
    let mut provider = provider("rt", Outcome::SuccessWithRotation);
    put(&mut store, "id", "current", Some("rt"), Some(TEST_NOW));

    assert!(matches!(
        resolve(&mut store, &mut provider, "id"),
        AccessTokenResolution::TemporarilyUnavailable
    ));
    assert_eq!(provider.calls, 1);
    let session = stored(&mut store, "id");
    assert_eq!(session.access_token, "current");
    assert_eq!(session.refresh_token.as_deref(), Some("rt"));
}

#[test]
fn refresh_lock_store_failure_fails_closed_without_token_exchange() {
    let mut store = SessionStore::for_tests_failing_refresh_lock_ops();
    let mut provider = provider("rt", Outcome::SuccessWithRotation);
    put(&mut store, "id", "current", Some("rt"), Some(TEST_NOW));

    assert!(matches!(
        resolve(&mut store, &mut provider, "id"),
        AccessTokenResolution::TemporarilyUnavailable
    ));
    assert_eq!(
        provider.calls, 0,
        "refresh must fail closed before token exchange when lock storage is unavailable"
    );
}

#[test]
fn unreadable_store_fails_closed() {
    let mut store = SessionStore::for_tests_failing_reads();
    let mut provider = provider("rt", Outcome::SuccessWithRotation);
    put(&mut store, "id", "current", Some("rt"), None);

    assert!(matches!(
        resolve(&mut store, &mut provider, "id"),
        AccessTokenResolution::TemporarilyUnavailable
    ));
}

#[test]
fn concurrent_refresh_requests_reach_token_endpoint_at_most_once() {
    // Every way of taking turns that one of eight bits at a time decides.
    for turns in 0..256_u32 {
        let mut store = SessionStore::for_tests();
        let mut provider = provider("rt", Outcome::SuccessWithRotation);
        put(&mut store, "id", "current", Some("rt"), Some(TEST_NOW));
        let mut clock = SECOND;
        let mut steps = [
            Some(resolve_access_token_at("id", TEST_NOW)),
            Some(resolve_access_token_at("id", TEST_NOW)),
        ];
        let mut results: [Option<AccessTokenResolution>; 2] = [None, None];
        let mut round = 0;
        while results[0].is_none() || results[1].is_none() {
            let bit = (turns >> (round % 8)) & 1;
            round += 1;
            let chosen = if results[bit as usize].is_none() {
                bit as usize
            } else {
                1 - bit as usize
            };
            let step = steps[chosen].take().expect("the step is there");
            match work(step, &mut store, &mut provider, &mut clock) {
                ResolutionStep::Finished(resolution) => results[chosen] = Some(resolution),
                step => steps[chosen] = Some(step),
            }
        }
        for result in results {
            assert_ready_token(result.expect("finished"), &provider.access_token);
        }
        assert_eq!(provider.calls, 1);
    }
}

#[test]
fn refresh_waiter_reuses_token_written_by_owner() {
    let mut store = SessionStore::for_tests();
    let mut provider = provider("rt", Outcome::SuccessWithRotation);
    put(&mut store, "id", "current", Some("rt"), Some(TEST_NOW));
    let owner = new_refresh_owner_id();
    let mut clock = SECOND;
    assert_eq!(
        store.try_acquire_refresh_lock("id", &owner, 5 * SECOND, clock),
        Ok(true)
    );

    let mut step = resolve_access_token_at("id", TEST_NOW);
    while !matches!(step, ResolutionStep::Wait(_)) {
        step = work(step, &mut store, &mut provider, &mut clock);
    }
    assert_eq!(
        store.update_after_refresh(
            "id",
            &owner,
            &AuthenticatedSession {
                access_token: "owner-token".to_owned(),
                refresh_token: Some("rt".to_owned()),
                access_token_expires_at: Some(TEST_NOW + 300),
            },
            clock
        ),
        Ok(RefreshOwnedMutation::Applied)
    );
    assert_eq!(store.release_refresh_lock("id", &owner, clock), Ok(true));

    let resolution = run(step, &mut store, &mut provider, &mut clock);
    assert_ready_token(resolution, "owner-token");
    assert_eq!(
        provider.calls, 0,
        "a waiter must reuse the owner's persisted token instead of refreshing independently"
    );
}

#[test]
fn refreshed_token_expiry_includes_elapsed_refresh_time() {
    let mut store = SessionStore::for_tests();
    let mut provider = provider("rt", Outcome::SuccessWithRotation);
    provider.delay = 1_100_000_000;
    put(&mut store, "id", "current", Some("rt"), Some(TEST_NOW));

    assert_ready_token(
        resolve(&mut store, &mut provider, "id"),
        &provider.access_token.clone(),
    );
    assert_eq!(
        store
            .get("id", 3 * SECOND)
            .expect("read")
            .expect("session")
            .access_token_expires_at,
        Some(TEST_NOW + 301)
    );
}

#[test]
fn waiting_for_a_lock_that_stays_held_is_bounded() {
    let mut store = SessionStore::for_tests();
    let mut provider = provider("rt", Outcome::SuccessWithRotation);
    put(&mut store, "id", "current", Some("rt"), Some(TEST_NOW));
    let mut clock = SECOND;
    assert_eq!(
        store.try_acquire_refresh_lock("id", "other", 1_000 * SECOND, clock),
        Ok(true)
    );

    let mut pauses: Vec<u128> = Vec::new();
    let mut step = resolve_access_token_at("id", TEST_NOW);
    let resolution = loop {
        if let ResolutionStep::Wait(wait) = &step {
            pauses.push(wait.pause);
        }
        if let ResolutionStep::Finished(resolution) = step {
            break resolution;
        }
        step = work(step, &mut store, &mut provider, &mut clock);
    };

    assert!(matches!(
        resolution,
        AccessTokenResolution::TemporarilyUnavailable
    ));
    assert_eq!(provider.calls, 0);
    assert_eq!(pauses.iter().sum::<u128>(), REFRESH_WAIT_TIMEOUT);
    let millisecond = 1_000_000;
    assert_eq!(
        pauses[..7],
        [25, 50, 100, 200, 400, 500, 500].map(|ms| ms * millisecond)
    );
    assert!(pauses.len() as u128 * REFRESH_WAIT_INITIAL_DELAY <= REFRESH_WAIT_TIMEOUT);
    assert!(pauses.iter().all(|pause| *pause <= REFRESH_WAIT_MAX_DELAY));
}

#[test]
fn lock_of_an_owner_that_vanished_is_taken_over() {
    let mut store = SessionStore::for_tests();
    let mut provider = provider("rt", Outcome::SuccessWithRotation);
    put(&mut store, "id", "current", Some("rt"), Some(TEST_NOW));
    assert_eq!(
        store.try_acquire_refresh_lock("id", "vanished", REFRESH_LOCK_LEASE, SECOND),
        Ok(true)
    );

    assert_ready_token(
        resolve(&mut store, &mut provider, "id"),
        &provider.access_token.clone(),
    );
    assert_eq!(provider.calls, 1);
}

#[test]
fn lost_lock_fails_closed() {
    let mut store = SessionStore::for_tests();
    let mut provider = provider("rt", Outcome::SuccessWithRotation);
    provider.delay = REFRESH_LOCK_LEASE;
    put(&mut store, "id", "current", Some("rt"), Some(TEST_NOW));

    assert!(matches!(
        resolve(&mut store, &mut provider, "id"),
        AccessTokenResolution::TemporarilyUnavailable
    ));
    assert_eq!(provider.calls, 1);
    assert_eq!(
        store
            .get("id", 100 * SECOND)
            .expect("read")
            .expect("session")
            .access_token,
        "current"
    );
}

#[test]
fn session_that_ends_during_a_refresh_is_not_recreated() {
    let mut store = SessionStore::for_tests();
    let mut provider = provider("rt", Outcome::SuccessWithRotation);
    provider.delay = 5 * SECOND;
    put(&mut store, "id", "current", Some("rt"), Some(TEST_NOW));
    let mut clock = 3_598 * SECOND;
    let resolution = run(
        resolve_access_token_at("id", TEST_NOW),
        &mut store,
        &mut provider,
        &mut clock,
    );

    assert!(matches!(
        resolution,
        AccessTokenResolution::ReauthenticationRequired
    ));
    assert_eq!(provider.calls, 1);
    assert!(store.get("id", clock).expect("read").is_none());
}

#[test]
fn clock_before_the_epoch_fails_closed() {
    assert!(matches!(
        resolve_access_token_on_clock("id", None),
        ResolutionStep::Finished(AccessTokenResolution::TemporarilyUnavailable)
    ));
    match resolve_access_token_on_clock("id", Some(7)) {
        ResolutionStep::ReadSession(step) => {
            assert_eq!(step.session_id, "id");
            assert_eq!(step.now, 7);
        }
        _ => panic!("the session must be read first"),
    }
}

#[test]
fn refresh_skew_is_thirty_seconds() {
    let with_expiry = |expiry| AuthenticatedSession {
        access_token: String::new(),
        refresh_token: None,
        access_token_expires_at: expiry,
    };
    assert!(access_token_is_sufficiently_valid(&with_expiry(None), u64::MAX));
    assert!(access_token_is_sufficiently_valid(&with_expiry(Some(131)), 100));
    assert!(!access_token_is_sufficiently_valid(&with_expiry(Some(130)), 100));
    assert!(!access_token_is_sufficiently_valid(
        &with_expiry(Some(u64::MAX)),
        u64::MAX
    ));
}

#[test]
fn refreshed_expiry_is_checked() {
    assert_eq!(refreshed_access_token_expiry(100, Some(300)), Some(400));
    assert_eq!(refreshed_access_token_expiry(100, None), None);
    assert_eq!(refreshed_access_token_expiry(u64::MAX, Some(1)), None);
}

#[test]
fn bounds_of_a_refresh() {
    assert_eq!(REFRESH_OPERATION_BOUND_SECONDS, 55);
    assert_eq!(REFRESH_LOCK_LEASE_SECONDS, 60);
    assert_eq!(REFRESH_LOCK_LEASE, 60 * SECOND);
    assert_eq!(REFRESH_WAIT_TIMEOUT, 65 * SECOND);
}
