use rtp_bff::cookies::SameSite;
use rtp_bff::session::redis_store::{
    lock_was_acquired, lock_was_released, redis_get, redis_invalidate_for_refresh, redis_put,
    redis_release_refresh_lock, redis_try_acquire_refresh_lock, redis_update_after_refresh,
    refresh_mutation, session_of_fields, StoreSettings, REFRESH_INVALIDATE_SCRIPT,
    REFRESH_LOCK_RELEASE_SCRIPT, REFRESH_UPDATE_SCRIPT,
};
use rtp_bff::session::store::{SessionStore, TEST_SESSION_TTL};
use rtp_bff::session::{
    access_token_expiry, access_token_expiry_at, build_session_cookie, new_refresh_owner_id,
    new_session_id, refresh_lock_key, session_cookie_name, session_key, AuthenticatedSession,
    RefreshOwnedMutation, DEV_SESSION_COOKIE_NAME, PROD_SESSION_COOKIE_NAME,
};

const SECOND: u128 = 1_000_000_000;

fn session(access: &str, refresh: Option<&str>, expiry: Option<u64>) -> AuthenticatedSession {
    AuthenticatedSession {
        access_token: access.to_owned(),
        refresh_token: refresh.map(str::to_owned),
        access_token_expires_at: expiry,
    }
}

fn assert_same(found: &AuthenticatedSession, expected: &AuthenticatedSession) {
    assert_eq!(found.access_token, expected.access_token);
    assert_eq!(found.refresh_token, expected.refresh_token);
    assert_eq!(
        found.access_token_expires_at,
        expected.access_token_expires_at
    );
}

fn arguments(command: &redis::Cmd) -> Vec<String> {
    command
        .args_iter()
        .map(|argument| match argument {
            redis::Arg::Simple(bytes) => {
                String::from_utf8(bytes.to_vec()).expect("arguments are texts")
            }
            _ => panic!("no cursor argument is expected"),
        })
        .collect()
}

#[test]
fn session_store_keeps_tokens_server_side() {
    let mut store = SessionStore::for_tests();
    let session_id = new_session_id();
    let stored = session("access-secret", Some("refresh-secret"), Some(12345));

    store
        .put(&session_id, &stored, 0)
        .expect("test session store write must succeed");

    let found = store
        .get(&session_id, 1)
        .expect("test session store read must succeed")
        .expect("stored session must exist");

    assert_same(&found, &stored);
}

#[test]
fn refresh_update_preserves_test_session_lifetime_origin() {
    let mut store = SessionStore::for_tests();
    let session_id = new_session_id();
    let owner_id = new_refresh_owner_id();
    let initial = session("initial-access", Some("initial-refresh"), Some(100));
    let refreshed = session("refreshed-access", Some("refreshed-refresh"), Some(200));

    store.put(&session_id, &initial, 0).expect("write");
    assert!(store
        .try_acquire_refresh_lock(&session_id, &owner_id, 5 * SECOND, SECOND)
        .expect("lock"));
    assert_eq!(
        store.update_after_refresh(&session_id, &owner_id, &refreshed, 2 * SECOND),
        Ok(RefreshOwnedMutation::Applied)
    );
    let found = store
        .get(&session_id, TEST_SESSION_TTL - 1)
        .expect("read")
        .expect("session");
    assert_same(&found, &refreshed);
    assert!(store
        .get(&session_id, TEST_SESSION_TTL)
        .expect("read")
        .is_none());
}

#[test]
fn lookup_of_unknown_session_finds_nothing() {
    let mut store = SessionStore::for_tests();
    assert!(store.get("unknown", 0).expect("read").is_none());
}

#[test]
fn lookup_does_not_extend_lifetime() {
    let mut store = SessionStore::for_tests();
    store.put("id", &session("a", None, None), 0).expect("write");
    assert!(store
        .get("id", TEST_SESSION_TTL - 1)
        .expect("read")
        .is_some());
    assert!(store.get("id", TEST_SESSION_TTL).expect("read").is_none());
    assert_eq!(store.ttl(), 3600 * SECOND);
}

#[test]
fn refresh_update_does_not_recreate_expired_session() {
    let mut store = SessionStore::for_tests();
    store.put("id", &session("a", None, None), 0).expect("write");
    let late = TEST_SESSION_TTL - 1;
    assert!(store
        .try_acquire_refresh_lock("id", "owner", 5 * SECOND, late)
        .expect("lock"));
    assert_eq!(
        store.update_after_refresh("id", "owner", &session("b", None, None), late + 1),
        Ok(RefreshOwnedMutation::SessionMissing)
    );
    assert!(store.get("id", late + 1).expect("read").is_none());
}

#[test]
fn refresh_lock_is_exclusive() {
    let mut store = SessionStore::for_tests();
    let lease = 5 * SECOND;
    assert_eq!(store.try_acquire_refresh_lock("id", "a", lease, 0), Ok(true));
    assert_eq!(
        store.try_acquire_refresh_lock("id", "b", lease, lease - 1),
        Ok(false)
    );
    assert_eq!(
        store.try_acquire_refresh_lock("other", "b", lease, lease - 1),
        Ok(true)
    );
    assert_eq!(
        store.try_acquire_refresh_lock("id", "b", lease, lease),
        Ok(true)
    );
}

#[test]
fn refresh_lock_release_requires_owner() {
    let mut store = SessionStore::for_tests();
    assert_eq!(
        store.try_acquire_refresh_lock("id", "a", 5 * SECOND, 0),
        Ok(true)
    );
    assert_eq!(store.release_refresh_lock("id", "b", 1), Ok(false));
    assert_eq!(store.release_refresh_lock("id", "a", 2), Ok(true));
    assert_eq!(store.release_refresh_lock("id", "a", 3), Ok(false));
    assert_eq!(
        store.try_acquire_refresh_lock("id", "b", 5 * SECOND, 4),
        Ok(true)
    );
}

#[test]
fn refresh_invalidation_requires_owner() {
    let mut store = SessionStore::for_tests();
    store.put("id", &session("a", None, None), 0).expect("write");
    assert_eq!(
        store.try_acquire_refresh_lock("id", "a", 5 * SECOND, 0),
        Ok(true)
    );
    assert_eq!(
        store.invalidate_for_refresh("id", "b", 1),
        Ok(RefreshOwnedMutation::OwnershipLost)
    );
    assert!(store.get("id", 1).expect("read").is_some());
    assert_eq!(
        store.invalidate_for_refresh("id", "a", 2),
        Ok(RefreshOwnedMutation::Applied)
    );
    assert!(store.get("id", 2).expect("read").is_none());
    assert_eq!(
        store.invalidate_for_refresh("id", "a", 3),
        Ok(RefreshOwnedMutation::SessionMissing)
    );
}

#[test]
fn stale_refresh_owner_cannot_update_or_release_new_owner_lock() {
    let mut store = SessionStore::for_tests();
    let lease = 5 * SECOND;
    store.put("id", &session("a", None, None), 0).expect("write");
    assert_eq!(
        store.try_acquire_refresh_lock("id", "stale", lease, 0),
        Ok(true)
    );
    assert_eq!(
        store.try_acquire_refresh_lock("id", "new", lease, lease),
        Ok(true)
    );
    assert_eq!(
        store.update_after_refresh("id", "stale", &session("b", None, None), lease + 1),
        Ok(RefreshOwnedMutation::OwnershipLost)
    );
    assert_eq!(store.release_refresh_lock("id", "stale", lease + 1), Ok(false));
    let found = store.get("id", lease + 2).expect("read").expect("session");
    assert_eq!(found.access_token, "a");
    assert_eq!(store.release_refresh_lock("id", "new", lease + 3), Ok(true));
}

#[test]
fn lock_without_lease_is_refused() {
    let mut store = SessionStore::for_tests();
    assert_eq!(store.try_acquire_refresh_lock("id", "a", 0, 0), Err(()));
    assert_eq!(
        store.try_acquire_refresh_lock("id", "a", u128::MAX, 1),
        Err(())
    );
}

#[test]
fn failing_stores_fail_only_where_they_should() {
    let tokens = session("a", None, None);

    let mut store = SessionStore::for_tests_failing_writes();
    assert_eq!(store.put("id", &tokens, 0), Err(()));
    assert!(store.get("id", 0).expect("read").is_none());

    let mut store = SessionStore::for_tests_failing_reads();
    assert_eq!(store.put("id", &tokens, 0), Ok(()));
    assert!(store.get("id", 0).is_err());

    let mut store = SessionStore::for_tests_failing_refresh_mutations();
    assert_eq!(store.put("id", &tokens, 0), Ok(()));
    assert_eq!(store.try_acquire_refresh_lock("id", "a", 5, 0), Ok(true));
    assert_eq!(store.update_after_refresh("id", "a", &tokens, 0), Err(()));
    assert_eq!(store.invalidate_for_refresh("id", "a", 0), Err(()));

    let mut store = SessionStore::for_tests_failing_refresh_lock_ops();
    assert_eq!(store.try_acquire_refresh_lock("id", "a", 5, 0), Err(()));
    assert_eq!(store.release_refresh_lock("id", "a", 0), Err(()));
}

#[test]
fn production_session_cookie_uses_rfc_10017_security_profile() {
    let cookie = build_session_cookie("opaque-session-id".to_owned(), true, 3600 * SECOND);

    assert_eq!(cookie.name, PROD_SESSION_COOKIE_NAME);
    assert_eq!(cookie.path, "/");
    assert!(cookie.http_only);
    assert!(cookie.secure);
    assert_eq!(cookie.same_site, SameSite::Strict);
    assert_eq!(cookie.value, "opaque-session-id");
    assert_eq!(cookie.max_age, 3600);
}

#[test]
fn session_cookie_does_not_outlive_the_session() {
    assert_eq!(
        build_session_cookie(String::new(), false, 1_999_999_999).max_age,
        1
    );
    assert_eq!(
        build_session_cookie(String::new(), false, u128::MAX).max_age,
        i64::MAX
    );
    assert_eq!(session_cookie_name(false), DEV_SESSION_COOKIE_NAME);
    assert_eq!(session_cookie_name(true), "__Host-Http-rtp_session");
}

#[test]
fn session_ids_are_random_and_opaque() {
    let one = new_session_id();
    let other = new_session_id();
    assert_eq!(one.len(), 43);
    assert_ne!(one, other);
    assert_ne!(new_refresh_owner_id(), new_refresh_owner_id());
}

#[test]
fn expiry_counts_from_the_clock() {
    assert_eq!(access_token_expiry_at(1_000, Some(300)), Some(1_300));
    assert_eq!(access_token_expiry_at(1_000, None), None);
    assert_eq!(access_token_expiry_at(-10, Some(9)), None);
    assert_eq!(access_token_expiry_at(-10, Some(10)), Some(0));
    assert_eq!(
        access_token_expiry_at(1, Some(i64::MAX as u64 - 1)),
        Some(i64::MAX as u64)
    );
    assert_eq!(access_token_expiry_at(1, Some(i64::MAX as u64)), None);
    assert_eq!(access_token_expiry(None), None);

    let expiry = access_token_expiry(Some(300)).expect("the sum fits");
    let now = std::time::SystemTime::now()
        .duration_since(std::time::UNIX_EPOCH)
        .expect("the clock stands after the epoch")
        .as_secs();
    assert!(now + 280 <= expiry && expiry <= now + 300);
    assert_eq!(access_token_expiry(Some(u64::MAX)), None);
}

#[test]
fn keys_are_prefixed() {
    assert_eq!(session_key("abc"), "rtp:bff:session:abc");
    assert_eq!(refresh_lock_key("abc"), "rtp:bff:refresh-lock:abc");
}

#[test]
fn session_is_stored_in_one_transaction() {
    let pipeline = redis_put(3600, "id", &session("access", Some("refresh"), Some(77)));
    let commands: Vec<Vec<String>> = pipeline.cmd_iter().map(arguments).collect();

    assert_eq!(
        commands,
        vec![
            vec![
                "HSET",
                "rtp:bff:session:id",
                "access_token",
                "access",
                "refresh_token",
                "refresh",
                "access_token_expires_at",
                "77"
            ],
            vec!["EXPIRE", "rtp:bff:session:id", "3600"],
        ]
    );
    assert!(pipeline.is_transaction());
}

#[test]
fn absent_fields_are_stored_as_empty_and_zero() {
    let pipeline = redis_put(1, "id", &session("access", None, None));
    let store = arguments(pipeline.cmd_iter().next().expect("a command"));
    assert_eq!(store[5], "");
    assert_eq!(store[7], "0");
}

#[test]
fn stored_fields_are_read_back() {
    assert_eq!(
        arguments(&redis_get("id")),
        vec![
            "HMGET",
            "rtp:bff:session:id",
            "access_token",
            "refresh_token",
            "access_token_expires_at"
        ]
    );

    for stored in [
        session("a", Some("r"), Some(9)),
        session("a", None, None),
        session("", Some("r"), None),
    ] {
        let read = session_of_fields(
            Some(stored.access_token.clone()),
            Some(stored.refresh_token.clone().unwrap_or_default()),
            Some(stored.access_token_expires_at.unwrap_or(0)),
        )
        .expect("an access token is there");
        assert_same(&read, &stored);
    }

    assert!(session_of_fields(None, Some("r".to_owned()), Some(1)).is_none());
    let bare = session_of_fields(Some("a".to_owned()), None, None).expect("a session");
    assert_same(&bare, &session("a", None, None));
}

#[test]
fn lock_command_counts_the_lease_in_milliseconds() {
    let lock = redis_try_acquire_refresh_lock("id", "owner", 60 * SECOND).expect("a lease");
    assert_eq!(
        arguments(&lock),
        vec![
            "SET",
            "rtp:bff:refresh-lock:id",
            "owner",
            "NX",
            "PX",
            "60000"
        ]
    );
    assert!(redis_try_acquire_refresh_lock("id", "owner", 999_999).is_err());
    assert!(redis_try_acquire_refresh_lock("id", "owner", u128::MAX).is_err());
    assert!(redis_try_acquire_refresh_lock("id", "owner", 1_000_000).is_ok());
    assert!(lock_was_acquired(Some("OK".to_owned())));
    assert!(!lock_was_acquired(None));
}

#[test]
fn scripts_run_on_the_keys_of_the_session() {
    assert_eq!(
        arguments(&redis_release_refresh_lock("id", "owner")),
        vec![
            "EVAL",
            REFRESH_LOCK_RELEASE_SCRIPT,
            "1",
            "rtp:bff:refresh-lock:id",
            "owner"
        ]
    );
    assert_eq!(
        arguments(&redis_update_after_refresh(
            "id",
            "owner",
            &session("a", None, Some(18_446_744_073_709_551_615))
        )),
        vec![
            "EVAL",
            REFRESH_UPDATE_SCRIPT,
            "2",
            "rtp:bff:session:id",
            "rtp:bff:refresh-lock:id",
            "owner",
            "a",
            "",
            "18446744073709551615"
        ]
    );
    assert_eq!(
        arguments(&redis_invalidate_for_refresh("id", "owner")),
        vec![
            "EVAL",
            REFRESH_INVALIDATE_SCRIPT,
            "2",
            "rtp:bff:session:id",
            "rtp:bff:refresh-lock:id",
            "owner"
        ]
    );
}

#[test]
fn script_replies_are_read() {
    assert_eq!(refresh_mutation(1), Ok(RefreshOwnedMutation::Applied));
    assert_eq!(refresh_mutation(0), Ok(RefreshOwnedMutation::SessionMissing));
    assert_eq!(refresh_mutation(-1), Ok(RefreshOwnedMutation::OwnershipLost));
    assert_eq!(refresh_mutation(2), Err(()));
    assert!(lock_was_released(1));
    assert!(!lock_was_released(0));
    assert!(!lock_was_released(2));
}

fn settings_error(url: Option<&str>, ttl: Option<&str>) -> String {
    match StoreSettings::from_values(url.map(str::to_owned), ttl.map(str::to_owned)) {
        Ok(_) => panic!("the settings must be refused"),
        Err(message) => message,
    }
}

#[test]
fn store_settings_are_checked_in_order() {
    let url = Some("redis://127.0.0.1/");
    assert_eq!(settings_error(None, None), "RTP_REDIS_URL is required");
    assert_eq!(
        settings_error(Some(" "), None),
        "RTP_REDIS_URL must not be empty"
    );
    assert_eq!(
        settings_error(url, None),
        "RTP_BFF_SESSION_TTL_SECONDS is required"
    );
    assert_eq!(
        settings_error(url, Some("an hour")),
        "RTP_BFF_SESSION_TTL_SECONDS must be a positive integer"
    );
    for out_of_range in ["0", "9223372036854775808"] {
        assert_eq!(
            settings_error(url, Some(out_of_range)),
            format!(
                "RTP_BFF_SESSION_TTL_SECONDS must be between 1 and {}",
                i64::MAX
            )
        );
    }
}

#[test]
fn store_settings_make_a_client() {
    let made = StoreSettings::from_values(
        Some("redis://127.0.0.1:6379/3".to_owned()),
        Some("9223372036854775807".to_owned()),
    );
    let Ok(settings) = made else {
        panic!("the settings are good")
    };
    assert_eq!(settings.ttl_seconds, i64::MAX as u64);
    let client = settings.redis_client().expect("the URL is good");
    assert_eq!(
        client.get_connection_info().addr().to_string(),
        "127.0.0.1:6379"
    );

    let made = StoreSettings::from_values(
        Some("http://127.0.0.1/".to_owned()),
        Some("60".to_owned()),
    );
    let Ok(settings) = made else {
        panic!("only the URL is of another kind")
    };
    assert_eq!(
        settings.redis_client().err(),
        Some("Redis URL is invalid".to_owned())
    );
}
