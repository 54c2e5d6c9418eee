//! Authenticated browser sessions.
pub mod laws;
pub mod redis_laws;
pub mod redis_store;
pub mod store;

use crate::clock::{can_be_shown, current_seconds};
use crate::cookies::{SameSite, SetCookie, SetCookieView};
use crate::random::{encodes_bytes, random_token};
use crate::text::joined;
use vstd::prelude::*;

verus! {

/// Tokens that the server keeps for a signed-in browser.
pub struct AuthenticatedSession {
    /// OAuth access token.
    pub access_token: String,
    /// OAuth refresh token, where the provider issued one.
    pub refresh_token: Option<String>,
    /// Unix time in seconds at which the access token ends, where the provider said so.
    pub access_token_expires_at: Option<u64>,
}

/// What an [`AuthenticatedSession`] holds.
pub struct SessionView {
    pub access_token: Seq<char>,
    pub refresh_token: Option<Seq<char>>,
    pub access_token_expires_at: Option<u64>,
}

/// The characters of an optional text.
pub open spec fn text_view(text: Option<String>) -> Option<Seq<char>> {
    match text {
        Some(t) => Some(t@),
        None => None,
    }
}

/// A copy of an optional text.
pub fn copy_text(text: &Option<String>) -> (copy: Option<String>)
    ensures
        text_view(copy) == text_view(*text),
{
    match text {
        Some(t) => Some(t.clone()),
        None => None,
    }
}

impl View for AuthenticatedSession {
    type V = SessionView;

    open spec fn view(&self) -> SessionView {
        SessionView {
            access_token: self.access_token@,
            refresh_token: text_view(self.refresh_token),
            access_token_expires_at: self.access_token_expires_at,
        }
    }
}

impl AuthenticatedSession {
    /// A copy with the same tokens and expiry.
    pub fn copy(&self) -> (copy: Self)
        ensures
            copy@ == self@,
    {
        AuthenticatedSession {
            access_token: self.access_token.clone(),
            refresh_token: copy_text(&self.refresh_token),
            access_token_expires_at: self.access_token_expires_at,
        }
    }
}

/// Outcome of a change that only the owner of the refresh lock may make.
#[derive(Clone, Copy, Debug, PartialEq, Eq, Structural)]
pub enum RefreshOwnedMutation {
    /// The session was changed.
    Applied,
    /// There is no such session; nothing was changed.
    SessionMissing,
    /// The lock is not held by the caller; nothing was changed.
    OwnershipLost,
}

/// Random bytes in a session id and in an owner id.
pub const SESSION_ID_BYTES: u32 = 32;

/// Prefix of the key of a session.
pub const SESSION_KEY_PREFIX: &'static str = "rtp:bff:session:";

/// Prefix of the key of a refresh lock.
pub const REFRESH_LOCK_KEY_PREFIX: &'static str = "rtp:bff:refresh-lock:";

/// Name of the session cookie behind HTTPS.
pub const PROD_SESSION_COOKIE_NAME: &'static str = "__Host-Http-rtp_session";

/// Name of the session cookie on a loopback address.
pub const DEV_SESSION_COOKIE_NAME: &'static str = "rtp_session_dev";

/// Path of the session cookie.
pub const SESSION_COOKIE_PATH: &'static str = "/";

/// Draws the id of a new session.
pub fn new_session_id() -> (id: String)
    ensures
        encodes_bytes(id@, 32),
{
    random_token(SESSION_ID_BYTES)
}

/// Draws the value under which a request holds a refresh lock.
pub fn new_refresh_owner_id() -> (id: String)
    ensures
        encodes_bytes(id@, 32),
{
    random_token(SESSION_ID_BYTES)
}

/// Name of the session cookie.
pub open spec fn session_cookie_name_of(secure: bool) -> Seq<char> {
    if secure {
        PROD_SESSION_COOKIE_NAME@
    } else {
        DEV_SESSION_COOKIE_NAME@
    }
}

/// Name of the session cookie.
pub fn session_cookie_name(secure: bool) -> (name: &'static str)
    ensures
        name@ == session_cookie_name_of(secure),
        name@ == if secure {
            "__Host-Http-rtp_session"@
        } else {
            "rtp_session_dev"@
        },
{
    if secure {
        PROD_SESSION_COOKIE_NAME
    } else {
        DEV_SESSION_COOKIE_NAME
    }
}

/// The cookie that carries a session id, for a session that lives for `ttl` nanoseconds.
pub open spec fn session_cookie(session_id: Seq<char>, secure: bool, ttl: u128) -> SetCookieView {
    SetCookieView {
        name: session_cookie_name_of(secure),
        value: session_id,
        path: SESSION_COOKIE_PATH@,
        http_only: true,
        secure,
        same_site: SameSite::Strict,
        max_age: if ttl / 1_000_000_000 <= i64::MAX {
            (ttl / 1_000_000_000) as i64
        } else {
            i64::MAX
        },
    }
}

/// Builds the cookie that carries a session id.
pub fn build_session_cookie(session_id: String, secure: bool, ttl: u128) -> (cookie: SetCookie)
    ensures
        cookie@ == session_cookie(session_id@, secure, ttl),
        cookie.name@ == if secure {
            "__Host-Http-rtp_session"@
        } else {
            "rtp_session_dev"@
        },
        cookie.value@ == session_id@,
        cookie.path@ == "/"@,
        cookie.http_only,
        cookie.secure == secure,
        cookie.same_site == SameSite::Strict,
        cookie.max_age == 0x7fff_ffff_ffff_ffff || ttl < (cookie.max_age + 1) * 1_000_000_000,
        0 <= cookie.max_age * 1_000_000_000 <= ttl,
{
    let seconds: u128 = ttl / 1_000_000_000;
    let max_age: i64 = if seconds <= i64::MAX as u128 {
        seconds as i64
    } else {
        i64::MAX
    };
    SetCookie {
        name: session_cookie_name(secure).to_owned(),
        value: session_id,
        path: SESSION_COOKIE_PATH.to_owned(),
        http_only: true,
        secure,
        same_site: SameSite::Strict,
        max_age,
    }
}

/// The browser forgets a session cookie no later than the store forgets the session.
pub proof fn session_cookie_ends_with_session(session_id: Seq<char>, secure: bool, ttl: u128)
    ensures
        0 <= session_cookie(session_id, secure, ttl).max_age,
        session_cookie(session_id, secure, ttl).max_age * 1_000_000_000 <= ttl,
{
}

/// The latest time that the system clock can tell, in seconds from the Unix epoch.
pub const LAST_CLOCK_SECOND: i64 = i64::MAX;

/// Unix time at which an access token ends that was issued at `now` and lives for `expires_in`
/// seconds: none where the lifetime is unknown, or the end lies before the epoch or beyond what
/// the system clock can tell.
pub open spec fn expiry_from(now: int, expires_in: Option<u64>) -> Option<u64> {
    match expires_in {
        Some(seconds) if 0 <= now + seconds <= LAST_CLOCK_SECOND => Some((now + seconds) as u64),
        _ => None,
    }
}

/// Expiry of an access token that was issued when the clock showed `now`, in whole seconds from
/// the Unix epoch.
pub fn access_token_expiry_at(now: i128, expires_in: Option<u64>) -> (expiry: Option<u64>)
    ensures
        expiry == expiry_from(now as int, expires_in),
        expires_in is None ==> expiry is None,
        expires_in matches Some(seconds) ==> match expiry {
            Some(end) => end == now + seconds,
            None => now + seconds < 0 || now + seconds > 0x7fff_ffff_ffff_ffff,
        },
{
    match expires_in {
        Some(seconds) => match now.checked_add(seconds as i128) {
            Some(end) => {
                if 0 <= end && end <= LAST_CLOCK_SECOND as i128 {
                    Some(end as u64)
                } else {
                    None
                }
            },
            None => None,
        },
        None => None,
    }
}

/// Expiry of an access token that was issued just now. Where the provider gave no lifetime there
/// is none; else it depends on the clock.
pub fn access_token_expiry(expires_in: Option<u64>) -> (expiry: Option<u64>)
    ensures
        exists|now: int| can_be_shown(now) && expiry == #[trigger] expiry_from(now, expires_in),
        expires_in is None ==> expiry is None,
{
    let now: i128 = current_seconds();
    let expiry: Option<u64> = access_token_expiry_at(now, expires_in);
    assert(expiry == expiry_from(now as int, expires_in));
    expiry
}

/// Key under which a session is stored.
pub fn session_key(session_id: &str) -> (key: String)
    ensures
        key@ == SESSION_KEY_PREFIX@ + session_id@,
        key@ == "rtp:bff:session:"@ + session_id@,
{
    joined(SESSION_KEY_PREFIX, session_id)
}

/// Key under which the refresh lock of a session is stored.
pub fn refresh_lock_key(session_id: &str) -> (key: String)
    ensures
        key@ == REFRESH_LOCK_KEY_PREFIX@ + session_id@,
        key@ == "rtp:bff:refresh-lock:"@ + session_id@,
{
    joined(REFRESH_LOCK_KEY_PREFIX, session_id)
}

/// Different sessions are stored under different keys, and no key of a session is the key of a
/// refresh lock.
pub proof fn keys_do_not_collide(one: Seq<char>, other: Seq<char>)
    ensures
        SESSION_KEY_PREFIX@ + one == SESSION_KEY_PREFIX@ + other ==> one == other,
        REFRESH_LOCK_KEY_PREFIX@ + one == REFRESH_LOCK_KEY_PREFIX@ + other ==> one == other,
        SESSION_KEY_PREFIX@ + one != REFRESH_LOCK_KEY_PREFIX@ + other,
{
    same_prefix(SESSION_KEY_PREFIX@, one, other);
    same_prefix(REFRESH_LOCK_KEY_PREFIX@, one, other);
    reveal_strlit("rtp:bff:session:");
    reveal_strlit("rtp:bff:refresh-lock:");
    assert((SESSION_KEY_PREFIX@ + one)[8] == 's');
    assert((REFRESH_LOCK_KEY_PREFIX@ + other)[8] == 'r');
}

proof fn same_prefix(prefix: Seq<char>, one: Seq<char>, other: Seq<char>)
    ensures
        prefix + one == prefix + other ==> one == other,
{
    if prefix + one == prefix + other {
        assert((prefix + one).skip(prefix.len() as int) =~= one);
        assert((prefix + other).skip(prefix.len() as int) =~= other);
    }
}

/// A session is seen as it is: its tokens character by character, and its expiry.
pub proof fn session_is_seen_as_it_is(session: AuthenticatedSession, text: String)
    ensures
        session@.access_token == session.access_token@,
        session.refresh_token is None ==> session@.refresh_token is None,
        session.refresh_token matches Some(token) ==> session@.refresh_token == Some(token@),
        session@.access_token_expires_at == session.access_token_expires_at,
        text_view(Some(text)) == Some(text@),
        text_view(None) is None,
{
}

/// The session cookie: named for its mode, with the session id alone for its value, for the whole
/// host, out of reach of scripts, sent only from the site itself, over HTTPS only where the mode says
/// so, and for as many whole seconds as the session lives.
pub proof fn session_cookie_carries_the_id_alone(session_id: Seq<char>, secure: bool, ttl: u128)
    ensures
        ({
            let cookie = session_cookie(session_id, secure, ttl);
            &&& cookie.name == if secure {
                "__Host-Http-rtp_session"@
            } else {
                "rtp_session_dev"@
            }
            &&& cookie.value == session_id
            &&& cookie.path == "/"@
            &&& cookie.http_only
            &&& cookie.secure == secure
            &&& cookie.same_site == SameSite::Strict
            &&& ttl < 0x7fff_ffff_ffff_ffff * 1_000_000_000 ==> cookie.max_age * 1_000_000_000 <= ttl
                < (cookie.max_age + 1) * 1_000_000_000
        }),
{
}

/// The end of an access token: its lifetime after the moment it was issued. It is known exactly if
/// the provider gave a lifetime and the end lies neither before the epoch nor beyond what the
/// system clock can tell.
pub proof fn tokens_end_after_their_lifetime(now: int, lifetime: u64)
    ensures
        expiry_from(now, None) is None,
        0 <= now + lifetime <= 0x7fff_ffff_ffff_ffff ==> expiry_from(now, Some(lifetime)) == Some(
            (now + lifetime) as u64,
        ),
        now + lifetime < 0 || now + lifetime > 0x7fff_ffff_ffff_ffff ==> expiry_from(
            now,
            Some(lifetime),
        ) is None,
{
}

} // verus!
