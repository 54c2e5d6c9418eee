//! Session store in Redis: settings, the commands that go to the server, and what its replies
//! mean.
use super::{refresh_lock_key, session_key, AuthenticatedSession, RefreshOwnedMutation, SessionView};
use super::{text_view, REFRESH_LOCK_KEY_PREFIX, SESSION_KEY_PREFIX};
use crate::text::{is_blank, is_blank_text, parse_u64, parsed_u64};
use vstd::prelude::*;

verus! {

/// Writes the tokens of a refresh, for the owner of the lock only. Keys: session, lock.
pub const REFRESH_UPDATE_SCRIPT: &'static str = r#"
local lock_owner = redis.call('GET', KEYS[2])
if lock_owner ~= ARGV[1] then
    return -1
end

if redis.call('EXISTS', KEYS[1]) == 0 then
    return 0
end

redis.call(
    'HSET',
    KEYS[1],
    'access_token', ARGV[2],
    'refresh_token', ARGV[3],
    'access_token_expires_at', ARGV[4]
)
return 1
"#;

/// Ends a session, for the owner of the lock only. Keys: session, lock.
pub const REFRESH_INVALIDATE_SCRIPT: &'static str = r#"
local lock_owner = redis.call('GET', KEYS[2])
if lock_owner ~= ARGV[1] then
    return -1
end

if redis.call('EXISTS', KEYS[1]) == 0 then
    return 0
end

redis.call('DEL', KEYS[1])
return 1
"#;

/// Gives a lock back, for its owner only. Key: lock.
pub const REFRESH_LOCK_RELEASE_SCRIPT: &'static str = r#"
if redis.call('GET', KEYS[1]) == ARGV[1] then
    return redis.call('DEL', KEYS[1])
end
return 0
"#;

/// A command for a Redis server.
#[verifier::external_type_specification]
#[verifier::external_body]
pub struct ExCmd(redis::Cmd);

/// A row of commands for a Redis server.
#[verifier::external_type_specification]
#[verifier::external_body]
pub struct ExPipeline(redis::Pipeline);

/// The arguments of a command, its name first.
pub uninterp spec fn command_arguments(command: redis::Cmd) -> Seq<Seq<u8>>;

/// The commands of a pipeline, each by its arguments.
pub uninterp spec fn pipeline_commands(pipeline: redis::Pipeline) -> Seq<Seq<Seq<u8>>>;

/// The places of the commands whose replies a pipeline throws away.
pub uninterp spec fn pipeline_ignored(pipeline: redis::Pipeline) -> Set<int>;

/// Whether the server runs the commands of a pipeline as one transaction.
pub uninterp spec fn pipeline_is_atomic(pipeline: redis::Pipeline) -> bool;

/// The bytes of a text.
pub open spec fn bytes_of(text: Seq<char>) -> Seq<u8> {
    vstd::utf8::encode_utf8(text)
}

/// A number in decimal digits.
pub open spec fn decimal(number: nat) -> Seq<u8>
    decreases number,
{
    if number < 10 {
        seq![(48 + number) as u8]
    } else {
        decimal(number / 10).push((48 + number % 10) as u8)
    }
}

/// [`redis::cmd`]: a command that has only its name.
#[verifier::external_body]
pub(crate) fn command(name: &str) -> (command: redis::Cmd)
    ensures
        command_arguments(command) == seq![bytes_of(name@)],
{
    redis::cmd(name)
}

/// [`redis::Cmd::arg`] with a text: the bytes of the text follow as one argument.
#[verifier::external_body]
pub(crate) fn with_text(mut command: redis::Cmd, text: &str) -> (after: redis::Cmd)
    ensures
        command_arguments(after) == command_arguments(command).push(bytes_of(text@)),
{
    command.arg(text);
    command
}

/// [`redis::Cmd::arg`] with a number: its decimal digits follow as one argument.
#[verifier::external_body]
pub(crate) fn with_number(mut command: redis::Cmd, number: u64) -> (after: redis::Cmd)
    ensures
        command_arguments(after) == command_arguments(command).push(decimal(number as nat)),
{
    command.arg(number);
    command
}

/// [`redis::pipe`]: a pipeline without commands, which does not run as a transaction.
#[verifier::external_body]
pub(crate) fn empty_pipeline() -> (pipeline: redis::Pipeline)
    ensures
        pipeline_commands(pipeline) == Seq::<Seq<Seq<u8>>>::empty(),
        pipeline_ignored(pipeline) == Set::<int>::empty(),
        !pipeline_is_atomic(pipeline),
{
    redis::pipe()
}

/// [`redis::Pipeline::atomic`]: the commands run as one transaction.
#[verifier::external_body]
pub(crate) fn made_atomic(mut pipeline: redis::Pipeline) -> (after: redis::Pipeline)
    ensures
        pipeline_commands(after) == pipeline_commands(pipeline),
        pipeline_ignored(after) == pipeline_ignored(pipeline),
        pipeline_is_atomic(after),
{
    pipeline.atomic();
    pipeline
}

/// [`redis::Pipeline::add_command`]: the command follows those that are there.
#[verifier::external_body]
pub(crate) fn with_command(mut pipeline: redis::Pipeline, command: redis::Cmd) -> (after:
    redis::Pipeline)
    ensures
        pipeline_commands(after) == pipeline_commands(pipeline).push(command_arguments(command)),
        pipeline_ignored(after) == pipeline_ignored(pipeline),
        pipeline_is_atomic(after) == pipeline_is_atomic(pipeline),
{
    pipeline.add_command(command);
    pipeline
}

/// [`redis::Pipeline::ignore`]: the reply to the last command is thrown away. A pipeline without
/// commands stays as it is.
#[verifier::external_body]
pub(crate) fn last_ignored(mut pipeline: redis::Pipeline) -> (after: redis::Pipeline)
    ensures
        pipeline_commands(after) == pipeline_commands(pipeline),
        pipeline_ignored(after) == if pipeline_commands(pipeline).len() == 0 {
            pipeline_ignored(pipeline)
        } else {
            pipeline_ignored(pipeline).insert(pipeline_commands(pipeline).len() - 1)
        },
        pipeline_is_atomic(after) == pipeline_is_atomic(pipeline),
{
    pipeline.ignore();
    pipeline
}

/// The refresh token as it is stored: the empty text where there is none.
pub open spec fn stored_refresh_token(session: SessionView) -> Seq<char> {
    match session.refresh_token {
        Some(token) => token,
        None => Seq::empty(),
    }
}

/// The expiry as it is stored: zero where there is none.
pub open spec fn stored_expiry(session: SessionView) -> u64 {
    match session.access_token_expires_at {
        Some(expiry) => expiry,
        None => 0,
    }
}

fn refresh_token_field(session: &AuthenticatedSession) -> (token: &str)
    ensures
        token@ == stored_refresh_token(session@),
{
    match &session.refresh_token {
        Some(token) => token.as_str(),
        None => {
            proof {
                reveal_strlit("");
                assert(""@ =~= Seq::<char>::empty());
            }
            ""
        },
    }
}

fn expiry_field(session: &AuthenticatedSession) -> (expiry: u64)
    ensures
        expiry == stored_expiry(session@),
{
    match session.access_token_expires_at {
        Some(expiry) => expiry,
        None => 0,
    }
}

/// Key of a session, in bytes.
pub open spec fn session_key_bytes(session_id: Seq<char>) -> Seq<u8> {
    bytes_of(SESSION_KEY_PREFIX@ + session_id)
}

/// Key of the refresh lock of a session, in bytes.
pub open spec fn lock_key_bytes(session_id: Seq<char>) -> Seq<u8> {
    bytes_of(REFRESH_LOCK_KEY_PREFIX@ + session_id)
}

/// The commands that store a session: its three fields, and its lifetime.
pub open spec fn put_commands(ttl_seconds: u64, session_id: Seq<char>, session: SessionView)
    -> Seq<Seq<Seq<u8>>> {
    seq![
        seq![
            bytes_of("HSET"@),
            session_key_bytes(session_id),
            bytes_of("access_token"@),
            bytes_of(session.access_token),
            bytes_of("refresh_token"@),
            bytes_of(stored_refresh_token(session)),
            bytes_of("access_token_expires_at"@),
            decimal(stored_expiry(session) as nat),
        ],
        seq![bytes_of("EXPIRE"@), session_key_bytes(session_id), decimal(ttl_seconds as nat)],
    ]
}

/// Builds the transaction that stores a session for `ttl_seconds`.
pub fn redis_put(ttl_seconds: u64, session_id: &str, session: &AuthenticatedSession) -> (pipeline:
    redis::Pipeline)
    ensures
        pipeline_commands(pipeline) == put_commands(ttl_seconds, session_id@, session@),
        pipeline_ignored(pipeline) == set![0int, 1int],
        pipeline_is_atomic(pipeline),
{
    let key: String = session_key(session_id);
    let store: redis::Cmd = with_text(command("HSET"), key.as_str());
    let store: redis::Cmd = with_text(store, "access_token");
    let store: redis::Cmd = with_text(store, session.access_token.as_str());
    let store: redis::Cmd = with_text(store, "refresh_token");
    let store: redis::Cmd = with_text(store, refresh_token_field(session));
    let store: redis::Cmd = with_text(store, "access_token_expires_at");
    let store: redis::Cmd = with_number(store, expiry_field(session));
    let expire: redis::Cmd = with_text(command("EXPIRE"), key.as_str());
    let expire: redis::Cmd = with_number(expire, ttl_seconds);
    let pipeline: redis::Pipeline = made_atomic(empty_pipeline());
    let pipeline: redis::Pipeline = last_ignored(with_command(pipeline, store));
    let pipeline: redis::Pipeline = last_ignored(with_command(pipeline, expire));
    proof {
        let commands = put_commands(ttl_seconds, session_id@, session@);
        assert(command_arguments(store) =~= commands[0]);
        assert(command_arguments(expire) =~= commands[1]);
        assert(pipeline_commands(pipeline) =~= commands);
        assert(pipeline_ignored(pipeline) =~= set![0int, 1int]);
    }
    pipeline
}

/// The command that reads the fields of a session.
pub open spec fn get_command(session_id: Seq<char>) -> Seq<Seq<u8>> {
    seq![
        bytes_of("HMGET"@),
        session_key_bytes(session_id),
        bytes_of("access_token"@),
        bytes_of("refresh_token"@),
        bytes_of("access_token_expires_at"@),
    ]
}

/// Builds the command that reads the fields of a session.
pub fn redis_get(session_id: &str) -> (read: redis::Cmd)
    ensures
        command_arguments(read) == get_command(session_id@),
{
    let key: String = session_key(session_id);
    let read: redis::Cmd = with_text(command("HMGET"), key.as_str());
    let read: redis::Cmd = with_text(read, "access_token");
    let read: redis::Cmd = with_text(read, "refresh_token");
    let read: redis::Cmd = with_text(read, "access_token_expires_at");
    proof {
        assert(command_arguments(read) =~= get_command(session_id@));
    }
    read
}

/// The session that the stored fields stand for: none without an access token. An empty refresh
/// token and an expiry of zero stand for nothing.
pub open spec fn session_from_fields(
    access_token: Option<Seq<char>>,
    refresh_token: Option<Seq<char>>,
    access_token_expires_at: Option<u64>,
) -> Option<SessionView> {
    match access_token {
        None => None,
        Some(access_token) => Some(
            SessionView {
                access_token,
                refresh_token: match refresh_token {
                    Some(token) if token.len() > 0 => Some(token),
                    _ => None,
                },
                access_token_expires_at: match access_token_expires_at {
                    Some(expiry) if expiry != 0 => Some(expiry),
                    _ => None,
                },
            },
        ),
    }
}

/// Reads the reply to [`redis_get`].
pub fn session_of_fields(
    access_token: Option<String>,
    refresh_token: Option<String>,
    access_token_expires_at: Option<u64>,
) -> (session: Option<AuthenticatedSession>)
    ensures
        match session {
            Some(found) => session_from_fields(
                text_view(access_token),
                text_view(refresh_token),
                access_token_expires_at,
            ) == Some(found@),
            None => access_token is None,
        },
{
    let access_token: String = match access_token {
        Some(token) => token,
        None => return None,
    };
    let refresh_token: Option<String> = match refresh_token {
        Some(token) => {
            if token.as_str().unicode_len() > 0 {
                Some(token)
            } else {
                None
            }
        },
        None => None,
    };
    let access_token_expires_at: Option<u64> = match access_token_expires_at {
        Some(expiry) => {
            if expiry != 0 {
                Some(expiry)
            } else {
                None
            }
        },
        None => None,
    };
    Some(AuthenticatedSession { access_token, refresh_token, access_token_expires_at })
}

/// What was stored is what is read back: from the fields that a session is stored with, the same
/// session is read, unless its refresh token is an empty text or its expiry is zero.
pub proof fn stored_fields_round_trip(session: SessionView)
    requires
        session.refresh_token matches Some(token) ==> token.len() > 0,
        session.access_token_expires_at != Some(0u64),
    ensures
        session_from_fields(
            Some(session.access_token),
            Some(stored_refresh_token(session)),
            Some(stored_expiry(session)),
        ) == Some(session),
{
}

/// Lease of a lock in whole milliseconds; none where it is no positive `u64`.
pub open spec fn lease_millis(lease: u128) -> Option<u64> {
    if 0 < lease / 1_000_000 <= u64::MAX {
        Some((lease / 1_000_000) as u64)
    } else {
        None
    }
}

/// The command that takes a lock unless it is held.
pub open spec fn lock_command(session_id: Seq<char>, owner_id: Seq<char>, millis: u64) -> Seq<
    Seq<u8>,
> {
    seq![
        bytes_of("SET"@),
        lock_key_bytes(session_id),
        bytes_of(owner_id),
        bytes_of("NX"@),
        bytes_of("PX"@),
        decimal(millis as nat),
    ]
}

/// Builds the command that takes a refresh lock for `lease` nanoseconds. There is none where the
/// lease is shorter than a millisecond or too long to count in milliseconds.
pub fn redis_try_acquire_refresh_lock(session_id: &str, owner_id: &str, lease: u128) -> (outcome:
    Result<redis::Cmd, ()>)
    ensures
        match outcome {
            Ok(lock) => lease_millis(lease) is Some && command_arguments(lock) == lock_command(
                session_id@,
                owner_id@,
                lease_millis(lease)->Some_0,
            ),
            Err(_) => lease_millis(lease) is None,
        },
{
    let millis: u128 = lease / 1_000_000;
    if millis == 0 || millis > u64::MAX as u128 {
        return Err(());
    }
    let key: String = refresh_lock_key(session_id);
    let lock: redis::Cmd = with_text(command("SET"), key.as_str());
    let lock: redis::Cmd = with_text(lock, owner_id);
    let lock: redis::Cmd = with_text(lock, "NX");
    let lock: redis::Cmd = with_text(lock, "PX");
    let lock: redis::Cmd = with_number(lock, millis as u64);
    proof {
        assert(command_arguments(lock) =~= lock_command(session_id@, owner_id@, millis as u64));
    }
    Ok(lock)
}

/// Reads the reply to [`redis_try_acquire_refresh_lock`]: the server says nothing if the lock was
/// held.
pub fn lock_was_acquired(reply: Option<String>) -> (acquired: bool)
    ensures
        acquired == (reply is Some),
{
    reply.is_some()
}

/// The command that runs a script on a number of keys.
pub open spec fn script_command(script: Seq<char>, keys: Seq<Seq<u8>>, arguments: Seq<Seq<u8>>)
    -> Seq<Seq<u8>> {
    seq![bytes_of("EVAL"@), bytes_of(script), decimal(keys.len())] + keys + arguments
}

/// Builds the command that gives a refresh lock back.
pub fn redis_release_refresh_lock(session_id: &str, owner_id: &str) -> (release: redis::Cmd)
    ensures
        command_arguments(release) == script_command(
            REFRESH_LOCK_RELEASE_SCRIPT@,
            seq![lock_key_bytes(session_id@)],
            seq![bytes_of(owner_id@)],
        ),
{
    let key: String = refresh_lock_key(session_id);
    let release: redis::Cmd = with_text(command("EVAL"), REFRESH_LOCK_RELEASE_SCRIPT);
    let release: redis::Cmd = with_number(release, 1);
    let release: redis::Cmd = with_text(release, key.as_str());
    let release: redis::Cmd = with_text(release, owner_id);
    proof {
        assert(command_arguments(release) =~= script_command(
            REFRESH_LOCK_RELEASE_SCRIPT@,
            seq![lock_key_bytes(session_id@)],
            seq![bytes_of(owner_id@)],
        ));
    }
    release
}

/// Reads the reply to [`redis_release_refresh_lock`]: the number of locks that went.
pub fn lock_was_released(deleted: i64) -> (released: bool)
    ensures
        released == (deleted == 1),
{
    deleted == 1
}

/// Builds the command that writes the tokens of a refresh.
pub fn redis_update_after_refresh(
    session_id: &str,
    owner_id: &str,
    session: &AuthenticatedSession,
) -> (update: redis::Cmd)
    ensures
        command_arguments(update) == script_command(
            REFRESH_UPDATE_SCRIPT@,
            seq![session_key_bytes(session_id@), lock_key_bytes(session_id@)],
            seq![
                bytes_of(owner_id@),
                bytes_of(session@.access_token),
                bytes_of(stored_refresh_token(session@)),
                decimal(stored_expiry(session@) as nat),
            ],
        ),
{
    let session_key: String = session_key(session_id);
    let lock_key: String = refresh_lock_key(session_id);
    let update: redis::Cmd = with_text(command("EVAL"), REFRESH_UPDATE_SCRIPT);
    let update: redis::Cmd = with_number(update, 2);
    let update: redis::Cmd = with_text(update, session_key.as_str());
    let update: redis::Cmd = with_text(update, lock_key.as_str());
    let update: redis::Cmd = with_text(update, owner_id);
    let update: redis::Cmd = with_text(update, session.access_token.as_str());
    let update: redis::Cmd = with_text(update, refresh_token_field(session));
    let update: redis::Cmd = with_number(update, expiry_field(session));
    proof {
        assert(command_arguments(update) =~= script_command(
            REFRESH_UPDATE_SCRIPT@,
            seq![session_key_bytes(session_id@), lock_key_bytes(session_id@)],
            seq![
                bytes_of(owner_id@),
                bytes_of(session@.access_token),
                bytes_of(stored_refresh_token(session@)),
                decimal(stored_expiry(session@) as nat),
            ],
        ));
    }
    update
}

/// Builds the command that ends a session.
pub fn redis_invalidate_for_refresh(session_id: &str, owner_id: &str) -> (invalidate: redis::Cmd)
    ensures
        command_arguments(invalidate) == script_command(
            REFRESH_INVALIDATE_SCRIPT@,
            seq![session_key_bytes(session_id@), lock_key_bytes(session_id@)],
            seq![bytes_of(owner_id@)],
        ),
{
    let session_key: String = session_key(session_id);
    let lock_key: String = refresh_lock_key(session_id);
    let invalidate: redis::Cmd = with_text(command("EVAL"), REFRESH_INVALIDATE_SCRIPT);
    let invalidate: redis::Cmd = with_number(invalidate, 2);
    let invalidate: redis::Cmd = with_text(invalidate, session_key.as_str());
    let invalidate: redis::Cmd = with_text(invalidate, lock_key.as_str());
    let invalidate: redis::Cmd = with_text(invalidate, owner_id);
    proof {
        assert(command_arguments(invalidate) =~= script_command(
            REFRESH_INVALIDATE_SCRIPT@,
            seq![session_key_bytes(session_id@), lock_key_bytes(session_id@)],
            seq![bytes_of(owner_id@)],
        ));
    }
    invalidate
}

/// What the number that a script returns says.
pub open spec fn mutation_of(reply: i64) -> Result<RefreshOwnedMutation, ()> {
    if reply == 1 {
        Ok(RefreshOwnedMutation::Applied)
    } else if reply == 0 {
        Ok(RefreshOwnedMutation::SessionMissing)
    } else if reply == -1 {
        Ok(RefreshOwnedMutation::OwnershipLost)
    } else {
        Err(())
    }
}

/// Reads the reply to [`redis_update_after_refresh`] and [`redis_invalidate_for_refresh`].
pub fn refresh_mutation(reply: i64) -> (mutation: Result<RefreshOwnedMutation, ()>)
    ensures
        mutation == mutation_of(reply),
{
    match reply {
        1 => Ok(RefreshOwnedMutation::Applied),
        0 => Ok(RefreshOwnedMutation::SessionMissing),
        -1 => Ok(RefreshOwnedMutation::OwnershipLost),
        _ => Err(()),
    }
}

/// A client of a Redis server.
#[verifier::external_type_specification]
#[verifier::external_body]
pub struct ExClient(redis::Client);

/// Why a Redis operation failed.
#[verifier::external_type_specification]
#[verifier::external_body]
pub struct ExRedisError(redis::RedisError);

/// The client that [`redis::Client::open`] makes for a URL.
pub uninterp spec fn opened_client(url: Seq<char>) -> Option<redis::Client>;

/// [`redis::Client::open`]: the client for the server at the URL, without a connection yet; an error
/// where the URL is of another form than Redis URLs have.
#[verifier::external_body]
pub(crate) fn open_client(url: &str) -> (client: Result<redis::Client, redis::RedisError>)
    ensures
        client is Ok <==> opened_client(url@) is Some,
        client matches Ok(made) ==> opened_client(url@) == Some(made),
{
    redis::Client::open(url)
}

/// Environment variable with the URL of the server.
pub const REDIS_URL_ENV: &'static str = "RTP_REDIS_URL";

/// Environment variable with the lifetime of a session in seconds.
pub const SESSION_TTL_SECONDS_ENV: &'static str = "RTP_BFF_SESSION_TTL_SECONDS";

/// Complaint about a missing URL.
pub const REDIS_URL_REQUIRED: &'static str = "RTP_REDIS_URL is required";

/// Complaint about a blank URL.
pub const REDIS_URL_EMPTY: &'static str = "RTP_REDIS_URL must not be empty";

/// Complaint about a missing lifetime.
pub const SESSION_TTL_REQUIRED: &'static str = "RTP_BFF_SESSION_TTL_SECONDS is required";

/// Complaint about a lifetime that is no number.
pub const SESSION_TTL_NO_INTEGER: &'static str =
    "RTP_BFF_SESSION_TTL_SECONDS must be a positive integer";

/// Complaint about a lifetime that is zero or too long.
pub const SESSION_TTL_OUT_OF_RANGE: &'static str =
    "RTP_BFF_SESSION_TTL_SECONDS must be between 1 and 9223372036854775807";

/// Complaint about a URL that is none of a Redis server.
pub const REDIS_URL_INVALID: &'static str = "Redis URL is invalid";

/// Bound on connecting to the server, in seconds.
pub const REDIS_CONNECT_TIMEOUT_SECONDS: u64 = 2;

/// Bound on a reply of the server, in seconds.
pub const REDIS_RESPONSE_TIMEOUT_SECONDS: u64 = 2;

/// Settings of the store.
pub struct StoreSettings {
    pub redis_url: String,
    /// Lifetime of a session in seconds.
    pub ttl_seconds: u64,
}

/// What is wrong with the values that settings are made of; the first complaint counts.
pub open spec fn settings_complaint(
    redis_url: Option<Seq<char>>,
    ttl_seconds: Option<Seq<char>>,
) -> Option<Seq<char>> {
    match redis_url {
        None => Some(REDIS_URL_REQUIRED@),
        Some(url) => if is_blank_text(url) {
            Some(REDIS_URL_EMPTY@)
        } else {
            match ttl_seconds {
                None => Some(SESSION_TTL_REQUIRED@),
                Some(text) => match parsed_u64(text) {
                    None => Some(SESSION_TTL_NO_INTEGER@),
                    Some(seconds) => if 1 <= seconds <= i64::MAX {
                        None
                    } else {
                        Some(SESSION_TTL_OUT_OF_RANGE@)
                    },
                },
            }
        },
    }
}

impl StoreSettings {
    /// Makes settings of the values of the two environment variables.
    pub fn from_values(redis_url: Option<String>, ttl_seconds: Option<String>) -> (settings: Result<
        Self,
        String,
    >)
        ensures
            match settings {
                Ok(made) => {
                    &&& settings_complaint(text_view(redis_url), text_view(ttl_seconds)) is None
                    &&& Some(made.redis_url@) == text_view(redis_url)
                    &&& Some(made.ttl_seconds) == parsed_u64(ttl_seconds->Some_0@)
                    &&& 1 <= made.ttl_seconds <= i64::MAX
                },
                Err(message) => settings_complaint(text_view(redis_url), text_view(ttl_seconds))
                    == Some(message@),
            },
    {
        let redis_url: String = match redis_url {
            Some(url) => url,
            None => return Err(REDIS_URL_REQUIRED.to_owned()),
        };
        if is_blank(redis_url.as_str()) {
            return Err(REDIS_URL_EMPTY.to_owned());
        }
        let ttl_text: String = match ttl_seconds {
            Some(text) => text,
            None => return Err(SESSION_TTL_REQUIRED.to_owned()),
        };
        let ttl_seconds: u64 = match parse_u64(ttl_text.as_str()) {
            Some(seconds) => seconds,
            None => return Err(SESSION_TTL_NO_INTEGER.to_owned()),
        };
        if ttl_seconds == 0 || ttl_seconds > i64::MAX as u64 {
            return Err(SESSION_TTL_OUT_OF_RANGE.to_owned());
        }
        Ok(StoreSettings { redis_url, ttl_seconds })
    }

    /// Makes the client for the server, without a connection yet.
    pub fn redis_client(&self) -> (client: Result<redis::Client, String>)
        ensures
            match client {
                Ok(made) => opened_client(self.redis_url@) == Some(made),
                Err(message) => opened_client(self.redis_url@) is None && message@
                    == REDIS_URL_INVALID@,
            },
    {
        match open_client(self.redis_url.as_str()) {
            Ok(client) => Ok(client),
            Err(_) => Err(REDIS_URL_INVALID.to_owned()),
        }
    }
}

} // verus!
