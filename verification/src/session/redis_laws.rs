//! What holds of every session that is kept in Redis: what is written is what is read.
use super::redis_store::{
    bytes_of, decimal, get_command, lease_millis, lock_command, lock_key_bytes, mutation_of,
    put_commands, script_command, session_from_fields, session_key_bytes, settings_complaint,
    stored_expiry, stored_refresh_token, REFRESH_INVALIDATE_SCRIPT, REFRESH_LOCK_RELEASE_SCRIPT,
    REFRESH_UPDATE_SCRIPT,
};
use super::{RefreshOwnedMutation, SessionView};
use crate::text::{is_blank_text, numbers_grow_by_digits, parsed_u64};
use vstd::prelude::*;

verus! {

/// Whether a command gives a value to a field: the pairs of fields and values follow the name of the
/// command and the key.
pub open spec fn sets_field(command: Seq<Seq<u8>>, field: Seq<char>, value: Seq<u8>) -> bool {
    exists|pair: int| #[trigger] is_pair(command, pair, field, value)
}

/// Whether the field and the value are a pair of a command, counted from one.
pub open spec fn is_pair(
    command: Seq<Seq<u8>>,
    pair: int,
    field: Seq<char>,
    value: Seq<u8>,
) -> bool {
    &&& 1 <= pair
    &&& 2 * pair + 1 < command.len()
    &&& command[2 * pair] == vstd::utf8::encode_utf8(field)
    &&& command[2 * pair + 1] == value
}

/// Different texts have different bytes.
pub proof fn bytes_tell_texts_apart(one: Seq<char>, other: Seq<char>)
    ensures
        bytes_of(one) == vstd::utf8::encode_utf8(one),
        bytes_of(one) == bytes_of(other) ==> one == other,
{
    vstd::utf8::encode_utf8_decode_utf8(one);
    vstd::utf8::encode_utf8_decode_utf8(other);
}

/// Numbers are written digit by digit: a number below ten as one digit, and a larger one as its
/// tenth with one more digit behind it.
pub proof fn numbers_are_written_by_digits(number: nat, digit: nat)
    requires
        digit < 10,
    ensures
        decimal(digit) == seq![(48 + digit) as u8],
        number > 0 ==> decimal(10 * number + digit) == decimal(number).push((48 + digit) as u8),
        decimal(number).len() > 0,
{
    if number > 0 {
        let whole = 10 * number + digit;
        assert(whole / 10 == number);
        assert(whole % 10 == digit);
    }
}

/// Different numbers are written differently.
pub proof fn digits_tell_numbers_apart(one: nat, other: nat)
    ensures
        decimal(one) == decimal(other) ==> one == other,
    decreases one,
{
    if decimal(one) == decimal(other) {
        decimal_is_not_empty(one / 10);
        decimal_is_not_empty(other / 10);
        let left = decimal(one);
        let right = decimal(other);
        if one < 10 {
            assert(left.len() == 1);
            if other >= 10 {
                assert(right.len() == decimal(other / 10).len() + 1);
            } else {
                assert(left[0] == right[0]);
            }
        } else if other < 10 {
            assert(left.len() == decimal(one / 10).len() + 1);
        } else {
            assert(left.drop_last() =~= decimal(one / 10));
            assert(right.drop_last() =~= decimal(other / 10));
            digits_tell_numbers_apart(one / 10, other / 10);
            assert(left.last() == (48 + one % 10) as u8);
            assert(right.last() == (48 + other % 10) as u8);
        }
    }
}

proof fn decimal_is_not_empty(number: nat)
    ensures
        decimal(number).len() > 0,
{
}

/// ASCII bytes as a text.
pub open spec fn as_text(digits: Seq<u8>) -> Seq<char> {
    digits.map_values(|digit: u8| digit as char)
}

/// What is written as a number is read as the same number.
pub proof fn written_numbers_are_read(number: u64)
    ensures
        parsed_u64(as_text(decimal(number as nat))) == Some(number),
    decreases number,
{
    let text = as_text(decimal(number as nat));
    let digit = (48 + number % 10) as u8;
    if number < 10 {
        numbers_grow_by_digits(Seq::empty(), digit as char);
        assert(text =~= seq![digit as char]);
    } else {
        written_numbers_are_read(number / 10);
        let tenth = as_text(decimal((number / 10) as nat));
        assert(text =~= tenth.push(digit as char));
        numbers_grow_by_digits(tenth, digit as char);
    }
}

/// A session is written whole, under its key: every character of its access token and of its refresh
/// token, its expiry in digits, and its lifetime. What is absent is written as an empty text and as
/// zero.
pub proof fn session_is_written_whole(ttl_seconds: u64, session_id: Seq<char>, session: SessionView)
    ensures
        ({
            let commands = put_commands(ttl_seconds, session_id, session);
            let write = commands[0];
            let expire = commands[1];
            let key = vstd::utf8::encode_utf8("rtp:bff:session:"@ + session_id);
            &&& commands.len() == 2
            &&& write.len() == 8
            &&& write[0] == vstd::utf8::encode_utf8("HSET"@)
            &&& write[1] == key
            &&& sets_field(
                write,
                "access_token"@,
                vstd::utf8::encode_utf8(session.access_token),
            )
            &&& session.refresh_token matches Some(token) ==> sets_field(
                write,
                "refresh_token"@,
                vstd::utf8::encode_utf8(token),
            )
            &&& session.refresh_token is None ==> sets_field(
                write,
                "refresh_token"@,
                Seq::<u8>::empty(),
            )
            &&& session.access_token_expires_at matches Some(expiry) ==> sets_field(
                write,
                "access_token_expires_at"@,
                decimal(expiry as nat),
            )
            &&& session.access_token_expires_at is None ==> sets_field(
                write,
                "access_token_expires_at"@,
                decimal(0),
            )
            &&& expire.len() == 3
            &&& expire[0] == vstd::utf8::encode_utf8("EXPIRE"@)
            &&& expire[1] == key
            &&& expire[2] == decimal(ttl_seconds as nat)
        }),
{
    let write = put_commands(ttl_seconds, session_id, session)[0];
    assert(is_pair(write, 1, "access_token"@, write[3]));
    assert(is_pair(write, 2, "refresh_token"@, write[5]));
    assert(is_pair(write, 3, "access_token_expires_at"@, write[7]));
    assert(vstd::utf8::encode_utf8(Seq::<char>::empty()) =~= Seq::<u8>::empty());
}

proof fn field_names_differ()
    ensures
        vstd::utf8::encode_utf8("access_token"@) != vstd::utf8::encode_utf8("refresh_token"@),
        vstd::utf8::encode_utf8("access_token"@) != vstd::utf8::encode_utf8(
            "access_token_expires_at"@,
        ),
        vstd::utf8::encode_utf8("refresh_token"@) != vstd::utf8::encode_utf8(
            "access_token_expires_at"@,
        ),
{
    reveal_strlit("access_token");
    reveal_strlit("refresh_token");
    reveal_strlit("access_token_expires_at");
    bytes_tell_texts_apart("access_token"@, "refresh_token"@);
    bytes_tell_texts_apart("access_token"@, "access_token_expires_at"@);
    bytes_tell_texts_apart("refresh_token"@, "access_token_expires_at"@);
    assert("access_token"@.len() == 12);
    assert("refresh_token"@.len() == 13);
    assert("access_token_expires_at"@.len() == 23);
}

/// What is written is what is read: from whatever texts and number have the bytes that the fields
/// were written with, the very session is read again, unless its refresh token is an empty text or
/// its expiry is zero.
pub proof fn written_session_is_read(
    ttl_seconds: u64,
    session_id: Seq<char>,
    session: SessionView,
    access_token: Seq<char>,
    refresh_token: Seq<char>,
    expiry: u64,
)
    requires
        session.refresh_token matches Some(token) ==> token.len() > 0,
        session.access_token_expires_at != Some(0u64),
        sets_field(
            put_commands(ttl_seconds, session_id, session)[0],
            "access_token"@,
            vstd::utf8::encode_utf8(access_token),
        ),
        sets_field(
            put_commands(ttl_seconds, session_id, session)[0],
            "refresh_token"@,
            vstd::utf8::encode_utf8(refresh_token),
        ),
        sets_field(
            put_commands(ttl_seconds, session_id, session)[0],
            "access_token_expires_at"@,
            decimal(expiry as nat),
        ),
    ensures
        session_from_fields(Some(access_token), Some(refresh_token), Some(expiry)) == Some(session),
{
    let write = put_commands(ttl_seconds, session_id, session)[0];
    field_names_differ();
    let i = choose|pair: int| #[trigger]
        is_pair(write, pair, "access_token"@, vstd::utf8::encode_utf8(access_token));
    assert(i == 1 || i == 2 || i == 3);
    bytes_tell_texts_apart(access_token, session.access_token);
    let j = choose|pair: int| #[trigger]
        is_pair(write, pair, "refresh_token"@, vstd::utf8::encode_utf8(refresh_token));
    assert(j == 1 || j == 2 || j == 3);
    bytes_tell_texts_apart(refresh_token, stored_refresh_token(session));
    let k = choose|pair: int| #[trigger]
        is_pair(write, pair, "access_token_expires_at"@, decimal(expiry as nat));
    assert(k == 1 || k == 2 || k == 3);
    digits_tell_numbers_apart(expiry as nat, stored_expiry(session) as nat);
}

/// A session is read from the key and the fields that it is written to, the fields in the order in
/// which they are taken in.
pub proof fn session_is_read_where_it_is_written(
    ttl_seconds: u64,
    session_id: Seq<char>,
    session: SessionView,
)
    ensures
        ({
            let write = put_commands(ttl_seconds, session_id, session)[0];
            let read = get_command(session_id);
            &&& read.len() == 5
            &&& read[0] == vstd::utf8::encode_utf8("HMGET"@)
            &&& read[1] == write[1]
            &&& read[2] == write[2]
            &&& read[3] == write[4]
            &&& read[4] == write[6]
            &&& read[2] == vstd::utf8::encode_utf8("access_token"@)
            &&& read[3] == vstd::utf8::encode_utf8("refresh_token"@)
            &&& read[4] == vstd::utf8::encode_utf8("access_token_expires_at"@)
        }),
{
}

/// What fields stand for: there is a session exactly if there is an access token, which is its own
/// whatever it holds; its refresh token is the one that is there and not empty, and its expiry the
/// one that is there and not zero.
pub proof fn fields_stand_for_a_session(
    access_token: Seq<char>,
    refresh_token: Option<Seq<char>>,
    expiry: Option<u64>,
)
    ensures
        session_from_fields(None, refresh_token, expiry) is None,
        session_from_fields(Some(access_token), refresh_token, expiry) is Some,
        session_from_fields(Some(access_token), refresh_token, expiry)->Some_0.access_token
            == access_token,
        ({
            let read = session_from_fields(Some(access_token), refresh_token, expiry)->Some_0;
            &&& refresh_token matches Some(token) ==> (if token.len() > 0 {
                read.refresh_token == Some(token)
            } else {
                read.refresh_token is None
            })
            &&& refresh_token is None ==> read.refresh_token is None
            &&& expiry matches Some(end) ==> (if end > 0 {
                read.access_token_expires_at == Some(end)
            } else {
                read.access_token_expires_at is None
            })
            &&& expiry is None ==> read.access_token_expires_at is None
        }),
{
}

/// A refresh writes the same values as a sign-in would, and what it writes is read as the same
/// session.
pub proof fn refresh_writes_as_sign_in_does(
    ttl_seconds: u64,
    session_id: Seq<char>,
    session: SessionView,
)
    ensures
        ({
            let write = put_commands(ttl_seconds, session_id, session)[0];
            &&& write[3] == bytes_of(session.access_token)
            &&& write[5] == bytes_of(stored_refresh_token(session))
            &&& write[7] == decimal(stored_expiry(session) as nat)
            &&& write[1] == session_key_bytes(session_id)
            &&& session.refresh_token matches Some(token) ==> stored_refresh_token(session) == token
            &&& session.refresh_token is None ==> stored_refresh_token(session).len() == 0
            &&& session.access_token_expires_at matches Some(end) ==> stored_expiry(session) == end
            &&& session.access_token_expires_at is None ==> stored_expiry(session) == 0
        }),
{
}

/// A script runs with its keys before its arguments, each in its place, and is told how many keys
/// there are.
pub proof fn scripts_get_keys_and_arguments(
    script: Seq<char>,
    keys: Seq<Seq<u8>>,
    arguments: Seq<Seq<u8>>,
)
    ensures
        ({
            let command = script_command(script, keys, arguments);
            &&& command.len() == 3 + keys.len() + arguments.len()
            &&& command[0] == vstd::utf8::encode_utf8("EVAL"@)
            &&& command[1] == vstd::utf8::encode_utf8(script)
            &&& command[2] == decimal(keys.len())
            &&& forall|i: int| 0 <= i < keys.len() ==> command[3 + i] == #[trigger] keys[i]
            &&& forall|i: int|
                0 <= i < arguments.len() ==> command[3 + keys.len() + i] == #[trigger] arguments[i]
        }),
{
}

/// A lock is taken under the key of its session and the id of its owner, only if it is free, and for
/// the whole milliseconds of its lease; there has to be one at least, and no more than 64 bits hold.
pub proof fn locks_are_taken_for_their_lease(
    session_id: Seq<char>,
    owner_id: Seq<char>,
    lease: u128,
    millis: u64,
)
    ensures
        lease_millis(lease) == Some(millis) <==> 1 <= millis && millis * 1_000_000 <= lease < (millis
            + 1) * 1_000_000,
        lease_millis(lease) is None <==> lease < 1_000_000 || lease >= 0x1_0000_0000_0000_0000
            * 1_000_000,
        lock_command(session_id, owner_id, millis).len() == 6,
        lock_command(session_id, owner_id, millis)[0] == vstd::utf8::encode_utf8("SET"@),
        lock_command(session_id, owner_id, millis)[1] == vstd::utf8::encode_utf8(
            "rtp:bff:refresh-lock:"@ + session_id,
        ),
        lock_command(session_id, owner_id, millis)[2] == vstd::utf8::encode_utf8(owner_id),
        lock_command(session_id, owner_id, millis)[3] == vstd::utf8::encode_utf8("NX"@),
        lock_command(session_id, owner_id, millis)[4] == vstd::utf8::encode_utf8("PX"@),
        lock_command(session_id, owner_id, millis)[5] == decimal(millis as nat),
        lock_key_bytes(session_id) == vstd::utf8::encode_utf8("rtp:bff:refresh-lock:"@ + session_id),
        session_key_bytes(session_id) == vstd::utf8::encode_utf8("rtp:bff:session:"@ + session_id),
{
}

/// A script says one for a change, zero for a missing session and minus one for a lost lock; every
/// other number is a failure.
pub proof fn script_replies_have_one_meaning(reply: i64)
    ensures
        mutation_of(reply) == Ok::<RefreshOwnedMutation, ()>(RefreshOwnedMutation::Applied) <==> reply
            == 1,
        mutation_of(reply) == Ok::<RefreshOwnedMutation, ()>(RefreshOwnedMutation::SessionMissing)
            <==> reply == 0,
        mutation_of(reply) == Ok::<RefreshOwnedMutation, ()>(RefreshOwnedMutation::OwnershipLost)
            <==> reply == -1,
        mutation_of(reply) is Err <==> reply < -1 || reply > 1,
{
}

/// Settings are in order exactly if the URL is not blank and the lifetime is a number from 1 to the
/// largest of 63 bits. Else the first fault is named.
pub proof fn settings_are_in_order(url: Seq<char>, ttl: Seq<char>, any: Option<Seq<char>>)
    ensures
        settings_complaint(None, any) == Some("RTP_REDIS_URL is required"@),
        is_blank_text(url) ==> settings_complaint(Some(url), any) == Some(
            "RTP_REDIS_URL must not be empty"@,
        ),
        !is_blank_text(url) ==> settings_complaint(Some(url), None) == Some(
            "RTP_BFF_SESSION_TTL_SECONDS is required"@,
        ),
        !is_blank_text(url) && parsed_u64(ttl) is None ==> settings_complaint(Some(url), Some(ttl))
            == Some("RTP_BFF_SESSION_TTL_SECONDS must be a positive integer"@),
        !is_blank_text(url) && (parsed_u64(ttl) matches Some(seconds) && (seconds < 1 || seconds
            > 0x7fff_ffff_ffff_ffff)) ==> settings_complaint(Some(url), Some(ttl)) == Some(
            "RTP_BFF_SESSION_TTL_SECONDS must be between 1 and 9223372036854775807"@,
        ),
        !is_blank_text(url) && (parsed_u64(ttl) matches Some(seconds) && 1 <= seconds
            <= 0x7fff_ffff_ffff_ffff) ==> settings_complaint(Some(url), Some(ttl)) is None,
{
}

/// The scripts in full. A write and an invalidation first look for the owner of the lock and then for
/// the session, and touch nothing where one is missing; a write sets the three fields and leaves the
/// lifetime; an invalidation deletes the session; a release deletes the lock of its owner only.
pub proof fn scripts_look_for_the_owner_first()
    ensures
        REFRESH_UPDATE_SCRIPT@ == r#"
local lock_owner = redis.call('GET', KEYS[2])
if lock_owner ~= ARGV[1] then
    return -1
end

if redis.call('EXISTS', KEYS[1]) == 0 then
    return 0
end

redis.call(
    'HSET',
    KEYS[1],
    'access_token', ARGV[2],
    'refresh_token', ARGV[3],
    'access_token_expires_at', ARGV[4]
)
return 1
"#@,
        REFRESH_INVALIDATE_SCRIPT@ == r#"
local lock_owner = redis.call('GET', KEYS[2])
if lock_owner ~= ARGV[1] then
    return -1
end

if redis.call('EXISTS', KEYS[1]) == 0 then
    return 0
end

redis.call('DEL', KEYS[1])
return 1
"#@,
        REFRESH_LOCK_RELEASE_SCRIPT@ == r#"
if redis.call('GET', KEYS[1]) == ARGV[1] then
    return redis.call('DEL', KEYS[1])
end
return 0
"#@,
{
}

} // verus!
