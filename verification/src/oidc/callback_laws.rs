//! What holds of the handling of every browser that came back, from its first step to its last.
use super::callback::{
    after_code_exchange, after_first_verdict, after_key_refresh, after_metadata,
    after_second_verdict, after_taking, jar_of, metadata_view, parameter, response_of, session_step,
    stored_response, AuthorizationResponse, CallbackStep, CallbackView, CodeExchangeReply,
    CodeExchangeView, IssuedTokens, Redemption, RedemptionView, TokensView,
};
use super::provider::{IdTokenVerdict, MetadataView, ProviderMetadata};
use super::transaction::TransactionView;
use crate::cookies::{sets_cookie, shown_cookie};
use crate::digest::{hex_text, sha256};
use crate::session::{expiry_from, session_cookie, text_view};
use crate::status::StatusCode;
use axum_extra::extract::cookie::CookieJar;
use vstd::prelude::*;

verus! {

/// What came back from the work that a step asks for.
pub enum CallbackReply {
    /// From asking for the provider's metadata.
    Metadata(Result<MetadataView, StatusCode>),
    /// From the exchange of the code.
    Exchange(CodeExchangeView),
    /// From a verification.
    Verdict(IdTokenVerdict),
    /// From drawing a session id and counting the expiry.
    Session { session_id: Seq<char>, access_token_expires_at: Option<u64> },
    /// From the store, in which a session lives for `ttl` nanoseconds.
    Stored { reply: Result<(), ()>, secure: bool, ttl: u128 },
}

/// Whether a step, a reply and the step after it go together: the reply is of the kind that the
/// step waits for, and the step after it is what the methods of the step give.
pub open spec fn follows(step: CallbackView, reply: CallbackReply, after: CallbackView) -> bool {
    match (step, reply) {
        (
            CallbackView::ResolveMetadata { jar, redemption },
            CallbackReply::Metadata(metadata),
        ) => after == after_metadata(jar, redemption, metadata),
        (
            CallbackView::ExchangeCode { jar, redemption, metadata },
            CallbackReply::Exchange(exchange),
        ) => after == after_code_exchange(jar, redemption.nonce, metadata, exchange),
        (
            CallbackView::Verify { jar, nonce, id_token, metadata, tokens },
            CallbackReply::Verdict(verdict),
        ) => after == after_first_verdict(jar, nonce, id_token, tokens, verdict),
        (
            CallbackView::RefreshKeys { jar, nonce, id_token, tokens },
            CallbackReply::Metadata(metadata),
        ) => after == after_key_refresh(jar, nonce, id_token, tokens, metadata),
        (
            CallbackView::VerifyAgain { jar, nonce, id_token, metadata, tokens },
            CallbackReply::Verdict(verdict),
        ) => after == after_second_verdict(jar, tokens, verdict),
        (
            CallbackView::StartSession { jar, tokens },
            CallbackReply::Session { session_id, access_token_expires_at },
        ) => after == session_step(jar, tokens, session_id, access_token_expires_at),
        (
            CallbackView::StoreSession { jar, session_id, session },
            CallbackReply::Stored { reply, secure, ttl },
        ) => after matches CallbackView::Finished { jar: answered, status } && stored_response(
            jar,
            session_id,
            secure,
            ttl,
            reply,
            answered,
            status,
        ),
        _ => false,
    }
}

/// Whether `steps`, with a reply between each and the next, handle a browser that came back, from
/// the taking of its transaction on.
pub open spec fn is_handling(
    steps: Seq<CallbackView>,
    replies: Seq<CallbackReply>,
    jar: CookieJar,
    redemption: RedemptionView,
) -> bool {
    &&& steps.len() == replies.len() + 1
    &&& steps[0] == CallbackView::ResolveMetadata { jar, redemption }
    &&& forall|i: int|
        #![trigger replies[i]]
        0 <= i < replies.len() ==> follows(steps[i], replies[i], steps[i + 1])
}

spec fn rank(step: CallbackView) -> int {
    match step {
        CallbackView::ResolveMetadata { .. } => 0,
        CallbackView::ExchangeCode { .. } => 1,
        CallbackView::Verify { .. } => 2,
        CallbackView::RefreshKeys { .. } => 3,
        CallbackView::VerifyAgain { .. } => 4,
        CallbackView::StartSession { .. } => 5,
        CallbackView::StoreSession { .. } => 6,
        CallbackView::Finished { .. } => 7,
    }
}

proof fn rank_grows(
    steps: Seq<CallbackView>,
    replies: Seq<CallbackReply>,
    jar: CookieJar,
    redemption: RedemptionView,
    i: int,
    j: int,
)
    requires
        is_handling(steps, replies, jar, redemption),
        0 <= i < j < steps.len(),
    ensures
        rank(steps[i]) < rank(steps[j]),
    decreases j - i,
{
    if j > i + 1 {
        rank_grows(steps, replies, jar, redemption, i, j - 1);
    }
    assert(follows(steps[j - 1], replies[j - 1], steps[j]));
}

/// Whether two steps ask for the same kind of work.
pub open spec fn same_work(one: CallbackView, other: CallbackView) -> bool {
    ||| one is ResolveMetadata && other is ResolveMetadata
    ||| one is ExchangeCode && other is ExchangeCode
    ||| one is Verify && other is Verify
    ||| one is RefreshKeys && other is RefreshKeys
    ||| one is VerifyAgain && other is VerifyAgain
    ||| one is StartSession && other is StartSession
    ||| one is StoreSession && other is StoreSession
}

/// The handling of a browser asks for each kind of outside work at most once: one exchange of the
/// code, one new discovery of the provider's keys, one verification after it, one session.
pub proof fn each_work_once(
    steps: Seq<CallbackView>,
    replies: Seq<CallbackReply>,
    jar: CookieJar,
    redemption: RedemptionView,
    i: int,
    j: int,
)
    requires
        is_handling(steps, replies, jar, redemption),
        0 <= i < steps.len(),
        0 <= j < steps.len(),
        same_work(steps[i], steps[j]),
    ensures
        i == j,
{
    if i < j {
        rank_grows(steps, replies, jar, redemption, i, j);
    }
    if j < i {
        rank_grows(steps, replies, jar, redemption, j, i);
    }
}

/// The provider's keys are discovered anew only where the first verification missed the key that
/// the token names.
pub proof fn keys_are_refreshed_for_missing_key(
    steps: Seq<CallbackView>,
    replies: Seq<CallbackReply>,
    jar: CookieJar,
    redemption: RedemptionView,
    i: int,
)
    requires
        is_handling(steps, replies, jar, redemption),
        0 <= i < steps.len(),
        steps[i] is RefreshKeys,
    ensures
        i > 0,
        steps[i - 1] is Verify,
        replies[i - 1] == CallbackReply::Verdict(IdTokenVerdict::NoMatchingKey),
{
    assert(follows(steps[i - 1], replies[i - 1], steps[i]));
}

/// A code is exchanged with the PKCE verifier of its own transaction, and an ID token is verified
/// with the nonce of its own transaction.
pub proof fn secrets_belong_to_the_transaction(
    steps: Seq<CallbackView>,
    replies: Seq<CallbackReply>,
    jar: CookieJar,
    redemption: RedemptionView,
    i: int,
)
    requires
        is_handling(steps, replies, jar, redemption),
        0 <= i < steps.len(),
    ensures
        steps[i] matches CallbackView::ResolveMetadata { redemption: used, .. } ==> used
            == redemption,
        steps[i] matches CallbackView::ExchangeCode { redemption: used, .. } ==> used == redemption,
        steps[i] matches CallbackView::Verify { nonce, .. } ==> nonce == redemption.nonce,
        steps[i] matches CallbackView::RefreshKeys { nonce, .. } ==> nonce == redemption.nonce,
        steps[i] matches CallbackView::VerifyAgain { nonce, .. } ==> nonce == redemption.nonce,
    decreases i,
{
    if i > 0 {
        secrets_belong_to_the_transaction(steps, replies, jar, redemption, i - 1);
        assert(follows(steps[i - 1], replies[i - 1], steps[i]));
    }
}

/// Whether one of the first `count` steps was a verification that accepted the ID token.
pub open spec fn id_token_was_accepted(
    steps: Seq<CallbackView>,
    replies: Seq<CallbackReply>,
    count: int,
) -> bool {
    exists|i: int|
        #![trigger replies[i]]
        0 <= i < count && (steps[i] is Verify || steps[i] is VerifyAgain) && replies[i]
            == CallbackReply::Verdict(IdTokenVerdict::Accepted)
}

/// Whether a reply is that of a provider that issued tokens.
pub open spec fn gives_tokens(reply: CallbackReply) -> bool {
    reply matches CallbackReply::Exchange(exchange) && exchange is Tokens
}

/// Whether one of the first `count` steps was an exchange of the code that gave tokens.
pub open spec fn code_was_exchanged(
    steps: Seq<CallbackView>,
    replies: Seq<CallbackReply>,
    count: int,
) -> bool {
    exists|i: int|
        #![trigger replies[i]]
        0 <= i < count && steps[i] is ExchangeCode && gives_tokens(replies[i])
}

proof fn sessions_are_earned(
    steps: Seq<CallbackView>,
    replies: Seq<CallbackReply>,
    jar: CookieJar,
    redemption: RedemptionView,
    i: int,
)
    requires
        is_handling(steps, replies, jar, redemption),
        0 <= i < steps.len(),
    ensures
        rank(steps[i]) < 7 ==> jar_of(steps[i]) == jar,
        2 <= rank(steps[i]) < 7 ==> code_was_exchanged(steps, replies, i),
        5 <= rank(steps[i]) < 7 ==> id_token_was_accepted(steps, replies, i),
    decreases i,
{
    if i > 0 {
        sessions_are_earned(steps, replies, jar, redemption, i - 1);
        assert(follows(steps[i - 1], replies[i - 1], steps[i]));
        if 2 <= rank(steps[i]) < 7 {
            if rank(steps[i - 1]) >= 2 {
                let k = choose|k: int|
                    #![trigger replies[k]]
                    0 <= k < i - 1 && steps[k] is ExchangeCode
                        && gives_tokens(replies[k]);
                assert(replies[k] is Exchange);
            } else {
                assert(replies[i - 1] is Exchange);
            }
            assert(code_was_exchanged(steps, replies, i));
        }
        if 5 <= rank(steps[i]) < 7 {
            if rank(steps[i - 1]) >= 5 {
                let k = choose|k: int|
                    #![trigger replies[k]]
                    0 <= k < i - 1 && (steps[k] is Verify || steps[k] is VerifyAgain) && replies[k]
                        == CallbackReply::Verdict(IdTokenVerdict::Accepted);
                assert(replies[k] is Verdict);
            } else {
                assert(replies[i - 1] == CallbackReply::Verdict(IdTokenVerdict::Accepted));
            }
            assert(id_token_was_accepted(steps, replies, i));
        }
    }
}

/// A session is stored only after the code was exchanged and the ID token was accepted.
pub proof fn session_needs_verified_token(
    steps: Seq<CallbackView>,
    replies: Seq<CallbackReply>,
    jar: CookieJar,
    redemption: RedemptionView,
    i: int,
)
    requires
        is_handling(steps, replies, jar, redemption),
        0 <= i < steps.len(),
        steps[i] is StoreSession,
    ensures
        code_was_exchanged(steps, replies, i),
        id_token_was_accepted(steps, replies, i),
{
    sessions_are_earned(steps, replies, jar, redemption, i);
}

/// Whether a discovery that failed is held against the provider.
pub open spec fn discovery_fails_as_gateway(replies: Seq<CallbackReply>) -> bool {
    forall|i: int|
        0 <= i < replies.len() ==> ((#[trigger] replies[i]) matches CallbackReply::Metadata(
            Err(status),
        ) ==> status == StatusCode::BadGateway)
}

/// A browser is told that it is signed in only if its session was stored; then, and only then, it
/// gets a session cookie. In every other case the cookies are those that the taking of the
/// transaction left. The session cookie is made of the session id, the lifetime and the mode
/// alone: no token reaches the browser.
pub proof fn cookie_means_stored_session(
    steps: Seq<CallbackView>,
    replies: Seq<CallbackReply>,
    jar: CookieJar,
    redemption: RedemptionView,
)
    requires
        is_handling(steps, replies, jar, redemption),
        discovery_fails_as_gateway(replies),
        steps.last() is Finished,
    ensures
        ({
            let after = steps.last()->Finished_jar;
            let status = steps.last()->Finished_status;
            let n = replies.len() as int;
            if n > 0 && steps[n - 1] is StoreSession && replies[n - 1]->reply is Ok {
                &&& status == StatusCode::NoContent
                &&& code_was_exchanged(steps, replies, n)
                &&& id_token_was_accepted(steps, replies, n)
                &&& sets_cookie(
                    jar,
                    session_cookie(
                        steps[n - 1]->StoreSession_session_id,
                        replies[n - 1]->secure,
                        replies[n - 1]->ttl,
                    ),
                    after,
                )
            } else {
                &&& status != StatusCode::NoContent
                &&& after == jar
            }
        }),
{
    let n = replies.len() as int;
    assert(steps.last() == steps[n]);
    if n > 0 {
        sessions_are_earned(steps, replies, jar, redemption, n - 1);
        assert(follows(steps[n - 1], replies[n - 1], steps[n]));
        if steps[n - 1] is StoreSession {
            let k = choose|k: int|
                #![trigger replies[k]]
                0 <= k < n - 1 && steps[k] is ExchangeCode
                    && gives_tokens(replies[k]);
            assert(replies[k] is Exchange);
            assert(code_was_exchanged(steps, replies, n));
            let m = choose|m: int|
                #![trigger replies[m]]
                0 <= m < n - 1 && (steps[m] is Verify || steps[m] is VerifyAgain) && replies[m]
                    == CallbackReply::Verdict(IdTokenVerdict::Accepted);
            assert(replies[m] is Verdict);
            assert(id_token_was_accepted(steps, replies, n));
        }
    }
}

/// The tokens that a reply of the provider issues.
pub open spec fn issued_tokens(reply: CallbackReply) -> TokensView {
    reply->Exchange_0->tokens
}

/// What a step holds of what the provider issued and said, at whatever place of a handling it
/// stands: the metadata are those that were asked for last, and the ID token and the tokens are
/// those of the one exchange.
pub open spec fn holds_what_was_issued(
    steps: Seq<CallbackView>,
    replies: Seq<CallbackReply>,
    exchange: int,
    i: int,
) -> bool {
    &&& 1 <= exchange < i
    &&& steps[exchange] is ExchangeCode
    &&& gives_tokens(replies[exchange])
    &&& match steps[i] {
        CallbackView::Verify { id_token, metadata, tokens, .. } => {
            &&& exchange == i - 1
            &&& tokens == issued_tokens(replies[exchange])
            &&& replies[exchange]->Exchange_0->id_token == Some(id_token)
            &&& replies[exchange - 1] == CallbackReply::Metadata(Ok(metadata))
        },
        CallbackView::RefreshKeys { id_token, tokens, .. } => {
            &&& exchange == i - 2
            &&& tokens == issued_tokens(replies[exchange])
            &&& replies[exchange]->Exchange_0->id_token == Some(id_token)
        },
        CallbackView::VerifyAgain { id_token, metadata, tokens, .. } => {
            &&& exchange == i - 3
            &&& tokens == issued_tokens(replies[exchange])
            &&& replies[exchange]->Exchange_0->id_token == Some(id_token)
            &&& replies[i - 1] == CallbackReply::Metadata(Ok(metadata))
        },
        CallbackView::StartSession { tokens, .. } => tokens == issued_tokens(replies[exchange]),
        CallbackView::StoreSession { session_id, session, .. } => {
            &&& session.access_token == issued_tokens(replies[exchange]).access_token
            &&& session.refresh_token == issued_tokens(replies[exchange]).refresh_token
            &&& replies[i - 1] is Session
            &&& session.access_token_expires_at == replies[i - 1]->access_token_expires_at
            &&& session_id == replies[i - 1]->session_id
        },
        _ => false,
    }
}

proof fn issued_is_held(
    steps: Seq<CallbackView>,
    replies: Seq<CallbackReply>,
    jar: CookieJar,
    redemption: RedemptionView,
    i: int,
) -> (exchange: int)
    requires
        is_handling(steps, replies, jar, redemption),
        0 <= i < steps.len(),
        steps[i] is Verify || steps[i] is RefreshKeys || steps[i] is VerifyAgain
            || steps[i] is StartSession || steps[i] is StoreSession,
    ensures
        holds_what_was_issued(steps, replies, exchange, i),
    decreases i,
{
    assert(i > 0);
    assert(follows(steps[i - 1], replies[i - 1], steps[i]));
    if steps[i] is Verify {
        assert(i - 1 > 0);
        assert(follows(steps[i - 2], replies[i - 2], steps[i - 1]));
        i - 1
    } else {
        issued_is_held(steps, replies, jar, redemption, i - 1)
    }
}

/// What is verified is what the provider issued, held against the metadata that it was asked with;
/// after a key refresh, the same ID token is held against the metadata that came anew.
pub proof fn issued_id_token_is_verified(
    steps: Seq<CallbackView>,
    replies: Seq<CallbackReply>,
    jar: CookieJar,
    redemption: RedemptionView,
    i: int,
)
    requires
        is_handling(steps, replies, jar, redemption),
        0 <= i < steps.len(),
        steps[i] is Verify || steps[i] is RefreshKeys || steps[i] is VerifyAgain,
    ensures
        exists|exchange: int| #[trigger] holds_what_was_issued(steps, replies, exchange, i),
{
    let exchange = issued_is_held(steps, replies, jar, redemption, i);
}

/// The session that is stored is the one that was issued: its access token and its refresh token are
/// those of the reply to the exchange of the code, and its id and the end of its access token are
/// those that were drawn and counted for it.
pub proof fn issued_session_is_stored(
    steps: Seq<CallbackView>,
    replies: Seq<CallbackReply>,
    jar: CookieJar,
    redemption: RedemptionView,
    i: int,
)
    requires
        is_handling(steps, replies, jar, redemption),
        0 <= i < steps.len(),
        steps[i] is StoreSession,
    ensures
        exists|exchange: int|
            0 <= exchange < i && (#[trigger] steps[exchange]) is ExchangeCode && gives_tokens(
                replies[exchange],
            ) && steps[i]->StoreSession_session.access_token == issued_tokens(
                replies[exchange],
            ).access_token && steps[i]->StoreSession_session.refresh_token == issued_tokens(
                replies[exchange],
            ).refresh_token,
        i > 0,
        steps[i - 1] is StartSession,
        replies[i - 1] is Session,
        steps[i]->StoreSession_session_id == replies[i - 1]->session_id,
        steps[i]->StoreSession_session.access_token_expires_at
            == replies[i - 1]->access_token_expires_at,
{
    let exchange = issued_is_held(steps, replies, jar, redemption, i);
    assert(steps[exchange] is ExchangeCode);
    assert(follows(steps[i - 1], replies[i - 1], steps[i]));
}

/// The session of a sign-in, in numbers: where the session starts with the clock at `now` and the
/// provider gave a lifetime, its access token ends that many seconds later, as far as the clock can
/// tell.
pub proof fn stored_session_ends_after_its_lifetime(
    jar: CookieJar,
    tokens: TokensView,
    session_id: Seq<char>,
    now: int,
)
    ensures
        ({
            let step = session_step(jar, tokens, session_id, expiry_from(now, tokens.expires_in));
            &&& step is StoreSession
            &&& step->StoreSession_jar == jar
            &&& step->StoreSession_session_id == session_id
            &&& step->StoreSession_session.access_token == tokens.access_token
            &&& step->StoreSession_session.refresh_token == tokens.refresh_token
            &&& tokens.expires_in is None ==> step->StoreSession_session.access_token_expires_at
                is None
            &&& tokens.expires_in matches Some(lifetime) ==> (0 <= now + lifetime
                <= 0x7fff_ffff_ffff_ffff ==> step->StoreSession_session.access_token_expires_at
                == Some((now + lifetime) as u64))
        }),
{
}

/// What a browser is told: a provider that does not issue tokens is a bad gateway; a missing or a
/// refused ID token is unauthorized, and so is one whose key is still missing after a refresh; a
/// failed discovery is told as it is; a store that fails is unavailable; and a stored session has no
/// content.
pub proof fn failures_are_told_apart(step: CallbackView, reply: CallbackReply, after: CallbackView)
    requires
        follows(step, reply, after),
        after is Finished,
    ensures
        match reply {
            CallbackReply::Metadata(found) => found is Err && after->Finished_status == found->Err_0,
            CallbackReply::Exchange(exchange) => if exchange is Failed {
                after->Finished_status == StatusCode::BadGateway
            } else {
                exchange->id_token is None && after->Finished_status == StatusCode::Unauthorized
            },
            CallbackReply::Verdict(verdict) => verdict != IdTokenVerdict::Accepted && (verdict
                == IdTokenVerdict::NoMatchingKey ==> step is VerifyAgain) && after->Finished_status
                == StatusCode::Unauthorized,
            CallbackReply::Session { .. } => false,
            CallbackReply::Stored { reply, .. } => after->Finished_status == if reply is Ok {
                StatusCode::NoContent
            } else {
                StatusCode::ServiceUnavailable
            },
        },
{
}

/// When a handling goes on: with metadata, with tokens and an ID token, with an accepted ID token,
/// and with an ID token whose key was missing for the first time.
pub proof fn handling_goes_on(step: CallbackView, reply: CallbackReply, after: CallbackView)
    requires
        follows(step, reply, after),
    ensures
        step is ResolveMetadata && reply->Metadata_0 is Ok ==> after is ExchangeCode
            && after->ExchangeCode_metadata == reply->Metadata_0->Ok_0
            && after->ExchangeCode_redemption == step->ResolveMetadata_redemption,
        step is ExchangeCode && reply->Exchange_0 is Tokens && reply->Exchange_0->id_token is Some
            ==> after is Verify,
        (step is Verify || step is VerifyAgain) && reply->Verdict_0 == IdTokenVerdict::Accepted
            ==> after is StartSession,
        step is Verify && reply->Verdict_0 == IdTokenVerdict::NoMatchingKey ==> after is RefreshKeys,
        step is RefreshKeys && reply->Metadata_0 is Ok ==> after is VerifyAgain,
        step is StartSession ==> after is StoreSession,
{
}

/// The value of a parameter is the last that was given under its name, and there is none exactly if
/// none was given.
pub proof fn last_parameter_counts(params: Seq<(String, String)>, name: Seq<char>)
    ensures
        parameter(params, name) is None <==> forall|i: int|
            0 <= i < params.len() ==> (#[trigger] params[i]).0@ != name,
        forall|k: int|
            0 <= k < params.len() && (#[trigger] params[k]).0@ == name && (forall|i: int|
                k < i < params.len() ==> (#[trigger] params[i]).0@ != name) ==> parameter(
                params,
                name,
            ) == Some(params[k].1@),
    decreases params.len(),
{
    if params.len() > 0 {
        let init = params.drop_last();
        let last = params[params.len() - 1];
        last_parameter_counts(init, name);
        assert(params.last() == last);
        assert(forall|i: int| 0 <= i < init.len() ==> init[i] == params[i]);
        if last.0@ != name {
            assert forall|k: int|
                0 <= k < params.len() && (#[trigger] params[k]).0@ == name && (forall|i: int|
                    k < i < params.len() ==> (#[trigger] params[i]).0@ != name) implies parameter(
                params,
                name,
            ) == Some(params[k].1@) by {
                assert(init[k].0@ == name);
                assert forall|i: int| k < i < init.len() implies (#[trigger] init[i]).0@ != name by {
                    assert(params[i].0@ != name);
                }
            }
            if parameter(params, name) is None {
                assert forall|i: int| 0 <= i < params.len() implies (#[trigger] params[i]).0@
                    != name by {
                    if i < init.len() {
                        assert(init[i].0@ != name);
                    }
                }
            } else {
                let k = choose|k: int| 0 <= k < init.len() && (#[trigger] init[k]).0@ == name;
                assert(params[k].0@ == name);
            }
        }
    }
}

/// A request is a response of the provider exactly if it has a state, either a code or an error but
/// not both, and the cookie that binds the transaction of the state. The response then is that state
/// and that code, whatever they hold, with the digest of the cookie's value.
pub proof fn responses_are_read_from_requests(params: Seq<(String, String)>, jar: CookieJar)
    ensures
        ({
            let state = parameter(params, "state"@);
            let code = parameter(params, "code"@);
            let failed = parameter(params, "error"@) is Some;
            let name = "rtp-preauth-"@ + hex_text(
                sha256(vstd::utf8::encode_utf8(state->Some_0)),
            );
            let response = response_of(params, jar);
            &&& response is Some <==> state is Some && (failed != (code is Some)) && shown_cookie(
                jar,
                name,
            ) is Some
            &&& response is Some ==> {
                &&& response->Some_0.state == state->Some_0
                &&& response->Some_0.code == code
                &&& response->Some_0.cookie_name == name
                &&& response->Some_0.binding_hash == sha256(
                    vstd::utf8::encode_utf8(shown_cookie(jar, name)->Some_0),
                )
            }
        }),
{
}

/// A transaction that was taken is redeemed with its own secrets and the code that came; an error in
/// place of a code ends the login.
pub proof fn taken_transaction_is_redeemed(
    jar: CookieJar,
    code: Seq<char>,
    transaction: TransactionView,
)
    ensures
        after_taking(jar, Some(code), transaction) == (CallbackView::ResolveMetadata {
            jar,
            redemption: RedemptionView {
                code,
                pkce_verifier: transaction.pkce_verifier,
                nonce: transaction.nonce,
            },
        }),
        after_taking(jar, None, transaction) == (CallbackView::Finished {
            jar,
            status: StatusCode::BadRequest,
        }),
{
}

/// What comes and goes is seen as it is.
pub proof fn handling_is_seen_as_it_is(
    response: AuthorizationResponse,
    redemption: Redemption,
    tokens: IssuedTokens,
    id_token: Option<String>,
    metadata: ProviderMetadata,
    status: StatusCode,
)
    ensures
        response@.state == response.state@,
        response@.code == text_view(response.code),
        response@.cookie_name == response.cookie_name@,
        response@.binding_hash == response.binding_hash@,
        redemption@.code == redemption.code@,
        redemption@.pkce_verifier == redemption.pkce_verifier@,
        redemption@.nonce == redemption.nonce@,
        tokens@.access_token == tokens.access_token@,
        tokens@.refresh_token == text_view(tokens.refresh_token),
        tokens@.expires_in == tokens.expires_in,
        (CodeExchangeReply::Tokens { tokens, id_token })@ == (CodeExchangeView::Tokens {
            tokens: tokens@,
            id_token: text_view(id_token),
        }),
        CodeExchangeReply::Failed@ == CodeExchangeView::Failed,
        metadata@.issuer == metadata.issuer@,
        metadata@.authorization_endpoint == metadata.authorization_endpoint@,
        metadata@.key_set == metadata.key_set@,
        metadata_view(Ok(metadata)) == Ok::<MetadataView, StatusCode>(metadata@),
        metadata_view(Err(status)) == Err::<MetadataView, StatusCode>(status),
{
}

/// Every step is seen as it is.
pub proof fn steps_are_seen_as_they_are(step: CallbackStep)
    ensures
        match step {
            CallbackStep::ResolveMetadata(s) => step@ == (CallbackView::ResolveMetadata {
                jar: s.jar,
                redemption: s.redemption@,
            }),
            CallbackStep::ExchangeCode(s) => step@ == (CallbackView::ExchangeCode {
                jar: s.jar,
                redemption: s.redemption@,
                metadata: s.metadata@,
            }),
            CallbackStep::Verify(s) => step@ == (CallbackView::Verify {
                jar: s.jar,
                nonce: s.nonce@,
                id_token: s.id_token@,
                metadata: s.metadata@,
                tokens: s.tokens@,
            }),
            CallbackStep::RefreshKeys(s) => step@ == (CallbackView::RefreshKeys {
                jar: s.jar,
                nonce: s.nonce@,
                id_token: s.id_token@,
                tokens: s.tokens@,
            }),
            CallbackStep::VerifyAgain(s) => step@ == (CallbackView::VerifyAgain {
                jar: s.jar,
                nonce: s.nonce@,
                id_token: s.id_token@,
                metadata: s.metadata@,
                tokens: s.tokens@,
            }),
            CallbackStep::StartSession(s) => step@ == (CallbackView::StartSession {
                jar: s.jar,
                tokens: s.tokens@,
            }),
            CallbackStep::StoreSession(s) => step@ == (CallbackView::StoreSession {
                jar: s.jar,
                session_id: s.session_id@,
                session: s.session@,
            }),
            CallbackStep::Finished { jar, status } => step@ == (CallbackView::Finished {
                jar,
                status,
            }),
        },
{
}

} // verus!
