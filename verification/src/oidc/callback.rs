//! Return of a browser from the provider.
//!
//! The handling is a chain of steps. Each step names one piece of outside work; its methods take
//! what came back and give the next step.
use super::config::OidcConfig;
use super::provider::{
    first_verification, id_token_verdict, judge_first_verification,
    judge_second_verification, second_verification, verify_id_token_once, FirstVerification,
    IdTokenVerdict, MetadataView, ProviderMetadata,
};
use super::transaction::{
    hash_browser_binding, is_bound, live_transactions, preauth_cookie_name, preauth_cookie_name_of,
    preauth_removal, remove_preauth_cookie, take_bound_transaction, AuthorizationTransaction,
    PendingLogins, TransactionView,
};
use crate::clock::{can_be_shown, ClockReading};
use crate::cookies::{jar_add, jar_get, removes_cookie, sets_cookie, shown_cookie, SetCookie};
use crate::digest::sha256;
use crate::random::encodes_bytes;
use crate::session::{
    access_token_expiry, build_session_cookie, expiry_from, new_session_id, session_cookie,
    text_view, AuthenticatedSession, SessionView,
};
use crate::status::StatusCode;
use crate::text::same_text;
use axum_extra::extract::cookie::CookieJar;
use vstd::prelude::*;

verus! {

/// The value of a parameter; of several, the last.
pub open spec fn parameter(params: Seq<(String, String)>, name: Seq<char>) -> Option<Seq<char>>
    decreases params.len(),
{
    if params.len() == 0 {
        None
    } else if params.last().0@ == name {
        Some(params.last().1@)
    } else {
        parameter(params.drop_last(), name)
    }
}

fn find_parameter(params: &Vec<(String, String)>, name: &str) -> (value: Option<String>)
    ensures
        text_view(value) == parameter(params@, name@),
{
    let mut count: usize = params.len();
    proof {
        assert(params@.take(count as int) =~= params@);
    }
    while count > 0
        invariant
            count <= params@.len(),
            parameter(params@, name@) == parameter(params@.take(count as int), name@),
        decreases count,
    {
        proof {
            assert(params@.take(count as int).last() == params@[count - 1]);
            assert(params@.take(count as int).drop_last() =~= params@.take(count - 1));
        }
        if same_text(params[count - 1].0.as_str(), name) {
            return Some(params[count - 1].1.clone());
        }
        count = count - 1;
    }
    None
}

/// What the provider sent the browser back with: a code, or none because of an error.
pub struct AuthorizationResponse {
    pub state: String,
    pub code: Option<String>,
    /// Name of the cookie that binds the transaction to the browser.
    pub cookie_name: String,
    /// Digest of the secret in that cookie.
    pub binding_hash: [u8; 32],
}

/// What an [`AuthorizationResponse`] holds.
pub struct ResponseView {
    pub state: Seq<char>,
    pub code: Option<Seq<char>>,
    pub cookie_name: Seq<char>,
    pub binding_hash: Seq<u8>,
}

impl View for AuthorizationResponse {
    type V = ResponseView;

    open spec fn view(&self) -> ResponseView {
        ResponseView {
            state: self.state@,
            code: text_view(self.code),
            cookie_name: self.cookie_name@,
            binding_hash: self.binding_hash@,
        }
    }
}

/// The response in the parameters and cookies of a request: it needs a state, exactly one of code
/// and error, and the cookie that binds its transaction.
pub open spec fn response_of(params: Seq<(String, String)>, jar: CookieJar) -> Option<ResponseView> {
    match parameter(params, "state"@) {
        None => None,
        Some(state) => {
            let code = parameter(params, "code"@);
            let cookie_name = preauth_cookie_name_of(state);
            if parameter(params, "error"@) is Some == code is Some {
                None
            } else {
                match shown_cookie(jar, cookie_name) {
                    None => None,
                    Some(secret) => Some(
                        ResponseView {
                            state,
                            code,
                            cookie_name,
                            binding_hash: sha256(vstd::utf8::encode_utf8(secret)),
                        },
                    ),
                }
            }
        },
    }
}

/// Reads the response from the parameters and cookies of a request. No transaction is touched.
pub fn read_authorization_response(params: &Vec<(String, String)>, jar: &CookieJar) -> (outcome:
    Result<AuthorizationResponse, StatusCode>)
    ensures
        match outcome {
            Ok(response) => response_of(params@, *jar) == Some(response@),
            Err(status) => response_of(params@, *jar) is None && status == StatusCode::BadRequest,
        },
{
    let state: String = match find_parameter(params, "state") {
        Some(state) => state,
        None => return Err(StatusCode::BadRequest),
    };
    let cookie_name: String = preauth_cookie_name(state.as_str());
    let has_error: bool = find_parameter(params, "error").is_some();
    let code: Option<String> = find_parameter(params, "code");
    if has_error == code.is_some() {
        return Err(StatusCode::BadRequest);
    }
    let secret: String = match jar_get(jar, cookie_name.as_str()) {
        Some(secret) => secret,
        None => return Err(StatusCode::BadRequest),
    };
    let binding_hash: [u8; 32] = hash_browser_binding(secret.as_str());
    Ok(AuthorizationResponse { state, code, cookie_name, binding_hash })
}

/// Secrets of the transaction that a browser came back for.
pub struct Redemption {
    pub code: String,
    pub pkce_verifier: String,
    pub nonce: String,
}

/// What a [`Redemption`] holds.
pub struct RedemptionView {
    pub code: Seq<char>,
    pub pkce_verifier: Seq<char>,
    pub nonce: Seq<char>,
}

impl View for Redemption {
    type V = RedemptionView;

    open spec fn view(&self) -> RedemptionView {
        RedemptionView {
            code: self.code@,
            pkce_verifier: self.pkce_verifier@,
            nonce: self.nonce@,
        }
    }
}

/// Tokens of a sign-in.
pub struct IssuedTokens {
    pub access_token: String,
    pub refresh_token: Option<String>,
    /// Lifetime of the access token in seconds.
    pub expires_in: Option<u64>,
}

/// What [`IssuedTokens`] hold.
pub struct TokensView {
    pub access_token: Seq<char>,
    pub refresh_token: Option<Seq<char>>,
    pub expires_in: Option<u64>,
}

impl View for IssuedTokens {
    type V = TokensView;

    open spec fn view(&self) -> TokensView {
        TokensView {
            access_token: self.access_token@,
            refresh_token: text_view(self.refresh_token),
            expires_in: self.expires_in,
        }
    }
}

/// Step: get hold of the provider's metadata.
pub struct MetadataNeeded {
    pub jar: CookieJar,
    pub redemption: Redemption,
}

/// Step: exchange the code at the provider.
pub struct CodeExchangeNeeded {
    pub jar: CookieJar,
    pub redemption: Redemption,
    pub metadata: ProviderMetadata,
}

/// Step: verify the ID token.
pub struct VerificationNeeded {
    pub jar: CookieJar,
    pub nonce: String,
    pub id_token: String,
    pub metadata: ProviderMetadata,
    pub tokens: IssuedTokens,
}

/// Step: discover the provider's metadata anew.
pub struct KeyRefreshNeeded {
    pub jar: CookieJar,
    pub nonce: String,
    pub id_token: String,
    pub tokens: IssuedTokens,
}

/// Step: verify the ID token for the second and last time.
pub struct SecondVerificationNeeded {
    pub jar: CookieJar,
    pub nonce: String,
    pub id_token: String,
    pub metadata: ProviderMetadata,
    pub tokens: IssuedTokens,
}

/// Step: start a session.
pub struct SessionNeeded {
    pub jar: CookieJar,
    pub tokens: IssuedTokens,
}

/// Step: store the session.
pub struct StoreNeeded {
    pub jar: CookieJar,
    pub session_id: String,
    pub session: AuthenticatedSession,
}

/// What to do next for a browser that came back.
pub enum CallbackStep {
    ResolveMetadata(MetadataNeeded),
    ExchangeCode(CodeExchangeNeeded),
    Verify(VerificationNeeded),
    RefreshKeys(KeyRefreshNeeded),
    VerifyAgain(SecondVerificationNeeded),
    StartSession(SessionNeeded),
    StoreSession(StoreNeeded),
    /// Answer with the cookies and the status.
    Finished { jar: CookieJar, status: StatusCode },
}

/// What a [`CallbackStep`] holds.
pub enum CallbackView {
    ResolveMetadata { jar: CookieJar, redemption: RedemptionView },
    ExchangeCode { jar: CookieJar, redemption: RedemptionView, metadata: MetadataView },
    Verify {
        jar: CookieJar,
        nonce: Seq<char>,
        id_token: Seq<char>,
        metadata: MetadataView,
        tokens: TokensView,
    },
    RefreshKeys { jar: CookieJar, nonce: Seq<char>, id_token: Seq<char>, tokens: TokensView },
    VerifyAgain {
        jar: CookieJar,
        nonce: Seq<char>,
        id_token: Seq<char>,
        metadata: MetadataView,
        tokens: TokensView,
    },
    StartSession { jar: CookieJar, tokens: TokensView },
    StoreSession { jar: CookieJar, session_id: Seq<char>, session: SessionView },
    Finished { jar: CookieJar, status: StatusCode },
}

impl View for CallbackStep {
    type V = CallbackView;

    open spec fn view(&self) -> CallbackView {
        match *self {
            CallbackStep::ResolveMetadata(s) => CallbackView::ResolveMetadata {
                jar: s.jar,
                redemption: s.redemption@,
            },
            CallbackStep::ExchangeCode(s) => CallbackView::ExchangeCode {
                jar: s.jar,
                redemption: s.redemption@,
                metadata: s.metadata@,
            },
            CallbackStep::Verify(s) => CallbackView::Verify {
                jar: s.jar,
                nonce: s.nonce@,
                id_token: s.id_token@,
                metadata: s.metadata@,
                tokens: s.tokens@,
            },
            CallbackStep::RefreshKeys(s) => CallbackView::RefreshKeys {
                jar: s.jar,
                nonce: s.nonce@,
                id_token: s.id_token@,
                tokens: s.tokens@,
            },
            CallbackStep::VerifyAgain(s) => CallbackView::VerifyAgain {
                jar: s.jar,
                nonce: s.nonce@,
                id_token: s.id_token@,
                metadata: s.metadata@,
                tokens: s.tokens@,
            },
            CallbackStep::StartSession(s) => CallbackView::StartSession {
                jar: s.jar,
                tokens: s.tokens@,
            },
            CallbackStep::StoreSession(s) => CallbackView::StoreSession {
                jar: s.jar,
                session_id: s.session_id@,
                session: s.session@,
            },
            CallbackStep::Finished { jar, status } => CallbackView::Finished { jar, status },
        }
    }
}

/// The step after a transaction was taken, with the cookies of the response so far: an error ends
/// the login, and a code is redeemed with the secrets of the very transaction.
pub open spec fn after_taking(
    jar: CookieJar,
    code: Option<Seq<char>>,
    transaction: TransactionView,
) -> CallbackView {
    match code {
        None => CallbackView::Finished { jar, status: StatusCode::BadRequest },
        Some(code) => CallbackView::ResolveMetadata {
            jar,
            redemption: RedemptionView {
                code,
                pkce_verifier: transaction.pkce_verifier,
                nonce: transaction.nonce,
            },
        },
    }
}

/// The cookies of the response at a step.
pub open spec fn jar_of(step: CallbackView) -> CookieJar {
    match step {
        CallbackView::ResolveMetadata { jar, .. } => jar,
        CallbackView::ExchangeCode { jar, .. } => jar,
        CallbackView::Verify { jar, .. } => jar,
        CallbackView::RefreshKeys { jar, .. } => jar,
        CallbackView::VerifyAgain { jar, .. } => jar,
        CallbackView::StartSession { jar, .. } => jar,
        CallbackView::StoreSession { jar, .. } => jar,
        CallbackView::Finished { jar, .. } => jar,
    }
}

impl AuthorizationResponse {
    /// Takes the transaction that the response belongs to. If there is none that is bound to the
    /// browser, the response is refused; else the binding cookie goes, too.
    pub fn redeem(self, pending: &mut PendingLogins, secure: bool, jar: CookieJar, now: u128)
        -> (step: CallbackStep)
        requires
            old(pending).wf(),
        ensures
            final(pending).wf(),
            ({
                let before = live_transactions(old(pending)@, now);
                if is_bound(before, self@.state, self@.binding_hash) {
                    &&& final(pending)@ == before.remove(self@.state)
                    &&& step@ == after_taking(jar_of(step@), self@.code, before[self@.state])
                    &&& removes_cookie(jar, preauth_removal(self@.cookie_name, secure), jar_of(step@))
                } else {
                    &&& final(pending)@ == before
                    &&& step@ == CallbackView::Finished { jar, status: StatusCode::BadRequest }
                }
            }),
    {
        let transaction: AuthorizationTransaction = match take_bound_transaction(
            pending,
            self.state.as_str(),
            self.binding_hash,
            now,
        ) {
            Ok(transaction) => transaction,
            Err(status) => return CallbackStep::Finished { jar, status },
        };
        let jar: CookieJar = remove_preauth_cookie(jar, self.cookie_name, secure);
        match self.code {
            None => CallbackStep::Finished { jar, status: StatusCode::BadRequest },
            Some(code) => CallbackStep::ResolveMetadata(
                MetadataNeeded {
                    jar,
                    redemption: Redemption {
                        code,
                        pkce_verifier: transaction.pkce_verifier,
                        nonce: transaction.nonce,
                    },
                },
            ),
        }
    }
}

/// What was found of the provider's metadata.
pub open spec fn metadata_view(reply: Result<ProviderMetadata, StatusCode>) -> Result<
    MetadataView,
    StatusCode,
> {
    match reply {
        Ok(metadata) => Ok(metadata@),
        Err(status) => Err(status),
    }
}

/// The step after the provider's metadata were asked for.
pub open spec fn after_metadata(
    jar: CookieJar,
    redemption: RedemptionView,
    reply: Result<MetadataView, StatusCode>,
) -> CallbackView {
    match reply {
        Ok(metadata) => CallbackView::ExchangeCode { jar, redemption, metadata },
        Err(status) => CallbackView::Finished { jar, status },
    }
}

impl MetadataNeeded {
    /// Goes on with the metadata.
    pub fn answer(self, reply: Result<ProviderMetadata, StatusCode>) -> (step: CallbackStep)
        ensures
            step@ == after_metadata(self.jar, self.redemption@, metadata_view(reply)),
    {
        match reply {
            Ok(metadata) => CallbackStep::ExchangeCode(
                CodeExchangeNeeded { jar: self.jar, redemption: self.redemption, metadata },
            ),
            Err(status) => CallbackStep::Finished { jar: self.jar, status },
        }
    }
}

/// What the provider said to the exchange of a code.
pub enum CodeExchangeReply {
    Tokens { tokens: IssuedTokens, id_token: Option<String> },
    /// The request could not be made or failed.
    Failed,
}

/// What a [`CodeExchangeReply`] holds.
pub enum CodeExchangeView {
    Tokens { tokens: TokensView, id_token: Option<Seq<char>> },
    Failed,
}

impl View for CodeExchangeReply {
    type V = CodeExchangeView;

    open spec fn view(&self) -> CodeExchangeView {
        match *self {
            CodeExchangeReply::Tokens { tokens, id_token } => CodeExchangeView::Tokens {
                tokens: tokens@,
                id_token: text_view(id_token),
            },
            CodeExchangeReply::Failed => CodeExchangeView::Failed,
        }
    }
}

/// The step after the exchange of the code.
pub open spec fn after_code_exchange(
    jar: CookieJar,
    nonce: Seq<char>,
    metadata: MetadataView,
    reply: CodeExchangeView,
) -> CallbackView {
    match reply {
        CodeExchangeView::Failed => CallbackView::Finished { jar, status: StatusCode::BadGateway },
        CodeExchangeView::Tokens { tokens, id_token } => match id_token {
            None => CallbackView::Finished { jar, status: StatusCode::Unauthorized },
            Some(id_token) => CallbackView::Verify { jar, nonce, id_token, metadata, tokens },
        },
    }
}

impl CodeExchangeNeeded {
    /// Goes on with the provider's reply.
    pub fn answer(self, reply: CodeExchangeReply) -> (step: CallbackStep)
        ensures
            step@ == after_code_exchange(
                self.jar,
                self.redemption@.nonce,
                self.metadata@,
                reply@,
            ),
            reply is Failed ==> step@ == (CallbackView::Finished {
                jar: self.jar,
                status: StatusCode::BadGateway,
            }),
    {
        match reply {
            CodeExchangeReply::Failed => CallbackStep::Finished {
                jar: self.jar,
                status: StatusCode::BadGateway,
            },
            CodeExchangeReply::Tokens { tokens, id_token } => match id_token {
                None => CallbackStep::Finished { jar: self.jar, status: StatusCode::Unauthorized },
                Some(id_token) => CallbackStep::Verify(
                    VerificationNeeded {
                        jar: self.jar,
                        nonce: self.redemption.nonce,
                        id_token,
                        metadata: self.metadata,
                        tokens,
                    },
                ),
            },
        }
    }
}

/// The step after the first verification.
pub open spec fn after_first_verdict(
    jar: CookieJar,
    nonce: Seq<char>,
    id_token: Seq<char>,
    tokens: TokensView,
    verdict: IdTokenVerdict,
) -> CallbackView {
    match first_verification(verdict) {
        FirstVerification::Accepted => CallbackView::StartSession { jar, tokens },
        FirstVerification::RefreshMetadata => CallbackView::RefreshKeys {
            jar,
            nonce,
            id_token,
            tokens,
        },
        FirstVerification::Refused(status) => CallbackView::Finished { jar, status },
    }
}

impl VerificationNeeded {
    /// Goes on with a verdict.
    pub fn answer(self, verdict: IdTokenVerdict) -> (step: CallbackStep)
        ensures
            step@ == after_first_verdict(
                self.jar,
                self.nonce@,
                self.id_token@,
                self.tokens@,
                verdict,
            ),
    {
        match judge_first_verification(verdict) {
            FirstVerification::Accepted => CallbackStep::StartSession(
                SessionNeeded { jar: self.jar, tokens: self.tokens },
            ),
            FirstVerification::RefreshMetadata => CallbackStep::RefreshKeys(
                KeyRefreshNeeded {
                    jar: self.jar,
                    nonce: self.nonce,
                    id_token: self.id_token,
                    tokens: self.tokens,
                },
            ),
            FirstVerification::Refused(status) => CallbackStep::Finished { jar: self.jar, status },
        }
    }

    /// Verifies the ID token at a time and goes on with the verdict.
    pub fn verify(self, config: &OidcConfig, now: ClockReading) -> (step: CallbackStep)
        requires
            now.wf(),
        ensures
            step@ == after_first_verdict(
                self.jar,
                self.nonce@,
                self.id_token@,
                self.tokens@,
                id_token_verdict(
                    config@,
                    self.metadata@,
                    self.id_token@,
                    self.nonce@,
                    now,
                ),
            ),
    {
        let verdict: IdTokenVerdict = verify_id_token_once(
            config,
            &self.metadata,
            self.id_token.as_str(),
            self.nonce.as_str(),
            now,
        );
        self.answer(verdict)
    }
}

/// The step after the provider's metadata were discovered anew.
pub open spec fn after_key_refresh(
    jar: CookieJar,
    nonce: Seq<char>,
    id_token: Seq<char>,
    tokens: TokensView,
    reply: Result<MetadataView, StatusCode>,
) -> CallbackView {
    match reply {
        Ok(metadata) => CallbackView::VerifyAgain { jar, nonce, id_token, metadata, tokens },
        Err(status) => CallbackView::Finished { jar, status },
    }
}

impl KeyRefreshNeeded {
    /// Goes on with the new metadata.
    pub fn answer(self, reply: Result<ProviderMetadata, StatusCode>) -> (step: CallbackStep)
        ensures
            step@ == after_key_refresh(
                self.jar,
                self.nonce@,
                self.id_token@,
                self.tokens@,
                metadata_view(reply),
            ),
    {
        match reply {
            Ok(metadata) => CallbackStep::VerifyAgain(
                SecondVerificationNeeded {
                    jar: self.jar,
                    nonce: self.nonce,
                    id_token: self.id_token,
                    metadata,
                    tokens: self.tokens,
                },
            ),
            Err(status) => CallbackStep::Finished { jar: self.jar, status },
        }
    }
}

/// The step after the second verification.
pub open spec fn after_second_verdict(
    jar: CookieJar,
    tokens: TokensView,
    verdict: IdTokenVerdict,
) -> CallbackView {
    match second_verification(verdict) {
        Ok(_) => CallbackView::StartSession { jar, tokens },
        Err(status) => CallbackView::Finished { jar, status },
    }
}

impl SecondVerificationNeeded {
    /// Goes on with a verdict.
    pub fn answer(self, verdict: IdTokenVerdict) -> (step: CallbackStep)
        ensures
            step@ == after_second_verdict(self.jar, self.tokens@, verdict),
    {
        match judge_second_verification(verdict) {
            Ok(_) => CallbackStep::StartSession(
                SessionNeeded { jar: self.jar, tokens: self.tokens },
            ),
            Err(status) => CallbackStep::Finished { jar: self.jar, status },
        }
    }

    /// Verifies the ID token at a time and goes on with the verdict.
    pub fn verify(self, config: &OidcConfig, now: ClockReading) -> (step: CallbackStep)
        requires
            now.wf(),
        ensures
            step@ == after_second_verdict(
                self.jar,
                self.tokens@,
                id_token_verdict(
                    config@,
                    self.metadata@,
                    self.id_token@,
                    self.nonce@,
                    now,
                ),
            ),
    {
        let verdict: IdTokenVerdict = verify_id_token_once(
            config,
            &self.metadata,
            self.id_token.as_str(),
            self.nonce.as_str(),
            now,
        );
        self.answer(verdict)
    }
}

/// The step in which the session of a sign-in is stored.
pub open spec fn session_step(
    jar: CookieJar,
    tokens: TokensView,
    session_id: Seq<char>,
    access_token_expires_at: Option<u64>,
) -> CallbackView {
    CallbackView::StoreSession {
        jar,
        session_id,
        session: SessionView {
            access_token: tokens.access_token,
            refresh_token: tokens.refresh_token,
            access_token_expires_at,
        },
    }
}

impl SessionNeeded {
    /// Goes on with a session under the given id and with the given expiry.
    pub fn answer(self, session_id: String, access_token_expires_at: Option<u64>) -> (step:
        CallbackStep)
        ensures
            step@ == session_step(self.jar, self.tokens@, session_id@, access_token_expires_at),
            step matches CallbackStep::StoreSession(stored) && {
                &&& stored.jar == self.jar
                &&& stored.session_id@ == session_id@
                &&& stored.session.access_token@ == self.tokens.access_token@
                &&& text_view(stored.session.refresh_token) == text_view(self.tokens.refresh_token)
                &&& stored.session.access_token_expires_at == access_token_expires_at
            },
    {
        CallbackStep::StoreSession(
            StoreNeeded {
                jar: self.jar,
                session_id,
                session: AuthenticatedSession {
                    access_token: self.tokens.access_token,
                    refresh_token: self.tokens.refresh_token,
                    access_token_expires_at,
                },
            },
        )
    }

    /// Starts a session under a new id, with the expiry counted from now.
    pub fn start(self) -> (step: CallbackStep)
        ensures
            exists|session_id: Seq<char>, now: int|
                encodes_bytes(session_id, 32) && can_be_shown(now) && step@
                    == #[trigger] session_step(
                    self.jar,
                    self.tokens@,
                    session_id,
                    expiry_from(now, self.tokens@.expires_in),
                ),
            step matches CallbackStep::StoreSession(stored) && {
                &&& stored.jar == self.jar
                &&& stored.session.access_token@ == self.tokens.access_token@
                &&& text_view(stored.session.refresh_token) == text_view(self.tokens.refresh_token)
                &&& self.tokens.expires_in is None ==> stored.session.access_token_expires_at
                    is None
            },
    {
        let expiry: Option<u64> = access_token_expiry(self.tokens.expires_in);
        let session_id: String = new_session_id();
        self.answer(session_id, expiry)
    }
}

/// Whether a response is what the outcome of the store calls for: only a session that was stored
/// gets a cookie.
pub open spec fn stored_response(
    jar: CookieJar,
    session_id: Seq<char>,
    secure: bool,
    ttl: u128,
    reply: Result<(), ()>,
    after: CookieJar,
    status: StatusCode,
) -> bool {
    match reply {
        Ok(_) => status == StatusCode::NoContent && sets_cookie(
            jar,
            session_cookie(session_id, secure, ttl),
            after,
        ),
        Err(_) => status == StatusCode::ServiceUnavailable && after == jar,
    }
}

impl StoreNeeded {
    /// Ends with the outcome of the store, in which a session lives for `ttl` nanoseconds.
    pub fn answer(self, reply: Result<(), ()>, secure: bool, ttl: u128) -> (outcome: (
        CookieJar,
        StatusCode,
    ))
        ensures
            stored_response(self.jar, self.session_id@, secure, ttl, reply, outcome.0, outcome.1),
    {
        match reply {
            Ok(_) => {
                let cookie: SetCookie = build_session_cookie(self.session_id, secure, ttl);
                (jar_add(self.jar, cookie), StatusCode::NoContent)
            },
            Err(_) => (self.jar, StatusCode::ServiceUnavailable),
        }
    }
}

} // verus!
