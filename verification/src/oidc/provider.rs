//! The provider: its metadata, authorization requests and the verification of its ID tokens.
use super::config::{
    accepted_id_token_signing_algorithms, header_of, ConfigView, OidcConfig, SigningAlgorithm,
};
use crate::clock::ClockReading;
use crate::session::text_view;
use crate::status::StatusCode;
use openidconnect::ClaimsVerificationError::SignatureVerification;
use openidconnect::SignatureVerificationError::NoMatchingKey;
use openidconnect::{AuthUrl, ClientId, ClientSecret, CsrfToken, IssuerUrl, Nonce};
use openidconnect::{PkceCodeChallenge, PkceCodeVerifier, RedirectUrl, Scope};
use vstd::prelude::*;

verus! {

/// Bound on connecting to the provider, in seconds.
pub const OIDC_CONNECT_TIMEOUT_SECONDS: u64 = 5;

/// What is used of the provider's metadata.
pub struct ProviderMetadata {
    pub issuer: String,
    pub authorization_endpoint: String,
    /// The provider's signing keys, a JSON Web Key Set.
    pub key_set: String,
}

/// What [`ProviderMetadata`] hold.
pub struct MetadataView {
    pub issuer: Seq<char>,
    pub authorization_endpoint: Seq<char>,
    pub key_set: Seq<char>,
}

impl View for ProviderMetadata {
    type V = MetadataView;

    open spec fn view(&self) -> MetadataView {
        MetadataView {
            issuer: self.issuer@,
            authorization_endpoint: self.authorization_endpoint@,
            key_set: self.key_set@,
        }
    }
}

/// The metadata that were discovered last.
pub struct MetadataCache<M> {
    pub cached: Option<M>,
}

impl<M> MetadataCache<M> {
    /// Nothing was discovered yet.
    pub fn new() -> (cache: Self)
        ensures
            cache.cached is None,
    {
        MetadataCache { cached: None }
    }

    /// The metadata, if they were discovered before. If not, they have to be discovered.
    pub fn provider_metadata(&self) -> (found: Option<&M>)
        ensures
            match found {
                Some(metadata) => self.cached == Some(*metadata),
                None => self.cached is None,
            },
    {
        self.cached.as_ref()
    }

    /// Takes in the outcome of a discovery: metadata replace those of before, and a failure, which
    /// leaves them, is the provider's.
    pub fn store_discovery(&mut self, discovered: Result<M, ()>) -> (outcome: Result<
        (),
        StatusCode,
    >)
        ensures
            match discovered {
                Ok(metadata) => outcome is Ok && final(self).cached == Some(metadata),
                Err(_) => outcome == Err::<(), StatusCode>(StatusCode::BadGateway)
                    && *final(self) == *old(self),
            },
    {
        match discovered {
            Ok(metadata) => {
                self.cached = Some(metadata);
                Ok(())
            },
            Err(_) => Err(StatusCode::BadGateway),
        }
    }
}

/// Whether a text can serve as a PKCE verifier: it has 43 to 128 bytes.
pub open spec fn is_pkce_verifier(verifier: Seq<char>) -> bool {
    43 <= vstd::utf8::encode_utf8(verifier).len() <= 128
}

/// Where a browser is sent with an authorization request.
pub uninterp spec fn authorization_url(
    issuer: Seq<char>,
    endpoint: Seq<char>,
    client_id: Seq<char>,
    redirect_uri: Seq<char>,
    scopes: Seq<Seq<char>>,
    state: Seq<char>,
    nonce: Seq<char>,
    pkce_verifier: Seq<char>,
) -> Option<Seq<char>>;

/// The characters of each text.
pub open spec fn texts_view(texts: Seq<String>) -> Seq<Seq<char>> {
    texts.map_values(|text: String| text@)
}

/// `openidconnect::Client::authorize_url` for the authorization code flow, with the scopes and a
/// SHA-256 PKCE challenge added: the URL at the provider's endpoint that carries the request. There
/// is none where the issuer, the endpoint or the redirect URI is no URL.
#[verifier::external_body]
pub(crate) fn authorize_url(
    issuer: String,
    endpoint: String,
    client_id: String,
    redirect_uri: String,
    scopes: Vec<String>,
    state: String,
    nonce: String,
    pkce_verifier: String,
) -> (url: Option<String>)
    requires
        is_pkce_verifier(pkce_verifier@),
    ensures
        text_view(url) == authorization_url(
            issuer@,
            endpoint@,
            client_id@,
            redirect_uri@,
            texts_view(scopes@),
            state@,
            nonce@,
            pkce_verifier@,
        ),
{
    let verifier = PkceCodeVerifier::new(pkce_verifier);
    let challenge = PkceCodeChallenge::from_code_verifier_sha256(&verifier);
    let issuer = IssuerUrl::new(issuer).ok()?;
    let (id, keys) = (ClientId::new(client_id), Default::default());
    let client = openidconnect::core::CoreClient::new(id, issuer, keys)
        .set_auth_uri(AuthUrl::new(endpoint).ok()?)
        .set_redirect_uri(RedirectUrl::new(redirect_uri).ok()?);
    let flow = openidconnect::core::CoreAuthenticationFlow::AuthorizationCode;
    let asked = client.authorize_url(flow, || CsrfToken::new(state), || Nonce::new(nonce))
        .add_scopes(scopes.into_iter().map(Scope::new))
        .set_pkce_challenge(challenge);
    Some(asked.url().0.to_string())
}

/// What the verification of an ID token found.
#[derive(Clone, Copy, Debug, PartialEq, Eq, Structural)]
pub enum IdTokenVerdict {
    /// Signature and claims are in order.
    Accepted,
    /// None of the provider's keys is the one that the token names.
    NoMatchingKey,
    /// Something else is wrong.
    Rejected,
}

/// What is found in an ID token in compact form: whether it is in order, or at least lacks nothing
/// but its key.
pub uninterp spec fn id_token_findings(
    issuer: Seq<char>,
    key_set: Seq<char>,
    client_id: Seq<char>,
    client_secret: Seq<char>,
    algorithm: Seq<char>,
    now: ClockReading,
    nonce: Seq<char>,
    id_token: Seq<char>,
) -> Option<bool>;

/// `openidconnect::IdToken::claims` with a verifier for a confidential client, one accepted
/// algorithm, given by its `alg` header, and the given time. `true` is found where issuer, audience,
/// algorithm, signature, expiry and nonce of the token are in order, and `false` where the verifier
/// stops because the key set holds no key for the token. Nothing is found where it stops for another
/// reason, or where the token, the key set, the algorithm or the issuer is of the wrong form.
#[verifier::external_body]
pub(crate) fn verify_claims(
    issuer: String,
    key_set: &str,
    client_id: String,
    client_secret: String,
    algorithm: &str,
    now: ClockReading,
    nonce: String,
    id_token: &str,
) -> (found: Option<bool>)
    requires
        now.wf(),
        algorithm@ == header_of(SigningAlgorithm::EcdsaP256Sha256),
    ensures
        found == id_token_findings(
            issuer@,
            key_set@,
            client_id@,
            client_secret@,
            algorithm@,
            now,
            nonce@,
            id_token@,
        ),
{
    let now = std::time::UNIX_EPOCH + std::time::Duration::new(now.seconds, now.nanos);
    let algorithm = serde_json::from_value(algorithm.into()).ok()?;
    let (id, secret) = (ClientId::new(client_id), ClientSecret::new(client_secret));
    let verifier = openidconnect::core::CoreIdTokenVerifier::new_confidential_client(
        id, secret, IssuerUrl::new(issuer).ok()?, serde_json::from_str(key_set).ok()?,
    ).set_time_fn(move || now.into()).set_allowed_algs([algorithm]);
    let id_token: openidconnect::core::CoreIdToken = id_token.parse().ok()?;
    match id_token.claims(&verifier, &Nonce::new(nonce)) {
        Ok(_) => Some(true),
        Err(SignatureVerification(NoMatchingKey)) => Some(false),
        Err(_) => None,
    }
}

/// The verdict on what was found.
pub open spec fn verdict_of(found: Option<bool>) -> IdTokenVerdict {
    match found {
        Some(true) => IdTokenVerdict::Accepted,
        Some(false) => IdTokenVerdict::NoMatchingKey,
        None => IdTokenVerdict::Rejected,
    }
}

/// What an ID token is worth: it has to be signed by the provider with the accepted algorithm, made
/// for this client, not expired, and to carry the nonce of its transaction.
pub open spec fn id_token_verdict(
    config: ConfigView,
    metadata: MetadataView,
    id_token: Seq<char>,
    nonce: Seq<char>,
    now: ClockReading,
) -> IdTokenVerdict {
    verdict_of(
        id_token_findings(
            metadata.issuer,
            metadata.key_set,
            config.client_id,
            config.client_secret,
            header_of(SigningAlgorithm::EcdsaP256Sha256),
            now,
            nonce,
            id_token,
        ),
    )
}

/// Verifies an ID token against the provider's metadata at hand.
pub fn verify_id_token_once(
    config: &OidcConfig,
    provider_metadata: &ProviderMetadata,
    id_token: &str,
    nonce: &str,
    now: ClockReading,
) -> (verdict: IdTokenVerdict)
    requires
        now.wf(),
    ensures
        verdict == id_token_verdict(config@, provider_metadata@, id_token@, nonce@, now),
        verdict == match id_token_findings(
            provider_metadata.issuer@,
            provider_metadata.key_set@,
            config.client_id@,
            config.client_secret@,
            "ES256"@,
            now,
            nonce@,
            id_token@,
        ) {
            Some(true) => IdTokenVerdict::Accepted,
            Some(false) => IdTokenVerdict::NoMatchingKey,
            None => IdTokenVerdict::Rejected,
        },
{
    let algorithms: [SigningAlgorithm; 1] = accepted_id_token_signing_algorithms();
    let found: Option<bool> = verify_claims(
        provider_metadata.issuer.clone(),
        provider_metadata.key_set.as_str(),
        config.client_id.clone(),
        config.client_secret.clone(),
        algorithms[0].header(),
        now,
        nonce.to_owned(),
        id_token,
    );
    judge_findings(found)
}

/// Decides on what was found in an ID token.
pub fn judge_findings(found: Option<bool>) -> (verdict: IdTokenVerdict)
    ensures
        verdict == verdict_of(found),
{
    match found {
        Some(true) => IdTokenVerdict::Accepted,
        Some(false) => IdTokenVerdict::NoMatchingKey,
        None => IdTokenVerdict::Rejected,
    }
}

/// What to do about the verdict of a first verification.
#[derive(Clone, Copy, Debug, PartialEq, Eq, Structural)]
pub enum FirstVerification {
    /// The token is good.
    Accepted,
    /// Discover the provider's metadata anew, and verify once more.
    RefreshMetadata,
    /// The token is refused.
    Refused(StatusCode),
}

/// What to do about the verdict of a first verification: a missing key is worth another look at
/// the provider's keys, and nothing else is.
pub open spec fn first_verification(verdict: IdTokenVerdict) -> FirstVerification {
    match verdict {
        IdTokenVerdict::Accepted => FirstVerification::Accepted,
        IdTokenVerdict::NoMatchingKey => FirstVerification::RefreshMetadata,
        IdTokenVerdict::Rejected => FirstVerification::Refused(StatusCode::Unauthorized),
    }
}

/// Decides on the verdict of a first verification.
pub fn judge_first_verification(verdict: IdTokenVerdict) -> (decision: FirstVerification)
    ensures
        decision == first_verification(verdict),
{
    match verdict {
        IdTokenVerdict::Accepted => FirstVerification::Accepted,
        IdTokenVerdict::NoMatchingKey => FirstVerification::RefreshMetadata,
        IdTokenVerdict::Rejected => FirstVerification::Refused(StatusCode::Unauthorized),
    }
}

/// What the verdict of a second verification means: it is final.
pub open spec fn second_verification(verdict: IdTokenVerdict) -> Result<(), StatusCode> {
    match verdict {
        IdTokenVerdict::Accepted => Ok(()),
        _ => Err(StatusCode::Unauthorized),
    }
}

/// Decides on the verdict of a second verification.
pub fn judge_second_verification(verdict: IdTokenVerdict) -> (decision: Result<(), StatusCode>)
    ensures
        decision == second_verification(verdict),
{
    match verdict {
        IdTokenVerdict::Accepted => Ok(()),
        _ => Err(StatusCode::Unauthorized),
    }
}

/// An ID token is accepted exactly if it is found in order when held, as it is, against the
/// provider's issuer and keys, this client and its secret, ES256 alone, the given time and the nonce
/// of its transaction. Only a missing key is worth another look, and only one.
pub proof fn id_tokens_are_held_against_everything(
    config: ConfigView,
    metadata: MetadataView,
    id_token: Seq<char>,
    nonce: Seq<char>,
    now: ClockReading,
)
    ensures
        ({
            let found = id_token_findings(
                metadata.issuer,
                metadata.key_set,
                config.client_id,
                config.client_secret,
                "ES256"@,
                now,
                nonce,
                id_token,
            );
            let verdict = id_token_verdict(config, metadata, id_token, nonce, now);
            &&& verdict == IdTokenVerdict::Accepted <==> found == Some(true)
            &&& verdict == IdTokenVerdict::NoMatchingKey <==> found == Some(false)
            &&& verdict == IdTokenVerdict::Rejected <==> found is None
            &&& first_verification(verdict) == FirstVerification::Accepted <==> found == Some(true)
            &&& first_verification(verdict) == FirstVerification::RefreshMetadata <==> found == Some(
                false,
            )
            &&& second_verification(verdict) is Ok <==> found == Some(true)
        }),
{
}

} // verus!
