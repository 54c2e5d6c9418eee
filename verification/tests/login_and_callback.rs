use axum::http::{
    header::{COOKIE, SET_COOKIE},
    HeaderMap, HeaderValue,
};
use axum::response::{IntoResponse, Response};
use axum_extra::extract::cookie::CookieJar;
use openidconnect::{CsrfToken, JsonWebKeyId};
use p256::ecdsa::signature::Signer;
use p256::ecdsa::{Signature, SigningKey};
use rtp_bff::clock::{read_clock, ClockReading, LAST_CALENDAR_SECOND};
use rtp_bff::oidc::callback::{
    read_authorization_response, CallbackStep, CodeExchangeReply, IssuedTokens, StoreNeeded,
};
use rtp_bff::oidc::config::{ClientIp, OidcConfig, CLIENT_ID, LOCAL_REDIRECT_URI};
use rtp_bff::oidc::login::{
    draw_login_material, prepare_login, prepare_login_with, prepared, LoginMaterial, PreparedLogin,
};
use rtp_bff::oidc::provider::{
    judge_findings, judge_first_verification, judge_second_verification, verify_id_token_once,
    FirstVerification, IdTokenVerdict, MetadataCache, ProviderMetadata,
};
use rtp_bff::oidc::transaction::{
    hash_browser_binding, preauth_cookie_name, remove_preauth_cookie, take_bound_transaction,
    AuthorizationTransaction, PendingLogins, LOGIN_TTL, MAX_PENDING_LOGINS,
    MAX_PENDING_LOGINS_PER_CLIENT,
};
use rtp_bff::session::store::SessionStore;
use rtp_bff::session::AuthenticatedSession;
use rtp_bff::status::StatusCode;
use sha2::{Digest, Sha256};

const MOCK_ISSUER: &str = "https://mock.example";
const SECOND: u128 = 1_000_000_000;
const HOUR: u128 = 3_600 * SECOND;

fn runtime_secret() -> String {
    CsrfToken::new_random_len(32).secret().to_owned()
}

fn now() -> ClockReading {
    read_clock().expect("the clock stands within the calendar")
}

fn base64url_no_pad(input: &[u8]) -> String {
    const ALPHABET: &[u8; 64] = b"ABCDEFGHIJKLMNOPQRSTUVWXYZabcdefghijklmnopqrstuvwxyz0123456789-_";
    let mut output = String::new();
    for chunk in input.chunks(3) {
        let first = chunk[0];
        let second = chunk.get(1).copied().unwrap_or_default();
        let third = chunk.get(2).copied().unwrap_or_default();
        output.push(ALPHABET[(first >> 2) as usize] as char);
        output.push(ALPHABET[(((first & 0x03) << 4) | (second >> 4)) as usize] as char);
        if chunk.len() > 1 {
            output.push(ALPHABET[(((second & 0x0f) << 2) | (third >> 6)) as usize] as char);
        }
        if chunk.len() > 2 {
            output.push(ALPHABET[(third & 0x3f) as usize] as char);
        }
    }
    output
}

struct EphemeralKey {
    signing_key: SigningKey,
    kid: String,
}

impl EphemeralKey {
    fn generate() -> Self {
        loop {
            let candidate = Sha256::digest(runtime_secret().as_bytes());
            if let Ok(signing_key) = SigningKey::from_slice(&candidate) {
                return EphemeralKey {
                    signing_key,
                    kid: runtime_secret(),
                };
            }
        }
    }

    fn key_set(&self) -> String {
        let point = self.signing_key.verifying_key().to_encoded_point(false);
        let keys = openidconnect::core::CoreJsonWebKeySet::new(vec![openidconnect::core::CoreJsonWebKey::new_ec(
            point.x().expect("x").to_vec(),
            point.y().expect("y").to_vec(),
            openidconnect::core::CoreJsonCurveType::P256,
            Some(JsonWebKeyId::new(self.kid.clone())),
        )]);
        serde_json::to_string(&keys).expect("key sets can be written")
    }

    fn id_token(&self, nonce: &str) -> String {
        self.id_token_with(nonce, "ES256", &self.kid, MOCK_ISSUER, CLIENT_ID)
    }

    fn id_token_with(
        &self,
        nonce: &str,
        algorithm: &str,
        kid: &str,
        issuer: &str,
        audience: &str,
    ) -> String {
        let issued = now().seconds;
        let header = format!(r#"{{"alg":"{algorithm}","typ":"JWT","kid":"{kid}"}}"#);
        let claims = format!(
            r#"{{"iss":"{issuer}","sub":"{}","aud":"{audience}","exp":{},"iat":{issued},"nonce":"{nonce}"}}"#,
            runtime_secret(),
            issued + 300
        );
        let input = format!(
            "{}.{}",
            base64url_no_pad(header.as_bytes()),
            base64url_no_pad(claims.as_bytes())
        );
        let signature: Signature = self.signing_key.sign(input.as_bytes());
        format!("{input}.{}", base64url_no_pad(&signature.to_bytes()))
    }
}

fn config() -> OidcConfig {
    match OidcConfig::from_values(
        MOCK_ISSUER,
        CLIENT_ID,
        Some(runtime_secret()),
        LOCAL_REDIRECT_URI.to_owned(),
        None,
    ) {
        Ok(config) => config,
        Err(message) => panic!("{message}"),
    }
}

fn metadata(key: &EphemeralKey) -> ProviderMetadata {
    ProviderMetadata {
        issuer: MOCK_ISSUER.to_owned(),
        authorization_endpoint: "https://mock.example/authorize".to_owned(),
        key_set: key.key_set(),
    }
}

fn request_cookie_jar(cookies: &[(&str, &str)]) -> CookieJar {
    let header = cookies
        .iter()
        .map(|(name, value)| format!("{name}={value}"))
        .collect::<Vec<_>>()
        .join("; ");
    let mut headers = HeaderMap::new();
    headers.insert(
        COOKIE,
        HeaderValue::from_str(&header).expect("cookie header must be valid"),
    );
    CookieJar::from_headers(&headers)
}

fn set_cookies(response: &Response) -> Vec<String> {
    response
        .headers()
        .get_all(SET_COOKIE)
        .iter()
        .map(|value| value.to_str().expect("headers are ASCII").to_owned())
        .collect()
}

fn response_removes_cookie(jar: &CookieJar, cookie_name: &str) -> bool {
    let response = (jar.clone(), ()).into_response();
    set_cookies(&response).iter().any(|cookie| {
        cookie.starts_with(&format!("{cookie_name}="))
            && cookie.contains("Max-Age=0")
            && cookie.contains("Path=/auth/callback")
    })
}

fn params(pairs: &[(&str, &str)]) -> Vec<(String, String)> {
    pairs
        .iter()
        .map(|(name, value)| ((*name).to_owned(), (*value).to_owned()))
        .collect()
}

fn transaction(binding: &str, nonce: &str, verifier: &str, created_at: u128) -> AuthorizationTransaction {
    AuthorizationTransaction {
        pkce_verifier: verifier.to_owned(),
        nonce: nonce.to_owned(),
        browser_binding_hash: hash_browser_binding(binding),
        created_at,
        client_ip: ClientIp::V4(0x7f00_0001),
    }
}

/// A provider with one registered code, and what came of talking to it.
struct Provider {
    code: String,
    verifier: String,
    id_token: Option<String>,
    metadata: ProviderMetadata,
    refreshed: Option<ProviderMetadata>,
    token_calls: usize,
    refreshes: usize,
}

fn tokens() -> IssuedTokens {
    IssuedTokens {
        access_token: "access-secret".to_owned(),
        refresh_token: Some("refresh-secret".to_owned()),
        expires_in: Some(300),
    }
}

fn copy(metadata: &ProviderMetadata) -> ProviderMetadata {
    ProviderMetadata {
        issuer: metadata.issuer.clone(),
        authorization_endpoint: metadata.authorization_endpoint.clone(),
        key_set: metadata.key_set.clone(),
    }
}

/// Where the handling of a browser stands.
enum Handling {
    Arrived(CookieJar),
    Working(CallbackStep),
    Answered(CookieJar, StatusCode),
}

/// Does one piece of work for a browser that came back.
fn work(
    config: &OidcConfig,
    pending: &mut PendingLogins,
    store: &mut SessionStore,
    provider: &mut Provider,
    params: &Vec<(String, String)>,
    handling: Handling,
    clock: u128,
) -> Handling {
    let step = match handling {
        Handling::Arrived(jar) => {
            return match read_authorization_response(params, &jar) {
                Ok(response) => Handling::Working(response.redeem(
                    pending,
                    config.secure_cookie(),
                    jar,
                    clock,
                )),
                Err(status) => Handling::Answered(jar, status),
            };
        }
        Handling::Working(step) => step,
        Handling::Answered(..) => panic!("nothing is left to do"),
    };
    Handling::Working(match step {
        CallbackStep::ResolveMetadata(step) => step.answer(Ok(copy(&provider.metadata))),
        CallbackStep::ExchangeCode(step) => {
            provider.token_calls += 1;
            let good = step.redemption.code == provider.code
                && step.redemption.pkce_verifier == provider.verifier;
            let reply = if good {
                CodeExchangeReply::Tokens {
                    tokens: tokens(),
                    id_token: provider.id_token.clone(),
                }
            } else {
                CodeExchangeReply::Failed
            };
            step.answer(reply)
        }
        CallbackStep::Verify(step) => step.verify(config, now()),
        CallbackStep::RefreshKeys(step) => {
            provider.refreshes += 1;
            let found = provider.refreshed.as_ref().map(copy);
            step.answer(found.ok_or(StatusCode::BadGateway))
        }
        CallbackStep::VerifyAgain(step) => step.verify(config, now()),
        CallbackStep::StartSession(step) => step.start(),
        CallbackStep::StoreSession(step) => {
            let stored = store.put(&step.session_id, &step.session, clock);
            let (jar, status) = step.answer(stored, config.secure_cookie(), store.ttl());
            return Handling::Answered(jar, status);
        }
        CallbackStep::Finished { jar, status } => return Handling::Answered(jar, status),
    })
}

struct Setting {
    config: OidcConfig,
    pending: PendingLogins,
    store: SessionStore,
    provider: Provider,
    state: String,
    binding: String,
    jar: CookieJar,
    params: Vec<(String, String)>,
}

/// A login that is pending, and the browser that comes back for it.
fn setting() -> Setting {
    let key = EphemeralKey::generate();
    let (state, binding, nonce) = (runtime_secret(), runtime_secret(), runtime_secret());
    let (code, verifier) = (runtime_secret(), runtime_secret());
    let mut pending = PendingLogins::new();
    pending.insert(&state, transaction(&binding, &nonce, &verifier, 0));
    Setting {
        config: config(),
        pending,
        store: SessionStore::for_tests(),
        jar: request_cookie_jar(&[(&preauth_cookie_name(&state), &binding)]),
        params: params(&[("code", &code), ("state", &state)]),
        provider: Provider {
            code,
            verifier,
            id_token: Some(key.id_token(&nonce)),
            metadata: metadata(&key),
            refreshed: None,
            token_calls: 0,
            refreshes: 0,
        },
        state,
        binding,
    }
}

impl Setting {
    fn work(&mut self, handling: Handling, clock: u128) -> Handling {
        work(
            &self.config,
            &mut self.pending,
            &mut self.store,
            &mut self.provider,
            &self.params,
            handling,
            clock,
        )
    }

    fn callback(&mut self, jar: CookieJar, clock: u128) -> (CookieJar, StatusCode) {
        let mut handling = Handling::Arrived(jar);
        loop {
            if let Handling::Answered(jar, status) = handling {
                return (jar, status);
            }
            handling = self.work(handling, clock);
        }
    }

    fn answer(&mut self) -> (CookieJar, StatusCode) {
        self.callback(self.jar.clone(), SECOND)
    }
}

#[test]
fn transactions_login_transactions_generate_independent_security_material() {
    let config = config();
    let key = EphemeralKey::generate();
    let mut pending = PendingLogins::new();
    let mut urls = Vec::new();
    let mut materials = Vec::new();
    for _ in 0..2 {
        let login = match prepare_login(&config, &metadata(&key)) {
            Ok(login) => login,
            Err(_) => panic!("the login must be prepared"),
        };
        materials.push((
            login.material.state.clone(),
            login.material.nonce.clone(),
            login.material.pkce_verifier.clone(),
            login.material.browser_binding.clone(),
        ));
        let (_, url) = login
            .start(
                &mut pending,
                ClientIp::V4(0x7f00_0001),
                config.secure_cookie(),
                CookieJar::new(),
                0,
            )
            .expect("the login must start");
        urls.push(url);
    }

    assert_ne!(urls[0], urls[1]);
    assert_eq!(pending.len(), 2);
    let (one, other) = (&materials[0], &materials[1]);
    assert_ne!(one.0, other.0);
    assert_ne!(one.1, other.1);
    assert_ne!(one.2, other.2);
    assert_ne!(one.3, other.3);
}

#[test]
fn authorization_url_carries_the_request() {
    let config = config();
    let key = EphemeralKey::generate();
    let material = LoginMaterial {
        state: "the-state".to_owned(),
        nonce: "the-nonce".to_owned(),
        pkce_verifier: "dBjftJeZ4CVP-mB92K27uhbUJU1p1r_wW1gFWFOEjXk".to_owned(),
        browser_binding: "the-binding".to_owned(),
    };
    let Ok(login) = prepare_login_with(&config, &metadata(&key), material) else {
        panic!("the login must be prepared")
    };

    assert_eq!(
        login.authorization_url,
        "https://mock.example/authorize?response_type=code&client_id=rtp-web&state=the-state\
         &code_challenge=E9Melhoa2OwvFrEMTJguCHaoeK1t8URWbuGJSstw-cM&code_challenge_method=S256\
         &redirect_uri=http%3A%2F%2F127.0.0.1%3A3000%2Fauth%2Fcallback\
         &scope=openid+openid+email&nonce=the-nonce"
    );
    assert_eq!(login.material.state, "the-state");
    assert_eq!(login.material.browser_binding, "the-binding");
}

#[test]
fn metadata_without_an_endpoint_are_the_providers_failure() {
    let mut unusable = metadata(&EphemeralKey::generate());
    unusable.authorization_endpoint = "nowhere".to_owned();
    assert_eq!(
        prepare_login(&config(), &unusable).err(),
        Some(StatusCode::BadGateway)
    );
    assert_eq!(
        prepared(draw_login_material(), None).err(),
        Some(StatusCode::BadGateway)
    );
}

#[test]
fn drawn_material_has_the_lengths_of_its_kinds() {
    let material = draw_login_material();
    assert_eq!(material.state.len(), 22);
    assert_eq!(material.nonce.len(), 22);
    assert_eq!(material.pkce_verifier.len(), 43);
    assert_eq!(material.browser_binding.len(), 43);
}

fn simple_login(state: &str) -> PreparedLogin {
    PreparedLogin {
        material: LoginMaterial {
            state: state.to_owned(),
            nonce: "n".to_owned(),
            pkce_verifier: "v".to_owned(),
            browser_binding: "b".to_owned(),
        },
        authorization_url: "u".to_owned(),
    }
}

fn start(pending: &mut PendingLogins, state: &str, ip: ClientIp, clock: u128) -> Option<StatusCode> {
    simple_login(state)
        .start(pending, ip, false, CookieJar::new(), clock)
        .err()
}

#[test]
fn pending_logins_of_a_client_are_limited() {
    let mut pending = PendingLogins::new();
    for i in 0..MAX_PENDING_LOGINS_PER_CLIENT {
        assert_eq!(start(&mut pending, &format!("s{i}"), ClientIp::V4(1), 0), None);
    }
    assert_eq!(
        start(&mut pending, "one-more", ClientIp::V4(1), LOGIN_TTL - 1),
        Some(StatusCode::TooManyRequests)
    );
    assert!(!pending.contains_key("one-more"));
    assert_eq!(start(&mut pending, "other", ClientIp::V6(1), LOGIN_TTL - 1), None);
    assert_eq!(start(&mut pending, "later", ClientIp::V4(1), LOGIN_TTL), None);
    assert_eq!(pending.len(), 2);
}

#[test]
fn pending_logins_are_limited_in_all() {
    let mut pending = PendingLogins::new();
    for i in 0..MAX_PENDING_LOGINS {
        let ip = ClientIp::V4((i / MAX_PENDING_LOGINS_PER_CLIENT) as u32);
        assert_eq!(start(&mut pending, &format!("s{i}"), ip, 0), None);
    }
    assert_eq!(pending.len(), 128);
    assert_eq!(
        start(&mut pending, "one-more", ClientIp::V4(1_000), 0),
        Some(StatusCode::TooManyRequests)
    );
    assert_eq!(pending.len(), 128);
}

#[test]
fn login_binds_the_browser_and_completes() {
    let config = config();
    let key = EphemeralKey::generate();
    let mut pending = PendingLogins::new();
    let Ok(login) = prepare_login(&config, &metadata(&key)) else {
        panic!("the login must be prepared")
    };
    let (state, nonce, verifier) = (
        login.material.state.clone(),
        login.material.nonce.clone(),
        login.material.pkce_verifier.clone(),
    );
    let (jar, _) = login
        .start(&mut pending, ClientIp::V4(1), false, CookieJar::new(), 0)
        .expect("there is room");
    let name = preauth_cookie_name(&state);
    let binding = jar.get(&name).expect("the cookie is set").value().to_owned();

    let browser = request_cookie_jar(&[(&name, &binding)]);
    let response = match read_authorization_response(
        &params(&[("state", &state), ("code", "the-code")]),
        &browser,
    ) {
        Ok(response) => response,
        Err(_) => panic!("the response is in order"),
    };
    match response.redeem(&mut pending, false, browser, LOGIN_TTL - 1) {
        CallbackStep::ResolveMetadata(step) => {
            assert_eq!(step.redemption.code, "the-code");
            assert_eq!(step.redemption.nonce, nonce);
            assert_eq!(step.redemption.pkce_verifier, verifier);
            assert!(response_removes_cookie(&step.jar, &name));
        }
        _ => panic!("the code must be redeemed"),
    }
    assert_eq!(pending.len(), 0);
}

#[test]
fn transactions_oidc_error_callback_consumes_transaction_and_removes_cookie() {
    let mut setting = setting();
    setting.params = params(&[("error", "access_denied"), ("state", &setting.state)]);
    let (jar, status) = setting.answer();

    assert_eq!(status, StatusCode::BadRequest);
    assert!(!setting.pending.contains_key(&setting.state));
    assert!(response_removes_cookie(
        &jar,
        &preauth_cookie_name(&setting.state)
    ));
    assert_eq!(setting.provider.token_calls, 0);
}

#[test]
fn transactions_wrong_browser_binding_is_rejected_without_consuming_transaction() {
    let mut setting = setting();
    setting.params = params(&[("error", "access_denied"), ("state", &setting.state)]);
    let wrong = request_cookie_jar(&[(&preauth_cookie_name(&setting.state), &runtime_secret())]);
    let (_, status) = setting.callback(wrong, SECOND);

    assert_eq!(status, StatusCode::BadRequest);
    assert!(setting.pending.contains_key(&setting.state));
}

#[test]
fn transactions_malformed_callback_does_not_consume_transaction() {
    let mut setting = setting();
    let code = setting.provider.code.clone();
    setting.params = params(&[
        ("code", &code),
        ("error", "access_denied"),
        ("state", &setting.state),
    ]);
    let (_, status) = setting.answer();
    assert_eq!(status, StatusCode::BadRequest);
    assert!(setting.pending.contains_key(&setting.state));

    setting.params = params(&[("state", &setting.state)]);
    assert_eq!(setting.answer().1, StatusCode::BadRequest);
    setting.params = params(&[("code", &code)]);
    assert_eq!(setting.answer().1, StatusCode::BadRequest);
    assert!(setting.pending.contains_key(&setting.state));
}

#[test]
fn last_of_several_parameters_counts() {
    let mut setting = setting();
    let (state, code) = (setting.state.clone(), setting.provider.code.clone());
    setting.params = params(&[
        ("state", "another"),
        ("code", "another"),
        ("state", &state),
        ("code", &code),
    ]);
    assert_eq!(setting.answer().1, StatusCode::NoContent);
}

#[test]
fn transactions_independent_authorization_transactions_keep_independent_bindings() {
    let mut setting = setting();
    let (state_two, binding_two) = (runtime_secret(), runtime_secret());
    setting
        .pending
        .insert(&state_two, transaction(&binding_two, "n", "v", 0));
    let jar = request_cookie_jar(&[
        (&preauth_cookie_name(&setting.state), &setting.binding),
        (&preauth_cookie_name(&state_two), &binding_two),
    ]);

    setting.params = params(&[("error", "access_denied"), ("state", &setting.state)]);
    assert_eq!(
        setting.callback(jar.clone(), SECOND).1,
        StatusCode::BadRequest
    );
    assert!(!setting.pending.contains_key(&setting.state));
    assert!(setting.pending.contains_key(&state_two));

    setting.params = params(&[("error", "access_denied"), ("state", &state_two)]);
    assert_eq!(setting.callback(jar, SECOND).1, StatusCode::BadRequest);
    assert!(!setting.pending.contains_key(&state_two));
}

#[test]
fn transactions_concurrent_callbacks_for_same_transaction_reach_token_endpoint_at_most_once() {
    // Every way of taking turns that one of eight bits at a time decides.
    for turns in 0..256_u32 {
        let mut setting = setting();
        let mut handlings = [
            Some(Handling::Arrived(setting.jar.clone())),
            Some(Handling::Arrived(setting.jar.clone())),
        ];
        let mut answers: [Option<StatusCode>; 2] = [None, None];
        let mut round = 0;
        while answers[0].is_none() || answers[1].is_none() {
            let bit = ((turns >> (round % 8)) & 1) as usize;
            round += 1;
            let chosen = if answers[bit].is_none() { bit } else { 1 - bit };
            let handling = handlings[chosen].take().expect("the step is there");
            match setting.work(handling, SECOND) {
                Handling::Answered(_, status) => answers[chosen] = Some(status),
                handling => handlings[chosen] = Some(handling),
            }
        }
        let successes = answers
            .iter()
            .filter(|status| **status == Some(StatusCode::NoContent))
            .count();

        assert_eq!(successes, 1);
        assert!(answers.contains(&Some(StatusCode::BadRequest)));
        assert_eq!(setting.provider.token_calls, 1);
    }
}

#[test]
fn transactions_expired_transaction_is_rejected_before_token_exchange() {
    let mut setting = setting();
    let (_, status) = setting.callback(setting.jar.clone(), LOGIN_TTL + SECOND);

    assert_eq!(status, StatusCode::BadRequest);
    assert_eq!(setting.provider.token_calls, 0);
    assert!(!setting.pending.contains_key(&setting.state));
}

#[test]
fn taking_a_transaction_needs_its_binding() {
    let mut pending = PendingLogins::new();
    pending.insert("state", transaction("secret", "nonce", "verifier", 5));
    let right = hash_browser_binding("secret");

    for guess in ["guess", "", "Secret", "secret "] {
        assert!(matches!(
            take_bound_transaction(&mut pending, "state", hash_browser_binding(guess), 6),
            Err(StatusCode::BadRequest)
        ));
    }
    assert!(matches!(
        take_bound_transaction(&mut pending, "unknown", right, 6),
        Err(StatusCode::BadRequest)
    ));
    let Ok(taken) = take_bound_transaction(&mut pending, "state", right, LOGIN_TTL + 4) else {
        panic!("the binding is right and the time is not over")
    };
    assert_eq!(taken.nonce, "nonce");
    assert_eq!(taken.pkce_verifier, "verifier");
    assert!(matches!(
        take_bound_transaction(&mut pending, "state", right, LOGIN_TTL + 4),
        Err(StatusCode::BadRequest)
    ));
}

#[test]
fn callback_security_callback_without_preauth_cookie_is_rejected_before_token_exchange() {
    let mut setting = setting();
    let (_, status) = setting.callback(CookieJar::new(), SECOND);

    assert_eq!(status, StatusCode::BadRequest);
    assert_eq!(setting.provider.token_calls, 0);
    assert!(setting.pending.contains_key(&setting.state));
}

#[test]
fn callback_security_incorrect_pkce_verifier_causes_token_exchange_failure() {
    let mut setting = setting();
    setting.provider.verifier = runtime_secret();
    let (jar, status) = setting.answer();

    assert_eq!(status, StatusCode::BadGateway);
    assert_eq!(setting.provider.token_calls, 1);
    assert!(!setting.pending.contains_key(&setting.state));
    assert!(response_removes_cookie(
        &jar,
        &preauth_cookie_name(&setting.state)
    ));
}

fn verdict(key: &EphemeralKey, nonce: &str, id_token: &str) -> IdTokenVerdict {
    verify_id_token_once(&config(), &metadata(key), id_token, nonce, now())
}

#[test]
fn callback_security_wrong_nonce_is_rejected_without_jwks_refresh() {
    let key = EphemeralKey::generate();
    let verdict = verdict(&key, &runtime_secret(), &key.id_token(&runtime_secret()));

    assert_eq!(verdict, IdTokenVerdict::Rejected);
    assert_eq!(
        judge_first_verification(verdict),
        FirstVerification::Refused(StatusCode::Unauthorized)
    );
}

#[test]
fn callback_security_disallowed_signing_algorithm_is_rejected_without_jwks_refresh() {
    let key = EphemeralKey::generate();
    let nonce = runtime_secret();
    let id_token = key.id_token_with(&nonce, "HS256", &key.kid, MOCK_ISSUER, CLIENT_ID);

    assert_eq!(
        judge_first_verification(verdict(&key, &nonce, &id_token)),
        FirstVerification::Refused(StatusCode::Unauthorized)
    );
}

#[test]
fn callback_security_invalid_signature_is_rejected_without_jwks_refresh() {
    let trusted = EphemeralKey::generate();
    let other = EphemeralKey::generate();
    let nonce = runtime_secret();
    let id_token = other.id_token_with(&nonce, "ES256", &trusted.kid, MOCK_ISSUER, CLIENT_ID);

    assert_eq!(
        judge_first_verification(verdict(&trusted, &nonce, &id_token)),
        FirstVerification::Refused(StatusCode::Unauthorized)
    );
}

#[test]
fn id_tokens_are_verified() {
    let key = EphemeralKey::generate();
    let stranger = EphemeralKey::generate();
    let nonce = runtime_secret();
    let good = key.id_token(&nonce);

    assert_eq!(verdict(&key, &nonce, &good), IdTokenVerdict::Accepted);
    assert_eq!(
        verdict(&stranger, &nonce, &good),
        IdTokenVerdict::NoMatchingKey
    );
    assert_eq!(
        verdict(&key, &nonce, "no.token.here"),
        IdTokenVerdict::Rejected
    );
    let foreign = key.id_token_with(&nonce, "ES256", &key.kid, "https://other.example", CLIENT_ID);
    assert_eq!(verdict(&key, &nonce, &foreign), IdTokenVerdict::Rejected);
    let misdirected = key.id_token_with(&nonce, "ES256", &key.kid, MOCK_ISSUER, "other-client");
    assert_eq!(verdict(&key, &nonce, &misdirected), IdTokenVerdict::Rejected);

    let later = ClockReading {
        seconds: now().seconds + 400,
        nanos: 0,
    };
    assert_eq!(
        verify_id_token_once(&config(), &metadata(&key), &good, &nonce, later),
        IdTokenVerdict::Rejected
    );

    let last = ClockReading {
        seconds: LAST_CALENDAR_SECOND,
        nanos: 999_999_999,
    };
    assert_eq!(
        verify_id_token_once(&config(), &metadata(&key), &good, &nonce, last),
        IdTokenVerdict::Rejected
    );

    let mut unreadable = metadata(&key);
    unreadable.key_set = "{}".to_owned();
    assert_eq!(
        verify_id_token_once(&config(), &unreadable, &good, &nonce, now()),
        IdTokenVerdict::Rejected
    );
}

#[test]
fn verdicts_are_decided() {
    assert_eq!(judge_findings(Some(true)), IdTokenVerdict::Accepted);
    assert_eq!(judge_findings(Some(false)), IdTokenVerdict::NoMatchingKey);
    assert_eq!(judge_findings(None), IdTokenVerdict::Rejected);
    assert_eq!(
        judge_first_verification(IdTokenVerdict::Accepted),
        FirstVerification::Accepted
    );
    assert_eq!(
        judge_first_verification(IdTokenVerdict::NoMatchingKey),
        FirstVerification::RefreshMetadata
    );
    assert_eq!(judge_second_verification(IdTokenVerdict::Accepted), Ok(()));
    for refused in [IdTokenVerdict::NoMatchingKey, IdTokenVerdict::Rejected] {
        assert_eq!(
            judge_second_verification(refused),
            Err(StatusCode::Unauthorized)
        );
    }
}

#[test]
fn callback_security_unknown_signing_key_refreshes_once_and_accepts_rotated_key() {
    let mut setting = setting();
    setting.provider.refreshed = Some(copy(&setting.provider.metadata));
    setting.provider.metadata = metadata(&EphemeralKey::generate());
    let (jar, status) = setting.answer();

    assert_eq!(status, StatusCode::NoContent);
    assert_eq!(setting.provider.token_calls, 1);
    assert_eq!(setting.provider.refreshes, 1);
    assert!(response_removes_cookie(
        &jar,
        &preauth_cookie_name(&setting.state)
    ));
}

#[test]
fn callback_security_unknown_signing_key_is_rejected_after_one_unsuccessful_refresh() {
    let mut setting = setting();
    let stale = metadata(&EphemeralKey::generate());
    setting.provider.refreshed = Some(copy(&stale));
    setting.provider.metadata = stale;
    let (jar, status) = setting.answer();

    assert_eq!(status, StatusCode::Unauthorized);
    assert_eq!(setting.provider.token_calls, 1);
    assert_eq!(setting.provider.refreshes, 1);
    assert!(response_removes_cookie(
        &jar,
        &preauth_cookie_name(&setting.state)
    ));
}

#[test]
fn failed_key_refresh_is_passed_on() {
    let mut setting = setting();
    setting.provider.metadata = metadata(&EphemeralKey::generate());
    assert_eq!(setting.answer().1, StatusCode::BadGateway);
    assert_eq!(setting.provider.refreshes, 1);
}

#[test]
fn missing_id_token_is_unauthorized() {
    let mut setting = setting();
    setting.provider.id_token = None;
    assert_eq!(setting.answer().1, StatusCode::Unauthorized);
}

#[test]
fn unavailable_metadata_end_the_callback() {
    let setting = setting();
    let mut pending = setting.pending;
    let Ok(response) = read_authorization_response(&setting.params, &setting.jar) else {
        panic!("the response is in order")
    };
    let CallbackStep::ResolveMetadata(step) =
        response.redeem(&mut pending, false, setting.jar, SECOND)
    else {
        panic!("the metadata are needed")
    };
    assert!(matches!(
        step.answer(Err(StatusCode::BadGateway)),
        CallbackStep::Finished {
            status: StatusCode::BadGateway,
            ..
        }
    ));
}

#[test]
fn unavailable_store_gives_no_session_cookie() {
    let mut setting = setting();
    setting.store = SessionStore::for_tests_failing_writes();
    let (jar, status) = setting.answer();

    assert_eq!(status, StatusCode::ServiceUnavailable);
    assert!(jar.get("rtp_session_dev").is_none());
    assert!(response_removes_cookie(
        &jar,
        &preauth_cookie_name(&setting.state)
    ));
}

#[test]
fn callback_security_successful_callback_completes_flow_removes_cookie_and_prevents_replay() {
    let mut setting = setting();
    let (jar, status) = setting.answer();

    assert_eq!(status, StatusCode::NoContent);
    assert_eq!(setting.provider.token_calls, 1);
    assert_eq!(setting.provider.refreshes, 0);
    assert!(!setting.pending.contains_key(&setting.state));
    assert!(response_removes_cookie(
        &jar,
        &preauth_cookie_name(&setting.state)
    ));

    let cookie = jar.get("rtp_session_dev").expect("the session cookie is set");
    assert_eq!(cookie.path(), Some("/"));
    assert_eq!(cookie.http_only(), Some(true));
    assert_eq!(cookie.secure(), Some(false));
    assert_eq!(
        cookie.same_site(),
        Some(axum_extra::extract::cookie::SameSite::Strict)
    );
    assert_eq!(cookie.max_age(), Some(time::Duration::seconds(3600)));
    assert!(cookie.domain().is_none());
    let session = setting
        .store
        .get(cookie.value(), 2 * SECOND)
        .expect("read")
        .expect("the session is stored");
    assert_eq!(session.access_token, "access-secret");
    assert_eq!(session.refresh_token.as_deref(), Some("refresh-secret"));
    assert!(session.access_token_expires_at.is_some());

    let response = (jar, ()).into_response();
    for value in response.headers().values() {
        let value = value.to_str().expect("headers are ASCII");
        assert!(!value.contains("access-secret"));
        assert!(!value.contains("refresh-secret"));
        assert!(!value.contains(&setting.config.client_secret));
    }

    assert_eq!(setting.answer().1, StatusCode::BadRequest);
    assert_eq!(setting.provider.token_calls, 1);
    assert!(setting
        .store
        .get("unknown", HOUR)
        .expect("read")
        .is_none());
}

#[test]
fn https_session_cookie_is_bound_to_its_host() {
    let step = StoreNeeded {
        jar: CookieJar::new(),
        session_id: "opaque-session-id".to_owned(),
        session: AuthenticatedSession {
            access_token: "access".to_owned(),
            refresh_token: None,
            access_token_expires_at: None,
        },
    };
    let (jar, status) = step.answer(Ok(()), true, HOUR);
    let cookie = jar
        .get("__Host-Http-rtp_session")
        .expect("the session cookie is set");

    assert_eq!(status, StatusCode::NoContent);
    assert_eq!(cookie.value(), "opaque-session-id");
    assert!(cookie.domain().is_none());
    assert_eq!(cookie.path(), Some("/"));
    assert_eq!(cookie.http_only(), Some(true));
    assert_eq!(cookie.secure(), Some(true));
    assert_eq!(
        cookie.same_site(),
        Some(axum_extra::extract::cookie::SameSite::Strict)
    );
    assert_eq!(cookie.max_age(), Some(time::Duration::seconds(3600)));
    let response = (jar.clone(), ()).into_response();
    assert!(!set_cookies(&response)[0].contains("Domain"));
}

#[test]
fn removing_a_cookie_that_the_browser_lacks_sets_nothing() {
    let jar = remove_preauth_cookie(CookieJar::new(), "rtp-preauth-x".to_owned(), true);
    let response = (jar, ()).into_response();
    assert!(set_cookies(&response).is_empty());
}

#[test]
fn metadata_are_discovered_once_and_replaced_on_refresh() {
    let mut cache: MetadataCache<u32> = MetadataCache::new();
    assert_eq!(cache.provider_metadata(), None);
    assert_eq!(
        cache.store_discovery(Err(())),
        Err(StatusCode::BadGateway)
    );
    assert_eq!(cache.provider_metadata(), None);
    assert_eq!(cache.store_discovery(Ok(1)), Ok(()));
    assert_eq!(cache.provider_metadata(), Some(&1));
    assert_eq!(
        cache.store_discovery(Err(())),
        Err(StatusCode::BadGateway)
    );
    assert_eq!(cache.provider_metadata(), Some(&1));
    assert_eq!(cache.store_discovery(Ok(2)), Ok(()));
    assert_eq!(cache.provider_metadata(), Some(&2));
}
