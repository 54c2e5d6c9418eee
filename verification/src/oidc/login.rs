//! Start of a login.
use super::callback::{parameter, response_of};
use super::config::{ClientIp, ConfigView, OidcConfig};
use super::provider::{
    authorization_url, authorize_url, is_pkce_verifier, texts_view, MetadataView, ProviderMetadata,
};
use super::transaction::{
    build_preauth_cookie, has_room, hash_browser_binding, is_bound, live_transactions,
    preauth_cookie, preauth_cookie_name, preauth_cookie_name_of, AuthorizationTransaction,
    PendingLogins, TransactionView, BROWSER_BINDING_BYTES, LOGIN_TTL,
};
use crate::cookies::{jar_add, sets_cookie, shown_cookie, SetCookie};
use crate::digest::sha256;
use crate::keyed::keeping;
use crate::random::{
    encodes_bytes, is_base64url, random_nonce, random_pkce_verifier, random_token,
};
use crate::session::store::elapsed;
use crate::session::text_view;
use crate::status::StatusCode;
use axum_extra::extract::cookie::CookieJar;
use vstd::prelude::*;

verus! {

/// Logins that a client may start in a minute.
pub const LOGIN_REQUESTS_PER_MINUTE: u32 = 10;

/// Logins that a client may start at once.
pub const LOGIN_BURST: u32 = 4;

/// Random bytes in a state.
pub const STATE_BYTES: u32 = 16;

/// Scope of every OpenID Connect request.
pub const OPENID_SCOPE: &'static str = "openid";

/// Scope that asks for the address of the user.
pub const EMAIL_SCOPE: &'static str = "email";

/// The secrets of a login.
pub struct LoginMaterial {
    pub state: String,
    pub nonce: String,
    pub pkce_verifier: String,
    /// Secret that binds the login to the browser.
    pub browser_binding: String,
}

/// What [`LoginMaterial`] holds.
pub struct MaterialView {
    pub state: Seq<char>,
    pub nonce: Seq<char>,
    pub pkce_verifier: Seq<char>,
    pub browser_binding: Seq<char>,
}

impl View for LoginMaterial {
    type V = MaterialView;

    open spec fn view(&self) -> MaterialView {
        MaterialView {
            state: self.state@,
            nonce: self.nonce@,
            pkce_verifier: self.pkce_verifier@,
            browser_binding: self.browser_binding@,
        }
    }
}

/// Whether each secret has the form and the length of its kind.
pub open spec fn is_login_material(material: MaterialView) -> bool {
    &&& encodes_bytes(material.state, 16)
    &&& encodes_bytes(material.nonce, 16)
    &&& encodes_bytes(material.pkce_verifier, 32)
    &&& encodes_bytes(material.browser_binding, 32)
}

proof fn random_verifier_fits(verifier: Seq<char>)
    requires
        encodes_bytes(verifier, 32),
    ensures
        is_pkce_verifier(verifier),
{
    assert forall|i: int| 0 <= i < verifier.len() implies '\0' <= #[trigger] verifier[i]
        <= '\u{7f}' by {
        assert(is_base64url(verifier[i]));
    }
    assert(vstd::utf8::is_ascii_chars(verifier));
    vstd::utf8::is_ascii_chars_encode_utf8(verifier);
}

/// Draws the secrets of a login, each on its own.
pub fn draw_login_material() -> (material: LoginMaterial)
    ensures
        is_login_material(material@),
        is_pkce_verifier(material@.pkce_verifier),
{
    let pkce_verifier: String = random_pkce_verifier();
    let browser_binding: String = random_token(BROWSER_BINDING_BYTES);
    let state: String = random_token(STATE_BYTES);
    let nonce: String = random_nonce();
    proof {
        random_verifier_fits(pkce_verifier@);
    }
    LoginMaterial { state, nonce, pkce_verifier, browser_binding }
}

/// Where a browser is sent at a login.
pub open spec fn login_url(
    config: ConfigView,
    metadata: MetadataView,
    material: MaterialView,
) -> Option<Seq<char>> {
    authorization_url(
        metadata.issuer,
        metadata.authorization_endpoint,
        config.client_id,
        config.redirect_uri.raw,
        seq![OPENID_SCOPE@, EMAIL_SCOPE@],
        material.state,
        material.nonce,
        material.pkce_verifier,
    )
}

/// A login of which the provider is not asked yet.
pub struct PreparedLogin {
    pub material: LoginMaterial,
    /// Where the browser is to be sent.
    pub authorization_url: String,
}

/// Takes in where the browser is to be sent. Metadata that give no such place are the provider's
/// failure.
pub fn prepared(material: LoginMaterial, url: Option<String>) -> (outcome: Result<
    PreparedLogin,
    StatusCode,
>)
    ensures
        match outcome {
            Ok(login) => login.material@ == material@ && Some(login.authorization_url@)
                == text_view(url),
            Err(status) => url is None && status == StatusCode::BadGateway,
        },
{
    match url {
        Some(authorization_url) => Ok(PreparedLogin { material, authorization_url }),
        None => Err(StatusCode::BadGateway),
    }
}

/// Prepares a login with the given secrets.
pub fn prepare_login_with(
    config: &OidcConfig,
    metadata: &ProviderMetadata,
    material: LoginMaterial,
) -> (outcome: Result<PreparedLogin, StatusCode>)
    requires
        is_pkce_verifier(material@.pkce_verifier),
    ensures
        match outcome {
            Ok(login) => login.material@ == material@ && Some(login.authorization_url@)
                == login_url(config@, metadata@, material@),
            Err(status) => login_url(config@, metadata@, material@) is None
                && status == StatusCode::BadGateway,
        },
        match outcome {
            Ok(login) => {
                &&& login.material.state@ == material.state@
                &&& login.material.nonce@ == material.nonce@
                &&& login.material.pkce_verifier@ == material.pkce_verifier@
                &&& login.material.browser_binding@ == material.browser_binding@
                &&& Some(login.authorization_url@) == authorization_url(
                    metadata.issuer@,
                    metadata.authorization_endpoint@,
                    config.client_id@,
                    config.redirect_uri.raw@,
                    seq!["openid"@, "email"@],
                    material.state@,
                    material.nonce@,
                    material.pkce_verifier@,
                )
            },
            Err(_) => authorization_url(
                    metadata.issuer@,
                    metadata.authorization_endpoint@,
                    config.client_id@,
                    config.redirect_uri.raw@,
                    seq!["openid"@, "email"@],
                    material.state@,
                    material.nonce@,
                    material.pkce_verifier@,
                ) is None,
        },
{
    let scopes: Vec<String> = vec![OPENID_SCOPE.to_owned(), EMAIL_SCOPE.to_owned()];
    proof {
        assert(texts_view(scopes@) =~= seq![OPENID_SCOPE@, EMAIL_SCOPE@]);
    }
    let url: Option<String> = authorize_url(
        metadata.issuer.clone(),
        metadata.authorization_endpoint.clone(),
        config.client_id.clone(),
        config.redirect_uri.raw.clone(),
        scopes,
        material.state.clone(),
        material.nonce.clone(),
        material.pkce_verifier.clone(),
    );
    prepared(material, url)
}

/// Prepares a login with new secrets.
pub fn prepare_login(config: &OidcConfig, metadata: &ProviderMetadata) -> (outcome: Result<
    PreparedLogin,
    StatusCode,
>)
    ensures
        outcome matches Ok(login) ==> is_login_material(login.material@) && Some(
            login.authorization_url@,
        ) == login_url(config@, metadata@, login.material@),
        outcome matches Ok(login) ==> Some(login.authorization_url@) == authorization_url(
                    metadata.issuer@,
                    metadata.authorization_endpoint@,
                    config.client_id@,
                    config.redirect_uri.raw@,
                    seq!["openid"@, "email"@],
                    login.material.state@,
                    login.material.nonce@,
                    login.material.pkce_verifier@,
                ),
        outcome matches Err(status) ==> status == StatusCode::BadGateway && exists|
            material: MaterialView,
        |
            is_login_material(material) && #[trigger] login_url(config@, metadata@, material)
                is None,
{
    let material: LoginMaterial = draw_login_material();
    let ghost drawn = material@;
    let outcome: Result<PreparedLogin, StatusCode> = prepare_login_with(config, metadata, material);
    proof {
        if outcome is Err {
            assert(login_url(config@, metadata@, drawn) is None);
        }
    }
    outcome
}

/// The transaction of a login.
pub open spec fn transaction_of(
    material: MaterialView,
    client_ip: ClientIp,
    now: u128,
) -> TransactionView {
    TransactionView {
        pkce_verifier: material.pkce_verifier,
        nonce: material.nonce,
        browser_binding_hash: sha256(vstd::utf8::encode_utf8(material.browser_binding)),
        created_at: now,
        client_ip,
    }
}

impl PreparedLogin {
    /// Starts the login, if there is room for it: its transaction is pending from now on, and the
    /// response binds it to the browser and names the place to go to.
    pub fn start(
        self,
        pending: &mut PendingLogins,
        client_ip: ClientIp,
        secure: bool,
        jar: CookieJar,
        now: u128,
    ) -> (outcome: Result<(CookieJar, String), StatusCode>)
        requires
            old(pending).wf(),
        ensures
            final(pending).wf(),
            match outcome {
                Ok((after, url)) => {
                    let before = live_transactions(old(pending)@, now);
                    let material = self.material@;
                    &&& has_room(before, client_ip)
                    &&& final(pending)@ == before.insert(
                        material.state,
                        transaction_of(material, client_ip, now),
                    )
                    &&& final(pending)@.contains_key(self.material.state@)
                    &&& final(pending)@[self.material.state@].pkce_verifier
                        == self.material.pkce_verifier@
                    &&& final(pending)@[self.material.state@].nonce == self.material.nonce@
                    &&& final(pending)@[self.material.state@].browser_binding_hash == sha256(
                        vstd::utf8::encode_utf8(self.material.browser_binding@),
                    )
                    &&& final(pending)@[self.material.state@].created_at == now
                    &&& final(pending)@[self.material.state@].client_ip == client_ip
                    &&& url@ == self.authorization_url@
                    &&& sets_cookie(
                        jar,
                        preauth_cookie(
                            preauth_cookie_name_of(material.state),
                            material.browser_binding,
                            secure,
                        ),
                        after,
                    )
                },
                Err(status) => {
                    let before = live_transactions(old(pending)@, now);
                    &&& !has_room(before, client_ip)
                    &&& status == StatusCode::TooManyRequests
                    &&& final(pending)@ == before
                },
            },
    {
        let material: LoginMaterial = self.material;
        let cookie_name: String = preauth_cookie_name(material.state.as_str());
        let transaction: AuthorizationTransaction = AuthorizationTransaction {
            pkce_verifier: material.pkce_verifier,
            nonce: material.nonce,
            browser_binding_hash: hash_browser_binding(material.browser_binding.as_str()),
            created_at: now,
            client_ip,
        };
        match pending.start(material.state.as_str(), transaction, now) {
            Ok(_) => {},
            Err(status) => return Err(status),
        }
        let cookie: SetCookie = build_preauth_cookie(cookie_name, material.browser_binding, secure);
        Ok((jar_add(jar, cookie), self.authorization_url))
    }
}

/// A browser that was sent to the provider and comes back in time with its state, a code and its
/// binding cookie gets on with the secrets of its own login.
pub proof fn started_login_can_be_completed(
    pending: Map<Seq<char>, TransactionView>,
    material: MaterialView,
    client_ip: ClientIp,
    started: u128,
    params: Seq<(String, String)>,
    jar: CookieJar,
    returned: u128,
)
    requires
        elapsed(started, returned) < LOGIN_TTL,
        parameter(params, "state"@) == Some(material.state),
        parameter(params, "code"@) is Some,
        parameter(params, "error"@) is None,
        shown_cookie(jar, preauth_cookie_name_of(material.state)) == Some(material.browser_binding),
    ensures
        ({
            let waiting = live_transactions(
                pending.insert(material.state, transaction_of(material, client_ip, started)),
                returned,
            );
            &&& response_of(params, jar) matches Some(response)
            && response.state == material.state
            && response.code == parameter(params, "code"@)
            && is_bound(waiting, response.state, response.binding_hash)
            && waiting[response.state].pkce_verifier == material.pkce_verifier
            && waiting[response.state].nonce == material.nonce
        }),
{
}

/// Logins do not get in each other's way: from a state in which nothing is pending, a client that
/// starts a login and then, while it is pending, another with another state, has both pending, each
/// with its own secrets.
pub proof fn two_logins_are_pending(
    one: MaterialView,
    other: MaterialView,
    client_ip: ClientIp,
    first: u128,
    second: u128,
)
    requires
        one.state != other.state,
        elapsed(first, second) < LOGIN_TTL,
    ensures
        ({
            let none = Map::<Seq<char>, TransactionView>::empty();
            let begun = live_transactions(none, first);
            let after_first = begun.insert(one.state, transaction_of(one, client_ip, first));
            let waiting = live_transactions(after_first, second);
            let after_second = waiting.insert(other.state, transaction_of(other, client_ip, second));
            &&& has_room(begun, client_ip)
            &&& has_room(waiting, client_ip)
            &&& after_second.dom() == set![one.state, other.state]
            &&& after_second.dom().len() == 2
            &&& after_second[one.state] == transaction_of(one, client_ip, first)
            &&& after_second[other.state] == transaction_of(other, client_ip, second)
            &&& one.nonce != other.nonce ==> after_second[one.state].nonce
                != after_second[other.state].nonce
            &&& one.pkce_verifier != other.pkce_verifier ==> after_second[one.state].pkce_verifier
                != after_second[other.state].pkce_verifier
        }),
{
    let none = Map::<Seq<char>, TransactionView>::empty();
    let begun = live_transactions(none, first);
    assert(begun =~= none);
    let after_first = begun.insert(one.state, transaction_of(one, client_ip, first));
    let waiting = live_transactions(after_first, second);
    assert(waiting =~= after_first);
    let after_second = waiting.insert(other.state, transaction_of(other, client_ip, second));
    let same = |transaction: TransactionView| transaction.client_ip == client_ip;
    assert(keeping(begun, same).dom() =~= Set::<Seq<char>>::empty());
    assert(keeping(waiting, same).dom() =~= set![one.state]);
    assert(waiting.dom() =~= set![one.state]);
    assert(after_second.dom() =~= set![one.state, other.state]);
}

/// The authorization request of a login is the one made of the provider's issuer and authorization
/// endpoint, the configured client id, the configured redirect URI as it was written, the scopes
/// `openid` and `email`, and the state, the nonce and the PKCE verifier of the very login, whatever
/// the configuration.
pub proof fn login_asks_for_itself(
    config: OidcConfig,
    metadata: ProviderMetadata,
    material: LoginMaterial,
)
    ensures
        login_url(config@, metadata@, material@) == authorization_url(
            metadata.issuer@,
            metadata.authorization_endpoint@,
            config.client_id@,
            config.redirect_uri.raw@,
            seq!["openid"@, "email"@],
            material.state@,
            material.nonce@,
            material.pkce_verifier@,
        ),
        material@.state == material.state@,
        material@.nonce == material.nonce@,
        material@.pkce_verifier == material.pkce_verifier@,
        material@.browser_binding == material.browser_binding@,
{
}

/// A transaction keeps the secrets of its own login, each in its place, the binding secret only as
/// its digest, and the moment and the client of its start.
pub proof fn transaction_keeps_the_login(material: MaterialView, client_ip: ClientIp, now: u128)
    ensures
        transaction_of(material, client_ip, now).pkce_verifier == material.pkce_verifier,
        transaction_of(material, client_ip, now).nonce == material.nonce,
        transaction_of(material, client_ip, now).browser_binding_hash == sha256(
            vstd::utf8::encode_utf8(material.browser_binding),
        ),
        transaction_of(material, client_ip, now).created_at == now,
        transaction_of(material, client_ip, now).client_ip == client_ip,
{
}

/// The secrets of a login have the lengths of their random bytes in base64: 22 characters for the
/// state and the nonce, 43 for the PKCE verifier and the binding secret.
pub proof fn secrets_have_their_lengths(material: MaterialView)
    requires
        is_login_material(material),
    ensures
        material.state.len() == 22,
        material.nonce.len() == 22,
        material.pkce_verifier.len() == 43,
        material.browser_binding.len() == 43,
{
}

} // verus!
