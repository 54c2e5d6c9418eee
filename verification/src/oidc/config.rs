//! Configuration of the OpenID Connect client.
use crate::session::text_view;
use crate::status::StatusCode;
use crate::text::{
    is_blank, is_blank_text, joined, same_text, split, split_at_separator, trim, trimmed,
};
use vstd::prelude::*;

verus! {

/// The provider.
pub const ISSUER: &'static str = "https://id.rock-the-prototype.com/realms/RTP";

/// Name under which this service is registered at the provider.
pub const CLIENT_ID: &'static str = "rtp-web";

/// Path to which the provider sends the browser back.
pub const OIDC_CALLBACK_PATH: &'static str = "/auth/callback";

/// Redirect URI where none is configured.
pub const LOCAL_REDIRECT_URI: &'static str = "http://127.0.0.1:3000/auth/callback";

/// Environment variable with the client secret.
pub const CLIENT_SECRET_ENV: &'static str = "RTP_OIDC_CLIENT_SECRET";

/// Environment variable with the redirect URI.
pub const REDIRECT_URI_ENV: &'static str = "RTP_OIDC_REDIRECT_URI";

/// Environment variable with the networks of trusted proxies.
pub const TRUSTED_PROXY_CIDRS_ENV: &'static str = "RTP_TRUSTED_PROXY_CIDRS";

/// Complaint about a missing client secret.
pub const CLIENT_SECRET_REQUIRED: &'static str = "RTP_OIDC_CLIENT_SECRET is required";

/// Complaint about a blank client secret.
pub const CLIENT_SECRET_EMPTY: &'static str = "RTP_OIDC_CLIENT_SECRET must not be empty";

/// Complaint about an issuer that is no URL.
pub const ISSUER_INVALID: &'static str = "OIDC issuer URL is invalid";

/// Complaint about a redirect URI that is not acceptable.
pub const REDIRECT_URI_INVALID: &'static str = "OIDC redirect URI is invalid or insecure";

/// How the complaint about a value that is no network begins.
pub const CIDR_INVALID_PREFIX: &'static str = "invalid trusted proxy CIDR: ";

/// An IP address.
#[derive(Clone, Copy, Debug, PartialEq, Eq, Structural)]
pub enum ClientIp {
    V4(u32),
    V6(u128),
}

/// A network of trusted proxies: an address and the number of its leading bits that count.
#[derive(Clone, Copy, Debug, PartialEq, Eq, Structural)]
pub struct ProxyNetwork {
    pub address: ClientIp,
    pub prefix_len: u8,
}

/// Whether no more bits count than an address has.
pub open spec fn is_network(network: ProxyNetwork) -> bool {
    match network.address {
        ClientIp::V4(_) => network.prefix_len <= 32,
        ClientIp::V6(_) => network.prefix_len <= 128,
    }
}

/// Whether a row holds networks only.
pub open spec fn all_networks(networks: Seq<ProxyNetwork>) -> bool {
    forall|i: int| 0 <= i < networks.len() ==> is_network(#[trigger] networks[i])
}

/// The network that [`ipnet::IpNet`] reads from a text.
pub uninterp spec fn ip_network(text: Seq<char>) -> Option<ProxyNetwork>;

/// [`str::parse`] to an [`ipnet::IpNet`]: the address and the prefix length that the text writes,
/// where it writes a network. The prefix length fits the address.
#[verifier::external_body]
pub(crate) fn parse_network(text: &str) -> (network: Option<ProxyNetwork>)
    ensures
        network == ip_network(text@),
        network matches Some(n) ==> is_network(n),
{
    match text.parse::<ipnet::IpNet>() {
        Ok(ipnet::IpNet::V4(net)) => Some(
            ProxyNetwork { address: ClientIp::V4(net.addr().into()), prefix_len: net.prefix_len() },
        ),
        Ok(ipnet::IpNet::V6(net)) => Some(
            ProxyNetwork { address: ClientIp::V6(net.addr().into()), prefix_len: net.prefix_len() },
        ),
        Err(_) => None,
    }
}

/// The values in a list of pieces: those that are not blank, trimmed.
pub open spec fn listed_values(pieces: Seq<Seq<char>>) -> Seq<Seq<char>>
    decreases pieces.len(),
{
    if pieces.len() == 0 {
        Seq::empty()
    } else {
        let before = listed_values(pieces.drop_last());
        let value = trimmed(pieces.last());
        if value.len() == 0 {
            before
        } else {
            before.push(value)
        }
    }
}

/// The values of a comma-separated list, trimmed, without the empty ones.
pub fn proxy_values(raw: &str) -> (values: Vec<String>)
    ensures
        values@.map_values(|value: String| value@) == listed_values(split_at_separator(raw@, ',')),
{
    let pieces: Vec<String> = split(raw, ',');
    let ghost texts = pieces@.map_values(|piece: String| piece@);
    let mut values: Vec<String> = Vec::new();
    let mut index: usize = 0;
    proof {
        assert(texts.take(0).len() == 0);
        assert(values@.map_values(|value: String| value@) =~= Seq::<Seq<char>>::empty());
    }
    while index < pieces.len()
        invariant
            index <= pieces@.len(),
            texts == pieces@.map_values(|piece: String| piece@),
            values@.map_values(|value: String| value@) == listed_values(texts.take(index as int)),
        decreases pieces.len() - index,
    {
        let ghost done = values@.map_values(|value: String| value@);
        proof {
            assert(texts.take(index + 1).drop_last() =~= texts.take(index as int));
            assert(texts.take(index + 1).last() == pieces@[index as int]@);
        }
        let value: String = trim(pieces[index].as_str());
        if value.as_str().unicode_len() != 0 {
            values.push(value);
            proof {
                assert(values@.map_values(|value: String| value@) =~= done.push(
                    trimmed(pieces@[index as int]@),
                ));
            }
        }
        index = index + 1;
    }
    proof {
        assert(texts.take(index as int) =~= texts);
    }
    values
}

/// A listed value and the network that it was read as.
pub struct ListedNetwork {
    pub value: String,
    pub network: Option<ProxyNetwork>,
}

/// All the networks of a list, or a complaint about its first value that is none.
pub open spec fn collected(listed: Seq<(Seq<char>, Option<ProxyNetwork>)>) -> Result<
    Seq<ProxyNetwork>,
    Seq<char>,
>
    decreases listed.len(),
{
    if listed.len() == 0 {
        Ok(Seq::empty())
    } else {
        match collected(listed.drop_last()) {
            Err(message) => Err(message),
            Ok(networks) => match listed.last().1 {
                Some(network) => Ok(networks.push(network)),
                None => Err(CIDR_INVALID_PREFIX@ + listed.last().0),
            },
        }
    }
}

/// What a row of [`ListedNetwork`]s holds.
pub open spec fn listed_view(listed: Seq<ListedNetwork>) -> Seq<(Seq<char>, Option<ProxyNetwork>)> {
    listed.map_values(|entry: ListedNetwork| (entry.value@, entry.network))
}

/// What the outcome of reading a list holds.
pub open spec fn networks_view(outcome: Result<Vec<ProxyNetwork>, String>) -> Result<
    Seq<ProxyNetwork>,
    Seq<char>,
> {
    match outcome {
        Ok(networks) => Ok(networks@),
        Err(message) => Err(message@),
    }
}

proof fn first_complaint_counts(listed: Seq<(Seq<char>, Option<ProxyNetwork>)>, count: int)
    requires
        0 <= count <= listed.len(),
        collected(listed.take(count)) is Err,
    ensures
        collected(listed) == collected(listed.take(count)),
    decreases listed.len(),
{
    if count < listed.len() {
        assert(listed.drop_last().take(count) =~= listed.take(count));
        first_complaint_counts(listed.drop_last(), count);
    } else {
        assert(listed.take(count) =~= listed);
    }
}

/// Gathers the networks that were read, up to the first value that is none.
pub fn collect_networks(listed: Vec<ListedNetwork>) -> (outcome: Result<Vec<ProxyNetwork>, String>)
    ensures
        networks_view(outcome) == collected(listed_view(listed@)),
{
    let ghost entries = listed_view(listed@);
    let mut networks: Vec<ProxyNetwork> = Vec::new();
    let mut index: usize = 0;
    proof {
        assert(entries.take(0).len() == 0);
        assert(networks@ =~= Seq::<ProxyNetwork>::empty());
    }
    while index < listed.len()
        invariant
            index <= listed@.len(),
            entries == listed_view(listed@),
            collected(entries.take(index as int)) == Ok::<Seq<ProxyNetwork>, Seq<char>>(networks@),
        decreases listed.len() - index,
    {
        proof {
            assert(entries.take(index + 1).drop_last() =~= entries.take(index as int));
            assert(entries.take(index + 1).last() == entries[index as int]);
        }
        match listed[index].network {
            Some(network) => {
                networks.push(network);
            },
            None => {
                let message: String = joined(CIDR_INVALID_PREFIX, listed[index].value.as_str());
                proof {
                    first_complaint_counts(entries, index + 1);
                }
                return Err(message);
            },
        }
        index = index + 1;
    }
    proof {
        assert(entries.take(index as int) =~= entries);
    }
    Ok(networks)
}

/// Each value together with what it is read as.
pub open spec fn read_values(values: Seq<Seq<char>>) -> Seq<(Seq<char>, Option<ProxyNetwork>)> {
    values.map_values(|value: Seq<char>| (value, ip_network(value)))
}

/// The networks that a list writes, or a complaint about its first value that is no network.
pub open spec fn proxy_networks(raw: Option<Seq<char>>) -> Result<Seq<ProxyNetwork>, Seq<char>> {
    match raw {
        None => Ok(Seq::empty()),
        Some(list) => collected(read_values(listed_values(split_at_separator(list, ',')))),
    }
}

/// Reads a comma-separated list of networks; without a list there are none.
pub fn parse_trusted_proxy_cidrs(raw: Option<String>) -> (outcome: Result<
    Vec<ProxyNetwork>,
    String,
>)
    ensures
        networks_view(outcome) == proxy_networks(text_view(raw)),
        outcome matches Ok(networks) ==> all_networks(networks@),
{
    let raw: String = match raw {
        Some(raw) => raw,
        None => {
            let none: Vec<ProxyNetwork> = Vec::new();
            proof {
                assert(none@ =~= Seq::<ProxyNetwork>::empty());
            }
            return Ok(none);
        },
    };
    let values: Vec<String> = proxy_values(raw.as_str());
    let ghost texts = values@.map_values(|value: String| value@);
    let mut listed: Vec<ListedNetwork> = Vec::new();
    let mut index: usize = 0;
    while index < values.len()
        invariant
            index <= values@.len(),
            listed@.len() == index,
            forall|i: int|
                0 <= i < index ==> (#[trigger] listed@[i]).value@ == values@[i]@
                    && listed@[i].network == ip_network(values@[i]@),
            forall|i: int|
                0 <= i < index ==> ((#[trigger] listed@[i]).network matches Some(n) ==> is_network(
                    n,
                )),
        decreases values.len() - index,
    {
        let network: Option<ProxyNetwork> = parse_network(values[index].as_str());
        listed.push(ListedNetwork { value: values[index].clone(), network });
        index = index + 1;
    }
    proof {
        assert(listed_view(listed@) =~= read_values(texts));
        collected_are_networks(listed_view(listed@));
    }
    collect_networks(listed)
}

proof fn collected_are_networks(listed: Seq<(Seq<char>, Option<ProxyNetwork>)>)
    requires
        forall|i: int|
            0 <= i < listed.len() ==> ((#[trigger] listed[i]).1 matches Some(n) ==> is_network(n)),
    ensures
        collected(listed) is Ok ==> all_networks(collected(listed)->Ok_0),
    decreases listed.len(),
{
    if listed.len() > 0 {
        let init = listed.drop_last();
        assert(forall|i: int| 0 <= i < init.len() ==> init[i] == listed[i]);
        collected_are_networks(init);
        assert(listed.last() == listed[listed.len() - 1]);
    }
}

/// What the redirect rules read of a URL.
pub struct UrlParts {
    pub scheme: String,
    pub host: Option<String>,
    pub path: String,
    pub fragment: Option<String>,
}

/// What [`UrlParts`] hold.
pub struct UrlPartsView {
    pub scheme: Seq<char>,
    pub host: Option<Seq<char>>,
    pub path: Seq<char>,
    pub fragment: Option<Seq<char>>,
}

impl View for UrlParts {
    type V = UrlPartsView;

    open spec fn view(&self) -> UrlPartsView {
        UrlPartsView {
            scheme: self.scheme@,
            host: text_view(self.host),
            path: self.path@,
            fragment: text_view(self.fragment),
        }
    }
}

/// What optional [`UrlParts`] hold.
pub open spec fn parts_view(parts: Option<UrlParts>) -> Option<UrlPartsView> {
    match parts {
        Some(parts) => Some(parts@),
        None => None,
    }
}

/// The parts of the URL that [`openidconnect::RedirectUrl::new`] reads from a text.
pub uninterp spec fn redirect_url_parts(raw: Seq<char>) -> Option<UrlPartsView>;

/// [`openidconnect::RedirectUrl::new`]: the scheme, host, path and fragment of the URL, where the
/// text is one.
#[verifier::external_body]
pub(crate) fn parse_redirect_url(raw: &str) -> (parts: Option<UrlParts>)
    ensures
        parts_view(parts) == redirect_url_parts(raw@),
{
    match openidconnect::RedirectUrl::new(raw.to_owned()) {
        Ok(redirect) => Some(
            UrlParts {
                scheme: redirect.url().scheme().to_owned(),
                host: redirect.url().host_str().map(|host| host.to_owned()),
                path: redirect.url().path().to_owned(),
                fragment: redirect.url().fragment().map(|fragment| fragment.to_owned()),
            },
        ),
        Err(_) => None,
    }
}

/// Whether [`openidconnect::IssuerUrl::new`] takes a text.
pub uninterp spec fn is_issuer_url(raw: Seq<char>) -> bool;

/// [`openidconnect::IssuerUrl::new`]: whether the text is a URL.
#[verifier::external_body]
pub(crate) fn parse_issuer_url(raw: &str) -> (valid: bool)
    ensures
        valid == is_issuer_url(raw@),
{
    openidconnect::IssuerUrl::new(raw.to_owned()).is_ok()
}

/// Whether a host is this machine.
pub open spec fn is_loopback(host: Option<Seq<char>>) -> bool {
    match host {
        Some(name) => name == "127.0.0.1"@ || name == "localhost"@ || name == "::1"@ || name
            == "[::1]"@,
        None => false,
    }
}

/// Whether the provider may send the browser to a URL: over HTTPS, or over HTTP to this machine;
/// to the callback path, without a fragment.
pub open spec fn is_acceptable_redirect(parts: UrlPartsView) -> bool {
    &&& parts.scheme == "https"@ || (parts.scheme == "http"@ && is_loopback(parts.host))
    &&& parts.path == OIDC_CALLBACK_PATH@
    &&& parts.fragment is None
}

/// An accepted redirect URI, as it was written and by its parts.
pub struct RedirectUri {
    pub raw: String,
    pub parts: UrlParts,
}

/// What a [`RedirectUri`] holds.
pub struct RedirectUriView {
    pub raw: Seq<char>,
    pub parts: UrlPartsView,
}

impl View for RedirectUri {
    type V = RedirectUriView;

    open spec fn view(&self) -> RedirectUriView {
        RedirectUriView { raw: self.raw@, parts: self.parts@ }
    }
}

/// The redirect URI of a text with the given parts, where it is acceptable.
pub open spec fn redirect_of(raw: Seq<char>, parts: Option<UrlPartsView>) -> Result<
    RedirectUriView,
    StatusCode,
> {
    match parts {
        Some(parts) if is_acceptable_redirect(parts) => Ok(RedirectUriView { raw, parts }),
        _ => Err(StatusCode::InternalServerError),
    }
}

/// What the outcome of a redirect check holds.
pub open spec fn redirect_view(outcome: Result<RedirectUri, StatusCode>) -> Result<
    RedirectUriView,
    StatusCode,
> {
    match outcome {
        Ok(redirect) => Ok(redirect@),
        Err(status) => Err(status),
    }
}

fn loopback(host: &Option<String>) -> (answer: bool)
    ensures
        answer == is_loopback(text_view(*host)),
{
    match host {
        Some(name) => {
            let name: &str = name.as_str();
            same_text(name, "127.0.0.1") || same_text(name, "localhost") || same_text(name, "::1")
                || same_text(name, "[::1]")
        },
        None => false,
    }
}

/// The redirect URI to use: the configured one, and else that of this machine.
pub fn redirect_or_local(configured: Option<String>) -> (raw: String)
    ensures
        raw@ == match configured {
            Some(text) => text@,
            None => LOCAL_REDIRECT_URI@,
        },
{
    match configured {
        Some(text) => text,
        None => LOCAL_REDIRECT_URI.to_owned(),
    }
}

/// Decides on a redirect URI whose parts were read.
pub fn check_redirect_parts(raw: String, parts: Option<UrlParts>) -> (outcome: Result<
    RedirectUri,
    StatusCode,
>)
    ensures
        redirect_view(outcome) == redirect_of(raw@, parts_view(parts)),
        outcome matches Ok(redirect) ==> redirect.raw@ == raw@ && parts is Some
            && redirect.parts == parts->Some_0,
{
    let parts: UrlParts = match parts {
        Some(parts) => parts,
        None => return Err(StatusCode::InternalServerError),
    };
    let is_https: bool = same_text(parts.scheme.as_str(), "https");
    let is_loopback_http: bool = same_text(parts.scheme.as_str(), "http") && loopback(&parts.host);
    let targets_callback: bool = same_text(parts.path.as_str(), OIDC_CALLBACK_PATH)
        && parts.fragment.is_none();
    if (!is_https && !is_loopback_http) || !targets_callback {
        return Err(StatusCode::InternalServerError);
    }
    Ok(RedirectUri { raw, parts })
}

/// Decides on a redirect URI.
pub fn validate_redirect_uri(raw: String) -> (outcome: Result<RedirectUri, StatusCode>)
    ensures
        redirect_view(outcome) == redirect_of(raw@, redirect_url_parts(raw@)),
{
    let parts: Option<UrlParts> = parse_redirect_url(raw.as_str());
    check_redirect_parts(raw, parts)
}

/// Algorithms with which a token can be signed.
#[derive(Clone, Copy, Debug, PartialEq, Eq, Structural)]
pub enum SigningAlgorithm {
    /// HMAC with SHA-256.
    HmacSha256,
    /// HMAC with SHA-384.
    HmacSha384,
    /// HMAC with SHA-512.
    HmacSha512,
    /// RSA PKCS#1 v1.5 with SHA-256.
    RsaSsaPkcs1V15Sha256,
    /// RSA PKCS#1 v1.5 with SHA-384.
    RsaSsaPkcs1V15Sha384,
    /// RSA PKCS#1 v1.5 with SHA-512.
    RsaSsaPkcs1V15Sha512,
    /// ECDSA on P-256 with SHA-256.
    EcdsaP256Sha256,
    /// ECDSA on P-384 with SHA-384.
    EcdsaP384Sha384,
    /// ECDSA on P-521 with SHA-512.
    EcdsaP521Sha512,
    /// RSA PSS with SHA-256.
    RsaSsaPssSha256,
    /// RSA PSS with SHA-384.
    RsaSsaPssSha384,
    /// RSA PSS with SHA-512.
    RsaSsaPssSha512,
    /// EdDSA, on the curve that the key names.
    EdDsa,
    /// No signature.
    Unsigned,
}

/// The `alg` header of tokens that are signed with an algorithm.
pub open spec fn header_of(algorithm: SigningAlgorithm) -> Seq<char> {
    match algorithm {
        SigningAlgorithm::HmacSha256 => "HS256"@,
        SigningAlgorithm::HmacSha384 => "HS384"@,
        SigningAlgorithm::HmacSha512 => "HS512"@,
        SigningAlgorithm::RsaSsaPkcs1V15Sha256 => "RS256"@,
        SigningAlgorithm::RsaSsaPkcs1V15Sha384 => "RS384"@,
        SigningAlgorithm::RsaSsaPkcs1V15Sha512 => "RS512"@,
        SigningAlgorithm::EcdsaP256Sha256 => "ES256"@,
        SigningAlgorithm::EcdsaP384Sha384 => "ES384"@,
        SigningAlgorithm::EcdsaP521Sha512 => "ES512"@,
        SigningAlgorithm::RsaSsaPssSha256 => "PS256"@,
        SigningAlgorithm::RsaSsaPssSha384 => "PS384"@,
        SigningAlgorithm::RsaSsaPssSha512 => "PS512"@,
        SigningAlgorithm::EdDsa => "EdDSA"@,
        SigningAlgorithm::Unsigned => "none"@,
    }
}

impl SigningAlgorithm {
    /// The `alg` header of tokens that are signed with the algorithm.
    pub fn header(self) -> (name: &'static str)
        ensures
            name@ == header_of(self),
    {
        match self {
            SigningAlgorithm::HmacSha256 => "HS256",
            SigningAlgorithm::HmacSha384 => "HS384",
            SigningAlgorithm::HmacSha512 => "HS512",
            SigningAlgorithm::RsaSsaPkcs1V15Sha256 => "RS256",
            SigningAlgorithm::RsaSsaPkcs1V15Sha384 => "RS384",
            SigningAlgorithm::RsaSsaPkcs1V15Sha512 => "RS512",
            SigningAlgorithm::EcdsaP256Sha256 => "ES256",
            SigningAlgorithm::EcdsaP384Sha384 => "ES384",
            SigningAlgorithm::EcdsaP521Sha512 => "ES512",
            SigningAlgorithm::RsaSsaPssSha256 => "PS256",
            SigningAlgorithm::RsaSsaPssSha384 => "PS384",
            SigningAlgorithm::RsaSsaPssSha512 => "PS512",
            SigningAlgorithm::EdDsa => "EdDSA",
            SigningAlgorithm::Unsigned => "none",
        }
    }
}

/// The algorithms that are accepted for ID tokens: ES256 alone.
pub fn accepted_id_token_signing_algorithms() -> (algorithms: [SigningAlgorithm; 1])
    ensures
        algorithms@ == seq![SigningAlgorithm::EcdsaP256Sha256],
{
    let algorithms: [SigningAlgorithm; 1] = [SigningAlgorithm::EcdsaP256Sha256];
    proof {
        assert(algorithms@ =~= seq![SigningAlgorithm::EcdsaP256Sha256]);
    }
    algorithms
}

/// Configuration of the client.
pub struct OidcConfig {
    pub issuer: String,
    pub client_id: String,
    pub client_secret: String,
    pub redirect_uri: RedirectUri,
    pub trusted_proxy_cidrs: Vec<ProxyNetwork>,
}

/// What an [`OidcConfig`] holds.
pub struct ConfigView {
    pub issuer: Seq<char>,
    pub client_id: Seq<char>,
    pub client_secret: Seq<char>,
    pub redirect_uri: RedirectUriView,
    pub trusted_proxy_cidrs: Seq<ProxyNetwork>,
}

impl View for OidcConfig {
    type V = ConfigView;

    open spec fn view(&self) -> ConfigView {
        ConfigView {
            issuer: self.issuer@,
            client_id: self.client_id@,
            client_secret: self.client_secret@,
            redirect_uri: self.redirect_uri@,
            trusted_proxy_cidrs: self.trusted_proxy_cidrs@,
        }
    }
}

/// What the outcome of a configuration holds.
pub open spec fn config_view(outcome: Result<OidcConfig, String>) -> Result<ConfigView, Seq<char>> {
    match outcome {
        Ok(config) => Ok(config@),
        Err(message) => Err(message@),
    }
}

/// The configuration that values make, given what was read from them; the first complaint counts.
pub open spec fn config_of(
    issuer: Seq<char>,
    client_id: Seq<char>,
    client_secret: Option<Seq<char>>,
    issuer_is_valid: bool,
    redirect_uri: Result<RedirectUriView, StatusCode>,
    trusted_proxy_cidrs: Result<Seq<ProxyNetwork>, Seq<char>>,
) -> Result<ConfigView, Seq<char>> {
    match client_secret {
        None => Err(CLIENT_SECRET_REQUIRED@),
        Some(client_secret) => if is_blank_text(client_secret) {
            Err(CLIENT_SECRET_EMPTY@)
        } else if !issuer_is_valid {
            Err(ISSUER_INVALID@)
        } else {
            match redirect_uri {
                Err(_) => Err(REDIRECT_URI_INVALID@),
                Ok(redirect_uri) => match trusted_proxy_cidrs {
                    Err(message) => Err(message),
                    Ok(trusted_proxy_cidrs) => Ok(
                        ConfigView {
                            issuer,
                            client_id,
                            client_secret,
                            redirect_uri,
                            trusted_proxy_cidrs,
                        },
                    ),
                },
            }
        },
    }
}

impl OidcConfig {
    /// Whether the redirect URI is acceptable and the networks are networks.
    pub open spec fn wf(&self) -> bool {
        &&& is_acceptable_redirect(self@.redirect_uri.parts)
        &&& all_networks(self.trusted_proxy_cidrs@)
    }

    /// Makes a configuration of values and what was read from them.
    pub fn from_read_values(
        issuer_raw: &str,
        client_id: &str,
        client_secret: Option<String>,
        issuer_is_valid: bool,
        redirect_uri: Result<RedirectUri, StatusCode>,
        trusted_proxy_cidrs: Result<Vec<ProxyNetwork>, String>,
    ) -> (outcome: Result<Self, String>)
        ensures
            config_view(outcome) == config_of(
                issuer_raw@,
                client_id@,
                text_view(client_secret),
                issuer_is_valid,
                redirect_view(redirect_uri),
                networks_view(trusted_proxy_cidrs),
            ),
            outcome matches Ok(config) ==> {
                &&& config.issuer@ == issuer_raw@
                &&& config.client_id@ == client_id@
                &&& client_secret is Some
                &&& config.client_secret@ == client_secret->Some_0@
                &&& issuer_is_valid
                &&& redirect_uri is Ok
                &&& config.redirect_uri == redirect_uri->Ok_0
                &&& trusted_proxy_cidrs is Ok
                &&& config.trusted_proxy_cidrs@ == trusted_proxy_cidrs->Ok_0@
            },
    {
        let client_secret: String = match client_secret {
            Some(secret) => secret,
            None => return Err(CLIENT_SECRET_REQUIRED.to_owned()),
        };
        if is_blank(client_secret.as_str()) {
            return Err(CLIENT_SECRET_EMPTY.to_owned());
        }
        if !issuer_is_valid {
            return Err(ISSUER_INVALID.to_owned());
        }
        let redirect_uri: RedirectUri = match redirect_uri {
            Ok(redirect) => redirect,
            Err(_) => return Err(REDIRECT_URI_INVALID.to_owned()),
        };
        let trusted_proxy_cidrs: Vec<ProxyNetwork> = match trusted_proxy_cidrs {
            Ok(networks) => networks,
            Err(message) => return Err(message),
        };
        Ok(
            OidcConfig {
                issuer: issuer_raw.to_owned(),
                client_id: client_id.to_owned(),
                client_secret,
                redirect_uri,
                trusted_proxy_cidrs,
            },
        )
    }

    /// Makes a configuration of values.
    pub fn from_values(
        issuer_raw: &str,
        client_id: &str,
        client_secret: Option<String>,
        redirect_raw: String,
        trusted_proxy_cidrs_raw: Option<String>,
    ) -> (outcome: Result<Self, String>)
        ensures
            config_view(outcome) == config_of(
                issuer_raw@,
                client_id@,
                text_view(client_secret),
                is_issuer_url(issuer_raw@),
                redirect_of(redirect_raw@, redirect_url_parts(redirect_raw@)),
                proxy_networks(text_view(trusted_proxy_cidrs_raw)),
            ),
            outcome matches Ok(config) ==> config.wf(),
            outcome matches Ok(config) ==> {
                &&& config.issuer@ == issuer_raw@
                &&& config.client_id@ == client_id@
                &&& client_secret is Some
                &&& config.client_secret@ == client_secret->Some_0@
                &&& config.redirect_uri.raw@ == redirect_raw@
                &&& redirect_url_parts(redirect_raw@) == Some(config.redirect_uri.parts@)
                &&& Ok::<Seq<ProxyNetwork>, Seq<char>>(config.trusted_proxy_cidrs@)
                    == proxy_networks(text_view(trusted_proxy_cidrs_raw))
            },
    {
        let issuer_is_valid: bool = parse_issuer_url(issuer_raw);
        let redirect_uri: Result<RedirectUri, StatusCode> = validate_redirect_uri(redirect_raw);
        let networks: Result<Vec<ProxyNetwork>, String> = parse_trusted_proxy_cidrs(
            trusted_proxy_cidrs_raw,
        );
        Self::from_read_values(
            issuer_raw,
            client_id,
            client_secret,
            issuer_is_valid,
            redirect_uri,
            networks,
        )
    }

    /// Whether cookies are for HTTPS only.
    pub fn secure_cookie(&self) -> (secure: bool)
        ensures
            secure == uses_secure_cookies(self@),
            secure == (self.redirect_uri.parts.scheme@ == "https"@),
    {
        same_text(self.redirect_uri.parts.scheme.as_str(), "https")
    }
}

/// Whether the cookies of a configuration are for HTTPS only.
pub open spec fn uses_secure_cookies(config: ConfigView) -> bool {
    config.redirect_uri.parts.scheme == "https"@
}

/// Cookies go over plain HTTP only where the service runs on this very machine.
pub proof fn insecure_cookies_stay_on_loopback(config: OidcConfig)
    requires
        config.wf(),
    ensures
        uses_secure_cookies(config@) || (config@.redirect_uri.parts.scheme == "http"@
            && is_loopback(config@.redirect_uri.parts.host)),
{
}

} // verus!
