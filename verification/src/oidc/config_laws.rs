//! What holds of every configuration: what is given is what is used.
use super::config::{
    all_networks, collected, config_of, config_view, header_of, is_acceptable_redirect,
    is_loopback, is_network, listed_values, networks_view, parts_view, proxy_networks, read_values,
    redirect_of, redirect_view, uses_secure_cookies, ClientIp, ConfigView, OidcConfig,
    ProxyNetwork, RedirectUri, RedirectUriView, SigningAlgorithm, UrlParts, UrlPartsView,
    CLIENT_ID, CLIENT_SECRET_ENV, ISSUER, LOCAL_REDIRECT_URI, OIDC_CALLBACK_PATH,
    REDIRECT_URI_ENV, TRUSTED_PROXY_CIDRS_ENV,
};
use super::login::{LOGIN_BURST, LOGIN_REQUESTS_PER_MINUTE};
use super::provider::OIDC_CONNECT_TIMEOUT_SECONDS;
use super::refresh::{OIDC_REQUEST_TIMEOUT_SECONDS, REFRESH_LOCK_LEASE, REFRESH_WAIT_TIMEOUT};
use super::transaction::{LOGIN_TTL, MAX_PENDING_LOGINS, MAX_PENDING_LOGINS_PER_CLIENT};
use crate::session::redis_store::{
    REDIS_CONNECT_TIMEOUT_SECONDS, REDIS_RESPONSE_TIMEOUT_SECONDS, REDIS_URL_ENV,
    SESSION_TTL_SECONDS_ENV,
};
use crate::session::text_view;
use crate::status::StatusCode;
use crate::text::{is_blank_text, split_at_separator, trimmed};
use vstd::prelude::*;

verus! {

/// A configuration is made exactly if there is a client secret that is not blank, the issuer is a
/// URL, the redirect URI is acceptable and every listed proxy is a network. It then holds what was
/// given, each in its place, and the networks that were read.
pub proof fn configuration_holds_what_was_given(
    issuer: Seq<char>,
    client_id: Seq<char>,
    client_secret: Option<Seq<char>>,
    issuer_is_valid: bool,
    redirect_uri: Result<RedirectUriView, StatusCode>,
    networks: Result<Seq<ProxyNetwork>, Seq<char>>,
)
    ensures
        ({
            let made = config_of(
                issuer,
                client_id,
                client_secret,
                issuer_is_valid,
                redirect_uri,
                networks,
            );
            &&& made is Ok <==> client_secret is Some && !is_blank_text(client_secret->Some_0)
                && issuer_is_valid && redirect_uri is Ok && networks is Ok
            &&& made is Ok ==> {
                &&& made->Ok_0.issuer == issuer
                &&& made->Ok_0.client_id == client_id
                &&& made->Ok_0.client_secret == client_secret->Some_0
                &&& made->Ok_0.redirect_uri == redirect_uri->Ok_0
                &&& made->Ok_0.trusted_proxy_cidrs == networks->Ok_0
            }
        }),
{
}

/// What a configuration is refused for: the first fault, in the order of secret, issuer, redirect
/// URI and proxies.
pub proof fn configuration_names_the_first_fault(
    issuer: Seq<char>,
    client_id: Seq<char>,
    client_secret: Seq<char>,
    issuer_is_valid: bool,
    redirect_uri: Result<RedirectUriView, StatusCode>,
    networks: Result<Seq<ProxyNetwork>, Seq<char>>,
)
    ensures
        config_of(issuer, client_id, None, issuer_is_valid, redirect_uri, networks) == Err::<
            ConfigView,
            Seq<char>,
        >("RTP_OIDC_CLIENT_SECRET is required"@),
        ({
            let made = config_of(
                issuer,
                client_id,
                Some(client_secret),
                issuer_is_valid,
                redirect_uri,
                networks,
            );
            &&& is_blank_text(client_secret) ==> made == Err::<ConfigView, Seq<char>>(
                "RTP_OIDC_CLIENT_SECRET must not be empty"@,
            )
            &&& !is_blank_text(client_secret) && !issuer_is_valid ==> made == Err::<
                ConfigView,
                Seq<char>,
            >("OIDC issuer URL is invalid"@)
            &&& !is_blank_text(client_secret) && issuer_is_valid && redirect_uri is Err ==> made
                == Err::<ConfigView, Seq<char>>("OIDC redirect URI is invalid or insecure"@)
            &&& !is_blank_text(client_secret) && issuer_is_valid && redirect_uri is Ok && networks
                is Err ==> made == Err::<ConfigView, Seq<char>>(networks->Err_0)
        }),
{
}

/// A redirect URI is accepted exactly if it goes over HTTPS, or over HTTP to this machine by one of
/// its four names, to the callback path and without a fragment. It is then kept as it was written,
/// with the parts that were read.
pub proof fn redirects_are_safe(raw: Seq<char>, parts: UrlPartsView)
    ensures
        redirect_of(raw, None) == Err::<RedirectUriView, StatusCode>(
            StatusCode::InternalServerError,
        ),
        ({
            let loopback = parts.host matches Some(host) && (host == "127.0.0.1"@ || host
                == "localhost"@ || host == "::1"@ || host == "[::1]"@);
            let safe = (parts.scheme == "https"@ || (parts.scheme == "http"@ && loopback))
                && parts.path == "/auth/callback"@ && parts.fragment is None;
            &&& is_loopback(parts.host) == loopback
            &&& is_acceptable_redirect(parts) == safe
            &&& safe ==> redirect_of(raw, Some(parts)) == Ok::<RedirectUriView, StatusCode>(
                RedirectUriView { raw, parts },
            )
            &&& !safe ==> redirect_of(raw, Some(parts)) == Err::<RedirectUriView, StatusCode>(
                StatusCode::InternalServerError,
            )
        }),
{
}

/// Cookies are for HTTPS only exactly if the redirect URI is.
pub proof fn secure_cookies_follow_the_scheme(config: ConfigView)
    ensures
        uses_secure_cookies(config) <==> config.redirect_uri.parts.scheme == "https"@,
{
}

/// Every listed network is taken over, in its place, if all are networks; else the list is refused
/// for its first value that is none.
pub proof fn networks_are_taken_over(listed: Seq<(Seq<char>, Option<ProxyNetwork>)>)
    ensures
        collected(listed) is Ok <==> forall|i: int|
            0 <= i < listed.len() ==> (#[trigger] listed[i]).1 is Some,
        collected(listed) matches Ok(networks) ==> networks.len() == listed.len(),
        collected(listed) is Ok ==> forall|i: int|
            0 <= i < listed.len() ==> Some(collected(listed)->Ok_0[i]) == (#[trigger] listed[i]).1,
        forall|k: int|
            0 <= k < listed.len() && (#[trigger] listed[k]).1 is None && (forall|i: int|
                0 <= i < k ==> (#[trigger] listed[i]).1 is Some) ==> collected(listed) == Err::<
                Seq<ProxyNetwork>,
                Seq<char>,
            >("invalid trusted proxy CIDR: "@ + listed[k].0),
    decreases listed.len(),
{
    if listed.len() > 0 {
        let init = listed.drop_last();
        let last = listed[listed.len() - 1];
        networks_are_taken_over(init);
        assert(forall|i: int| 0 <= i < init.len() ==> init[i] == listed[i]);
        assert(listed.last() == last);
        if collected(init) is Ok {
            assert forall|i: int| 0 <= i < init.len() implies (#[trigger] listed[i]).1 is Some by {
                assert(init[i].1 is Some);
            }
            if last.1 is Some {
                assert forall|i: int| 0 <= i < listed.len() implies Some(
                    collected(listed)->Ok_0[i],
                ) == (#[trigger] listed[i]).1 by {
                    if i < init.len() {
                        assert(Some(collected(init)->Ok_0[i]) == init[i].1);
                    }
                }
            }
        } else {
            let bad = choose|i: int| 0 <= i < init.len() && (#[trigger] init[i]).1 is None;
            assert(listed[bad].1 is None);
        }
        assert forall|k: int|
            0 <= k < listed.len() && (#[trigger] listed[k]).1 is None && (forall|i: int|
                0 <= i < k ==> (#[trigger] listed[i]).1 is Some) implies collected(listed) == Err::<
            Seq<ProxyNetwork>,
            Seq<char>,
        >("invalid trusted proxy CIDR: "@ + listed[k].0) by {
            if k < init.len() {
                assert(init[k].1 is None);
                assert forall|i: int| 0 <= i < k implies (#[trigger] init[i]).1 is Some by {
                    assert(listed[i].1 is Some);
                }
            }
        }
    }
}

/// The values of a list, piece by piece: a piece that is blank adds nothing, and every other adds
/// itself without the white space around it, behind those before it.
pub proof fn lists_are_read_piece_by_piece(pieces: Seq<Seq<char>>, piece: Seq<char>)
    ensures
        listed_values(Seq::<Seq<char>>::empty()) == Seq::<Seq<char>>::empty(),
        is_blank_text(piece) ==> listed_values(pieces.push(piece)) == listed_values(pieces),
        !is_blank_text(piece) ==> listed_values(pieces.push(piece)) == listed_values(pieces).push(
            trimmed(piece),
        ),
{
    crate::text::blank_text_trims_to_nothing(piece);
    assert(pieces.push(piece).drop_last() =~= pieces);
    assert(pieces.push(piece).last() == piece);
}

/// Without a list there are no networks; with one, the networks are those of its values, in their
/// order, the list being parted at its commas.
pub proof fn networks_come_from_the_list(list: Seq<char>, i: int)
    ensures
        proxy_networks(None) == Ok::<Seq<ProxyNetwork>, Seq<char>>(Seq::empty()),
        ({
            let values = listed_values(split_at_separator(list, ','));
            let read = read_values(values);
            &&& proxy_networks(Some(list)) == collected(read)
            &&& read.len() == values.len()
            &&& 0 <= i < values.len() ==> read[i].0 == values[i] && read[i].1
                == super::config::ip_network(values[i])
        }),
{
}

/// A configuration is seen as it is.
pub proof fn configuration_is_seen_as_it_is(
    config: OidcConfig,
    redirect: RedirectUri,
    parts: UrlParts,
    networks: Vec<ProxyNetwork>,
    message: String,
)
    ensures
        config@.issuer == config.issuer@,
        config@.client_id == config.client_id@,
        config@.client_secret == config.client_secret@,
        config@.redirect_uri == config.redirect_uri@,
        config@.trusted_proxy_cidrs == config.trusted_proxy_cidrs@,
        redirect@.raw == redirect.raw@,
        redirect@.parts == redirect.parts@,
        parts@.scheme == parts.scheme@,
        parts@.path == parts.path@,
        parts@.host == text_view(parts.host),
        parts@.fragment == text_view(parts.fragment),
        parts_view(Some(parts)) == Some(parts@),
        parts_view(None) is None,
        redirect_view(Ok(redirect)) == Ok::<RedirectUriView, StatusCode>(redirect@),
        networks_view(Ok(networks)) == Ok::<Seq<ProxyNetwork>, Seq<char>>(networks@),
        networks_view(Err(message)) == Err::<Seq<ProxyNetwork>, Seq<char>>(message@),
        config_view(Ok(config)) == Ok::<ConfigView, Seq<char>>(config@),
        config_view(Err(message)) == Err::<ConfigView, Seq<char>>(message@),
{
}

/// The fixed values of a deployment.
pub proof fn fixed_values()
    ensures
        ISSUER@ == "https://id.rock-the-prototype.com/realms/RTP"@,
        CLIENT_ID@ == "rtp-web"@,
        OIDC_CALLBACK_PATH@ == "/auth/callback"@,
        LOCAL_REDIRECT_URI@ == "http://127.0.0.1:3000/auth/callback"@,
        CLIENT_SECRET_ENV@ == "RTP_OIDC_CLIENT_SECRET"@,
        REDIRECT_URI_ENV@ == "RTP_OIDC_REDIRECT_URI"@,
        TRUSTED_PROXY_CIDRS_ENV@ == "RTP_TRUSTED_PROXY_CIDRS"@,
        REDIS_URL_ENV@ == "RTP_REDIS_URL"@,
        SESSION_TTL_SECONDS_ENV@ == "RTP_BFF_SESSION_TTL_SECONDS"@,
        REDIS_CONNECT_TIMEOUT_SECONDS == 2,
        REDIS_RESPONSE_TIMEOUT_SECONDS == 2,
        OIDC_CONNECT_TIMEOUT_SECONDS == 5,
        OIDC_REQUEST_TIMEOUT_SECONDS == 15,
        REFRESH_LOCK_LEASE == 60_000_000_000,
        REFRESH_WAIT_TIMEOUT == 65_000_000_000,
        LOGIN_REQUESTS_PER_MINUTE == 10,
        LOGIN_BURST == 4,
        MAX_PENDING_LOGINS == 128,
        MAX_PENDING_LOGINS_PER_CLIENT == 8,
        LOGIN_TTL == 300_000_000_000,
{
}

/// The signing algorithms go by the names that are registered for them, and no two share one. ES256
/// is the name of a single algorithm.
pub proof fn algorithms_have_their_names(one: SigningAlgorithm, other: SigningAlgorithm)
    ensures
        one == SigningAlgorithm::HmacSha256 ==> header_of(one) == "HS256"@,
        one == SigningAlgorithm::HmacSha384 ==> header_of(one) == "HS384"@,
        one == SigningAlgorithm::HmacSha512 ==> header_of(one) == "HS512"@,
        one == SigningAlgorithm::RsaSsaPkcs1V15Sha256 ==> header_of(one) == "RS256"@,
        one == SigningAlgorithm::RsaSsaPkcs1V15Sha384 ==> header_of(one) == "RS384"@,
        one == SigningAlgorithm::RsaSsaPkcs1V15Sha512 ==> header_of(one) == "RS512"@,
        one == SigningAlgorithm::EcdsaP384Sha384 ==> header_of(one) == "ES384"@,
        one == SigningAlgorithm::EcdsaP521Sha512 ==> header_of(one) == "ES512"@,
        one == SigningAlgorithm::RsaSsaPssSha256 ==> header_of(one) == "PS256"@,
        one == SigningAlgorithm::RsaSsaPssSha384 ==> header_of(one) == "PS384"@,
        one == SigningAlgorithm::RsaSsaPssSha512 ==> header_of(one) == "PS512"@,
        one == SigningAlgorithm::EdDsa ==> header_of(one) == "EdDSA"@,
        one == SigningAlgorithm::Unsigned ==> header_of(one) == "none"@,
        header_of(one) == "ES256"@ <==> one == SigningAlgorithm::EcdsaP256Sha256,
        header_of(one) == header_of(other) ==> one == other,
{
    reveal_strlit("HS256");
    reveal_strlit("HS384");
    reveal_strlit("HS512");
    reveal_strlit("RS256");
    reveal_strlit("RS384");
    reveal_strlit("RS512");
    reveal_strlit("ES256");
    reveal_strlit("ES384");
    reveal_strlit("ES512");
    reveal_strlit("PS256");
    reveal_strlit("PS384");
    reveal_strlit("PS512");
    reveal_strlit("EdDSA");
    reveal_strlit("none");
    assert(header_of(one)[0] != header_of(other)[0] || header_of(one)[1] != header_of(other)[1]
        || header_of(one)[2] != header_of(other)[2] || one == other);
    assert(header_of(one)[0] != 'E' || header_of(one)[1] != 'S' || header_of(one)[2] != '2' || one
        == SigningAlgorithm::EcdsaP256Sha256);
    assert("ES256"@[0] == 'E' && "ES256"@[1] == 'S' && "ES256"@[2] == '2');
}

/// Of an address with 32 bits at most 32 count, of one with 128 bits at most 128; a row of networks
/// is in order if each of them is.
pub proof fn networks_fit_their_addresses(
    v4: u32,
    v6: u128,
    prefix_len: u8,
    networks: Seq<ProxyNetwork>,
)
    ensures
        is_network(ProxyNetwork { address: ClientIp::V4(v4), prefix_len }) <==> prefix_len <= 32,
        is_network(ProxyNetwork { address: ClientIp::V6(v6), prefix_len }) <==> prefix_len <= 128,
        all_networks(networks) ==> forall|i: int|
            0 <= i < networks.len() ==> (#[trigger] networks[i]).prefix_len <= 128 && (
            networks[i].address is V4 ==> networks[i].prefix_len <= 32),
        !all_networks(networks) ==> exists|i: int|
            0 <= i < networks.len() && (#[trigger] networks[i]).prefix_len > 32,
{
    if !all_networks(networks) {
        let i = choose|i: int| 0 <= i < networks.len() && !is_network(#[trigger] networks[i]);
        assert(networks[i].prefix_len > 32);
    }
}

} // verus!
