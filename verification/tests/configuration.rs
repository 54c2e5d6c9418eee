use axum_extra::extract::cookie::CookieJar;
use openidconnect::CsrfToken;
use rtp_bff::cookies::SameSite;
use rtp_bff::oidc::client_address::{
    client_ip_or_fault, extract_client_ip, names_lone_quote_host, readable_headers, RequestHeader,
};
use rtp_bff::oidc::config::{
    accepted_id_token_signing_algorithms, check_redirect_parts, collect_networks,
    parse_trusted_proxy_cidrs, proxy_values, redirect_or_local, validate_redirect_uri, ClientIp, ListedNetwork,
    OidcConfig, ProxyNetwork, SigningAlgorithm, UrlParts, CLIENT_ID, ISSUER, LOCAL_REDIRECT_URI,
    OIDC_CALLBACK_PATH,
};
use rtp_bff::oidc::login::{LoginMaterial, PreparedLogin};
use rtp_bff::oidc::transaction::{
    build_preauth_cookie, preauth_cookie_name, PendingLogins, BROWSER_BINDING_BYTES,
    LOGIN_TTL_SECONDS, PREAUTH_COOKIE_PATH,
};
use rtp_bff::status::StatusCode;

fn runtime_secret() -> String {
    CsrfToken::new_random_len(BROWSER_BINDING_BYTES)
        .secret()
        .to_owned()
}

fn config_for(redirect: &str) -> OidcConfig {
    match OidcConfig::from_values(
        ISSUER,
        CLIENT_ID,
        Some(runtime_secret()),
        redirect.to_owned(),
        None,
    ) {
        Ok(config) => config,
        Err(message) => panic!("{message}"),
    }
}

fn configuration_error(
    issuer: &str,
    secret: Option<&str>,
    redirect: &str,
    proxies: Option<&str>,
) -> String {
    match OidcConfig::from_values(
        issuer,
        CLIENT_ID,
        secret.map(str::to_owned),
        redirect.to_owned(),
        proxies.map(str::to_owned),
    ) {
        Ok(_) => panic!("the configuration must be refused"),
        Err(message) => message,
    }
}

fn redirect_status(raw: &str) -> Option<StatusCode> {
    validate_redirect_uri(raw.to_owned()).err()
}

fn check_preauth_cookie() {
    let name = runtime_secret();
    let secret = runtime_secret();
    let cookie = build_preauth_cookie(name.clone(), secret.clone(), true);

    assert_eq!(cookie.name, name);
    assert_eq!(cookie.value, secret);
    assert_eq!(cookie.max_age, LOGIN_TTL_SECONDS);
    assert_eq!(cookie.path, PREAUTH_COOKIE_PATH);
    assert!(cookie.http_only);
    assert!(cookie.secure);
    assert_eq!(cookie.same_site, SameSite::Lax);

    let state = runtime_secret();
    let login = PreparedLogin {
        material: LoginMaterial {
            state: state.clone(),
            nonce: runtime_secret(),
            pkce_verifier: runtime_secret(),
            browser_binding: secret.clone(),
        },
        authorization_url: "https://mock.example/authorize".to_owned(),
    };
    let mut pending = PendingLogins::new();
    let (jar, _) = login
        .start(&mut pending, ClientIp::V4(1), true, CookieJar::new(), 0)
        .expect("there is room for a login");
    let cookie = jar
        .get(&preauth_cookie_name(&state))
        .expect("the response must set the cookie");

    assert_eq!(cookie.value(), secret);
    assert_eq!(
        cookie.max_age(),
        Some(time::Duration::seconds(LOGIN_TTL_SECONDS))
    );
    assert_eq!(cookie.path(), Some(PREAUTH_COOKIE_PATH));
    assert_eq!(cookie.http_only(), Some(true));
    assert_eq!(cookie.secure(), Some(true));
    assert_eq!(
        cookie.same_site(),
        Some(axum_extra::extract::cookie::SameSite::Lax)
    );
    assert!(cookie.domain().is_none());
}

#[test]
fn configuration_local_ipv4_http_redirect_is_allowed() {
    assert!(validate_redirect_uri("http://127.0.0.1:3000/auth/callback".to_owned()).is_ok());
}

#[test]
fn configuration_localhost_http_redirect_is_allowed() {
    assert!(validate_redirect_uri("http://localhost:3000/auth/callback".to_owned()).is_ok());
}

#[test]
fn configuration_non_loopback_https_redirect_is_allowed() {
    assert!(validate_redirect_uri("https://example.test/auth/callback".to_owned()).is_ok());
}

#[test]
fn configuration_non_loopback_http_redirect_is_rejected() {
    assert_eq!(
        redirect_status("http://example.test/auth/callback"),
        Some(StatusCode::InternalServerError)
    );
}

#[test]
fn configuration_non_http_loopback_redirect_is_rejected() {
    assert_eq!(
        redirect_status("ftp://localhost/auth/callback"),
        Some(StatusCode::InternalServerError)
    );
}

#[test]
fn configuration_malformed_redirect_uri_is_rejected() {
    assert_eq!(
        redirect_status("not a valid URI"),
        Some(StatusCode::InternalServerError)
    );
}

#[test]
fn configuration_missing_client_secret_is_rejected_during_configuration() {
    let result =
        OidcConfig::from_values(ISSUER, CLIENT_ID, None, LOCAL_REDIRECT_URI.to_owned(), None);

    assert!(result.is_err());
}

#[test]
fn configuration_empty_client_secret_is_rejected_during_configuration() {
    let result = OidcConfig::from_values(
        ISSUER,
        CLIENT_ID,
        Some(String::new()),
        LOCAL_REDIRECT_URI.to_owned(),
        None,
    );

    assert!(result.is_err());
}

#[test]
fn configuration_invalid_trusted_proxy_cidr_is_rejected_during_configuration() {
    let result = OidcConfig::from_values(
        ISSUER,
        CLIENT_ID,
        Some(runtime_secret()),
        LOCAL_REDIRECT_URI.to_owned(),
        Some("not-a-cidr".to_owned()),
    );

    assert!(result.is_err());
}

#[test]
fn configuration_preauth_cookie_is_short_lived_narrow_and_http_only() {
    check_preauth_cookie();
}

#[test]
fn configuration_local_loopback_configuration_explicitly_allows_non_secure_cookie() {
    let config = config_for(LOCAL_REDIRECT_URI);
    assert!(!config.secure_cookie());
}

#[test]
fn oidc_local_ipv4_http_redirect_is_allowed() {
    assert!(validate_redirect_uri("http://127.0.0.1:3000/auth/callback".to_owned()).is_ok());
}

#[test]
fn oidc_localhost_http_redirect_is_allowed() {
    assert!(validate_redirect_uri("http://localhost:3000/auth/callback".to_owned()).is_ok());
}

#[test]
fn oidc_non_loopback_https_redirect_is_allowed() {
    assert!(validate_redirect_uri("https://example.test/auth/callback".to_owned()).is_ok());
}

#[test]
fn oidc_non_loopback_http_redirect_is_rejected() {
    assert_eq!(
        redirect_status("http://example.test/auth/callback"),
        Some(StatusCode::InternalServerError)
    );
}

#[test]
fn oidc_non_http_loopback_redirect_is_rejected() {
    assert_eq!(
        redirect_status("ftp://localhost/auth/callback"),
        Some(StatusCode::InternalServerError)
    );
}

#[test]
fn oidc_malformed_redirect_uri_is_rejected() {
    assert_eq!(
        redirect_status("not a valid URI"),
        Some(StatusCode::InternalServerError)
    );
}

#[test]
fn oidc_missing_client_secret_is_rejected_during_configuration() {
    let result =
        OidcConfig::from_values(ISSUER, CLIENT_ID, None, LOCAL_REDIRECT_URI.to_owned(), None);

    assert!(result.is_err());
}

#[test]
fn oidc_empty_client_secret_is_rejected_during_configuration() {
    let result = OidcConfig::from_values(
        ISSUER,
        CLIENT_ID,
        Some(String::new()),
        LOCAL_REDIRECT_URI.to_owned(),
        None,
    );

    assert!(result.is_err());
}

#[test]
fn oidc_invalid_trusted_proxy_cidr_is_rejected_during_configuration() {
    let result = OidcConfig::from_values(
        ISSUER,
        CLIENT_ID,
        Some(runtime_secret()),
        LOCAL_REDIRECT_URI.to_owned(),
        Some("not-a-cidr".to_owned()),
    );

    assert!(result.is_err());
}

#[test]
fn oidc_preauth_cookie_is_short_lived_narrow_and_http_only() {
    check_preauth_cookie();
}

#[test]
fn oidc_local_loopback_configuration_explicitly_allows_non_secure_cookie() {
    let config = config_for(LOCAL_REDIRECT_URI);
    assert!(!config.secure_cookie());
}

#[test]
fn https_configuration_uses_secure_cookies() {
    let config = config_for("https://app.example.test/auth/callback");

    assert!(config.secure_cookie());
    assert_eq!(config.issuer, ISSUER);
    assert_eq!(config.client_id, "rtp-web");
    assert_eq!(
        config.redirect_uri.raw,
        "https://app.example.test/auth/callback"
    );
    assert_eq!(config.redirect_uri.parts.scheme, "https");
    assert_eq!(
        config.redirect_uri.parts.host.as_deref(),
        Some("app.example.test")
    );
    assert_eq!(config.redirect_uri.parts.path, "/auth/callback");
    assert!(config.redirect_uri.parts.fragment.is_none());
    assert!(config.trusted_proxy_cidrs.is_empty());
}

#[test]
fn redirect_has_to_target_the_callback_path_without_a_fragment() {
    assert_eq!(
        redirect_status("https://example.test/auth/callback/extra"),
        Some(StatusCode::InternalServerError)
    );
    assert_eq!(
        redirect_status("https://example.test/"),
        Some(StatusCode::InternalServerError)
    );
    assert_eq!(
        redirect_status("https://example.test/auth/callback#part"),
        Some(StatusCode::InternalServerError)
    );
    assert!(validate_redirect_uri("http://[::1]:3000/auth/callback".to_owned()).is_ok());
    assert!(validate_redirect_uri("HTTPS://example.test/auth/callback?a=b".to_owned()).is_ok());
}

fn parts(scheme: &str, host: Option<&str>, path: &str, fragment: Option<&str>) -> UrlParts {
    UrlParts {
        scheme: scheme.to_owned(),
        host: host.map(str::to_owned),
        path: path.to_owned(),
        fragment: fragment.map(str::to_owned),
    }
}

#[test]
fn redirect_parts_are_decided_one_by_one() {
    let accepted = |parts: UrlParts| check_redirect_parts("raw".to_owned(), Some(parts)).is_ok();
    let path = OIDC_CALLBACK_PATH;

    assert!(accepted(parts("https", None, path, None)));
    assert!(accepted(parts("http", Some("::1"), path, None)));
    assert!(accepted(parts("http", Some("[::1]"), path, None)));
    assert!(!accepted(parts("http", None, path, None)));
    assert!(!accepted(parts("http", Some("127.0.0.2"), path, None)));
    assert!(!accepted(parts("https", Some("localhost"), "/", None)));
    assert!(!accepted(parts("https", None, path, Some(""))));
    assert_eq!(
        check_redirect_parts("raw".to_owned(), None).err(),
        Some(StatusCode::InternalServerError)
    );
}

#[test]
fn first_configuration_complaint_counts() {
    let good = LOCAL_REDIRECT_URI;

    assert_eq!(
        configuration_error("no url", None, "bad", Some("bad")),
        "RTP_OIDC_CLIENT_SECRET is required"
    );
    assert_eq!(
        configuration_error("no url", Some(" \t\u{3000}\n"), "bad", Some("bad")),
        "RTP_OIDC_CLIENT_SECRET must not be empty"
    );
    assert_eq!(
        configuration_error("no url", Some("s"), "bad", Some("bad")),
        "OIDC issuer URL is invalid"
    );
    assert_eq!(
        configuration_error(ISSUER, Some("s"), "bad", Some("bad")),
        "OIDC redirect URI is invalid or insecure"
    );
    assert_eq!(
        configuration_error(ISSUER, Some("s"), good, Some("10.0.0.0/8, bad ,worse")),
        "invalid trusted proxy CIDR: bad"
    );
}

#[test]
fn trusted_proxies_are_read_from_a_list() {
    let networks = parse_trusted_proxy_cidrs(Some(
        " 10.0.0.0/8 ,, 2001:db8::/32,192.168.1.7/32 ,".to_owned(),
    ))
    .expect("the list must be readable");

    assert_eq!(
        networks,
        vec![
            ProxyNetwork {
                address: ClientIp::V4(0x0a00_0000),
                prefix_len: 8
            },
            ProxyNetwork {
                address: ClientIp::V6(0x2001_0db8 << 96),
                prefix_len: 32
            },
            ProxyNetwork {
                address: ClientIp::V4(0xc0a8_0107),
                prefix_len: 32
            },
        ]
    );
    assert!(parse_trusted_proxy_cidrs(None).expect("no list").is_empty());
    assert!(parse_trusted_proxy_cidrs(Some(" , ".to_owned()))
        .expect("an empty list")
        .is_empty());
    assert_eq!(
        parse_trusted_proxy_cidrs(Some("10.0.0.0/33".to_owned())).err(),
        Some("invalid trusted proxy CIDR: 10.0.0.0/33".to_owned())
    );
}

#[test]
fn proxy_lists_keep_order_and_drop_blanks() {
    assert_eq!(proxy_values("b, a ,,\u{a0} , c d"), vec!["b", "a", "c d"]);
    assert!(proxy_values("").is_empty());
}

#[test]
fn first_listed_value_that_is_no_network_is_named() {
    let good = ProxyNetwork {
        address: ClientIp::V4(7),
        prefix_len: 3,
    };
    let entry = |value: &str, network| ListedNetwork {
        value: value.to_owned(),
        network,
    };

    assert_eq!(
        collect_networks(vec![entry("x", Some(good)), entry("y", Some(good))]),
        Ok(vec![good, good])
    );
    assert_eq!(
        collect_networks(vec![
            entry("x", Some(good)),
            entry("y", None),
            entry("z", None)
        ]),
        Err("invalid trusted proxy CIDR: y".to_owned())
    );
    assert_eq!(collect_networks(Vec::new()), Ok(Vec::new()));
}

#[test]
fn only_es256_is_accepted() {
    assert_eq!(
        accepted_id_token_signing_algorithms(),
        [SigningAlgorithm::EcdsaP256Sha256]
    );
}

#[test]
fn algorithms_have_their_registered_headers() {
    let headers = [
        (SigningAlgorithm::HmacSha256, "HS256"),
        (SigningAlgorithm::HmacSha384, "HS384"),
        (SigningAlgorithm::HmacSha512, "HS512"),
        (SigningAlgorithm::RsaSsaPkcs1V15Sha256, "RS256"),
        (SigningAlgorithm::RsaSsaPkcs1V15Sha384, "RS384"),
        (SigningAlgorithm::RsaSsaPkcs1V15Sha512, "RS512"),
        (SigningAlgorithm::EcdsaP256Sha256, "ES256"),
        (SigningAlgorithm::EcdsaP384Sha384, "ES384"),
        (SigningAlgorithm::EcdsaP521Sha512, "ES512"),
        (SigningAlgorithm::RsaSsaPssSha256, "PS256"),
        (SigningAlgorithm::RsaSsaPssSha384, "PS384"),
        (SigningAlgorithm::RsaSsaPssSha512, "PS512"),
        (SigningAlgorithm::EdDsa, "EdDSA"),
        (SigningAlgorithm::Unsigned, "none"),
    ];
    for (algorithm, header) in headers {
        assert_eq!(algorithm.header(), header);
        let written = serde_json::Value::String(header.to_owned());
        assert!(
            serde_json::from_value::<openidconnect::core::CoreJwsSigningAlgorithm>(written).is_ok()
        );
    }
}

fn header(name: &str, value: &str) -> RequestHeader {
    RequestHeader {
        name: name.to_owned(),
        value: value.as_bytes().to_vec(),
    }
}

fn v4(octets: [u8; 4]) -> ClientIp {
    ClientIp::V4(u32::from_be_bytes(octets))
}

fn networks(list: &str) -> Vec<ProxyNetwork> {
    parse_trusted_proxy_cidrs(Some(list.to_owned())).expect("trusted proxy CIDR must parse")
}

fn check_untrusted_peer_cannot_spoof() {
    let headers = vec![header("x-forwarded-for", "203.0.113.42")];
    let peer = v4([198, 51, 100, 10]);

    let resolved = extract_client_ip(&Vec::new(), &headers, peer);

    assert_eq!(resolved, Ok(peer));
}

fn check_trusted_proxy_resolves() {
    let headers = vec![header("x-forwarded-for", "203.0.113.42")];
    let peer = v4([10, 0, 0, 2]);

    let resolved = extract_client_ip(&networks("10.0.0.0/8"), &headers, peer);

    assert_eq!(resolved, Ok(v4([203, 0, 113, 42])));
}

#[test]
fn configuration_untrusted_peer_cannot_spoof_forwarded_client_ip() {
    check_untrusted_peer_cannot_spoof();
}

#[test]
fn configuration_trusted_proxy_resolves_forwarded_client_ip() {
    check_trusted_proxy_resolves();
}

#[test]
fn oidc_untrusted_peer_cannot_spoof_forwarded_client_ip() {
    check_untrusted_peer_cannot_spoof();
}

#[test]
fn oidc_trusted_proxy_resolves_forwarded_client_ip() {
    check_trusted_proxy_resolves();
}

#[test]
fn client_address_follows_the_trusted_networks() {
    let trusted = networks("10.0.0.0/8, 2001:db8::/32");
    let proxy = v4([10, 0, 0, 2]);
    let stranger = v4([198, 51, 100, 10]);

    assert_eq!(extract_client_ip(&trusted, &Vec::new(), stranger), Ok(stranger));
    assert_eq!(extract_client_ip(&trusted, &Vec::new(), proxy), Ok(proxy));
    assert_eq!(
        extract_client_ip(&trusted, &vec![header("X-Real-IP", "203.0.113.9")], stranger),
        Err(StatusCode::InternalServerError)
    );
    assert_eq!(
        extract_client_ip(
            &trusted,
            &vec![
                header("X-Forwarded-For", "203.0.113.1"),
                header("x-forwarded-for", "203.0.113.2, 10.0.0.9")
            ],
            proxy
        ),
        Ok(v4([203, 0, 113, 2]))
    );
    assert_eq!(
        extract_client_ip(
            &trusted,
            &vec![header("x-real-ip", "203.0.113.9")],
            ClientIp::V6(0x2001_0db8 << 96)
        ),
        Ok(v4([203, 0, 113, 9]))
    );
    assert_eq!(
        extract_client_ip(&trusted, &vec![header("no header", "x")], proxy),
        Err(StatusCode::InternalServerError)
    );
}

#[test]
fn lone_quote_as_forwarded_host_is_not_read() {
    let trusted = networks("10.0.0.0/8");
    let proxy = v4([10, 0, 0, 2]);
    let stranger = v4([198, 51, 100, 10]);

    for value in ["host=\"", " HOST=\" ;", "for=203.0.113.7, \thOsT=\"\t", "host=\",x\""] {
        let headers = vec![header("Forwarded", value)];
        assert_eq!(extract_client_ip(&trusted, &headers, proxy), Ok(proxy));
        assert_eq!(
            extract_client_ip(&trusted, &headers, stranger),
            Err(StatusCode::InternalServerError)
        );
        assert_eq!(
            extract_client_ip(&Vec::new(), &headers, stranger),
            Ok(stranger)
        );
        let read = readable_headers(&headers);
        assert_eq!(read.len(), 1);
        assert_eq!(read[0].name, "Forwarded");
        assert!(read[0].value.is_empty());
    }
    let headers = vec![
        header("forwarded", "host=\""),
        header("forwarded", "for=203.0.113.7"),
    ];
    assert_eq!(
        extract_client_ip(&trusted, &headers, proxy),
        Ok(v4([203, 0, 113, 7]))
    );
}

#[test]
fn other_headers_are_read_as_they_are() {
    let trusted = networks("10.0.0.0/8");
    let proxy = v4([10, 0, 0, 2]);

    for value in [
        "for=203.0.113.7;host=\"\"",
        "host=\"a\";for=203.0.113.7",
        "by=10.0.0.2;for=\"203.0.113.7\";xhost=\"",
        "for=203.0.113.7;host =\"",
        "for=203.0.113.7;host=\"a",
    ] {
        assert!(!names_lone_quote_host(&value.as_bytes().to_vec()));
        let headers = vec![header("forwarded", value), header("host", "host=\"")];
        let read = readable_headers(&headers);
        assert_eq!(read[0].value, value.as_bytes());
        assert_eq!(read[1].value, b"host=\"");
        assert_eq!(
            extract_client_ip(&trusted, &headers, proxy),
            Ok(v4([203, 0, 113, 7])),
            "{value}"
        );
    }
    assert!(names_lone_quote_host(&b"a;host=\""[..].to_vec()));
    assert!(!names_lone_quote_host(&Vec::new()));
}

#[test]
fn headers_that_forward_nothing_leave_the_peer() {
    let many: Vec<RequestHeader> = (0..1_000)
        .map(|i| header(&format!("x-{i}!#$%&'*+-.^_`|~"), "va\tlue\u{fc}"))
        .collect();
    let peer = v4([198, 51, 100, 10]);

    assert_eq!(extract_client_ip(&networks("10.0.0.0/8"), &many, peer), Ok(peer));
    assert_eq!(extract_client_ip(&Vec::new(), &many, peer), Ok(peer));
}

#[test]
fn redirect_uri_defaults_to_this_machine() {
    assert_eq!(redirect_or_local(None), LOCAL_REDIRECT_URI);
    assert_eq!(redirect_or_local(Some("x".to_owned())), "x");
    assert_eq!(redirect_or_local(Some(String::new())), "");
}

#[test]
fn ipv6_clients_are_counted_by_their_network() {
    let peer = ClientIp::V6(0x2001_0db8_1234_5678_9abc_def0_1234_5678);
    let counted = ClientIp::V6(0x2001_0db8_1234_5600 << 64);

    assert_eq!(extract_client_ip(&Vec::new(), &Vec::new(), peer), Ok(counted));
}

#[test]
fn unknown_client_address_is_a_fault() {
    assert_eq!(
        client_ip_or_fault(None),
        Err(StatusCode::InternalServerError)
    );
    assert_eq!(client_ip_or_fault(Some(ClientIp::V4(7))), Ok(ClientIp::V4(7)));
}
