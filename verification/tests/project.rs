use wc_utils::project::error::AccessError;
use wc_utils::project::origin::{Origin, OriginParseError};
use wc_utils::project::project_data::{ProjectData, ProjectKey};
use wc_utils::project::registry::{
    bearer, parse_http_response, project_url, HttpClientConfig, RegistryResponse,
};
use wc_utils::text::{bytes_to_string, parse_port, port_text, split};

fn origin(scheme: Option<&str>, hostname: &str, parts: &[&str], port: Option<u16>) -> Origin {
    Origin {
        scheme: scheme.map(|s| s.to_string()),
        hostname: hostname.to_string(),
        hostname_parts: parts.iter().map(|p| p.to_string()).collect(),
        port,
    }
}

#[test]
fn parse_origin() {
    assert_eq!(
        Origin::try_from("domain.name"),
        Ok(origin(None, "domain.name", &["domain", "name"], None))
    );

    assert_eq!(
        Origin::try_from("domain.name:123"),
        Ok(origin(None, "domain.name", &["domain", "name"], Some(123)))
    );

    assert_eq!(
        Origin::try_from("http://domain.name"),
        Ok(origin(Some("http"), "domain.name", &["domain", "name"], None))
    );

    assert_eq!(
        Origin::try_from("http://*.domain.name:123"),
        Ok(origin(
            Some("http"),
            "*.domain.name",
            &["*", "domain", "name"],
            Some(123)
        ))
    );

    assert_eq!(
        Origin::try_from("http://domain.name:99999"),
        Err(OriginParseError::InvalidPortNumber)
    );

    let origin = "http://*.domain.name:123";
    assert_eq!(Origin::try_from(origin).unwrap().to_string(), origin);
}

#[test]
fn origin_matching() {
    let o1 = Origin::try_from("http://a.*.domain.name:123").unwrap();
    let o2 = Origin::try_from("http://a.b.domain.name:123").unwrap();

    assert!(o1.matches(&o2));

    let o1 = Origin::try_from("domain.name").unwrap();
    let o2 = Origin::try_from("domain.name").unwrap();

    assert!(o1.matches(&o2));

    let o1 = Origin::try_from("https://a.b.domain.name").unwrap();
    let o2 = Origin::try_from("http://a.b.domain.name").unwrap();

    assert!(!o1.matches(&o2));

    let o1 = Origin::try_from("domain.name:123").unwrap();
    let o2 = Origin::try_from("domain.name:124").unwrap();

    assert!(!o1.matches(&o2));

    let o1 = Origin::try_from("https://domain.name:123").unwrap();
    let o2 = Origin::try_from("domain.name:124").unwrap();

    assert!(!o1.matches(&o2));

    let o1 = Origin::try_from("https://a.b.domain.name/").unwrap();
    let o2 = Origin::try_from("http://a.b.domain.name").unwrap();

    assert!(!o1.matches(&o2));

    let o1 = Origin::try_from("https://a.b.domain.name/").unwrap();
    let o2 = Origin::try_from("a.b.domain.name").unwrap();

    assert!(o1.matches(&o2));

    let o1 = Origin::try_from("https://react-app.walletconnect.com").unwrap();
    let o2 = Origin::try_from("react-app.walletconnect.com").unwrap();

    assert!(o1.matches(&o2));

    // Allow trailing slash.
    let o1 = Origin::try_from("https://react-app.walletconnect.com/").unwrap();
    let o2 = Origin::try_from("react-app.walletconnect.com").unwrap();

    assert!(o1.matches(&o2));

    // Allow custom schema when it's unspecified.
    let o1 = Origin::try_from("custom-schema://react-app.walletconnect.com/").unwrap();
    let o2 = Origin::try_from("react-app.walletconnect.com").unwrap();

    assert!(o1.matches(&o2));
}

#[test]
fn origin_invalid_format() {
    assert_eq!(Origin::try_from(""), Err(OriginParseError::InvalidFormat));
    assert_eq!(Origin::try_from(":80"), Err(OriginParseError::InvalidFormat));
    assert_eq!(Origin::try_from("/path"), Err(OriginParseError::InvalidFormat));
}

#[test]
fn origin_from_captures_reads_groups() {
    let groups = vec![
        Some("https://a.b:8080".to_string()),
        Some("https://".to_string()),
        Some("https".to_string()),
        Some("a.b".to_string()),
        Some(":8080".to_string()),
        Some("8080".to_string()),
    ];
    assert_eq!(
        Origin::from_captures(groups),
        Ok(origin(Some("https"), "a.b", &["a", "b"], Some(8080)))
    );
    assert_eq!(
        Origin::from_captures(vec![Some("x".to_string())]),
        Err(OriginParseError::InvalidFormat)
    );
    let no_host = vec![Some("x".to_string()), None, None, None, None, None];
    assert_eq!(
        Origin::from_captures(no_host),
        Err(OriginParseError::InvalidFormat)
    );
    let bad_port = vec![
        Some("a:+1".to_string()),
        None,
        None,
        Some("a".to_string()),
        Some(":+1".to_string()),
        Some("+1".to_string()),
    ];
    assert_eq!(
        Origin::from_captures(bad_port),
        Err(OriginParseError::InvalidPortNumber)
    );
}

#[test]
fn origin_hostname_and_text() {
    let o = Origin::try_from("wss://relay.example.org:443/path?x=1").unwrap();
    assert_eq!(o.hostname(), "relay.example.org");
    assert_eq!(o.to_string(), "wss://relay.example.org:443");
    let o = Origin::try_from("localhost").unwrap();
    assert_eq!(o.to_string(), "localhost");
    assert_eq!(
        OriginParseError::InvalidFormat.to_string(),
        "invalid origin format"
    );
    assert_eq!(
        OriginParseError::InvalidPortNumber.to_string(),
        "invalid port number"
    );
}

#[test]
fn split_keeps_empty_pieces() {
    assert_eq!(split("a.b.c", '.'), vec!["a", "b", "c"]);
    assert_eq!(split("", '.'), vec![""]);
    assert_eq!(split("a..b.", '.'), vec!["a", "", "b", ""]);
    assert_eq!(split("héllo.wörld", '.'), vec!["héllo", "wörld"]);
}

#[test]
fn ports_are_decimal_and_fit_sixteen_bits() {
    assert_eq!(parse_port("0"), Some(0));
    assert_eq!(parse_port("0080"), Some(80));
    assert_eq!(parse_port("65535"), Some(65535));
    assert_eq!(parse_port("65536"), None);
    assert_eq!(parse_port("99999999999999999999"), None);
    assert_eq!(parse_port(""), None);
    assert_eq!(parse_port("12a"), None);
    assert_eq!(parse_port("١٢"), None);
    assert_eq!(port_text(0), "0");
    assert_eq!(port_text(9), "9");
    assert_eq!(port_text(10), "10");
    assert_eq!(port_text(65535), "65535");
}

fn project(enabled: bool, key_valid: bool, allowed: &[&str]) -> ProjectData {
    ProjectData {
        uuid: "uuid".to_string(),
        creator: "creator".to_string(),
        name: "name".to_string(),
        push_url: None,
        keys: vec![
            ProjectKey {
                value: "other".to_string(),
                is_valid: true,
            },
            ProjectKey {
                value: "key".to_string(),
                is_valid: key_valid,
            },
        ],
        is_enabled: enabled,
        allowed_origins: allowed.iter().map(|o| o.to_string()).collect(),
        verified_domains: vec![],
    }
}

#[test]
fn access_denied_for_inactive_project() {
    let p = project(false, true, &[]);
    assert_eq!(
        p.validate_access("key", None),
        Err(AccessError::ProjectInactive)
    );
}

#[test]
fn access_denied_for_invalid_key() {
    let p = project(true, false, &[]);
    assert_eq!(p.validate_access("key", None), Err(AccessError::KeyInvalid));
    assert_eq!(
        p.validate_access("unknown", None),
        Err(AccessError::KeyInvalid)
    );
    assert_eq!(p.validate_access("other", None), Ok(()));
}

#[test]
fn access_granted_when_allow_list_is_empty_or_origin_missing() {
    let p = project(true, true, &[]);
    assert_eq!(p.validate_access("key", Some("https://anything.io")), Ok(()));
    let p = project(true, true, &["https://app.example.com"]);
    assert_eq!(p.validate_access("key", None), Ok(()));
}

#[test]
fn access_follows_allow_list() {
    let p = project(true, true, &["::", "https://*.example.com", "other.io:8080"]);
    assert_eq!(
        p.validate_access("key", Some("https://app.example.com")),
        Ok(())
    );
    assert_eq!(p.validate_access("key", Some("app.example.com")), Ok(()));
    assert_eq!(
        p.validate_access("key", Some("http://app.example.com")),
        Err(AccessError::OriginNotAllowed)
    );
    assert_eq!(
        p.validate_access("key", Some("https://example.com")),
        Err(AccessError::OriginNotAllowed)
    );
    assert_eq!(p.validate_access("key", Some("other.io:8080")), Ok(()));
    assert_eq!(
        p.validate_access("key", Some("other.io")),
        Err(AccessError::OriginNotAllowed)
    );
    assert_eq!(
        p.validate_access("key", Some("")),
        Err(AccessError::OriginNotAllowed)
    );
}

#[test]
fn access_granted_for_local_hosts() {
    let p = project(true, true, &["https://app.example.com"]);
    assert_eq!(p.validate_access("key", Some("http://localhost:3000")), Ok(()));
    assert_eq!(p.validate_access("key", Some("127.0.0.1")), Ok(()));
    assert_eq!(
        p.validate_access("key", Some("127.0.0.2")),
        Err(AccessError::OriginNotAllowed)
    );
}

#[test]
fn access_error_text() {
    assert_eq!(AccessError::KeyInvalid.to_string(), "invalid key");
    assert_eq!(AccessError::OriginNotAllowed.to_string(), "origin not allowed");
    assert_eq!(AccessError::ProjectInactive.to_string(), "project is inactive");
}

#[test]
fn invalid_utf8_reads_as_empty_text() {
    assert_eq!(bytes_to_string("grüße".as_bytes()), "grüße");
    assert_eq!(bytes_to_string(&[]), "");
    assert_eq!(bytes_to_string(&[0xff, 0xfe]), "");
    assert_eq!(bytes_to_string(&[b'a', 0x80]), "");
}

#[test]
fn registry_answers() {
    assert_eq!(parse_http_response(200), RegistryResponse::Found);
    assert_eq!(parse_http_response(299), RegistryResponse::Found);
    assert_eq!(parse_http_response(199), RegistryResponse::Invalid);
    assert_eq!(parse_http_response(300), RegistryResponse::Invalid);
    assert_eq!(parse_http_response(403), RegistryResponse::InvalidToken);
    assert_eq!(parse_http_response(404), RegistryResponse::NotFound);
    assert_eq!(parse_http_response(500), RegistryResponse::Invalid);
    assert_eq!(
        project_url("https://registry.example", "abc"),
        "https://registry.example/internal/project/key/abc"
    );
    assert_eq!(bearer("token"), "Bearer token");
    assert_eq!(
        HttpClientConfig::default(),
        HttpClientConfig {
            pool_idle_timeout: Some(90_000),
            pool_max_idle: usize::MAX
        }
    );
}
