//! Endpoint URL parsing and subdomain handling.

use algorithmia_cli::endpoint::{parse_url, prepend_subdomain, remove_subdomain, Endpoint, UrlError};

#[test]
fn test_parse_url() {
    let assert_url_parse = |input: &str, expected: &str| {
        assert_eq!(parse_url(input).unwrap().to_url_string(), expected);
    };

    assert_url_parse("https://algorithmia.com", "https://algorithmia.com");
    assert_url_parse("https://api.algorithmia.com", "https://api.algorithmia.com");
    assert_url_parse("https://methods.example.com", "https://methods.example.com");

    // auto-scheme
    assert_url_parse("methods.example.com", "https://methods.example.com");
    assert_url_parse("api.methods.example.com", "https://api.methods.example.com");

    // ignore path
    assert_url_parse(
        "api.methods.example.com/foo",
        "https://api.methods.example.com",
    );
}

#[test]
fn test_subdomain_removal() {
    let assert_without_api_subdomain = |input: &str, expected: &str| {
        let mut input = parse_url(input).unwrap();
        let expected = parse_url(expected).unwrap();
        remove_subdomain(&mut input, "api");
        assert_eq!(input.to_url_string(), expected.to_url_string());
    };

    assert_without_api_subdomain("https://api.algorithmia.com", "https://algorithmia.com");
    assert_without_api_subdomain("https://algorithmia.com", "https://algorithmia.com");
    assert_without_api_subdomain("https://methods.example.com", "https://methods.example.com");
    assert_without_api_subdomain(
        "https://api.methods.example.com",
        "https://methods.example.com",
    );
}

#[test]
fn test_subdomain_prepend() {
    let assert_with_subdomain = |subdomain: &str, input: &str, expected: &str| {
        let input = parse_url(input).unwrap();
        let expected = parse_url(expected).unwrap();
        let received = prepend_subdomain(&input, subdomain);
        assert_eq!(received.to_url_string(), expected.to_url_string());
    };

    assert_with_subdomain(
        "api",
        "https://algorithmia.com",
        "https://api.algorithmia.com",
    );
    assert_with_subdomain(
        "git",
        "https://algorithmia.com",
        "https://git.algorithmia.com",
    );
    assert_with_subdomain(
        "api",
        "https://methods.example.com",
        "https://api.methods.example.com",
    );
    assert_with_subdomain(
        "git",
        "https://methods.example.com",
        "https://git.methods.example.com",
    );
}

#[test]
fn parse_url_trims_and_keeps_parts() {
    let e = parse_url("  https://algorithmia.com/some/path \n").unwrap();
    assert_eq!(e.scheme(), "https");
    assert_eq!(e.host(), "algorithmia.com");
}

#[test]
fn parse_url_rejects_non_http_scheme() {
    match parse_url("ftp://example.com") {
        Err(e) => assert_eq!(e, UrlError::UnsupportedScheme),
        Ok(_) => panic!("ftp scheme accepted"),
    }
}

#[test]
fn parse_url_rejects_hostless() {
    // An http-like non-special scheme with a path-only URL has no host.
    match parse_url("httpfoo:/tmp/foo") {
        Err(e) => assert_eq!(e, UrlError::MissingHost),
        Ok(_) => panic!("hostless URL accepted"),
    }
}

#[test]
fn parse_url_rejects_garbage() {
    match parse_url("") {
        Err(e) => assert_eq!(e, UrlError::Unparseable),
        Ok(_) => panic!("empty input accepted"),
    }
}

#[test]
fn endpoint_round_trip() {
    let e = Endpoint::new("https".to_string(), "example.com".to_string());
    assert_eq!(e.to_url_string(), "https://example.com");
    let f = e.clone();
    assert_eq!(f.to_url_string(), "https://example.com");
}
