use api_version::{ApiVersionLayer, ApiVersionService, ApiVersions, Routing, XApiVersion};
use axum::http::{uri::PathAndQuery, HeaderMap, HeaderValue, Uri};

fn service() -> ApiVersionService<2, ()> {
    ApiVersionLayer::new("/api", ApiVersions::new([0, 1]).unwrap()).layer(())
}

/// The header of the request, read off its header map as a server does.
fn header(headers: &HeaderMap) -> Option<XApiVersion> {
    let value = headers.get(api_version::X_API_VERSION).and_then(|value| value.to_str().ok());
    XApiVersion::decode(value).ok()
}

/// The URI after the service has routed it: as it was, or with the rewritten target in place
/// of its own. `None` where the request is rejected.
fn routed(service: &ApiVersionService<2, ()>, uri: &str, headers: &HeaderMap) -> Option<Uri> {
    let uri: Uri = uri.parse().unwrap();
    let target = uri.path_and_query().map(PathAndQuery::as_str).unwrap_or_default();
    match service.route(target, header(headers), Ok(true)) {
        Routing::PassThrough => Some(uri),
        Routing::Rewrite(target) => {
            let mut parts = uri.into_parts();
            parts.path_and_query = Some(PathAndQuery::from_maybe_shared(target).unwrap());
            Some(Uri::from_parts(parts).unwrap())
        }
        Routing::Reject(_) => None,
    }
}

#[test]
fn a_rewritten_target_makes_a_uri() {
    let mut headers = HeaderMap::new();
    let uri = routed(&service(), "/api/test?x=1", &headers).unwrap();
    assert_eq!(uri.path(), "/api/v1/test");
    assert_eq!(uri.query(), Some("x=1"));

    headers.insert("x-api-version", HeaderValue::from_static("v0"));
    let uri = routed(&service(), "http://example.com:8080/api/test?x=1&y=2", &headers).unwrap();
    assert_eq!(uri.to_string(), "http://example.com:8080/api/v0/test?x=1&y=2");
    assert_eq!(uri.host(), Some("example.com"));
    assert_eq!(uri.path(), "/api/v0/test");
    assert_eq!(uri.query(), Some("x=1&y=2"));

    let uri = routed(&service(), "/api/caf%C3%A9?", &headers).unwrap();
    assert_eq!(uri.path(), "/api/v0/caf%C3%A9");
    assert_eq!(uri.query(), Some(""));
}

#[test]
fn a_uri_outside_the_base_path_stays_as_it_is() {
    let headers = HeaderMap::new();
    for uri in ["/ready", "/api/v0/test?x=1", "http://example.com", "http://example.com/v1?api"] {
        let after = routed(&service(), uri, &headers).unwrap();
        assert_eq!(after, uri.parse::<Uri>().unwrap());
    }
}

#[test]
fn the_first_value_of_the_header_counts() {
    let mut headers = HeaderMap::new();
    headers.append("x-api-version", HeaderValue::from_static("v0"));
    headers.append("x-api-version", HeaderValue::from_static("v1"));
    assert_eq!(header(&headers).map(|header| header.version()), Some(0));

    let mut headers = HeaderMap::new();
    headers.append("x-api-version", HeaderValue::from_static("latest"));
    headers.append("x-api-version", HeaderValue::from_static("v0"));
    assert_eq!(header(&headers).map(|header| header.version()), None);
    let uri = routed(&service(), "/api/test", &headers).unwrap();
    assert_eq!(uri.path(), "/api/v1/test");
}

#[test]
fn a_header_that_is_no_text_counts_as_absent() {
    let mut headers = HeaderMap::new();
    headers.insert("x-api-version", HeaderValue::from_bytes(b"v\xff").unwrap());
    assert!(header(&headers).is_none());
    let uri = routed(&service(), "/api/test", &headers).unwrap();
    assert_eq!(uri.path(), "/api/v1/test");

    headers.insert("x-api-version", HeaderValue::from_static("v2"));
    assert_eq!(routed(&service(), "/api/test", &headers), None);
}
