//! Behaviour of the upgrade-redirect service on concrete requests.

use axum_server_dual_protocol::{
    extract_authority, upgrade_response, Either, HeaderEntry, Protocol, RequestInfo,
    UpgradeDecision, UpgradeHttp, UpgradeHttpFuture, UpgradeHttpLayer, BAD_REQUEST,
    MOVED_PERMANENTLY,
};

fn plain_request(host: &str, path_and_query: &str) -> RequestInfo {
    RequestInfo {
        scheme: None,
        uri_host: None,
        path_and_query: Some(path_and_query.to_owned()),
        forwarded_host: HeaderEntry::Missing,
        host_header: HeaderEntry::Text(host.to_owned()),
        upgrade_header: HeaderEntry::Missing,
        protocol: Some(Protocol::Plain),
    }
}

#[test]
fn redirect_index() {
    let response = upgrade_response(&plain_request("example.com", "/"));
    assert_eq!(response.status, MOVED_PERMANENTLY);
    assert_eq!(response.location.as_deref(), Some("https://example.com/"));
}

#[test]
fn redirect_keeps_path_and_query() {
    let response = upgrade_response(&plain_request("example.com", "/test?x=1"));
    assert_eq!(response.status, MOVED_PERMANENTLY);
    assert_eq!(
        response.location.as_deref(),
        Some("https://example.com/test?x=1")
    );
}

#[test]
fn no_host_is_bad_request() {
    let mut request = plain_request("example.com", "/");
    request.host_header = HeaderEntry::Missing;
    let response = upgrade_response(&request);
    assert_eq!(response.status, BAD_REQUEST);
    assert_eq!(response.location, None);
}

#[test]
fn invalid_host_is_bad_request() {
    let response = upgrade_response(&plain_request("exa mple.com", "/"));
    assert_eq!(response.status, BAD_REQUEST);
    assert_eq!(response.location, None);
}

#[test]
fn unrecognized_scheme_is_bad_request() {
    let mut request = plain_request("example.com", "/");
    request.scheme = Some("ftp".to_owned());
    let response = upgrade_response(&request);
    assert_eq!(response.status, BAD_REQUEST);
    assert_eq!(response.location, None);
}

#[test]
fn declared_https_scheme_is_unrecognized() {
    let mut request = plain_request("example.com", "/");
    request.scheme = Some("https".to_owned());
    let response = upgrade_response(&request);
    assert_eq!(response.status, BAD_REQUEST);
}

#[test]
fn declared_http_scheme_redirects() {
    let mut request = plain_request("example.com", "/");
    request.scheme = Some("http".to_owned());
    let response = upgrade_response(&request);
    assert_eq!(response.status, MOVED_PERMANENTLY);
    assert_eq!(response.location.as_deref(), Some("https://example.com/"));
}

#[test]
fn websocket_scheme_redirects_to_wss() {
    let mut request = plain_request("example.com", "/socket");
    request.scheme = Some("ws".to_owned());
    let response = upgrade_response(&request);
    assert_eq!(response.status, MOVED_PERMANENTLY);
    assert_eq!(response.location.as_deref(), Some("wss://example.com/socket"));
}

#[test]
fn websocket_upgrade_header_redirects_to_wss() {
    let mut request = plain_request("example.com", "/socket");
    request.upgrade_header = HeaderEntry::Text("websocket".to_owned());
    let response = upgrade_response(&request);
    assert_eq!(response.status, MOVED_PERMANENTLY);
    assert_eq!(response.location.as_deref(), Some("wss://example.com/socket"));
}

#[test]
fn forwarded_host_takes_precedence() {
    let mut request = plain_request("example.com", "/");
    request.forwarded_host = HeaderEntry::Text("proxy.example.org".to_owned());
    let response = upgrade_response(&request);
    assert_eq!(
        response.location.as_deref(),
        Some("https://proxy.example.org/")
    );
}

#[test]
fn unreadable_forwarded_host_falls_back_to_uri_host() {
    let mut request = plain_request("example.com", "/");
    request.forwarded_host = HeaderEntry::Opaque;
    request.host_header = HeaderEntry::Missing;
    request.uri_host = Some("fallback.example.org".to_owned());
    let response = upgrade_response(&request);
    assert_eq!(
        response.location.as_deref(),
        Some("https://fallback.example.org/")
    );
}

#[test]
fn missing_path_and_query_contributes_nothing() {
    let mut request = plain_request("example.com", "/");
    request.path_and_query = None;
    let response = upgrade_response(&request);
    assert_eq!(response.status, MOVED_PERMANENTLY);
    assert_eq!(response.location.as_deref(), Some("https://example.com"));
}

#[test]
fn extract_authority_validates() {
    assert_eq!(
        extract_authority(&plain_request("example.com:8080", "/")).as_deref(),
        Some("example.com:8080")
    );
    assert_eq!(extract_authority(&plain_request("exa mple.com", "/")), None);
}

#[test]
fn redirect_is_idempotent() {
    let request = plain_request("example.com", "/test?x=1");
    let first = upgrade_response(&request);
    let second = upgrade_response(&request);
    assert_eq!(first.status, second.status);
    assert_eq!(first.location, second.location);
}

#[test]
fn secure_request_passes_through() {
    let inner = "inner service";
    let service = UpgradeHttp::new(inner);
    let mut request = plain_request("example.com", "/");
    request.protocol = Some(Protocol::Tls);
    let decision = service.call(&request);
    assert!(matches!(decision, UpgradeDecision::Forward));
    // The pass-through branch wraps the inner handler's response and hands
    // it back unchanged.
    let body: Either<String, String> = Either::Left("test".to_owned());
    assert_eq!(body.into_inner(), "test");
    let body: Either<String, String> = Either::Right("test".to_owned());
    assert_eq!(body.into_inner(), "test");
}

#[test]
fn plain_request_is_answered_directly() {
    let service = UpgradeHttp::new(());
    let request = plain_request("example.com", "/");
    match service.call(&request) {
        UpgradeDecision::Respond(response) => {
            assert_eq!(response.status, MOVED_PERMANENTLY);
            assert_eq!(response.location.as_deref(), Some("https://example.com/"));
        }
        UpgradeDecision::Forward => panic!("plaintext request reached the inner service"),
    }
}

#[test]
fn upgrade_future_hands_out_the_response_once() {
    let response = upgrade_response(&plain_request("example.com", "/"));
    let mut future: UpgradeHttpFuture<()> = UpgradeHttpFuture::new_upgrade(response);
    let taken = future.take_response();
    assert_eq!(taken.status, MOVED_PERMANENTLY);
    assert!(matches!(future, UpgradeHttpFuture::Upgrade(None)));
}

#[test]
fn layer_wraps_the_service() {
    let service = UpgradeHttpLayer.layer(17u8);
    assert_eq!(*service.get_ref(), 17);
    assert_eq!(service.into_inner(), 17);
}

#[test]
fn accessors_reach_the_wrapped_service() {
    let mut service = UpgradeHttp::new(1u8);
    *service.get_mut() = 2;
    assert_eq!(*service.get_ref(), 2);
    assert_eq!(service.into_inner(), 2);
}
