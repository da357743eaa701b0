use hudsucker_ffi::render_bypass_failure_page;
use hudsucker_ffi::render_error_page;
use hudsucker_ffi::CertErrorHandler;
use hudsucker_ffi::CertProblem;
use hudsucker_ffi::ConnectError;
use hudsucker_ffi::FailureCause;
use hudsucker_ffi::Method;
use hudsucker_ffi::RequestAction;
use hudsucker_ffi::RequestInfo;
use hudsucker_ffi::TlsFailure;
use hudsucker_ffi::STATUS_BAD_GATEWAY;

fn get_request(host: &str) -> RequestInfo {
    RequestInfo {
        method: Method::Get,
        host: Some(host.to_string()),
        path: "/".to_string(),
        token: None,
    }
}

fn control_request(domain: &str, token: Option<&str>) -> RequestInfo {
    RequestInfo {
        method: Method::Post,
        host: Some("proxy.invalid".to_string()),
        path: format!("/__hudsucker_bypass_cert/{}", domain),
        token: token.map(|t| t.to_string()),
    }
}

fn expired_upstream() -> ConnectError {
    ConnectError {
        message: "client error (Connect)".to_string(),
        causes: vec![
            FailureCause::Text("invalid peer certificate".to_string()),
            FailureCause::Tls(TlsFailure::InvalidCertificate(CertProblem::Expired)),
        ],
    }
}

/// Runs the full override flow: a failing host is classified, a token is
/// issued, redeeming it admits the host, and the next request is routed via
/// the secondary transport.
#[test]
fn expired_certificate_bypass_end_to_end() {
    let mut handler = CertErrorHandler::new(1, "{error_type}|{bypass_secret}".to_string());
    let now: u64 = 50_000;

    // normal request path first: nothing bypassed yet
    let action = handler.handle_request(&get_request("bad.example"), now);
    assert!(matches!(action, RequestAction::Forward));

    // the upstream handshake fails with an expired certificate
    let resp = handler.handle_error(&expired_upstream(), now);
    assert_eq!(resp.status, STATUS_BAD_GATEWAY);
    let (error_type, token) = resp.html.split_once('|').expect("rendered page");
    assert_eq!(error_type, "Certificate has expired");
    assert_eq!(token.len(), 64);

    // the client redeems the token at the control endpoint
    let action = handler.handle_request(&control_request("bad.example", Some(token)), now + 10);
    match action {
        RequestAction::ControlRedirect { location } => {
            assert_eq!(location, "https://bad.example/");
        }
        other => panic!("expected a redirect, got {:?}", other),
    }

    // the next request to that host uses the secondary transport
    let action = handler.handle_request(&get_request("bad.example"), now + 20);
    assert!(matches!(action, RequestAction::RouteInsecure));

    // and other hosts still go the normal way
    let action = handler.handle_request(&get_request("good.example"), now + 30);
    assert!(matches!(action, RequestAction::Forward));
}

#[test]
fn control_submission_with_wrong_domain_is_rejected_and_burns_the_token() {
    let mut handler = CertErrorHandler::new(1, "{bypass_secret}".to_string());
    let now: u64 = 50_000;
    handler.handle_request(&get_request("bad.example"), now);
    let resp = handler.handle_error(&expired_upstream(), now);
    let token = resp.html.clone();

    let action = handler.handle_request(&control_request("evil.example", Some(&token)), now + 1);
    assert!(matches!(action, RequestAction::ControlRejected));

    // the failed attempt cleared the slot: the correct domain now fails too
    let action = handler.handle_request(&control_request("bad.example", Some(&token)), now + 2);
    assert!(matches!(action, RequestAction::ControlRejected));
    let action = handler.handle_request(&get_request("bad.example"), now + 3);
    assert!(matches!(action, RequestAction::Forward));
}

#[test]
fn token_is_redeemed_at_most_once_via_the_control_endpoint() {
    let mut handler = CertErrorHandler::new(1, "{bypass_secret}".to_string());
    let now: u64 = 50_000;
    handler.handle_request(&get_request("bad.example"), now);
    let token = handler.handle_error(&expired_upstream(), now).html;

    let first = handler.handle_request(&control_request("bad.example", Some(&token)), now + 1);
    assert!(matches!(first, RequestAction::ControlRedirect { .. }));
    let second = handler.handle_request(&control_request("bad.example", Some(&token)), now + 2);
    assert!(matches!(second, RequestAction::ControlRejected));
}

#[test]
fn expired_token_is_rejected_regardless_of_correctness() {
    let mut handler = CertErrorHandler::new(1, "{bypass_secret}".to_string());
    let now: u64 = 50_000;
    handler.handle_request(&get_request("bad.example"), now);
    let token = handler.handle_error(&expired_upstream(), now).html;

    // exactly ten minutes later the token is no longer redeemable
    let action = handler.handle_request(&control_request("bad.example", Some(&token)), now + 600);
    assert!(matches!(action, RequestAction::ControlRejected));
}

#[test]
fn control_submission_without_token_is_rejected() {
    let mut handler = CertErrorHandler::new(1, "{bypass_secret}".to_string());
    let now: u64 = 50_000;
    handler.handle_request(&get_request("bad.example"), now);
    let _ = handler.handle_error(&expired_upstream(), now);
    let action = handler.handle_request(&control_request("bad.example", None), now + 1);
    assert!(matches!(action, RequestAction::ControlRejected));
}

#[test]
fn control_submission_without_domain_segment_is_rejected() {
    let mut handler = CertErrorHandler::new(1, "{bypass_secret}".to_string());
    let req = RequestInfo {
        method: Method::Post,
        host: Some("proxy.invalid".to_string()),
        path: "/__hudsucker_bypass_cert".to_string(),
        token: Some("whatever".to_string()),
    };
    let action = handler.handle_request(&req, 1);
    assert!(matches!(action, RequestAction::ControlRejected));
}

#[test]
fn get_requests_to_the_control_path_are_not_control_submissions() {
    let mut handler = CertErrorHandler::new(1, "{bypass_secret}".to_string());
    let req = RequestInfo {
        method: Method::Get,
        host: Some("proxy.invalid".to_string()),
        path: "/__hudsucker_bypass_cert/bad.example".to_string(),
        token: Some("whatever".to_string()),
    };
    let action = handler.handle_request(&req, 1);
    assert!(matches!(action, RequestAction::Forward));
}

#[test]
fn error_without_prior_request_binds_token_to_unknown() {
    let mut handler = CertErrorHandler::new(1, "{bypass_secret}".to_string());
    let token = handler.handle_error(&expired_upstream(), 10).html;
    // the token was bound to the placeholder domain, not to any real host
    let action = handler.handle_request(&control_request("unknown", Some(&token)), 11);
    assert!(matches!(action, RequestAction::ControlRedirect { .. }));
}

#[test]
fn bypass_secret_is_lowercase_hex() {
    let handler = CertErrorHandler::new(1, String::new());
    let secret = handler.generate_bypass_secret().expect("secure randomness");
    assert_eq!(secret.len(), 64);
    assert!(secret.chars().all(|c| c.is_ascii_hexdigit() && !c.is_ascii_uppercase()));
    // two draws collide only if the random source is broken
    let other = handler.generate_bypass_secret().expect("secure randomness");
    assert_ne!(secret, other);
}

#[test]
fn template_placeholders_are_substituted_everywhere() {
    let page = render_error_page(
        "A {error_type} B {bypass_secret} C {error_type}",
        "Certificate has expired",
        "deadbeef",
    );
    assert_eq!(page, "A Certificate has expired B deadbeef C Certificate has expired");
    assert_eq!(render_error_page("no placeholders", "x", "y"), "no placeholders");
    assert_eq!(render_error_page("", "x", "y"), "");
}

#[test]
fn bypass_transport_failure_page_escapes_details() {
    let resp = render_bypass_failure_page(&"connection reset <by> peer".to_string());
    assert_eq!(resp.status, STATUS_BAD_GATEWAY);
    assert!(resp.html.contains("Certificate Bypass Failed"));
    assert!(resp.html.contains("connection reset &lt;by&gt; peer"));
    assert!(!resp.html.contains("<by>"));
}
