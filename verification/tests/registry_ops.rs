use hudsucker_ffi::CallbackHandler;
use hudsucker_ffi::CertProblem;
use hudsucker_ffi::ConnectError;
use hudsucker_ffi::FailureCause;
use hudsucker_ffi::FilterAction;
use hudsucker_ffi::HudsuckerError;
use hudsucker_ffi::Method;
use hudsucker_ffi::ProxyRegistry;
use hudsucker_ffi::RequestAction;
use hudsucker_ffi::RequestInfo;
use hudsucker_ffi::TlsFailure;
use hudsucker_ffi::STATUS_BAD_GATEWAY;

fn expired_upstream() -> ConnectError {
    ConnectError {
        message: "client error (Connect)".to_string(),
        causes: vec![FailureCause::Tls(TlsFailure::InvalidCertificate(CertProblem::Expired))],
    }
}

#[test]
fn instances_are_created_and_torn_down_explicitly() {
    let mut registry = ProxyRegistry::new();
    let a = registry.register_instance("{bypass_secret}".to_string()).expect("create");
    let b = registry.register_instance("{bypass_secret}".to_string()).expect("create");
    assert_ne!(a, b);
    assert!(registry.is_domain_bypassed(a, &"x.example".to_string()).is_some());
    assert!(registry.destroy_instance(a));
    assert!(registry.is_domain_bypassed(a, &"x.example".to_string()).is_none());
    // tearing down one instance leaves the other alone
    assert!(registry.is_domain_bypassed(b, &"x.example".to_string()).is_some());
    assert!(!registry.destroy_instance(a));
}

#[test]
fn instance_ids_strictly_increase_and_are_never_reused() {
    let mut registry = ProxyRegistry::new();
    let a = registry.register_instance(String::new()).expect("create");
    assert!(registry.destroy_instance(a));
    let b = registry.register_instance(String::new()).expect("create");
    let c = registry.register_instance(String::new()).expect("create");
    // the id of the destroyed instance is never handed out again
    assert!(b > a);
    assert!(c > b);
}

#[test]
fn add_domain_requires_a_redeemable_token() {
    let mut registry = ProxyRegistry::new();
    let id = registry.register_instance("{bypass_secret}".to_string()).expect("create");
    let now: u64 = 80_000;

    // no token issued yet: redemption fails
    let r = registry.add_bypassed_domain(id, &"bad.example".to_string(), &"guess".to_string(), now);
    assert_eq!(r, HudsuckerError::InvalidParameter);

    // a failure for the domain issues a token, carried by the page
    let _ = registry.handle_request(
        id,
        &RequestInfo {
            method: Method::Get,
            host: Some("bad.example".to_string()),
            path: "/".to_string(),
            token: None,
        },
        now,
    );
    let resp = registry.handle_error(id, &expired_upstream(), now).expect("live instance");
    assert_eq!(resp.status, STATUS_BAD_GATEWAY);
    let token = resp.html;

    let r = registry.add_bypassed_domain(id, &"bad.example".to_string(), &token, now + 1);
    assert_eq!(r, HudsuckerError::Success);
    assert_eq!(registry.is_domain_bypassed(id, &"bad.example".to_string()), Some(true));

    // the token was consumed: the same values fail the second time
    let r = registry.add_bypassed_domain(id, &"bad.example".to_string(), &token, now + 2);
    assert_eq!(r, HudsuckerError::InvalidParameter);
}

#[test]
fn remove_and_clear_bypassed_domains() {
    let mut registry = ProxyRegistry::new();
    let id = registry.register_instance("{bypass_secret}".to_string()).expect("create");
    let now: u64 = 80_000;

    for domain in ["a.example", "b.example"] {
        let _ = registry.handle_request(
            id,
            &RequestInfo {
                method: Method::Get,
                host: Some(domain.to_string()),
                path: "/".to_string(),
                token: None,
            },
            now,
        );
        let token = registry.handle_error(id, &expired_upstream(), now).expect("live").html;
        let r = registry.add_bypassed_domain(id, &domain.to_string(), &token, now + 1);
        assert_eq!(r, HudsuckerError::Success);
    }
    assert_eq!(registry.is_domain_bypassed(id, &"a.example".to_string()), Some(true));
    assert_eq!(registry.is_domain_bypassed(id, &"b.example".to_string()), Some(true));

    let r = registry.remove_bypassed_domain(id, &"a.example".to_string());
    assert_eq!(r, HudsuckerError::Success);
    assert_eq!(registry.is_domain_bypassed(id, &"a.example".to_string()), Some(false));
    assert_eq!(registry.is_domain_bypassed(id, &"b.example".to_string()), Some(true));

    let r = registry.clear_bypassed_domains(id);
    assert_eq!(r, HudsuckerError::Success);
    assert_eq!(registry.is_domain_bypassed(id, &"b.example".to_string()), Some(false));
}

#[test]
fn operations_on_missing_instances_are_invalid() {
    let mut registry = ProxyRegistry::new();
    let r = registry.add_bypassed_domain(7, &"x".to_string(), &"t".to_string(), 1);
    assert_eq!(r, HudsuckerError::InvalidParameter);
    let r = registry.remove_bypassed_domain(7, &"x".to_string());
    assert_eq!(r, HudsuckerError::InvalidParameter);
    let r = registry.clear_bypassed_domains(7);
    assert_eq!(r, HudsuckerError::InvalidParameter);
    assert!(registry.handle_error(7, &expired_upstream(), 1).is_none());
}

#[test]
fn bypassed_requests_route_via_the_secondary_transport() {
    let mut registry = ProxyRegistry::new();
    let id = registry.register_instance("{bypass_secret}".to_string()).expect("create");
    let now: u64 = 80_000;
    let request = RequestInfo {
        method: Method::Get,
        host: Some("bad.example".to_string()),
        path: "/".to_string(),
        token: None,
    };
    let action = registry.handle_request(id, &request, now).expect("live");
    assert!(matches!(action, RequestAction::Forward));
    let token = registry.handle_error(id, &expired_upstream(), now).expect("live").html;
    registry.add_bypassed_domain(id, &"bad.example".to_string(), &token, now + 1);
    let action = registry.handle_request(id, &request, now + 2).expect("live");
    assert!(matches!(action, RequestAction::RouteInsecure));
}

#[test]
fn filtering_callback_verdicts() {
    let handler = CallbackHandler { proxy_id: 3 };
    assert_eq!(handler.handle_request(true), FilterAction::Allow);
    assert_eq!(handler.handle_request(false), FilterAction::Block);
}
