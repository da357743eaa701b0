use hudsucker_ffi::BypassAwareVerifier;
use hudsucker_ffi::BypassedHosts;
use hudsucker_ffi::TrustVerdict;

#[test]
fn bypassed_hostname_is_trusted_without_inspecting_the_chain() {
    let verifier = BypassAwareVerifier::new();
    let mut bypassed = BypassedHosts::new();
    bypassed.insert("bad.example".to_string());
    // garbage bytes would never pass standard validation
    let verdict = verifier.verify_server_cert(
        &bypassed,
        &vec![0u8, 1, 2, 3],
        &vec![],
        &"bad.example".to_string(),
        1_700_000_000,
    );
    assert!(matches!(verdict, TrustVerdict::BypassTrusted));
}

#[test]
fn removal_falls_back_to_standard_validation() {
    let verifier = BypassAwareVerifier::new();
    let mut bypassed = BypassedHosts::new();
    bypassed.insert("bad.example".to_string());
    bypassed.remove("bad.example");
    let verdict = verifier.verify_server_cert(
        &bypassed,
        &vec![0u8, 1, 2, 3],
        &vec![],
        &"bad.example".to_string(),
        1_700_000_000,
    );
    // the garbage chain is rejected by the standard validator
    assert!(matches!(verdict, TrustVerdict::Untrusted(_)));
}

#[test]
fn only_the_member_hostname_is_bypass_trusted() {
    let verifier = BypassAwareVerifier::new();
    let mut bypassed = BypassedHosts::new();
    bypassed.insert("bad.example".to_string());
    let verdict = verifier.verify_server_cert(
        &bypassed,
        &vec![0u8, 1, 2, 3],
        &vec![],
        &"other.example".to_string(),
        1_700_000_000,
    );
    assert!(matches!(verdict, TrustVerdict::Untrusted(_)));
}

#[test]
fn bypass_set_operations() {
    let mut hosts = BypassedHosts::new();
    assert!(!hosts.contains("a.example"));
    hosts.insert("a.example".to_string());
    hosts.insert("b.example".to_string());
    hosts.insert("a.example".to_string());
    assert!(hosts.contains("a.example"));
    assert!(hosts.contains("b.example"));
    hosts.remove("a.example");
    assert!(!hosts.contains("a.example"));
    assert!(hosts.contains("b.example"));
    hosts.clear();
    assert!(!hosts.contains("b.example"));
}
