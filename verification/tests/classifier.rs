use hudsucker_ffi::classify_cert_problem;
use hudsucker_ffi::classify_connect_error;
use hudsucker_ffi::classify_tls_failure;
use hudsucker_ffi::CertProblem;
use hudsucker_ffi::ConnectError;
use hudsucker_ffi::FailureCause;
use hudsucker_ffi::TlsFailure;

#[test]
fn fixed_table_of_certificate_problems() {
    assert_eq!(classify_cert_problem(&CertProblem::Expired), "Certificate has expired");
    assert_eq!(classify_cert_problem(&CertProblem::NotValidYet), "Certificate is not yet valid");
    assert_eq!(classify_cert_problem(&CertProblem::UnknownIssuer), "Unknown certificate authority");
    assert_eq!(
        classify_cert_problem(&CertProblem::BadSignature),
        "Invalid certificate signature"
    );
    assert_eq!(
        classify_cert_problem(&CertProblem::NotValidForName),
        "Certificate name doesn't match hostname"
    );
    assert_eq!(
        classify_cert_problem(&CertProblem::UnhandledCriticalExtension),
        "Unsupported certificate extension"
    );
    assert_eq!(
        classify_cert_problem(&CertProblem::InvalidPurpose),
        "Certificate not valid for this purpose"
    );
    assert_eq!(classify_cert_problem(&CertProblem::Other), "Certificate validation error");
}

#[test]
fn tls_level_messages() {
    assert_eq!(
        classify_tls_failure(&TlsFailure::NoCertificatesPresented),
        "No certificate presented"
    );
    assert_eq!(
        classify_tls_failure(&TlsFailure::UnsupportedNameType),
        "Unsupported certificate name type"
    );
    assert_eq!(classify_tls_failure(&TlsFailure::DecryptError), "TLS decryption error");
    assert_eq!(
        classify_tls_failure(&TlsFailure::PeerIncompatible("offered tls1.0".to_string())),
        "TLS protocol incompatibility"
    );
    assert_eq!(
        classify_tls_failure(&TlsFailure::Other("handshake alert".to_string())),
        "TLS error: handshake alert"
    );
    assert_eq!(
        classify_tls_failure(&TlsFailure::InvalidCertificate(CertProblem::Expired)),
        "Certificate has expired"
    );
}

#[test]
fn first_tls_cause_wins() {
    let err = ConnectError {
        message: "connection error".to_string(),
        causes: vec![
            FailureCause::Text("client error (Connect)".to_string()),
            FailureCause::Tls(TlsFailure::InvalidCertificate(CertProblem::Expired)),
            FailureCause::Text("never reached".to_string()),
        ],
    };
    assert_eq!(classify_connect_error(&err), "Certificate has expired");
}

#[test]
fn falls_back_to_deepest_text() {
    let err = ConnectError {
        message: "connection error".to_string(),
        causes: vec![
            FailureCause::Text("client error (Connect)".to_string()),
            FailureCause::Text("connection refused".to_string()),
        ],
    };
    assert_eq!(classify_connect_error(&err), "connection refused");
}

#[test]
fn no_causes_uses_outermost_message() {
    let err = ConnectError { message: "operation timed out".to_string(), causes: vec![] };
    assert_eq!(classify_connect_error(&err), "operation timed out");
}
