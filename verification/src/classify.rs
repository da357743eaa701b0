//! Classification of connection failures into certificate-problem categories.
//!
//! A failed upstream handshake surfaces as a chain of causes, outermost
//! first.  Classification walks the chain and returns the message of the
//! first TLS-specific cause; when no cause is TLS-specific, it falls back to
//! the most specific (deepest) textual description available, so the caller
//! can always render something actionable.  Classification never fails.

use vstd::prelude::*;

verus! {

use vstd::string::StringExecFns;

/// A certificate-specific reason a TLS handshake was rejected.
#[derive(Clone, Copy, Debug, PartialEq, Eq, Structural)]
pub enum CertProblem {
    /// The certificate's validity window ended before now.
    Expired,
    /// The certificate's validity window starts after now.
    NotValidYet,
    /// The chain is not rooted in a trusted authority.
    UnknownIssuer,
    /// A signature in the chain did not verify.
    BadSignature,
    /// The certificate does not cover the requested hostname.
    NotValidForName,
    /// The certificate carries a critical extension the validator cannot handle.
    UnhandledCriticalExtension,
    /// The certificate is not valid for server authentication.
    InvalidPurpose,
    /// Some other certificate validation failure.
    Other,
}

/// A TLS-level failure reported by the handshake with the upstream server.
#[derive(Debug)]
pub enum TlsFailure {
    /// The peer's certificate was rejected for the given reason.
    InvalidCertificate(CertProblem),
    /// The peer presented no certificate at all.
    NoCertificatesPresented,
    /// The peer's certificate carries a name of an unsupported kind.
    UnsupportedNameType,
    /// A TLS record failed to decrypt.
    DecryptError,
    /// The peer does not support a compatible protocol; the payload
    /// describes what was offered.
    PeerIncompatible(String),
    /// Any other TLS failure, described textually.
    Other(String),
}

/// One link in the causal chain of a connection failure: either a
/// TLS-specific failure or a plain textual description of a lower layer's
/// error.
#[derive(Debug)]
pub enum FailureCause {
    Tls(TlsFailure),
    Text(String),
}

/// A connection failure as handed to the classifier: the outermost error's
/// own description plus its causes, outermost first.
#[derive(Debug)]
pub struct ConnectError {
    /// Description of the outermost error.
    pub message: String,
    /// Causes of the failure, outermost first.
    pub causes: Vec<FailureCause>,
}

/// The fixed message for each certificate-problem category.
pub open spec fn problem_message(p: CertProblem) -> Seq<char> {
    match p {
        CertProblem::Expired => "Certificate has expired"@,
        CertProblem::NotValidYet => "Certificate is not yet valid"@,
        CertProblem::UnknownIssuer => "Unknown certificate authority"@,
        CertProblem::BadSignature => "Invalid certificate signature"@,
        CertProblem::NotValidForName => "Certificate name doesn't match hostname"@,
        CertProblem::UnhandledCriticalExtension => "Unsupported certificate extension"@,
        CertProblem::InvalidPurpose => "Certificate not valid for this purpose"@,
        CertProblem::Other => "Certificate validation error"@,
    }
}

/// The message for each TLS-level failure.
pub open spec fn tls_message(t: TlsFailure) -> Seq<char> {
    match t {
        TlsFailure::InvalidCertificate(p) => problem_message(p),
        TlsFailure::NoCertificatesPresented => "No certificate presented"@,
        TlsFailure::UnsupportedNameType => "Unsupported certificate name type"@,
        TlsFailure::DecryptError => "TLS decryption error"@,
        TlsFailure::PeerIncompatible(_) => "TLS protocol incompatibility"@,
        TlsFailure::Other(desc) => "TLS error: "@ + desc@,
    }
}

/// What classification returns for a cause chain, given the most specific
/// textual description seen so far: the message of the first TLS-specific
/// cause, else the deepest text.
pub open spec fn spec_classify(causes: Seq<FailureCause>, best: Seq<char>) -> Seq<char>
    decreases causes.len(),
{
    if causes.len() == 0 {
        best
    } else {
        match causes[0] {
            FailureCause::Tls(t) => tls_message(t),
            FailureCause::Text(s) => spec_classify(causes.skip(1), s@),
        }
    }
}

/// Maps a certificate-problem category to its user-facing message.
pub fn classify_cert_problem(p: &CertProblem) -> (r: String)
    ensures
        r@ == problem_message(*p),
{
    match p {
        CertProblem::Expired => "Certificate has expired".to_owned(),
        CertProblem::NotValidYet => "Certificate is not yet valid".to_owned(),
        CertProblem::UnknownIssuer => "Unknown certificate authority".to_owned(),
        CertProblem::BadSignature => "Invalid certificate signature".to_owned(),
        CertProblem::NotValidForName => "Certificate name doesn't match hostname".to_owned(),
        CertProblem::UnhandledCriticalExtension => "Unsupported certificate extension".to_owned(),
        CertProblem::InvalidPurpose => "Certificate not valid for this purpose".to_owned(),
        CertProblem::Other => "Certificate validation error".to_owned(),
    }
}

/// Maps a TLS-level failure to its user-facing message.
pub fn classify_tls_failure(t: &TlsFailure) -> (r: String)
    ensures
        r@ == tls_message(*t),
{
    match t {
        TlsFailure::InvalidCertificate(p) => classify_cert_problem(p),
        TlsFailure::NoCertificatesPresented => "No certificate presented".to_owned(),
        TlsFailure::UnsupportedNameType => "Unsupported certificate name type".to_owned(),
        TlsFailure::DecryptError => "TLS decryption error".to_owned(),
        TlsFailure::PeerIncompatible(_) => "TLS protocol incompatibility".to_owned(),
        TlsFailure::Other(desc) => "TLS error: ".to_owned().concat(desc.as_str()),
    }
}

/// Classifies a connection failure: walks the causal chain from outermost to
/// innermost and returns the message of the first TLS-specific cause; when
/// none is TLS-specific, returns the deepest textual description (or the
/// outermost error's own description if there are no causes at all).
pub fn classify_connect_error(err: &ConnectError) -> (r: String)
    ensures
        r@ == spec_classify(err.causes@, err.message@),
{
    let mut best: String = err.message.clone();
    let mut i: usize = 0;
    assert(err.causes@.skip(0) =~= err.causes@);
    while i < err.causes.len()
        invariant
            i <= err.causes@.len(),
            spec_classify(err.causes@.skip(i as int), best@) == spec_classify(
                err.causes@,
                err.message@,
            ),
        decreases err.causes@.len() - i,
    {
        assert(err.causes@.skip(i as int)[0] == err.causes@[i as int]);
        match &err.causes[i] {
            FailureCause::Tls(t) => {
                return classify_tls_failure(t);
            },
            FailureCause::Text(s) => {
                best = s.clone();
            },
        }
        assert(err.causes@.skip(i as int).skip(1) =~= err.causes@.skip(i + 1));
        i = i + 1;
    }
    best
}

} // verus!
