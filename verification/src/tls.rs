//! Trusted boundary to the TLS stack: type declarations for the rustls
//! values that flow through the library, and thin wrappers around the
//! rustls calls the trust core relies on.
//!
//! Every function here is `external_body`: its contract is what the rest of
//! the library builds on, and each doc comment names the outside function it
//! relies on.

use vstd::prelude::*;

verus! {

use crate::classify::CertProblem;
use crate::classify::TlsFailure;
use std::sync::Arc;

#[verifier::external_type_specification]
#[verifier::external_body]
pub struct ExCryptoProvider(rustls::crypto::CryptoProvider);

#[verifier::external_type_specification]
#[verifier::external_body]
pub struct ExServerConfig(rustls::ServerConfig);

#[verifier::external_type_specification]
#[verifier::external_body]
pub struct ExWebPkiServerVerifier(rustls::client::WebPkiServerVerifier);

#[verifier::external_type_specification]
#[verifier::external_body]
pub struct ExRustlsError(rustls::Error);

#[verifier::external_type_specification]
#[verifier::external_body]
pub struct ExCertificateError(rustls::CertificateError);

/// Relies on `rustls::crypto::aws_lc_rs::default_provider`: returns the
/// default cryptographic provider used for every TLS configuration the
/// library builds.
#[verifier::external_body]
pub fn create_modern_crypto_provider() -> rustls::crypto::CryptoProvider {
    rustls::crypto::aws_lc_rs::default_provider()
}

/// Relies on `rustls::client::WebPkiServerVerifier::builder_with_provider`
/// and `build`: constructs the standard root-of-trust validator over the
/// embedded `webpki_roots::TLS_SERVER_ROOTS` anchors.  Per its source,
/// `build` fails only when no trust anchors were supplied or when CRLs fail
/// to parse; the embedded root set is non-empty and no CRLs are given, so
/// the call cannot fail.
#[verifier::external_body]
pub(crate) fn build_webpki_verifier() -> Arc<rustls::client::WebPkiServerVerifier> {
    let mut roots = rustls::RootCertStore::empty();
    roots.extend(webpki_roots::TLS_SERVER_ROOTS.iter().cloned());
    let provider = Arc::new(rustls::crypto::aws_lc_rs::default_provider());
    rustls::client::WebPkiServerVerifier::builder_with_provider(Arc::new(roots), provider)
        .build()
        .expect("embedded trust anchors are non-empty")
}

/// Relies on `rustls::CertificateError`'s variants: renames each
/// certificate-specific failure into the library's category, folding the
/// `..Context` forms onto their plain counterparts and everything else onto
/// the unspecified category.
#[verifier::external_body]
pub(crate) fn cert_problem_of(e: rustls::CertificateError) -> (r: CertProblem) {
    match e {
        rustls::CertificateError::Expired => CertProblem::Expired,
        rustls::CertificateError::ExpiredContext { .. } => CertProblem::Expired,
        rustls::CertificateError::NotValidYet => CertProblem::NotValidYet,
        rustls::CertificateError::NotValidYetContext { .. } => CertProblem::NotValidYet,
        rustls::CertificateError::UnknownIssuer => CertProblem::UnknownIssuer,
        rustls::CertificateError::BadSignature => CertProblem::BadSignature,
        rustls::CertificateError::NotValidForName => CertProblem::NotValidForName,
        rustls::CertificateError::NotValidForNameContext { .. } => CertProblem::NotValidForName,
        rustls::CertificateError::UnhandledCriticalExtension => CertProblem::UnhandledCriticalExtension,
        rustls::CertificateError::InvalidPurpose => CertProblem::InvalidPurpose,
        rustls::CertificateError::InvalidPurposeContext { .. } => CertProblem::InvalidPurpose,
        _ => CertProblem::Other,
    }
}

/// Relies on `rustls::Error`'s variants: renames each TLS failure into the
/// library's structured form, moving fields only; unclassified variants keep
/// their textual rendering.
#[verifier::external_body]
pub(crate) fn tls_failure_of(e: rustls::Error) -> (r: TlsFailure) {
    match e {
        rustls::Error::InvalidCertificate(ce) => TlsFailure::InvalidCertificate(
            cert_problem_of(ce),
        ),
        rustls::Error::NoCertificatesPresented => TlsFailure::NoCertificatesPresented,
        rustls::Error::UnsupportedNameType => TlsFailure::UnsupportedNameType,
        rustls::Error::DecryptError => TlsFailure::DecryptError,
        rustls::Error::PeerIncompatible(p) => TlsFailure::PeerIncompatible(format!("{:?}", p)),
        other => TlsFailure::Other(format!("{}", other)),
    }
}

/// The views of a sequence of DER-encoded certificates.
pub open spec fn spec_der_views(ders: Seq<Vec<u8>>) -> Seq<Seq<u8>> {
    ders.map_values(|d: Vec<u8>| d@)
}

/// The verdict of standard root-of-trust validation over the fixed embedded
/// trust anchors, for a peer chain presented under a hostname at a given
/// time (seconds since the Unix epoch).  The validator carrying those
/// anchors is built inside the one trusted call site, so the verdict is a
/// function of these arguments alone and can be named without being
/// written out.
pub uninterp spec fn standard_verdict_of(
    end_entity: Seq<u8>,
    intermediates: Seq<Seq<u8>>,
    hostname: Seq<char>,
    now: u64,
) -> Result<(), TlsFailure>;

/// Relies on `rustls::client::danger::ServerCertVerifier::verify_server_cert`
/// of `WebPkiServerVerifier`: validates a peer chain at time `now` (seconds
/// since the Unix epoch) against the standard validator that this wrapper
/// itself constructs over the embedded anchors — no caller-supplied
/// validator reaches the call, so the verdict is a function of the
/// arguments alone, as the named result claims.  A hostname rustls cannot
/// parse as a server name is reported as an unsupported name type (part of
/// the same named verdict).
#[verifier::external_body]
pub(crate) fn standard_verify(
    end_entity: &Vec<u8>,
    intermediates: &Vec<Vec<u8>>,
    hostname: &String,
    now: u64,
) -> (r: Result<(), TlsFailure>)
    ensures
        r == standard_verdict_of(end_entity@, spec_der_views(intermediates@), hostname@, now),
{
    let v = build_webpki_verifier();
    let ee = rustls::pki_types::CertificateDer::from(end_entity.as_slice());
    let ints: Vec<rustls::pki_types::CertificateDer> =
        intermediates.iter().map(|i: &Vec<u8>| rustls::pki_types::CertificateDer::from(i.as_slice())).collect();
    let name = match rustls::pki_types::ServerName::try_from(hostname.as_str()) {
        Ok(n) => n,
        Err(_) => return Err(TlsFailure::UnsupportedNameType),
    };
    let time = rustls::pki_types::UnixTime::since_unix_epoch(core::time::Duration::from_secs(now));
    match rustls::client::danger::ServerCertVerifier::verify_server_cert(
        v.as_ref(), &ee, &ints, &name, &[], time,
    ) {
        Ok(_) => Ok(()),
        Err(e) => Err(tls_failure_of(e)),
    }
}

} // verus!
