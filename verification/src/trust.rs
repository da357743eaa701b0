//! The bypass-aware server-certificate verifier: the handshake-time trust
//! decision.
//!
//! If the declared hostname is currently a member of the bypassed-hosts
//! set, the chain is trusted unconditionally, without being inspected.
//! Otherwise the decision is delegated, unchanged, to the standard
//! root-of-trust validator over fixed embedded anchors.  The bypass never
//! affects the handshake's cryptographic signature checks, which always
//! delegate to the standard validator.

use vstd::prelude::*;

verus! {

use crate::bypass::BypassedHosts;
use crate::classify::TlsFailure;
use crate::tls::build_webpki_verifier;
use crate::tls::spec_der_views;
use crate::tls::standard_verdict_of;
use crate::tls::standard_verify;
use std::sync::Arc;

/// Outcome of the handshake-time trust decision.
#[derive(Debug)]
pub enum TrustVerdict {
    /// The hostname is bypassed: trusted without inspecting the chain.
    BypassTrusted,
    /// Standard root-of-trust validation accepted the chain.
    StandardTrusted,
    /// Standard validation rejected the chain for the given reason.
    Untrusted(TlsFailure),
}

/// The trust decision as a function of bypass-set membership and of what
/// standard validation said: a member is trusted at once, and for a
/// non-member the standard outcome is kept as it is.
pub open spec fn spec_verdict(member: bool, standard: Result<(), TlsFailure>) -> TrustVerdict {
    if member {
        TrustVerdict::BypassTrusted
    } else {
        match standard {
            Ok(_) => TrustVerdict::StandardTrusted,
            Err(f) => TrustVerdict::Untrusted(f),
        }
    }
}

/// A hostname is trusted by bypass exactly when it is a member of the
/// bypassed-hosts set at decision time; for every non-member the decision
/// falls back to — and equals — the standard validator's verdict, so
/// removing a host from the set makes subsequent decisions standard again.
pub proof fn lemma_bypass_aware_verdict(member: bool, standard: Result<(), TlsFailure>)
    ensures
        spec_verdict(member, standard) is BypassTrusted <==> member,
        !member ==> spec_verdict(member, standard) == (match standard {
            Ok(_) => TrustVerdict::StandardTrusted,
            Err(f) => TrustVerdict::Untrusted(f),
        }),
        !member ==> ((spec_verdict(member, standard) is Untrusted) <==> standard is Err),
{
}

/// Certificate verifier that consults the bypassed-hosts set before falling
/// back to standard root-of-trust validation.
pub struct BypassAwareVerifier {
    // Only `new` constructs this, so every held validator carries the
    // embedded anchors.
    default_verifier: Arc<rustls::client::WebPkiServerVerifier>,
}

impl BypassAwareVerifier {
    /// Builds the verifier with the standard validator over the embedded
    /// trust anchors as its fallback.
    pub fn new() -> Self {
        BypassAwareVerifier { default_verifier: build_webpki_verifier() }
    }

    /// The standard validator, for the handshake's cryptographic signature
    /// checks, which always delegate to it.
    pub fn default_verifier(&self) -> &Arc<rustls::client::WebPkiServerVerifier> {
        &self.default_verifier
    }

    /// Combines bypass membership with a standard verdict.
    fn decide(member: bool, standard: Result<(), TlsFailure>) -> (r: TrustVerdict)
        ensures
            r == spec_verdict(member, standard),
    {
        if member {
            TrustVerdict::BypassTrusted
        } else {
            match standard {
                Ok(_) => TrustVerdict::StandardTrusted,
                Err(f) => TrustVerdict::Untrusted(f),
            }
        }
    }

    /// The handshake-time trust decision for a peer chain presented under
    /// `hostname` at time `now` (seconds since the Unix epoch).  Returns the
    /// bypass verdict exactly when `hostname` is a member of `bypassed` at
    /// decision time — the chain is then not inspected at all — and
    /// otherwise passes the standard validator's verdict through unchanged.
    pub fn verify_server_cert(
        &self,
        bypassed: &BypassedHosts,
        end_entity: &Vec<u8>,
        intermediates: &Vec<Vec<u8>>,
        hostname: &String,
        now: u64,
    ) -> (r: TrustVerdict)
        ensures
            (r is BypassTrusted) <==> bypassed@.contains(hostname@),
            !bypassed@.contains(hostname@) ==> r == spec_verdict(
                false,
                standard_verdict_of(
                    end_entity@,
                    spec_der_views(intermediates@),
                    hostname@,
                    now,
                ),
            ),
    {
        let member = bypassed.contains(hostname.as_str());
        if member {
            Self::decide(member, Ok(()))
        } else {
            let standard = standard_verify(end_entity, intermediates, hostname, now);
            Self::decide(member, standard)
        }
    }
}

} // verus!
