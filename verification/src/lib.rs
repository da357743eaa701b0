//! Trust-management core of an intercepting TLS proxy.
//!
//! The library mints short-lived leaf certificates under a local CA and
//! caches them per authority, decides at handshake time whether to trust or
//! bypass a peer's certificate, classifies connection failures into
//! certificate-problem categories, and manages one-time, time-boxed bypass
//! tokens that let a user override a failed validation for a single domain.
//! Proxy instances live in a registry keyed by instance id, and the
//! bypassed-hosts set of each instance is operated through the registry.

use vstd::prelude::*;

mod authority;
mod bypass;
mod classify;
mod handler;
mod registry;
mod strutil;
mod tls;
mod token;
mod trust;

pub use authority::AlpnProtocol;
pub use authority::CACHE_TTL;
pub use authority::CaCertParams;
pub use authority::CertIssueError;
pub use authority::EKUFixedRcgenAuthority;
pub use authority::EkuPurpose;
pub use authority::IssuedCert;
pub use authority::KeyUsage;
pub use authority::LeafCertParams;
pub use authority::NOT_BEFORE_OFFSET;
pub use authority::ServerTlsConfig;
pub use authority::TTL_SECS;
pub use authority::generate_ca_cert;
pub use authority::host_of_authority;
pub use authority::make_ca_params;
pub use authority::make_leaf_params;
pub use authority::spec_host_of;
pub use authority::spec_live;
pub use authority::spec_window_start;
pub use bypass::BypassedHosts;
pub use classify::CertProblem;
pub use classify::ConnectError;
pub use classify::FailureCause;
pub use classify::TlsFailure;
pub use classify::classify_cert_problem;
pub use classify::classify_connect_error;
pub use classify::classify_tls_failure;
pub use classify::problem_message;
pub use classify::spec_classify;
pub use classify::tls_message;
pub use handler::BYPASS_FAILURE_TEMPLATE;
pub use handler::CertErrorHandler;
pub use handler::ErrorResponse;
pub use handler::Method;
pub use handler::RequestAction;
pub use handler::RequestInfo;
pub use handler::STATUS_BAD_GATEWAY;
pub use handler::STATUS_FORBIDDEN;
pub use handler::STATUS_FOUND;
pub use handler::hex_digit;
pub use handler::hex_of;
pub use handler::render_bypass_failure_page;
pub use handler::render_error_page;
pub use handler::spec_control_domain;
pub use handler::spec_error_domain;
pub use handler::spec_error_outcome;
pub use handler::spec_escape_html;
pub use handler::spec_is_control;
pub use handler::spec_page_outcome;
pub use handler::spec_render_error_page;
pub use handler::spec_request_outcome;
pub use registry::ProxyInstance;
pub use registry::ProxyRegistry;
pub use strutil::spec_starts_with;
pub use strutil::replace_all;
pub use strutil::spec_replace;
pub use strutil::str_starts_with;
pub use tls::create_modern_crypto_provider;
pub use tls::spec_der_views;
pub use tls::standard_verdict_of;
pub use token::BypassToken;
pub use token::TOKEN_TTL_SECS;
pub use token::TokenSlot;
pub use token::lemma_expired_token_fails;
pub use token::lemma_token_accepted_at_most_once;
pub use token::lemma_wrong_domain_fails;
pub use token::spec_redeemable;
pub use trust::BypassAwareVerifier;
pub use trust::TrustVerdict;
pub use trust::lemma_bypass_aware_verdict;
pub use trust::spec_verdict;

verus! {

/// Outcome of an instance-management operation, mirrored on the foreign
/// call surface as a numeric code.
#[derive(Clone, Copy, Debug, PartialEq, Eq, Structural)]
pub enum HudsuckerError {
    /// The operation succeeded.
    Success,
    /// A parameter was missing, malformed, or — for token redemption — the
    /// token was invalid or expired.
    InvalidParameter,
    /// The proxy instance could not be created.
    ProxyCreationFailed,
    /// The proxy instance could not be started.
    ProxyStartFailed,
    /// The runtime serving the instance could not be set up.
    RuntimeError,
    /// Memory for a returned value could not be allocated.
    MemoryError,
}

/// Opaque handle to a proxy instance, as handed across the foreign call
/// surface.
pub struct HudsuckerProxy {
    _private: [u8; 0],
}

/// Handler that consults the request-filtering callback: purely advisory,
/// unrelated to trust decisions.
pub struct CallbackHandler {
    /// Identifier of the proxy instance this handler serves.
    pub proxy_id: usize,
}

/// What the filtering handler does with a request.
#[derive(Clone, Copy, Debug, PartialEq, Eq, Structural)]
pub enum FilterAction {
    /// Let the request proceed.
    Allow,
    /// Answer with a forbidden status instead of forwarding.
    Block,
}

impl CallbackHandler {
    /// The response decision once the filtering callback has judged the
    /// request: blocked requests are answered, allowed ones proceed.
    pub fn handle_request(&self, allowed: bool) -> (r: FilterAction)
        ensures
            (r is Block) <==> !allowed,
    {
        if allowed {
            FilterAction::Allow
        } else {
            FilterAction::Block
        }
    }
}

} // verus!
