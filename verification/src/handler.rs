//! The trust-override orchestrator: per-request and per-failure decisions
//! of one proxy instance.
//!
//! It owns the bypassed-hosts set, the single bypass-token slot, and the
//! error-page template.  A control-endpoint submission redeems a token and,
//! on success, admits the domain to the bypass set; requests to bypassed
//! hosts are routed through the non-validating secondary transport; a
//! connection failure on the normal path is classified and answered with an
//! error page carrying a freshly issued token bound to the failing domain.

use vstd::prelude::*;

verus! {

use crate::CallbackHandler;
use crate::bypass::BypassedHosts;
use crate::classify::ConnectError;
use crate::classify::classify_connect_error;
use crate::classify::spec_classify;
use crate::strutil::replace_all;
use crate::strutil::spec_replace;
use crate::strutil::spec_starts_with;
use crate::strutil::str_starts_with;
use crate::token::TOKEN_TTL_SECS;
use crate::token::TokenSlot;
use crate::token::spec_redeemable;
use vstd::string::StrSliceExecFns;
use vstd::string::StringExecFns;

/// HTTP status of a redirect back to the redeemed domain.
pub const STATUS_FOUND: u16 = 302;

/// HTTP status of a rejected bypass submission.
pub const STATUS_FORBIDDEN: u16 = 403;

/// HTTP status of a failed upstream exchange.
pub const STATUS_BAD_GATEWAY: u16 = 502;

/// The sixteen lowercase hexadecimal digits, by value.
pub open spec fn hex_digit(n: u8) -> char {
    seq!['0', '1', '2', '3', '4', '5', '6', '7', '8', '9', 'a', 'b', 'c', 'd', 'e', 'f'][n as int]
}

/// The lowercase hexadecimal rendering of a byte string: two digits per
/// byte, high nibble first.
pub open spec fn hex_of(b: Seq<u8>) -> Seq<char> {
    Seq::new(
        2 * b.len(),
        |i: int|
            if i % 2 == 0 {
                hex_digit(b[i / 2] / 16)
            } else {
                hex_digit(b[i / 2] % 16)
            },
    )
}

/// Relies on `getrandom::getrandom`: fills 32 bytes (256 bits) from the
/// system's cryptographically secure random source, or reports `None` when
/// that source fails.  Nothing is promised of the bytes' values.
#[verifier::external_body]
fn secure_random_32() -> (r: Option<Vec<u8>>)
    ensures
        r matches Some(v) ==> v@.len() == 32,
{
    let mut bytes = [0u8; 32];
    match getrandom::getrandom(&mut bytes) {
        Ok(()) => Some(bytes.to_vec()),
        Err(_) => None,
    }
}

/// Relies on `hex::encode`: renders each byte as two lowercase hexadecimal
/// digits, high nibble first.
#[verifier::external_body]
fn hex_encode(b: &Vec<u8>) -> (r: String)
    ensures
        r@ == hex_of(b@),
{
    hex::encode(b.as_slice())
}

/// The rendered certificate-error page: the template with its
/// `{error_type}` placeholders replaced by the failure category and its
/// `{bypass_secret}` placeholders replaced by the token value.
pub open spec fn spec_render_error_page(
    template: Seq<char>,
    error_type: Seq<char>,
    secret: Seq<char>,
) -> Seq<char> {
    spec_replace(spec_replace(template, "{error_type}"@, error_type), "{bypass_secret}"@, secret)
}

/// Substitutes the failure category and the token value into the error-page
/// template.
pub fn render_error_page(template: &str, error_type: &str, secret: &str) -> (r: String)
    ensures
        r@ == spec_render_error_page(template@, error_type@, secret@),
{
    proof {
        reveal_strlit("{error_type}");
        reveal_strlit("{bypass_secret}");
    }
    let step = replace_all(template, "{error_type}", error_type);
    replace_all(step.as_str(), "{bypass_secret}", secret)
}

/// Page answering a failed exchange over the secondary transport.  The
/// trust decision had already succeeded; this failure is a different fault
/// class and is reported distinctly from the certificate-error page.
pub const BYPASS_FAILURE_TEMPLATE: &'static str = "<!DOCTYPE html>\n<html>\n<head>\n<title>Certificate Bypass Failed</title>\n</head>\n<body>\n<h1>Certificate Bypass Failed</h1>\n<p>The request to the bypassed domain failed. This usually happens when the server is unreachable, the server closed the connection, or there is a protocol mismatch.</p>\n<strong>Error Details:</strong>\n<pre>{error_details}</pre>\n<button onclick='window.history.back()'>Go Back</button>\n</body>\n</html>\n";

/// Angle brackets rendered inert for embedding a message in HTML.
pub open spec fn spec_escape_html(s: Seq<char>) -> Seq<char> {
    spec_replace(spec_replace(s, "<"@, "&lt;"@), ">"@, "&gt;"@)
}

/// Renders the page answering a failed exchange over the secondary
/// transport, with the failure's description embedded (angle brackets
/// escaped).
pub fn render_bypass_failure_page(details: &String) -> (r: ErrorResponse)
    ensures
        r.status == STATUS_BAD_GATEWAY,
        r.html@ == spec_replace(
            BYPASS_FAILURE_TEMPLATE@,
            "{error_details}"@,
            spec_escape_html(details@),
        ),
{
    proof {
        reveal_strlit("<");
        reveal_strlit(">");
        reveal_strlit("{error_details}");
    }
    let step = replace_all(details.as_str(), "<", "&lt;");
    let escaped = replace_all(step.as_str(), ">", "&gt;");
    let html = replace_all(BYPASS_FAILURE_TEMPLATE, "{error_details}", escaped.as_str());
    ErrorResponse { status: STATUS_BAD_GATEWAY, html }
}

/// An HTTP method, as far as the orchestrator distinguishes them.
#[derive(Clone, Copy, Debug, PartialEq, Eq, Structural)]
pub enum Method {
    Get,
    Post,
    Other,
}

/// What the orchestrator reads of an intercepted request.
#[derive(Debug)]
pub struct RequestInfo {
    /// The request method.
    pub method: Method,
    /// The host of the request URI, when present.
    pub host: Option<String>,
    /// The path of the request URI.
    pub path: String,
    /// The token field of a control submission, when present.
    pub token: Option<String>,
}

/// What is to be done with an intercepted request.
#[derive(Debug)]
pub enum RequestAction {
    /// A successful bypass submission: redirect to the given location.
    ControlRedirect { location: String },
    /// A failed bypass submission: answer with a rejection status, never
    /// proceeding as if bypassed.
    ControlRejected,
    /// The host is bypassed: serve via the non-validating secondary
    /// transport.
    RouteInsecure,
    /// Forward along the normal intercepted path.
    Forward,
}

/// A response the orchestrator renders itself.
#[derive(Debug)]
pub struct ErrorResponse {
    /// HTTP status code.
    pub status: u16,
    /// HTML body.
    pub html: String,
}

/// Whether a request targets the control endpoint with a write method.
pub open spec fn spec_is_control(req: RequestInfo) -> bool {
    req.method is Post && spec_starts_with(req.path@, "/__hudsucker_bypass_cert"@)
}

/// The domain segment of a control-endpoint path: what follows the control
/// prefix, when non-empty.
pub open spec fn spec_control_domain(path: Seq<char>) -> Option<Seq<char>> {
    if spec_starts_with(path, "/__hudsucker_bypass_cert/"@) && path.len() > "/__hudsucker_bypass_cert/"@.len() {
        Some(path.skip("/__hudsucker_bypass_cert/"@.len() as int))
    } else {
        None
    }
}

/// Extracts the domain segment of a control-endpoint path.
fn control_domain(path: &str) -> (r: Option<String>)
    ensures
        r matches Some(d) ==> spec_control_domain(path@) matches Some(dv) && d@ == dv,
        r is None ==> spec_control_domain(path@) is None,
{
    proof {
        reveal_strlit("/__hudsucker_bypass_cert/");
    }
    if str_starts_with(path, "/__hudsucker_bypass_cert/") {
        let plen = "/__hudsucker_bypass_cert/".unicode_len();
        let len = path.unicode_len();
        if len > plen {
            let d = path.substring_char(plen, len).to_owned();
            proof {
                assert(path@.subrange(plen as int, len as int) =~= path@.skip(plen as int));
            }
            Some(d)
        } else {
            None
        }
    } else {
        None
    }
}

/// The domain a failure is attributed to: the host of the stored request
/// URI, or a fixed marker when none was stored.
pub open spec fn spec_error_domain(uri: Option<String>) -> Seq<char> {
    match uri {
        Some(u) => u@,
        None => "unknown"@,
    }
}

/// Everything `CertErrorHandler::handle_request` promises, relating the
/// state before (`pre`) and after (`post`) the call to the request and the
/// returned action.
///
/// A control submission with a redeemable token redirects to the domain
/// and admits it to the bypass set; one with an unredeemable token is
/// rejected and clears the slot; one missing domain or token is rejected
/// leaving the slot alone.  A non-control request to a bypassed host is
/// routed via the secondary transport, any other one is forwarded, neither
/// touching token or set.  The request's host is remembered in every case.
pub open spec fn spec_request_outcome(
    pre: CertErrorHandler,
    post: CertErrorHandler,
    req: RequestInfo,
    now: u64,
    r: RequestAction,
) -> bool {
    &&& post.base_handler == pre.base_handler
    &&& post.html_template@ == pre.html_template@
    &&& match req.host {
        Some(h) => post.current_request_uri matches Some(u) && u@ == h@,
        None => post.current_request_uri is None,
    }
    &&& if spec_is_control(req) {
        match (spec_control_domain(req.path@), req.token) {
            (Some(d), Some(t)) => if spec_redeemable(
                pre.current_bypass_token.current,
                t@,
                d,
                now,
            ) {
                &&& r matches RequestAction::ControlRedirect { location } && location@
                    == "https://"@ + d + "/"@
                &&& post.bypassed_hosts@ == pre.bypassed_hosts@.insert(d)
                &&& post.current_bypass_token.current is None
            } else {
                &&& r is ControlRejected
                &&& post.bypassed_hosts@ == pre.bypassed_hosts@
                &&& post.current_bypass_token.current is None
            },
            _ => {
                &&& r is ControlRejected
                &&& post.bypassed_hosts@ == pre.bypassed_hosts@
                &&& post.current_bypass_token == pre.current_bypass_token
            },
        }
    } else {
        match req.host {
            Some(h) => if pre.bypassed_hosts@.contains(h@) {
                &&& r is RouteInsecure
                &&& post.bypassed_hosts@ == pre.bypassed_hosts@
                &&& post.current_bypass_token == pre.current_bypass_token
            } else {
                &&& r is Forward
                &&& post.bypassed_hosts@ == pre.bypassed_hosts@
                &&& post.current_bypass_token == pre.current_bypass_token
            },
            None => {
                &&& r is Forward
                &&& post.bypassed_hosts@ == pre.bypassed_hosts@
                &&& post.current_bypass_token == pre.current_bypass_token
            },
        }
    }
}

/// Everything `CertErrorHandler::handle_error` promises: the answer is the
/// bad-gateway status with the rendered error page for the classified
/// failure, a fresh token bound to the failing domain when secure random
/// generation succeeded (the page then carries it), and an emptied slot
/// with a secretless page when it failed; nothing else changes.
pub open spec fn spec_error_outcome(
    pre: CertErrorHandler,
    post: CertErrorHandler,
    err: ConnectError,
    now: u64,
    r: ErrorResponse,
) -> bool {
    &&& r.status == STATUS_BAD_GATEWAY
    &&& post.base_handler == pre.base_handler
    &&& post.html_template@ == pre.html_template@
    &&& post.bypassed_hosts@ == pre.bypassed_hosts@
    &&& post.current_request_uri == pre.current_request_uri
    &&& spec_page_outcome(
        pre,
        post,
        spec_classify(err.causes@, err.message@),
        spec_error_domain(pre.current_request_uri),
        now,
        r.html@,
    )
}

/// What rendering an error page does to the token slot: either a fresh
/// 256-bit token was issued — bound to `domain`, expiring ten minutes past
/// `now`, and carried by the page — or secure random generation failed, no
/// token was issued (the slot is empty afterwards), and the page carries no
/// secret.
pub open spec fn spec_page_outcome(
    pre: CertErrorHandler,
    post: CertErrorHandler,
    error_type: Seq<char>,
    domain: Seq<char>,
    now: u64,
    page: Seq<char>,
) -> bool {
    ||| {
        &&& post.current_bypass_token.current matches Some(t)
        &&& t.domain@ == domain
        &&& t.expires_at == now + TOKEN_TTL_SECS
        &&& t.token@.len() == 64
        &&& page == spec_render_error_page(pre.html_template@, error_type, t.token@)
    }
    ||| {
        &&& post.current_bypass_token.current is None
        &&& page == spec_render_error_page(pre.html_template@, error_type, Seq::<char>::empty())
    }
}

/// Per-instance trust-override state: the filtering handler underneath, the
/// bypassed-hosts set, the error-page template, the single bypass-token
/// slot, and the host of the most recent request (for attributing
/// failures).
pub struct CertErrorHandler {
    /// The underlying request-filtering handler.
    pub base_handler: CallbackHandler,
    /// Hosts the user has chosen to visit despite certificate errors.
    pub bypassed_hosts: BypassedHosts,
    /// HTML template of the certificate-error page, with `{error_type}`
    /// and `{bypass_secret}` placeholders.
    pub html_template: String,
    /// The at-most-one live bypass token.
    pub current_bypass_token: TokenSlot,
    /// Host of the most recent request, used to bind a failure to its
    /// domain.
    pub current_request_uri: Option<String>,
}

impl CertErrorHandler {
    /// A fresh instance: nothing bypassed, no live token, no request seen.
    pub fn new(proxy_id: usize, html_template: String) -> (r: Self)
        ensures
            r.base_handler.proxy_id == proxy_id,
            r.html_template@ == html_template@,
            r.bypassed_hosts@ == Set::<Seq<char>>::empty(),
            r.current_bypass_token.current is None,
            r.current_request_uri is None,
    {
        CertErrorHandler {
            base_handler: CallbackHandler { proxy_id },
            bypassed_hosts: BypassedHosts::new(),
            html_template,
            current_bypass_token: TokenSlot::new(),
            current_request_uri: None,
        }
    }

    /// Generates a fresh 256-bit bypass secret, hex-encoded; `None` when
    /// the secure random source fails, in which case the bypass affordance
    /// is withheld entirely.
    pub fn generate_bypass_secret(&self) -> (r: Option<String>)
        ensures
            r matches Some(s) ==> s@.len() == 64 && (exists|b: Seq<u8>|
                b.len() == 32 && s@ == hex_of(b)),
    {
        match secure_random_32() {
            Some(bytes) => {
                let s = hex_encode(&bytes);
                proof {
                    assert(bytes@.len() == 32 && s@ == hex_of(bytes@));
                }
                Some(s)
            },
            None => None,
        }
    }

    /// Renders the certificate-error page for `error_type`, binding a
    /// freshly issued token to `domain` with an expiry ten minutes past
    /// `now`.  The new token replaces any previously issued one.  If secure
    /// random generation fails, no token is issued — the slot is emptied,
    /// invalidating any previously issued token — and the page carries no
    /// secret: the bypass affordance is withheld rather than weakened.
    pub fn generate_cert_error_page(
        &mut self,
        error_type: &String,
        domain: &String,
        now: u64,
    ) -> (r: String)
        requires
            now + TOKEN_TTL_SECS <= u64::MAX,
        ensures
            final(self).base_handler == old(self).base_handler,
            final(self).html_template@ == old(self).html_template@,
            final(self).bypassed_hosts@ == old(self).bypassed_hosts@,
            final(self).current_request_uri == old(self).current_request_uri,
            spec_page_outcome(*old(self), *final(self), error_type@, domain@, now, r@),
    {
        match self.generate_bypass_secret() {
            Some(secret) => {
                self.current_bypass_token.issue(secret.clone(), domain.clone(), now);
                render_error_page(
                    self.html_template.as_str(),
                    error_type.as_str(),
                    secret.as_str(),
                )
            },
            None => {
                self.current_bypass_token.clear();
                let page = render_error_page(self.html_template.as_str(), error_type.as_str(), "");
                proof {
                    reveal_strlit("");
                    assert(""@ =~= Seq::<char>::empty());
                }
                page
            },
        }
    }

    /// Redeems a bypass token (one-time use): true exactly when the
    /// presented value and domain match the live token and the expiry lies
    /// strictly in the future.  The slot is cleared on every attempt.
    pub fn validate_and_consume_bypass_token(
        &mut self,
        token: &String,
        domain: &String,
        now: u64,
    ) -> (r: bool)
        ensures
            r == spec_redeemable(old(self).current_bypass_token.current, token@, domain@, now),
            final(self).current_bypass_token.current is None,
            final(self).base_handler == old(self).base_handler,
            final(self).html_template@ == old(self).html_template@,
            final(self).bypassed_hosts@ == old(self).bypassed_hosts@,
            final(self).current_request_uri == old(self).current_request_uri,
    {
        self.current_bypass_token.validate_and_consume(token, domain, now)
    }

    /// Clears the live bypass token, if any.
    pub fn clear_bypass_token(&mut self)
        ensures
            final(self).current_bypass_token.current is None,
            final(self).base_handler == old(self).base_handler,
            final(self).html_template@ == old(self).html_template@,
            final(self).bypassed_hosts@ == old(self).bypassed_hosts@,
            final(self).current_request_uri == old(self).current_request_uri,
    {
        self.current_bypass_token.clear()
    }

    /// The per-request trust-override decision.
    ///
    /// A write to the control endpoint attempts token redemption for the
    /// domain named in the path: success admits the domain to the bypass
    /// set and redirects back to it over the normal scheme; any failure is
    /// answered with a rejection, never by proceeding as if bypassed.
    /// Otherwise a request whose host is currently bypassed is routed via
    /// the non-validating secondary transport, and everything else is
    /// forwarded along the normal path.  The request's host is remembered
    /// for attributing a later failure.
    pub fn handle_request(&mut self, req: &RequestInfo, now: u64) -> (r: RequestAction)
        ensures
            spec_request_outcome(*old(self), *final(self), *req, now, r),
    {
        self.current_request_uri = match &req.host {
            Some(h) => Some(h.clone()),
            None => None,
        };
        let is_control = req.method == Method::Post && str_starts_with(
            req.path.as_str(),
            "/__hudsucker_bypass_cert",
        );
        if is_control {
            let domain_opt = control_domain(req.path.as_str());
            match (domain_opt, &req.token) {
                (Some(domain), Some(token)) => {
                    if self.current_bypass_token.validate_and_consume(token, &domain, now) {
                        self.bypassed_hosts.insert(domain.clone());
                        let location = "https://".to_owned().concat(domain.as_str()).concat("/");
                        RequestAction::ControlRedirect { location }
                    } else {
                        RequestAction::ControlRejected
                    }
                },
                _ => RequestAction::ControlRejected,
            }
        } else {
            match &req.host {
                Some(h) => {
                    if self.bypassed_hosts.contains(h.as_str()) {
                        RequestAction::RouteInsecure
                    } else {
                        RequestAction::Forward
                    }
                },
                None => RequestAction::Forward,
            }
        }
    }

    /// Answers a connection failure on the normal path: classifies the
    /// failure, attributes it to the most recently seen host, and renders
    /// the certificate-error page with a freshly issued token bound to that
    /// domain.
    pub fn handle_error(&mut self, err: &ConnectError, now: u64) -> (r: ErrorResponse)
        requires
            now + TOKEN_TTL_SECS <= u64::MAX,
        ensures
            spec_error_outcome(*old(self), *final(self), *err, now, r),
    {
        let error_type = classify_connect_error(err);
        let hostname = match &self.current_request_uri {
            Some(u) => u.clone(),
            None => "unknown".to_owned(),
        };
        let html = self.generate_cert_error_page(&error_type, &hostname, now);
        ErrorResponse { status: STATUS_BAD_GATEWAY, html }
    }
}

} // verus!
