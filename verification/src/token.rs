//! The bypass-token slot: a one-element store for the single live bypass
//! token of a proxy instance.
//!
//! A token is a high-entropy credential bound to one domain with an absolute
//! expiry ten minutes after issuance.  At most one token is live at a time;
//! issuing a new one replaces (and thereby invalidates) the previous one.
//! Redemption is one-shot: whether it succeeds or fails, the slot is cleared,
//! so a token can never be accepted twice.

use vstd::prelude::*;

verus! {

/// Seconds a bypass token stays redeemable after issuance.
pub const TOKEN_TTL_SECS: u64 = 10 * 60;

/// The single live bypass token: its value, the domain it authorizes, and
/// the moment (seconds since the Unix epoch) it stops being redeemable.
pub struct BypassToken {
    /// The secret token value.
    pub token: String,
    /// The domain this token is bound to.
    pub domain: String,
    /// First moment at which the token is no longer redeemable.
    pub expires_at: u64,
}

/// Holds the at-most-one live bypass token of a proxy instance.
pub struct TokenSlot {
    /// The live token, if any.
    pub current: Option<BypassToken>,
}

/// Whether a redemption attempt presenting `token` for `domain` at time
/// `now` succeeds against a slot holding `cur`: the slot must be occupied,
/// both values must match exactly, and the expiry must lie strictly in the
/// future.
pub open spec fn spec_redeemable(
    cur: Option<BypassToken>,
    token: Seq<char>,
    domain: Seq<char>,
    now: u64,
) -> bool {
    cur matches Some(t) && t.token@ == token && t.domain@ == domain && t.expires_at > now
}

impl TokenSlot {
    /// An empty slot: no token has been issued.
    pub fn new() -> (r: Self)
        ensures
            r.current is None,
    {
        TokenSlot { current: None }
    }

    /// Binds a freshly generated token value to `domain`, expiring
    /// `TOKEN_TTL_SECS` after `now`.  Any previously issued token is
    /// replaced and thereby becomes unredeemable.
    pub fn issue(&mut self, token: String, domain: String, now: u64)
        requires
            now + TOKEN_TTL_SECS <= u64::MAX,
        ensures
            final(self).current matches Some(t) && t.token@ == token@ && t.domain@ == domain@
                && t.expires_at == now + TOKEN_TTL_SECS,
    {
        self.current = Some(
            BypassToken { token, domain, expires_at: now + TOKEN_TTL_SECS },
        );
    }

    /// Redeems a token: succeeds exactly when the presented value and domain
    /// match the live token and the expiry lies strictly in the future.  The
    /// slot is cleared on every attempt, successful or not, so no token is
    /// ever accepted twice.
    pub fn validate_and_consume(&mut self, token: &String, domain: &String, now: u64) -> (r: bool)
        ensures
            final(self).current is None,
            r == spec_redeemable(old(self).current, token@, domain@, now),
    {
        let valid = match &self.current {
            Some(t) => t.token == *token && t.domain == *domain && t.expires_at > now,
            None => false,
        };
        self.current = None;
        valid
    }

    /// Clears the live token, if any.
    pub fn clear(&mut self)
        ensures
            final(self).current is None,
    {
        self.current = None;
    }
}

/// A cleared slot accepts nothing: after a token has been consumed (or
/// invalidated), redeeming again — even with values identical to the ones
/// that just succeeded — fails.
pub proof fn lemma_token_accepted_at_most_once(token: Seq<char>, domain: Seq<char>, now: u64)
    ensures
        !spec_redeemable(None, token, domain, now),
{
}

/// A redemption attempt against the wrong domain fails, whatever the token
/// value and time; and since every attempt clears the slot, a subsequent
/// attempt — even a fully correct one — fails as well.
pub proof fn lemma_wrong_domain_fails(
    cur: Option<BypassToken>,
    token: Seq<char>,
    domain: Seq<char>,
    now: u64,
)
    requires
        cur matches Some(t) ==> t.domain@ != domain,
    ensures
        !spec_redeemable(cur, token, domain, now),
        !spec_redeemable(None, token, domain, now),
{
}

/// A token presented at or after its expiry fails, even when the value and
/// the domain are both correct.
pub proof fn lemma_expired_token_fails(
    cur: Option<BypassToken>,
    token: Seq<char>,
    domain: Seq<char>,
    now: u64,
)
    requires
        cur matches Some(t) ==> now >= t.expires_at,
    ensures
        !spec_redeemable(cur, token, domain, now),
{
}

} // verus!
