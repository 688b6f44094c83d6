//! Bearer credentials and the rule that renews them ahead of their expiry.

use vstd::prelude::*;
use crate::time::Timestamp;

verus! {

/// A credential is renewed once fewer than this many seconds remain.
pub const REFRESH_MARGIN_SECS: i64 = 300;

/// The latest instant for which the library mints credentials: far enough
/// below the end of `i64` for every lifetime it adds.
pub const LATEST_SECS: i64 = 0x7fff_fffe_0000_0000;

/// A bearer token and the instant after which it is not to be used.
#[derive(Debug, PartialEq, Eq)]
pub struct Credential {
    pub token: String,
    pub expires_at: Timestamp,
}

/// What a `Credential` holds.
pub struct CredentialView {
    pub token: Seq<char>,
    pub expires_at: Timestamp,
}

impl View for Credential {
    type V = CredentialView;

    open spec fn view(&self) -> CredentialView {
        CredentialView { token: self.token@, expires_at: self.expires_at }
    }
}

impl DeepView for Credential {
    type V = CredentialView;

    open spec fn deep_view(&self) -> CredentialView {
        self@
    }
}

/// `now` lies within the refresh margin of `expires_at`, or past it.
pub open spec fn within_margin(expires_at: Timestamp, now: Timestamp) -> bool {
    expires_at.secs - REFRESH_MARGIN_SECS < now.secs || (expires_at.secs - REFRESH_MARGIN_SECS == now.secs
        && expires_at.nanos <= now.nanos)
}

/// A new credential is due at `now`: there is none, or the one held is within
/// the refresh margin of its expiry.
pub open spec fn renewal_due(held: Option<CredentialView>, now: Timestamp) -> bool {
    match held {
        Some(c) => within_margin(c.expires_at, now),
        None => true,
    }
}

/// Whether `now` lies within the refresh margin of `expires_at`, or past it.
pub fn is_within_margin(expires_at: &Timestamp, now: &Timestamp) -> (r: bool)
    ensures
        r == within_margin(*expires_at, *now),
{
    let threshold: i128 = expires_at.secs as i128 - REFRESH_MARGIN_SECS as i128;
    let at: i128 = now.secs as i128;
    threshold < at || (threshold == at && expires_at.nanos <= now.nanos)
}

/// An instant at which credentials can be minted.
pub open spec fn mintable(now: Timestamp) -> bool {
    now.secs <= LATEST_SECS
}

/// Whether credentials can be minted at `now`.
pub fn can_mint(now: &Timestamp) -> (r: bool)
    ensures
        r == mintable(*now),
{
    now.secs <= LATEST_SECS
}

/// The credential that holds `token` from `now` on for `lifetime_secs`
/// seconds.
pub open spec fn minted(token: Seq<char>, now: Timestamp, lifetime_secs: u32) -> CredentialView {
    CredentialView { token, expires_at: now.shifted(lifetime_secs as int) }
}

/// A credential minted at `now` is not due for renewal at `now`, nor at any
/// later instant that leaves more than the margin before its expiry.
pub proof fn lemma_fresh_after_store(token: Seq<char>, now: Timestamp, lifetime_secs: u32, later: Timestamp)
    requires
        mintable(now),
        lifetime_secs > REFRESH_MARGIN_SECS,
        now.not_after(later),
        later.secs + REFRESH_MARGIN_SECS < now.secs + lifetime_secs,
    ensures
        !renewal_due(Some(minted(token, now, lifetime_secs)), now),
        !renewal_due(Some(minted(token, now, lifetime_secs)), later),
{
}

/// A credential is due for renewal from the instant that lies the margin
/// before its expiry, and stays due from then on.
pub proof fn lemma_due_within_margin(held: CredentialView, now: Timestamp, later: Timestamp)
    requires
        now.not_after(later),
    ensures
        held.expires_at.not_after(now) ==> renewal_due(Some(held), now),
        renewal_due(Some(held), now) ==> renewal_due(Some(held), later),
{
}

/// Holds the credential of one store and decides when it is renewed.
#[derive(Debug, PartialEq, Eq)]
pub struct TokenManager {
    held: Option<Credential>,
}

impl View for TokenManager {
    type V = Option<CredentialView>;

    closed spec fn view(&self) -> Option<CredentialView> {
        self.held.deep_view()
    }
}

impl TokenManager {
    /// A manager without a credential.
    pub fn new() -> (m: TokenManager)
        ensures
            m@ is None,
    {
        TokenManager { held: None }
    }

    /// Whether a new credential has to be made before the next use.
    pub fn needs_refresh(&self, now: &Timestamp) -> (r: bool)
        ensures
            r == renewal_due(self@, *now),
    {
        match &self.held {
            Some(c) => is_within_margin(&c.expires_at, now),
            None => true,
        }
    }

    /// Stores `token`, made at `now`, to be held for `lifetime_secs` seconds.
    pub fn store(&mut self, token: String, now: &Timestamp, lifetime_secs: u32)
        requires
            mintable(*now),
        ensures
            final(self)@ == Some(minted(token@, *now, lifetime_secs)),
    {
        let expires_at = now.plus_seconds(lifetime_secs as i64);
        self.held = Some(Credential { token, expires_at });
    }

    /// The token held, whatever its age.
    pub fn token(&self) -> (r: Option<&String>)
        ensures
            r.deep_view() == (match self@ {
                Some(c) => Some(c.token),
                None => None,
            }),
    {
        match &self.held {
            Some(c) => Some(&c.token),
            None => None,
        }
    }

    /// The instant after which the token held is not to be used.
    pub fn expires_at(&self) -> (r: Option<Timestamp>)
        ensures
            r == (match self@ {
                Some(c) => Some(c.expires_at),
                None => None,
            }),
    {
        match &self.held {
            Some(c) => Some(c.expires_at),
            None => None,
        }
    }
}

} // verus!
