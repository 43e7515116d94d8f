use vstd::prelude::*;
use crate::credential::{CredentialError, ErrorView, ExecCredential};

verus! {

/// A point in time: whole seconds since the Unix epoch and the nanoseconds
/// past that second. During a leap second `nanos` runs past one second, so
/// the instant then reads as part of the following second.
#[derive(Clone, Copy, Debug, PartialEq, Eq)]
pub struct Instant {
    pub secs: i64,
    pub nanos: u32,
}

/// Nanoseconds in a second.
pub const NANOS_PER_SEC: i128 = 1_000_000_000;

/// How long before its real expiry a token stops being handed out, in seconds.
pub const SAFETY_MARGIN_SECS: i128 = 30;

impl Instant {
    /// Nanoseconds since the Unix epoch.
    pub open spec fn total_nanos(self) -> int {
        self.secs * NANOS_PER_SEC + self.nanos
    }
}

/// The instant that chrono reads from RFC 3339 text, as seconds since the
/// Unix epoch and nanoseconds past the second, or none if it does not parse.
pub uninterp spec fn rfc3339_instant(s: Seq<char>) -> Option<(i64, u32)>;

/// Relies on chrono::DateTime::parse_from_rfc3339, then
/// chrono::DateTime::timestamp and chrono::DateTime::timestamp_subsec_nanos.
#[verifier::external_body]
fn parse_rfc3339(s: &str) -> (r: Option<Instant>)
    ensures
        r matches Some(t) ==> rfc3339_instant(s@) == Some((t.secs, t.nanos)),
        r is None ==> rfc3339_instant(s@) is None,
{
    let dt = chrono::DateTime::parse_from_rfc3339(s).ok()?;
    Some(Instant { secs: dt.timestamp(), nanos: dt.timestamp_subsec_nanos() })
}

/// Whether a token that expires at `expiry` may still be handed out at `now`:
/// the safety margin must lie strictly before the expiry.
pub open spec fn still_valid(expiry: Instant, now: Instant) -> bool {
    now.total_nanos() + SAFETY_MARGIN_SECS * NANOS_PER_SEC < expiry.total_nanos()
}

/// The instant that the expiration timestamp of a credential names.
pub open spec fn expiry_of(ts: Seq<char>) -> Option<Instant> {
    match rfc3339_instant(ts) {
        Some((secs, nanos)) => Some(Instant { secs, nanos }),
        None => None,
    }
}

/// Whether a credential whose expiration timestamp reads `ts` may be handed
/// out at `now`, or the error if `ts` does not parse.
pub open spec fn validity(ts: Seq<char>, now: Instant) -> Result<bool, ErrorView> {
    match expiry_of(ts) {
        Some(expiry) => Ok(still_valid(expiry, now)),
        None => Err(ErrorView::MalformedTimestamp(ts)),
    }
}

/// A validity result, seen through the views.
pub open spec fn validity_outcome(r: Result<bool, CredentialError>) -> Result<bool, ErrorView> {
    match r {
        Ok(b) => Ok(b),
        Err(e) => Err(e@),
    }
}

/// Nanoseconds since the Unix epoch, computed without overflow.
fn nanos_since_epoch(t: Instant) -> (r: i128)
    ensures
        r == t.total_nanos(),
{
    proof {
        assert(-9223372036854775808 * 1_000_000_000 <= t.secs * 1_000_000_000
            <= 9223372036854775807 * 1_000_000_000) by (nonlinear_arith)
            requires
                -9223372036854775808 <= t.secs <= 9223372036854775807,
        ;
    }
    t.secs as i128 * NANOS_PER_SEC + t.nanos as i128
}

/// Whether a token that expires at `expiry` may still be handed out at `now`.
pub fn is_valid_at(expiry: Instant, now: Instant) -> (r: bool)
    ensures
        r == still_valid(expiry, now),
{
    nanos_since_epoch(now) + SAFETY_MARGIN_SECS * NANOS_PER_SEC < nanos_since_epoch(expiry)
}

/// Reads the instant that an expiration timestamp names.
pub fn parse_timestamp(ts: &str) -> (r: Result<Instant, CredentialError>)
    ensures
        r matches Ok(t) ==> expiry_of(ts@) == Some(t),
        r matches Err(e) ==> expiry_of(ts@) is None && e@ == ErrorView::MalformedTimestamp(ts@),
{
    match parse_rfc3339(ts) {
        Some(t) => Ok(t),
        None => Err(CredentialError::MalformedTimestamp(ts.to_owned())),
    }
}

/// Whether a cached credential may still be handed out at `now`.
pub fn is_token_valid_at(token: &ExecCredential, now: Instant) -> (r: Result<bool, CredentialError>)
    ensures
        validity_outcome(r) == validity(token@.expiration_timestamp, now),
{
    let expiry = parse_timestamp(token.status.expiration_timestamp.as_str())?;
    Ok(is_valid_at(expiry, now))
}

/// A token that expires exactly at the end of the safety margin counts as
/// expired; one that expires a millisecond later is still valid.
pub proof fn lemma_expiry_boundary(expiry: Instant, now: Instant)
    ensures
        expiry.total_nanos() == now.total_nanos() + SAFETY_MARGIN_SECS * NANOS_PER_SEC
            ==> !still_valid(expiry, now),
        expiry.total_nanos() == now.total_nanos() + SAFETY_MARGIN_SECS * NANOS_PER_SEC
            + 1_000_000 ==> still_valid(expiry, now),
{
}

} // verus!
