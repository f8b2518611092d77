//! Inbound auth gate: validates a caller-supplied bearer token against the
//! server-configured secret before any backend work happens.

use vstd::prelude::*;

verus! {

/// What the token check decided for one inbound request.
#[derive(Debug, PartialEq, Eq, Structural)]
pub enum AuthDecision {
    /// The caller presented the configured bearer token.
    Authorized,
    /// The caller presented no token or a wrong one.
    Rejected,
    /// The server has no expected token configured; the check fails closed.
    Misconfigured,
}

/// Compare the caller-supplied bearer token against the configured secret.
///
/// The comparison fails closed: with no configured secret every request is turned
/// away as a server misconfiguration, never let through.
pub fn authorize(expected: &Option<String>, provided: &Option<String>) -> (d: AuthDecision)
    ensures
        expected is None ==> d == AuthDecision::Misconfigured,
        (expected matches Some(e) && provided matches Some(p) && p@ == e@) ==> d
            == AuthDecision::Authorized,
        (expected is Some && (provided is None || (provided matches Some(p) && p@
            != expected->Some_0@))) ==> d == AuthDecision::Rejected,
        d == AuthDecision::Authorized <==> (expected matches Some(e) && provided matches Some(p)
            && p@ == e@),
{
    match expected {
        None => AuthDecision::Misconfigured,
        Some(e) => match provided {
            None => AuthDecision::Rejected,
            Some(p) => {
                if p.eq(e) {
                    AuthDecision::Authorized
                } else {
                    AuthDecision::Rejected
                }
            },
        },
    }
}

} // verus!
