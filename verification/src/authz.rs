//! The authorization gate.
//!
//! Every privileged operation needs a verdict from an external
//! authorization authority. The round-trip to the authority is an I/O
//! edge and happens outside this crate; this module receives the
//! authority's reply as a plain value and turns it, together with the
//! caller's consent to interactive prompts, into a pass-or-fail result.
//! The reply is consulted fresh on every call and never cached, and no
//! state survives between calls.

use vstd::prelude::*;

verus! {

/// The outcome of one round-trip to the authorization authority.
///
/// `Unreachable` stands for any transport-level failure (the authority
/// could not be contacted, or its response could not be understood); it
/// is kept distinct so that it is never mistaken for a denial.
#[derive(Clone, Copy, Debug, PartialEq, Eq, Structural)]
pub enum AuthorityReply {
    Verdict { authorized: bool, challenge: bool },
    Unreachable,
}

/// Why an operation was refused authorization.
#[derive(Clone, Copy, Debug, PartialEq, Eq, Structural)]
pub enum AuthzError {
    /// The caller lacks permission and no interactive path would help.
    Denied,
    /// Authorization could succeed if the caller retried with consent
    /// to an interactive prompt.
    ChallengeRequired,
    /// The authority could not be reached or its reply not understood.
    AuthorityUnavailable,
}

/// The authorization decision table. A caller that did not opt into
/// interactive prompts is never told to retry interactively: the
/// challenge path is offered only when the caller set `interactive`
/// and the authority confirms a challenge exists.
pub open spec fn gate_spec(reply: AuthorityReply, interactive: bool) -> Result<(), AuthzError> {
    match reply {
        AuthorityReply::Unreachable => Err(AuthzError::AuthorityUnavailable),
        AuthorityReply::Verdict { authorized, challenge } => {
            if authorized {
                Ok(())
            } else if challenge && interactive {
                Err(AuthzError::ChallengeRequired)
            } else {
                Err(AuthzError::Denied)
            }
        },
    }
}

pub fn gate(reply: &AuthorityReply, interactive: bool) -> (r: Result<(), AuthzError>)
    ensures
        r == gate_spec(*reply, interactive),
        reply matches AuthorityReply::Verdict { authorized: true, .. } ==> r is Ok,
        (reply matches AuthorityReply::Verdict { authorized: false, challenge: true }
            && interactive) ==> r == Result::<(), AuthzError>::Err(AuthzError::ChallengeRequired),
        (reply matches AuthorityReply::Verdict { authorized: false, challenge: true }
            && !interactive) ==> r == Result::<(), AuthzError>::Err(AuthzError::Denied),
        reply matches AuthorityReply::Verdict { authorized: false, challenge: false } ==> r
            == Result::<(), AuthzError>::Err(AuthzError::Denied),
        reply is Unreachable ==> r == Result::<(), AuthzError>::Err(
            AuthzError::AuthorityUnavailable,
        ),
{
    match reply {
        AuthorityReply::Unreachable => Err(AuthzError::AuthorityUnavailable),
        AuthorityReply::Verdict { authorized, challenge } => {
            if *authorized {
                Ok(())
            } else if *challenge && interactive {
                Err(AuthzError::ChallengeRequired)
            } else {
                Err(AuthzError::Denied)
            }
        },
    }
}

} // verus!
