//! Classification of provider responses into the outcome unions.
//!
//! A status value other than the known ones is carried as `Unsupported`,
//! never an implicit default; a known status with its required field absent
//! is a `ProtocolError`.
use vstd::prelude::*;
use crate::errors::AuthnError;
use crate::model::{AuthnOutcome, AuthnResponse, VerificationOutcome};
use crate::selector::str_eq;

verus! {

/// What the primary authentication response decides.
pub open spec fn classify_primary_spec(resp: AuthnResponse) -> Result<AuthnOutcome, AuthnError> {
    if resp.status@ == "AUTHENTICATED"@ {
        match resp.access_token {
            Some(t) => Ok(AuthnOutcome::Authenticated { token: t }),
            None => Err(AuthnError::ProtocolError),
        }
    } else if resp.status@ == "MFA_REQUIRED"@ {
        match resp.state_token {
            Some(st) => Ok(
                AuthnOutcome::MfaRequired { state_token: st, factors: resp.embedded.factors },
            ),
            None => Err(AuthnError::ProtocolError),
        }
    } else {
        Ok(AuthnOutcome::Unsupported { status: resp.status })
    }
}

/// Parses the primary authentication response's status into the outcome
/// union. An `AUTHENTICATED` response yields its access token unchanged; an
/// `MFA_REQUIRED` response yields its state token and its factor list in
/// provider order; any other status is reported as `Unsupported`; a known
/// status whose required token field is absent is a `ProtocolError`.
pub fn classify_primary(resp: AuthnResponse) -> (r: Result<AuthnOutcome, AuthnError>)
    ensures
        r == classify_primary_spec(resp),
{
    if str_eq(resp.status.as_str(), "AUTHENTICATED") {
        match resp.access_token {
            Some(t) => Ok(AuthnOutcome::Authenticated { token: t }),
            None => Err(AuthnError::ProtocolError),
        }
    } else if str_eq(resp.status.as_str(), "MFA_REQUIRED") {
        match resp.state_token {
            Some(st) => Ok(
                AuthnOutcome::MfaRequired { state_token: st, factors: resp.embedded.factors },
            ),
            None => Err(AuthnError::ProtocolError),
        }
    } else {
        Ok(AuthnOutcome::Unsupported { status: resp.status })
    }
}

/// What the verification response decides.
pub open spec fn classify_verification_spec(resp: VerificationOutcome) -> Result<
    String,
    AuthnError,
> {
    if resp.status@ == "SUCCESS"@ {
        match resp.session_token {
            Some(t) => Ok(t),
            None => Err(AuthnError::ProtocolError),
        }
    } else {
        Err(AuthnError::UnsupportedAuthnState { status: resp.status })
    }
}

/// Parses the verification response: on the success status the session token
/// is returned unchanged; a success without a token is a `ProtocolError`;
/// any other status is reported as unsupported.
pub fn classify_verification(resp: VerificationOutcome) -> (r: Result<String, AuthnError>)
    ensures
        r == classify_verification_spec(resp),
{
    if str_eq(resp.status.as_str(), "SUCCESS") {
        match resp.session_token {
            Some(t) => Ok(t),
            None => Err(AuthnError::ProtocolError),
        }
    } else {
        Err(AuthnError::UnsupportedAuthnState { status: resp.status })
    }
}

} // verus!
