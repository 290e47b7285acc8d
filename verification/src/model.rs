//! Typed shapes of the three provider responses, and the outcome unions the
//! protocol core produces from them.
//!
//! The caller parses each response body off the wire and hands it over as one
//! of these plain records; every field the protocol logic reads is a plain
//! value. Fields that the provider sends as free-form JSON (an alternate
//! application id, a version tag) are carried as their text.
use vstd::prelude::*;

verus! {

/// The authenticated user as the provider reports it.
#[derive(Debug, Clone, PartialEq, Eq, Default)]
pub struct Profile {
    pub login: String,
    pub first_name: String,
    pub last_name: String,
    pub locale: String,
    pub time_zone: String,
}

#[derive(Debug, Clone, PartialEq, Eq, Default)]
pub struct User {
    pub id: String,
    pub password_changed: String,
    pub profile: Profile,
}

/// A link offered under a response's link table.
#[derive(Debug, Clone, PartialEq, Eq, Default)]
pub struct Hints {
    pub allow: Vec<String>,
}

#[derive(Debug, Clone, PartialEq, Eq, Default)]
pub struct LinkHint {
    pub name: Option<String>,
    pub href: String,
    pub hints: Hints,
}

#[derive(Debug, Clone, PartialEq, Eq, Default)]
pub struct Links {
    pub next: Option<LinkHint>,
    pub verify: Option<LinkHint>,
}

/// A factor kind the provider would let the user enroll.
#[derive(Debug, Clone, PartialEq, Eq, Default)]
pub struct FactorType {
    pub factor_type: String,
    pub links: Links,
}

/// A public key the provider attaches to an enrolled factor.
#[derive(Debug, Clone, PartialEq, Eq, Default)]
pub struct Key {
    pub kty: String,
    pub use_field: String,
    pub kid: String,
    pub e: String,
    pub n: String,
}

/// Enrollment details of one offered factor.
#[derive(Debug, Clone, PartialEq, Eq, Default)]
pub struct FactorProfile {
    pub credential_id: Option<String>,
    pub device_type: Option<String>,
    pub keys: Vec<Key>,
    pub name: Option<String>,
    pub platform: Option<String>,
    pub version: Option<String>,
    pub question: Option<String>,
    pub question_text: Option<String>,
    pub app_id: Option<String>,
    pub authenticator_name: Option<String>,
}

/// One second factor offered in the primary authentication response.
#[derive(Debug, Clone, PartialEq, Eq, Default)]
pub struct Factor {
    pub id: String,
    pub factor_type: String,
    pub provider: String,
    pub vendor_name: String,
    pub profile: FactorProfile,
    pub links: Links,
}

#[derive(Debug, Clone, PartialEq, Eq, Default)]
pub struct AuthNEmbedded {
    pub user: User,
    pub factor_types: Vec<FactorType>,
    pub factors: Vec<Factor>,
}

/// The parsed primary authentication response.
#[derive(Debug, Clone, PartialEq, Eq, Default)]
pub struct AuthnResponse {
    pub access_token: Option<String>,
    pub state_token: Option<String>,
    pub expires_at: String,
    pub status: String,
    pub embedded: AuthNEmbedded,
}

/// The challenge material inside the challenge-fetch response.
#[derive(Debug, Clone, PartialEq, Eq, Default)]
pub struct Extensions {
    pub appid: Option<String>,
}

#[derive(Debug, Clone, PartialEq, Eq, Default)]
pub struct Challenge {
    pub challenge: String,
    pub user_verification: String,
    pub extensions: Extensions,
}

#[derive(Debug, Clone, PartialEq, Eq, Default)]
pub struct EmbeddedChallenge {
    pub challenge: Challenge,
}

/// Enrollment details of the factor being challenged.
#[derive(Debug, Clone, PartialEq, Eq, Default)]
pub struct FidoProfile {
    pub credential_id: String,
    pub app_id: Option<String>,
    pub version: String,
    pub authenticator_name: String,
}

#[derive(Debug, Clone, PartialEq, Eq, Default)]
pub struct FactorChallenge {
    pub id: String,
    pub factor_type: String,
    pub provider: String,
    pub vendor_name: String,
    pub profile: FidoProfile,
    pub embedded: EmbeddedChallenge,
}

#[derive(Debug, Clone, PartialEq, Eq, Default)]
pub struct EmbeddedProfile {
    pub user: User,
    pub factor: FactorChallenge,
}

/// The parsed challenge-fetch response.
#[derive(Debug, Clone, PartialEq, Eq, Default)]
pub struct MfaChallenge {
    pub state_token: String,
    pub expires_at: String,
    pub status: String,
    pub factor_result: String,
    pub challenge_type: String,
    pub embedded: EmbeddedProfile,
    pub links: Links,
}

/// The parsed verification response: the final status and, on success, the
/// session token.
#[derive(Debug, Clone, PartialEq, Eq, Default)]
pub struct VerificationOutcome {
    pub status: String,
    pub session_token: Option<String>,
}

/// What one primary authentication round trip decided.
#[derive(Debug, Clone, PartialEq, Eq)]
pub enum AuthnOutcome {
    /// The provider authenticated the user outright and returned the token.
    Authenticated { token: String },
    /// The provider demands a second factor; the state token correlates the
    /// follow-up round trips, and the factors are offered in provider order.
    MfaRequired { state_token: String, factors: Vec<Factor> },
    /// A status value the protocol core does not recognize.
    Unsupported { status: String },
}

} // verus!
