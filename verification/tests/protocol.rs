//! The protocol scenarios: primary classification, factor selection, and the
//! full state-machine walk of one attempt.
use okta_authn::errors::AuthnError;
use okta_authn::machine::{
    on_assertion, on_challenge_response, on_failure, on_primary_response, on_verify_response,
    start_attempt, Action, AttemptFailure, AuthnState,
};
use okta_authn::model::{
    AuthNEmbedded, AuthnResponse, Challenge, EmbeddedChallenge, EmbeddedProfile, Extensions,
    Factor, FactorChallenge, FidoProfile, Hints, LinkHint, Links, MfaChallenge,
    VerificationOutcome,
};
use okta_authn::machine::outcome;
use okta_authn::selector::select_factor;

fn fido_factor(id: &str, verify_href: &str) -> Factor {
    Factor {
        id: id.to_string(),
        factor_type: "webauthn".to_string(),
        provider: "FIDO".to_string(),
        vendor_name: "FIDO".to_string(),
        profile: Default::default(),
        links: Links {
            next: None,
            verify: Some(LinkHint {
                name: None,
                href: verify_href.to_string(),
                hints: Hints::default(),
            }),
        },
    }
}

fn other_factor(id: &str) -> Factor {
    Factor {
        id: id.to_string(),
        factor_type: "token:software:totp".to_string(),
        provider: "GOOGLE".to_string(),
        vendor_name: "GOOGLE".to_string(),
        profile: Default::default(),
        links: Links::default(),
    }
}

fn primary_sent(domain: &str) -> AuthnState {
    AuthnState::PrimarySent { domain: domain.to_string() }
}

#[test]
fn start_attempt_builds_endpoint_and_body() {
    let (state, action) = start_attempt("example.okta.com", "bob", "hunter2");
    assert!(matches!(state, AuthnState::PrimarySent { .. }));
    match action {
        Action::SendPrimary { url, body } => {
            assert_eq!(url, "https://example.okta.com/api/v1/authn");
            assert_eq!(
                body,
                "{\"username\":\"bob\",\"password\":\"hunter2\",\"options\":\
                 {\"multiOptionalFactorEnroll\":false,\"warnBeforePasswordExpired\":false}}"
            );
        }
        _ => panic!("expected the primary request"),
    }
}

#[test]
fn primary_body_escapes_the_secret() {
    let (_, action) = start_attempt("d", "bo\"b", "p\\w\n");
    match action {
        Action::SendPrimary { body, .. } => {
            assert_eq!(
                body,
                "{\"username\":\"bo\\\"b\",\"password\":\"p\\\\w\\u000a\",\"options\":\
                 {\"multiOptionalFactorEnroll\":false,\"warnBeforePasswordExpired\":false}}"
            );
        }
        _ => panic!("expected the primary request"),
    }
}

#[test]
fn authenticated_returns_token_unchanged() {
    let resp = AuthnResponse {
        access_token: Some("tok123".to_string()),
        status: "AUTHENTICATED".to_string(),
        ..Default::default()
    };
    let (state, action) = on_primary_response(primary_sent("example.okta.com"), resp);
    match state {
        AuthnState::Verified { token } => assert_eq!(token, "tok123"),
        _ => panic!("expected the verified state"),
    }
    assert!(matches!(action, Action::Done));
}

#[test]
fn authenticated_without_token_is_protocol_error() {
    let resp = AuthnResponse { status: "AUTHENTICATED".to_string(), ..Default::default() };
    let (state, _) = on_primary_response(primary_sent("d"), resp);
    assert!(matches!(state, AuthnState::Failed { error: AuthnError::ProtocolError }));
}

#[test]
fn unknown_status_is_unsupported_not_a_crash() {
    let resp = AuthnResponse { status: "LOCKED_OUT".to_string(), ..Default::default() };
    let (state, action) = on_primary_response(primary_sent("d"), resp);
    match state {
        AuthnState::Failed { error: AuthnError::UnsupportedAuthnState { status } } => {
            assert_eq!(status, "LOCKED_OUT");
        }
        _ => panic!("expected the unsupported-status failure"),
    }
    assert!(matches!(action, Action::Done));
}

#[test]
fn mfa_with_empty_factor_list_is_no_suitable_factor() {
    let resp = AuthnResponse {
        state_token: Some("st1".to_string()),
        status: "MFA_REQUIRED".to_string(),
        ..Default::default()
    };
    let (state, _) = on_primary_response(primary_sent("d"), resp);
    assert!(matches!(state, AuthnState::Failed { error: AuthnError::NoSuitableFactor }));
}

#[test]
fn mfa_with_only_unusable_factors_is_no_suitable_factor() {
    let resp = AuthnResponse {
        state_token: Some("st1".to_string()),
        status: "MFA_REQUIRED".to_string(),
        embedded: AuthNEmbedded {
            factors: vec![other_factor("f0"), other_factor("f9")],
            ..Default::default()
        },
        ..Default::default()
    };
    let (state, _) = on_primary_response(primary_sent("d"), resp);
    assert!(matches!(state, AuthnState::Failed { error: AuthnError::NoSuitableFactor }));
}

#[test]
fn selector_returns_first_fido_factor() {
    let factors = vec![other_factor("f0"), fido_factor("f1", "https://x/verify"), fido_factor("f2", "https://y/verify")];
    assert_eq!(select_factor(&factors), Ok(1));
}

#[test]
fn selector_rejects_empty_and_non_matching_lists() {
    assert_eq!(select_factor(&Vec::new()), Err(AuthnError::NoSuitableFactor));
    let factors = vec![other_factor("f0")];
    assert_eq!(select_factor(&factors), Err(AuthnError::NoSuitableFactor));
}

#[test]
fn mfa_selects_factor_and_forwards_state_token() {
    let resp = AuthnResponse {
        state_token: Some("st1".to_string()),
        status: "MFA_REQUIRED".to_string(),
        embedded: AuthNEmbedded {
            factors: vec![fido_factor("f1", "https://x/verify")],
            ..Default::default()
        },
        ..Default::default()
    };
    let (state, action) = on_primary_response(primary_sent("example.okta.com"), resp);
    match &state {
        AuthnState::MfaPending { domain, state_token } => {
            assert_eq!(domain, "example.okta.com");
            assert_eq!(state_token, "st1");
        }
        _ => panic!("expected the MFA-pending state"),
    }
    match action {
        Action::FetchChallenge { url, body } => {
            assert_eq!(url, "https://x/verify");
            assert_eq!(body, "{\"stateToken\":\"st1\"}");
        }
        _ => panic!("expected the challenge fetch"),
    }
}

#[test]
fn mfa_factor_without_verify_link_is_protocol_error() {
    let mut factor = fido_factor("f1", "unused");
    factor.links.verify = None;
    let resp = AuthnResponse {
        state_token: Some("st1".to_string()),
        status: "MFA_REQUIRED".to_string(),
        embedded: AuthNEmbedded { factors: vec![factor], ..Default::default() },
        ..Default::default()
    };
    let (state, _) = on_primary_response(primary_sent("d"), resp);
    assert!(matches!(state, AuthnState::Failed { error: AuthnError::ProtocolError }));
}

fn challenge_response(credential_id: &str, challenge: &str, appid: Option<&str>) -> MfaChallenge {
    MfaChallenge {
        state_token: "a-different-token".to_string(),
        embedded: EmbeddedProfile {
            factor: FactorChallenge {
                profile: FidoProfile {
                    credential_id: credential_id.to_string(),
                    ..Default::default()
                },
                embedded: EmbeddedChallenge {
                    challenge: Challenge {
                        challenge: challenge.to_string(),
                        user_verification: "discouraged".to_string(),
                        extensions: Extensions { appid: appid.map(|s| s.to_string()) },
                    },
                },
                ..Default::default()
            },
            ..Default::default()
        },
        links: Links {
            next: Some(LinkHint {
                name: None,
                href: "https://x/next".to_string(),
                hints: Hints::default(),
            }),
            verify: None,
        },
        ..Default::default()
    }
}

fn mfa_pending(domain: &str, state_token: &str) -> AuthnState {
    AuthnState::MfaPending {
        domain: domain.to_string(),
        state_token: state_token.to_string(),
    }
}

#[test]
fn challenge_invokes_hardware_key_with_exact_client_data() {
    let chal = challenge_response("aGk", "chx", None);
    let (state, action) = on_challenge_response(mfa_pending("example.okta.com", "st1"), chal);
    let expected_client_data = "{\"type\":\"webauthn.get\",\"challenge\":\"chx\",\
         \"clientExtensions\":{\"appid\":null},\"hashAlgorithm\":\"SHA-256\",\
         \"origin\":\"https://example.okta.com\"}";
    match &state {
        AuthnState::ChallengeReceived { state_token, next_href, client_data } => {
            assert_eq!(state_token, "st1");
            assert_eq!(next_href, "https://x/next");
            assert_eq!(client_data, expected_client_data);
        }
        _ => panic!("expected the challenge-received state"),
    }
    match action {
        Action::GetAssertion { rp_id, client_data, credential_id } => {
            assert_eq!(rp_id, "example.okta.com");
            assert_eq!(client_data, expected_client_data);
            assert_eq!(credential_id, b"hi".to_vec());
        }
        _ => panic!("expected the assertion request"),
    }
}

#[test]
fn challenge_keeps_the_attempt_state_token_not_the_challenge_copy() {
    let chal = challenge_response("aGk", "chx", None);
    assert_eq!(chal.state_token, "a-different-token");
    let (state, _) = on_challenge_response(mfa_pending("d", "st1"), chal);
    match state {
        AuthnState::ChallengeReceived { state_token, .. } => assert_eq!(state_token, "st1"),
        _ => panic!("expected the challenge-received state"),
    }
}

#[test]
fn challenge_carries_alternate_application_id() {
    let chal = challenge_response("aGk", "chx", Some("https://alt/app"));
    let (_, action) = on_challenge_response(mfa_pending("d", "st1"), chal);
    match action {
        Action::GetAssertion { client_data, .. } => {
            assert_eq!(
                client_data,
                "{\"type\":\"webauthn.get\",\"challenge\":\"chx\",\
                 \"clientExtensions\":{\"appid\":\"https://alt/app\"},\
                 \"hashAlgorithm\":\"SHA-256\",\"origin\":\"https://d\"}"
            );
        }
        _ => panic!("expected the assertion request"),
    }
}

#[test]
fn bad_credential_id_is_decode_error() {
    let chal = challenge_response("a!", "chx", None);
    let (state, action) = on_challenge_response(mfa_pending("d", "st1"), chal);
    assert!(matches!(state, AuthnState::Failed { error: AuthnError::DecodeError }));
    assert!(matches!(action, Action::Done));
}

#[test]
fn missing_next_link_is_protocol_error() {
    let mut chal = challenge_response("aGk", "chx", None);
    chal.links.next = None;
    let (state, _) = on_challenge_response(mfa_pending("d", "st1"), chal);
    assert!(matches!(state, AuthnState::Failed { error: AuthnError::ProtocolError }));
}

#[test]
fn assertion_is_sent_standard_encoded_under_the_state_token() {
    let state = AuthnState::ChallengeReceived {
        state_token: "st1".to_string(),
        next_href: "https://x/next".to_string(),
        client_data: "cd".to_string(),
    };
    let (state, action) = on_assertion(state, b"AD".to_vec(), b"SIG".to_vec());
    assert!(matches!(state, AuthnState::AssertionComputed));
    match action {
        Action::VerifyAssertion { url, body } => {
            assert_eq!(url, "https://x/next");
            assert_eq!(
                body,
                "{\"stateToken\":\"st1\",\"authenticatorData\":\"QUQ=\",\
                 \"clientData\":\"Y2Q=\",\"signatureData\":\"U0lH\"}"
            );
        }
        _ => panic!("expected the verification request"),
    }
}

#[test]
fn verification_success_yields_session_token() {
    let resp = VerificationOutcome {
        status: "SUCCESS".to_string(),
        session_token: Some("sess7".to_string()),
    };
    let (state, action) = on_verify_response(AuthnState::AssertionComputed, resp);
    match state {
        AuthnState::Verified { token } => assert_eq!(token, "sess7"),
        _ => panic!("expected the verified state"),
    }
    assert!(matches!(action, Action::Done));
}

#[test]
fn verification_success_without_token_is_protocol_error() {
    let resp = VerificationOutcome { status: "SUCCESS".to_string(), session_token: None };
    let (state, _) = on_verify_response(AuthnState::AssertionComputed, resp);
    assert!(matches!(state, AuthnState::Failed { error: AuthnError::ProtocolError }));
}

#[test]
fn verification_other_status_is_unsupported() {
    let resp = VerificationOutcome { status: "WAITING".to_string(), session_token: None };
    let (state, _) = on_verify_response(AuthnState::AssertionComputed, resp);
    match state {
        AuthnState::Failed { error: AuthnError::UnsupportedAuthnState { status } } => {
            assert_eq!(status, "WAITING");
        }
        _ => panic!("expected the unsupported-status failure"),
    }
}

#[test]
fn observed_failures_terminate_with_their_typed_error() {
    let (state, _) = on_failure(AttemptFailure::Network);
    assert!(matches!(state, AuthnState::Failed { error: AuthnError::NetworkError }));
    let (state, _) = on_failure(AttemptFailure::MalformedResponse);
    assert!(matches!(state, AuthnState::Failed { error: AuthnError::ProtocolError }));
    let (state, _) = on_failure(AttemptFailure::Device);
    assert!(matches!(state, AuthnState::Failed { error: AuthnError::DeviceError }));
    let (state, _) = on_failure(AttemptFailure::CredentialStore);
    assert!(matches!(state, AuthnState::Failed { error: AuthnError::CredentialStoreError }));
}

#[test]
fn error_labels_name_each_cause() {
    assert_eq!(AuthnError::NetworkError.label(), "network error");
    assert_eq!(AuthnError::NoSuitableFactor.label(), "no suitable factor");
    assert_eq!(AuthnError::DecodeError.label(), "invalid base64 material");
    assert_eq!(
        AuthnError::UnsupportedAuthnState { status: "X".to_string() }.label(),
        "unsupported authentication status"
    );
}

#[test]
fn outcome_reads_terminal_states_only() {
    assert_eq!(
        outcome(AuthnState::Verified { token: "t".to_string() }),
        Some(Ok("t".to_string()))
    );
    assert_eq!(
        outcome(AuthnState::Failed { error: AuthnError::NetworkError }),
        Some(Err(AuthnError::NetworkError))
    );
    assert_eq!(outcome(AuthnState::Start), None);
    assert_eq!(outcome(AuthnState::AssertionComputed), None);
}
