//! The authentication state machine.
//!
//! One attempt walks `Start` to `PrimarySent`, then either straight to
//! `Verified`, or through `MfaPending`, `ChallengeReceived` and
//! `AssertionComputed` to `Verified` or `Failed`. Each transition consumes
//! the previous state and one response, and returns the next state together
//! with the one action the caller must perform: send a request, or invoke
//! the hardware key. The caller owns every side effect; the machine only
//! decides. A single factor round trip is modeled per attempt: there is no
//! retry against another factor and no second prompt of the hardware key.
use vstd::prelude::*;
use vstd::string::StringExecFns;
use crate::codec::{b64_url_chars, decode_url_safe, url_decode_accepts};
use crate::errors::AuthnError;
use crate::model::{AuthnOutcome, AuthnResponse, MfaChallenge, VerificationOutcome};
use crate::outcome::{
    classify_primary, classify_primary_spec, classify_verification, classify_verification_spec,
};
use crate::request::{
    appid_view, authn_url, authn_url_spec, challenge_fetch_body, challenge_fetch_body_spec,
    client_data, client_data_spec, primary_authn_body, primary_authn_body_spec, verify_body,
    verify_body_spec,
};
use crate::selector::{law_selector_first_match, select_factor, select_index};

verus! {

/// Where one attempt stands. `Start` is initial; `Verified` and `Failed` are
/// terminal, carrying the session token or the cause.
pub enum AuthnState {
    Start,
    PrimarySent { domain: String },
    MfaPending { domain: String, state_token: String },
    ChallengeReceived { state_token: String, next_href: String, client_data: String },
    AssertionComputed,
    Verified { token: String },
    Failed { error: AuthnError },
}

/// The mathematical image of a state: each carried string as its character
/// sequence.
pub enum StateModel {
    Start,
    PrimarySent { domain: Seq<char> },
    MfaPending { domain: Seq<char>, state_token: Seq<char> },
    ChallengeReceived { state_token: Seq<char>, next_href: Seq<char>, client_data: Seq<char> },
    AssertionComputed,
    Verified { token: Seq<char> },
    Failed { error: AuthnError },
}

impl View for AuthnState {
    type V = StateModel;

    open spec fn view(&self) -> StateModel {
        match self {
            AuthnState::Start => StateModel::Start,
            AuthnState::PrimarySent { domain } => StateModel::PrimarySent { domain: domain@ },
            AuthnState::MfaPending { domain, state_token } => StateModel::MfaPending {
                domain: domain@,
                state_token: state_token@,
            },
            AuthnState::ChallengeReceived { state_token, next_href, client_data } => {
                StateModel::ChallengeReceived {
                    state_token: state_token@,
                    next_href: next_href@,
                    client_data: client_data@,
                }
            },
            AuthnState::AssertionComputed => StateModel::AssertionComputed,
            AuthnState::Verified { token } => StateModel::Verified { token: token@ },
            AuthnState::Failed { error } => StateModel::Failed { error: *error },
        }
    }
}

/// What the caller must do next. `Done` means the attempt is terminal.
pub enum Action {
    SendPrimary { url: String, body: String },
    FetchChallenge { url: String, body: String },
    GetAssertion { rp_id: String, client_data: String, credential_id: Vec<u8> },
    VerifyAssertion { url: String, body: String },
    Done,
}

/// The mathematical image of an action.
pub enum ActionModel {
    SendPrimary { url: Seq<char>, body: Seq<char> },
    FetchChallenge { url: Seq<char>, body: Seq<char> },
    GetAssertion { rp_id: Seq<char>, client_data: Seq<char>, credential_id: Seq<u8> },
    VerifyAssertion { url: Seq<char>, body: Seq<char> },
    Done,
}

impl View for Action {
    type V = ActionModel;

    open spec fn view(&self) -> ActionModel {
        match self {
            Action::SendPrimary { url, body } => ActionModel::SendPrimary {
                url: url@,
                body: body@,
            },
            Action::FetchChallenge { url, body } => ActionModel::FetchChallenge {
                url: url@,
                body: body@,
            },
            Action::GetAssertion { rp_id, client_data, credential_id } => {
                ActionModel::GetAssertion {
                    rp_id: rp_id@,
                    client_data: client_data@,
                    credential_id: credential_id@,
                }
            },
            Action::VerifyAssertion { url, body } => ActionModel::VerifyAssertion {
                url: url@,
                body: body@,
            },
            Action::Done => ActionModel::Done,
        }
    }
}

/// Opening an attempt: the primary request is sent to the domain's
/// authentication endpoint with the username, the secret and the fixed
/// options block.
pub open spec fn start_step(domain: Seq<char>, username: Seq<char>, secret: Seq<char>) -> (
    StateModel,
    ActionModel,
) {
    (
        StateModel::PrimarySent { domain },
        ActionModel::SendPrimary {
            url: authn_url_spec(domain),
            body: primary_authn_body_spec(username, secret),
        },
    )
}

/// Opens an attempt against a provider domain. The caller still holds the
/// secret; it is embedded in the request body and need not be retained once
/// the body is sent.
pub fn start_attempt(domain: &str, username: &str, secret: &str) -> (r: (AuthnState, Action))
    ensures
        (r.0@, r.1@) == start_step(domain@, username@, secret@),
{
    let state = AuthnState::PrimarySent { domain: String::from_str(domain) };
    let action = Action::SendPrimary {
        url: authn_url(domain),
        body: primary_authn_body(username, secret),
    };
    (state, action)
}

/// What the primary response decides: a token verifies the attempt outright;
/// an MFA demand selects the first usable factor and fetches its challenge
/// with the response's state token; an unusable factor list, a missing verify
/// link or an unrecognized status fails the attempt with its typed cause.
pub open spec fn primary_step(domain: Seq<char>, resp: AuthnResponse) -> (
    StateModel,
    ActionModel,
) {
    match classify_primary_spec(resp) {
        Err(e) => (StateModel::Failed { error: e }, ActionModel::Done),
        Ok(AuthnOutcome::Authenticated { token }) => (
            StateModel::Verified { token: token@ },
            ActionModel::Done,
        ),
        Ok(AuthnOutcome::Unsupported { status }) => (
            StateModel::Failed { error: AuthnError::UnsupportedAuthnState { status } },
            ActionModel::Done,
        ),
        Ok(AuthnOutcome::MfaRequired { state_token, factors }) => {
            match select_index(factors@) {
                None => (
                    StateModel::Failed { error: AuthnError::NoSuitableFactor },
                    ActionModel::Done,
                ),
                Some(i) => match factors@[i].links.verify {
                    None => (
                        StateModel::Failed { error: AuthnError::ProtocolError },
                        ActionModel::Done,
                    ),
                    Some(l) => (
                        StateModel::MfaPending { domain, state_token: state_token@ },
                        ActionModel::FetchChallenge {
                            url: l.href@,
                            body: challenge_fetch_body_spec(state_token@),
                        },
                    ),
                },
            }
        },
    }
}

/// Consumes the primary response. Transitions exactly as `primary_step`
/// states.
pub fn on_primary_response(state: AuthnState, resp: AuthnResponse) -> (r: (AuthnState, Action))
    requires
        state is PrimarySent,
    ensures
        state@ matches StateModel::PrimarySent { domain } ==> (r.0@, r.1@) == primary_step(
            domain,
            resp,
        ),
{
    match state {
        AuthnState::PrimarySent { domain } => {
            match classify_primary(resp) {
                Err(e) => (AuthnState::Failed { error: e }, Action::Done),
                Ok(AuthnOutcome::Authenticated { token }) => (
                    AuthnState::Verified { token },
                    Action::Done,
                ),
                Ok(AuthnOutcome::Unsupported { status }) => (
                    AuthnState::Failed { error: AuthnError::UnsupportedAuthnState { status } },
                    Action::Done,
                ),
                Ok(AuthnOutcome::MfaRequired { state_token, factors }) => {
                    match select_factor(&factors) {
                        Err(e) => (AuthnState::Failed { error: e }, Action::Done),
                        Ok(i) => {
                            proof {
                                law_selector_first_match(factors@);
                            }
                            match &factors[i].links.verify {
                                None => (
                                    AuthnState::Failed { error: AuthnError::ProtocolError },
                                    Action::Done,
                                ),
                                Some(l) => {
                                    let url = l.href.clone();
                                    let body = challenge_fetch_body(state_token.as_str());
                                    (
                                        AuthnState::MfaPending { domain, state_token },
                                        Action::FetchChallenge { url, body },
                                    )
                                },
                            }
                        },
                    }
                },
            }
        },
        _ => {
            proof {
                assert(false);
            }
            (AuthnState::Start, Action::Done)
        },
    }
}

/// The successful challenge transition, once the credential id has decoded
/// to `credential_id` and the next link is `next_href`: the client data is
/// built around the challenge exactly as received, and the hardware key is
/// invoked against the profile domain.
pub open spec fn challenge_step_ok(
    domain: Seq<char>,
    state_token: Seq<char>,
    chal: MfaChallenge,
    next_href: Seq<char>,
    credential_id: Seq<u8>,
) -> (StateModel, ActionModel) {
    let cd = client_data_spec(
        chal.embedded.factor.embedded.challenge.challenge@,
        appid_view(chal.embedded.factor.embedded.challenge.extensions),
        domain,
    );
    (
        StateModel::ChallengeReceived { state_token, next_href, client_data: cd },
        ActionModel::GetAssertion { rp_id: domain, client_data: cd, credential_id },
    )
}

/// Consumes the challenge response. The state token carried forward is the
/// one of this attempt's MFA-required response, not the copy inside the
/// challenge response. A missing next link is a `ProtocolError`; a credential
/// id that is not canonical url-safe base64 is a `DecodeError`; otherwise the
/// hardware key is invoked as `challenge_step_ok` states.
pub fn on_challenge_response(state: AuthnState, chal: MfaChallenge) -> (r: (AuthnState, Action))
    requires
        state is MfaPending,
    ensures
        chal.links.next is None ==> r.0@ == (StateModel::Failed {
            error: AuthnError::ProtocolError,
        }) && r.1@ is Done,
        state@ matches StateModel::MfaPending { domain, state_token } && chal.links.next matches
            Some(l) ==> {
            &&& (r.0@ is Failed ==> r.0@ == (StateModel::Failed { error: AuthnError::DecodeError })
                && r.1@ is Done && (forall|b: Seq<u8>|
                chal.embedded.factor.profile.credential_id@ != b64_url_chars(b)))
            &&& (!(r.0@ is Failed) ==> exists|cid: Seq<u8>|
                url_decode_accepts(chal.embedded.factor.profile.credential_id@, cid) && (
                r.0@,
                r.1@,
            ) == challenge_step_ok(domain, state_token, chal, l.href@, cid))
            &&& ((exists|b: Seq<u8>| chal.embedded.factor.profile.credential_id@ == b64_url_chars(
                b,
            )) ==> !(r.0@ is Failed))
        },
{
    match state {
        AuthnState::MfaPending { domain, state_token } => {
            let next_href = match &chal.links.next {
                None => {
                    return (AuthnState::Failed { error: AuthnError::ProtocolError }, Action::Done);
                },
                Some(l) => l.href.clone(),
            };
            let credential_id = match decode_url_safe(
                chal.embedded.factor.profile.credential_id.as_str(),
            ) {
                Err(_) => {
                    return (AuthnState::Failed { error: AuthnError::DecodeError }, Action::Done);
                },
                Ok(cid) => cid,
            };
            let cd = client_data(
                chal.embedded.factor.embedded.challenge.challenge.as_str(),
                &chal.embedded.factor.embedded.challenge.extensions,
                domain.as_str(),
            );
            let rp_id = domain;
            proof {
                assert(url_decode_accepts(
                    chal.embedded.factor.profile.credential_id@,
                    credential_id@,
                ));
            }
            (
                AuthnState::ChallengeReceived {
                    state_token,
                    next_href,
                    client_data: cd.clone(),
                },
                Action::GetAssertion { rp_id, client_data: cd, credential_id },
            )
        },
        _ => {
            proof {
                assert(false);
            }
            (AuthnState::Start, Action::Done)
        },
    }
}

/// The assertion transition: the signed material is sent to the next link,
/// standard-base64 encoded, under the attempt's state token.
pub open spec fn assertion_step(
    state_token: Seq<char>,
    next_href: Seq<char>,
    client_data: Seq<char>,
    auth_data: Seq<u8>,
    signature: Seq<u8>,
) -> (StateModel, ActionModel) {
    (
        StateModel::AssertionComputed,
        ActionModel::VerifyAssertion {
            url: next_href,
            body: verify_body_spec(state_token, auth_data, client_data, signature),
        },
    )
}

/// Consumes the hardware key's assertion. Transitions exactly as
/// `assertion_step` states.
pub fn on_assertion(state: AuthnState, auth_data: Vec<u8>, signature: Vec<u8>) -> (r: (
    AuthnState,
    Action,
))
    requires
        state is ChallengeReceived,
    ensures
        state@ matches StateModel::ChallengeReceived { state_token, next_href, client_data } ==> (
        r.0@,
        r.1@,
        ) == assertion_step(state_token, next_href, client_data, auth_data@, signature@),
{
    match state {
        AuthnState::ChallengeReceived { state_token, next_href, client_data } => {
            let body = verify_body(state_token.as_str(), &auth_data, client_data.as_str(), &signature);
            (AuthnState::AssertionComputed, Action::VerifyAssertion { url: next_href, body })
        },
        _ => {
            proof {
                assert(false);
            }
            (AuthnState::Start, Action::Done)
        },
    }
}

/// The final transition: the verification response's status decides the
/// terminal state.
pub open spec fn verify_step(resp: VerificationOutcome) -> (StateModel, ActionModel) {
    match classify_verification_spec(resp) {
        Ok(t) => (StateModel::Verified { token: t@ }, ActionModel::Done),
        Err(e) => (StateModel::Failed { error: e }, ActionModel::Done),
    }
}

/// Consumes the verification response. Transitions exactly as `verify_step`
/// states.
pub fn on_verify_response(state: AuthnState, resp: VerificationOutcome) -> (r: (AuthnState, Action))
    requires
        state is AssertionComputed,
    ensures
        (r.0@, r.1@) == verify_step(resp),
{
    match classify_verification(resp) {
        Ok(t) => (AuthnState::Verified { token: t }, Action::Done),
        Err(e) => (AuthnState::Failed { error: e }, Action::Done),
    }
}

/// A failure the caller observed while performing an action.
#[derive(Debug, Clone, Copy, PartialEq, Eq)]
pub enum AttemptFailure {
    /// The transport failed: unreachable host, timeout, connection error.
    Network,
    /// A response body arrived but could not be parsed into its shape.
    MalformedResponse,
    /// The hardware key failed, was absent, or the user cancelled.
    Device,
    /// The secret store could not produce the credential.
    CredentialStore,
}

/// The typed error each observed failure terminates the attempt with.
pub open spec fn failure_error(f: AttemptFailure) -> AuthnError {
    match f {
        AttemptFailure::Network => AuthnError::NetworkError,
        AttemptFailure::MalformedResponse => AuthnError::ProtocolError,
        AttemptFailure::Device => AuthnError::DeviceError,
        AttemptFailure::CredentialStore => AuthnError::CredentialStoreError,
    }
}

/// Terminates the attempt on a failure the caller observed while performing
/// an action. Every such failure surfaces as its typed error; nothing is
/// retried.
pub fn on_failure(f: AttemptFailure) -> (r: (AuthnState, Action))
    ensures
        r.0@ == (StateModel::Failed { error: failure_error(f) }),
        r.1@ is Done,
{
    let error = match f {
        AttemptFailure::Network => AuthnError::NetworkError,
        AttemptFailure::MalformedResponse => AuthnError::ProtocolError,
        AttemptFailure::Device => AuthnError::DeviceError,
        AttemptFailure::CredentialStore => AuthnError::CredentialStoreError,
    };
    (AuthnState::Failed { error }, Action::Done)
}

/// Reads a terminal state: the session token of a verified attempt, the
/// typed error of a failed one, and nothing for a state still under way.
pub fn outcome(state: AuthnState) -> (r: Option<Result<String, AuthnError>>)
    ensures
        state@ matches StateModel::Verified { token } ==> (r matches Some(Ok(t)) && t@ == token),
        state@ matches StateModel::Failed { error } ==> r == Some(Err::<String, AuthnError>(error)),
        !(state@ is Verified) && !(state@ is Failed) ==> r is None,
{
    match state {
        AuthnState::Verified { token } => Some(Ok(token)),
        AuthnState::Failed { error } => Some(Err(error)),
        _ => None,
    }
}

/// Any response whose status is `AUTHENTICATED` and whose access token is
/// present verifies the attempt with exactly that token.
pub proof fn law_authenticated_token(domain: Seq<char>, resp: AuthnResponse)
    requires
        resp.status@ == "AUTHENTICATED"@,
        resp.access_token is Some,
    ensures
        ({
            let t = match resp.access_token {
                Some(t) => t@,
                None => Seq::<char>::empty(),
            };
            primary_step(domain, resp) == (StateModel::Verified { token: t }, ActionModel::Done)
        }),
{
}

/// The state token observed in the MFA-required response is the exact value
/// embedded in the challenge-fetch body and, carried through the challenge
/// and assertion transitions of the same attempt, in the verification body.
pub proof fn law_state_token_forwarded(
    domain: Seq<char>,
    resp: AuthnResponse,
    chal: MfaChallenge,
    next_href: Seq<char>,
    credential_id: Seq<u8>,
    auth_data: Seq<u8>,
    signature: Seq<u8>,
)
    requires
        resp.status@ == "MFA_REQUIRED"@,
        resp.state_token is Some,
        select_index(resp.embedded.factors@) matches Some(i) && resp.embedded.factors@[i].links.verify is Some,
    ensures
        ({
            let st = match resp.state_token {
                Some(s) => s@,
                None => Seq::<char>::empty(),
            };
            let first = primary_step(domain, resp);
            let second = challenge_step_ok(domain, st, chal, next_href, credential_id);
            let cd = client_data_spec(
                chal.embedded.factor.embedded.challenge.challenge@,
                appid_view(chal.embedded.factor.embedded.challenge.extensions),
                domain,
            );
            &&& first.0 == (StateModel::MfaPending { domain, state_token: st })
            &&& (first.1 matches ActionModel::FetchChallenge { url, body } && body
                == challenge_fetch_body_spec(st))
            &&& second.0 == (StateModel::ChallengeReceived {
                state_token: st,
                next_href,
                client_data: cd,
            })
            &&& assertion_step(st, next_href, cd, auth_data, signature).1
                == (ActionModel::VerifyAssertion {
                url: next_href,
                body: verify_body_spec(st, auth_data, cd, signature),
            })
        }),
{
    law_selector_first_match(resp.embedded.factors@);
    reveal_strlit("AUTHENTICATED");
    reveal_strlit("MFA_REQUIRED");
    assert("AUTHENTICATED"@.len() == 13);
    assert("MFA_REQUIRED"@.len() == 12);
}

/// A state token without quote, backslash or control characters stands
/// character for character between the quotes of the challenge-fetch body.
pub proof fn law_plain_state_token_verbatim(st: Seq<char>)
    requires
        forall|i: int| 0 <= i < st.len() ==> st[i] != '"' && st[i] != '\\' && (st[i] as u32) >= 32,
    ensures
        challenge_fetch_body_spec(st) == "{\"stateToken\":\""@ + st + "\"}"@,
{
    crate::json::lemma_json_escape_plain(st);
    reveal_strlit("{\"stateToken\":");
    reveal_strlit("{\"stateToken\":\"");
    reveal_strlit("\"}");
    reveal_strlit("}");
    assert(challenge_fetch_body_spec(st) =~= "{\"stateToken\":\""@ + st + "\"}"@);
}

} // verus!
