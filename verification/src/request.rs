//! The exact request bodies of the three wire round trips, and the endpoint
//! of the primary one.
//!
//! Each body is a fixed JSON object frame around the escaped field values;
//! the assertion fields travel standard-base64 encoded while the challenge
//! material they answer arrived url-safe, and the spec functions here pin
//! each body down to the character.
use vstd::prelude::*;
use vstd::string::StrSliceExecFns;
use vstd::string::StringExecFns;
use vstd::utf8::encode_utf8;
use crate::codec::{b64_std_of, encode_standard};
use crate::json::{append_json_str, json_str};
use crate::model::Extensions;

verus! {

/// The primary authentication endpoint under a provider domain.
pub open spec fn authn_url_spec(domain: Seq<char>) -> Seq<char> {
    "https://"@ + domain + "/api/v1/authn"@
}

/// Builds the primary authentication endpoint for a domain.
pub fn authn_url(domain: &str) -> (r: String)
    ensures
        r@ == authn_url_spec(domain@),
{
    let mut url = String::from_str("https://");
    url.append(domain);
    url.append("/api/v1/authn");
    proof {
        assert(url@ =~= authn_url_spec(domain@));
    }
    url
}

/// The primary authentication body: the username, the secret, and a fixed
/// options block that disables enrollment prompts and expiry warnings.
pub open spec fn primary_authn_body_spec(username: Seq<char>, secret: Seq<char>) -> Seq<char> {
    "{\"username\":"@ + json_str(username) + ",\"password\":"@ + json_str(secret)
        + ",\"options\":{\"multiOptionalFactorEnroll\":false,\"warnBeforePasswordExpired\":false}}"@
}

/// Builds the primary authentication body.
pub fn primary_authn_body(username: &str, secret: &str) -> (r: String)
    ensures
        r@ == primary_authn_body_spec(username@, secret@),
{
    let mut body = String::from_str("{\"username\":");
    append_json_str(&mut body, username);
    body.append(",\"password\":");
    append_json_str(&mut body, secret);
    body.append(
        ",\"options\":{\"multiOptionalFactorEnroll\":false,\"warnBeforePasswordExpired\":false}}",
    );
    proof {
        assert(body@ =~= primary_authn_body_spec(username@, secret@));
    }
    body
}

/// The challenge-fetch body: the state token alone.
pub open spec fn challenge_fetch_body_spec(state_token: Seq<char>) -> Seq<char> {
    "{\"stateToken\":"@ + json_str(state_token) + "}"@
}

/// Builds the challenge-fetch body around a state token.
pub fn challenge_fetch_body(state_token: &str) -> (r: String)
    ensures
        r@ == challenge_fetch_body_spec(state_token@),
{
    let mut body = String::from_str("{\"stateToken\":");
    append_json_str(&mut body, state_token);
    body.append("}");
    proof {
        assert(body@ =~= challenge_fetch_body_spec(state_token@));
    }
    body
}

/// The client extensions object: the alternate application id when the
/// provider sent one, a null field otherwise.
pub open spec fn client_extensions_spec(appid: Option<Seq<char>>) -> Seq<char> {
    match appid {
        Some(a) => "{\"appid\":"@ + json_str(a) + "}"@,
        None => "{\"appid\":null}"@,
    }
}

/// The client data the hardware key signs: the signature kind, the challenge
/// exactly as the provider sent it, the extensions, the hash algorithm and
/// the requesting origin.
pub open spec fn client_data_spec(
    challenge: Seq<char>,
    appid: Option<Seq<char>>,
    domain: Seq<char>,
) -> Seq<char> {
    "{\"type\":\"webauthn.get\",\"challenge\":"@ + json_str(challenge)
        + ",\"clientExtensions\":"@ + client_extensions_spec(appid)
        + ",\"hashAlgorithm\":\"SHA-256\",\"origin\":"@ + json_str("https://"@ + domain) + "}"@
}

/// The view of an optional extension field.
pub open spec fn appid_view(e: Extensions) -> Option<Seq<char>> {
    match e.appid {
        Some(a) => Some(a@),
        None => None,
    }
}

/// Builds the client data for the hardware assertion. The challenge field
/// carries, character for character, the challenge string the provider sent.
pub fn client_data(challenge: &str, extensions: &Extensions, domain: &str) -> (r: String)
    ensures
        r@ == client_data_spec(challenge@, appid_view(*extensions), domain@),
{
    let mut body = String::from_str("{\"type\":\"webauthn.get\",\"challenge\":");
    append_json_str(&mut body, challenge);
    body.append(",\"clientExtensions\":");
    match &extensions.appid {
        Some(a) => {
            body.append("{\"appid\":");
            append_json_str(&mut body, a.as_str());
            body.append("}");
        },
        None => {
            body.append("{\"appid\":null}");
        },
    }
    body.append(",\"hashAlgorithm\":\"SHA-256\",\"origin\":");
    let mut origin = String::from_str("https://");
    origin.append(domain);
    append_json_str(&mut body, origin.as_str());
    body.append("}");
    proof {
        assert(body@ =~= client_data_spec(challenge@, appid_view(*extensions), domain@));
    }
    body
}

/// The verification body: the state token and the three assertion fields,
/// each standard-base64 encoded - the authenticator data, the exact client
/// data bytes that were signed, and the signature.
pub open spec fn verify_body_spec(
    state_token: Seq<char>,
    auth_data: Seq<u8>,
    client_data: Seq<char>,
    signature: Seq<u8>,
) -> Seq<char> {
    "{\"stateToken\":"@ + json_str(state_token) + ",\"authenticatorData\":"@ + json_str(
        b64_std_of(auth_data),
    ) + ",\"clientData\":"@ + json_str(b64_std_of(encode_utf8(client_data)))
        + ",\"signatureData\":"@ + json_str(b64_std_of(signature)) + "}"@
}

/// Builds the verification body around a state token, the authenticator data,
/// the client data string that was signed, and the signature.
pub fn verify_body(
    state_token: &str,
    auth_data: &Vec<u8>,
    client_data: &str,
    signature: &Vec<u8>,
) -> (r: String)
    ensures
        r@ == verify_body_spec(state_token@, auth_data@, client_data@, signature@),
{
    let ad = encode_standard(auth_data);
    let cd_bytes = client_data.as_bytes_vec();
    let cd = encode_standard(&cd_bytes);
    let sg = encode_standard(signature);
    let mut body = String::from_str("{\"stateToken\":");
    append_json_str(&mut body, state_token);
    body.append(",\"authenticatorData\":");
    append_json_str(&mut body, ad.as_str());
    body.append(",\"clientData\":");
    append_json_str(&mut body, cd.as_str());
    body.append(",\"signatureData\":");
    append_json_str(&mut body, sg.as_str());
    body.append("}");
    proof {
        assert(body@ =~= verify_body_spec(state_token@, auth_data@, client_data@, signature@));
    }
    body
}

} // verus!
