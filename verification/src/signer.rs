//! The session-based signing server: checking a signature request and
//! deciding, each time the signer is polled, whether to wait, answer or
//! give up.
use vstd::prelude::*;
use crate::hexcode::hex_bytes_of;
use crate::secp::{is_scalar_hex, is_xonly_hex, scalar_from_hex, xonly_point_from_hex};

verus! {

/// The public nonce and server key handed to a client (x-only).
pub struct NonceResponse {
    pub public_nonce: [u8; 32],
    pub server_pubkey: [u8; 32],
}

/// The scalar that answers a signature request.
pub struct SignatureResponse {
    pub signature: [u8; 32],
}

/// A signature request: the public nonce it was blinded with and the
/// blinded challenge.
pub struct SignatureRequest {
    pub public_nonce: [u8; 32],
    pub blind_challenge: [u8; 32],
}

/// Which part of a signature request was refused.
pub enum RequestError {
    InvalidNonce,
    InvalidChallenge,
}

/// The signature request from the hex of an x-only public nonce and the hex
/// of a scalar challenge.
pub fn signature_request(public_nonce_hex: &str, challenge_hex: &str) -> (r: SignatureRequest)
    requires
        is_xonly_hex(public_nonce_hex@),
        is_scalar_hex(challenge_hex@),
    ensures
        r.public_nonce@ == hex_bytes_of(public_nonce_hex@),
        r.blind_challenge@ == hex_bytes_of(challenge_hex@),
{
    SignatureRequest {
        public_nonce: xonly_point_from_hex(public_nonce_hex).unwrap(),
        blind_challenge: scalar_from_hex(challenge_hex).unwrap(),
    }
}

/// The request of `signature_request`, or which part failed to parse (the
/// public nonce is checked first).
pub fn parse_signature_request(public_nonce_hex: &str, challenge_hex: &str) -> (r: Result<
    SignatureRequest,
    RequestError,
>)
    ensures
        r matches Err(RequestError::InvalidNonce) <==> !is_xonly_hex(public_nonce_hex@),
        r matches Err(RequestError::InvalidChallenge) <==> is_xonly_hex(public_nonce_hex@)
            && !is_scalar_hex(challenge_hex@),
        r matches Ok(req) ==> {
            &&& req.public_nonce@ == hex_bytes_of(public_nonce_hex@)
            &&& req.blind_challenge@ == hex_bytes_of(challenge_hex@)
        },
{
    if xonly_point_from_hex(public_nonce_hex).is_none() {
        return Err(RequestError::InvalidNonce);
    }
    if scalar_from_hex(challenge_hex).is_none() {
        return Err(RequestError::InvalidChallenge);
    }
    Ok(signature_request(public_nonce_hex, challenge_hex))
}

/// What to do after asking the signer whether a request was signed.
pub enum PollStep {
    /// Nothing yet: pause, then ask again.
    Wait,
    /// Signed: answer with the signature.
    Respond(SignatureResponse),
}

/// Decides the next step from the signer's answer: nothing recorded yet, or
/// recorded with a signature. A request the signer declined has no next
/// step (serving it is abandoned).
pub fn poll_step(lookup: Option<Option<[u8; 32]>>) -> (r: PollStep)
    requires
        lookup != Some(Option::<[u8; 32]>::None),
    ensures
        lookup is None <==> r is Wait,
        r matches PollStep::Respond(resp) ==> lookup == Some(Some(resp.signature)),
{
    match lookup {
        Some(Some(signature)) => PollStep::Respond(SignatureResponse { signature }),
        _ => PollStep::Wait,
    }
}

} // verus!
