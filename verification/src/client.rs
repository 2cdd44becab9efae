//! The browser client's inputs to the blinding and unblinding steps, read
//! from the page as hex and checked before use.
use vstd::prelude::*;
use crate::hexcode::{decode_hex, hex_bytes_of, hex_decodable, hex_of};
use crate::nostr::{event_hash, UnsignedEvent};
use crate::secp::{
    is_nonzero_scalar_hex, is_scalar_hex, is_xonly_hex, nonzero_scalar_from_hex, scalar_from_hex,
    xonly_point_from_hex,
};

verus! {

/// What blinding needs: the server's public nonce and public key (x-only)
/// and the message bytes (the event id).
pub struct BlindingInputs {
    pub nonce: [u8; 32],
    pub pubkey: [u8; 32],
    pub message: Vec<u8>,
}

/// Which blinding input was refused.
pub enum BlindingInputError {
    InvalidNonce,
    InvalidPubkey,
    InvalidMessage,
}

/// The blinding inputs from well-formed page text: the nonce and public key
/// as x-only point hex, the message as hex. Text that is not well formed is
/// refused before blinding starts (see `parse_blinding_inputs`).
pub fn blinding_inputs(nonce_hex: &str, pubkey_hex: &str, message_hex: &str) -> (r:
    BlindingInputs)
    requires
        is_xonly_hex(nonce_hex@),
        is_xonly_hex(pubkey_hex@),
        hex_decodable(message_hex@),
    ensures
        r.nonce@ == hex_bytes_of(nonce_hex@),
        r.pubkey@ == hex_bytes_of(pubkey_hex@),
        r.message@ == hex_bytes_of(message_hex@),
{
    let nonce = xonly_point_from_hex(nonce_hex).unwrap();
    let pubkey = xonly_point_from_hex(pubkey_hex).unwrap();
    let message = decode_hex(message_hex).unwrap();
    BlindingInputs { nonce, pubkey, message }
}

/// Checks the blinding inputs, the nonce, then the public key, then the hex
/// message, and reads them when all are well formed.
pub fn parse_blinding_inputs(nonce_hex: &str, pubkey_hex: &str, message_hex: &str) -> (r: Result<
    BlindingInputs,
    BlindingInputError,
>)
    ensures
        r matches Err(BlindingInputError::InvalidNonce) <==> !is_xonly_hex(nonce_hex@),
        r matches Err(BlindingInputError::InvalidPubkey) <==> is_xonly_hex(nonce_hex@)
            && !is_xonly_hex(pubkey_hex@),
        r matches Err(BlindingInputError::InvalidMessage) <==> is_xonly_hex(nonce_hex@)
            && is_xonly_hex(pubkey_hex@) && !hex_decodable(message_hex@),
        r matches Ok(inputs) ==> {
            &&& inputs.nonce@ == hex_bytes_of(nonce_hex@)
            &&& inputs.pubkey@ == hex_bytes_of(pubkey_hex@)
            &&& inputs.message@ == hex_bytes_of(message_hex@)
        },
{
    if xonly_point_from_hex(nonce_hex).is_none() {
        return Err(BlindingInputError::InvalidNonce);
    }
    if xonly_point_from_hex(pubkey_hex).is_none() {
        return Err(BlindingInputError::InvalidPubkey);
    }
    if decode_hex(message_hex).is_none() {
        return Err(BlindingInputError::InvalidMessage);
    }
    Ok(blinding_inputs(nonce_hex, pubkey_hex, message_hex))
}

/// What unblinding needs: the blind signature and the blinding tweak alpha.
pub struct UnblindInputs {
    pub blinded_signature: [u8; 32],
    pub alpha: [u8; 32],
}

/// Which unblinding input was refused.
pub enum UnblindInputError {
    InvalidSignature,
    InvalidAlpha,
}

/// The unblinding inputs from well-formed page text: the blind signature as
/// the hex of a scalar, alpha as the hex of a non-zero scalar.
pub fn unblind_inputs(blinded_signature_hex: &str, alpha_hex: &str) -> (r: UnblindInputs)
    requires
        is_scalar_hex(blinded_signature_hex@),
        is_nonzero_scalar_hex(alpha_hex@),
    ensures
        r.blinded_signature@ == hex_bytes_of(blinded_signature_hex@),
        r.alpha@ == hex_bytes_of(alpha_hex@),
{
    let blinded_signature = scalar_from_hex(blinded_signature_hex).unwrap();
    let alpha = nonzero_scalar_from_hex(alpha_hex).unwrap();
    UnblindInputs { blinded_signature, alpha }
}

/// Checks the unblinding inputs, the blind signature (a scalar), then alpha
/// (a non-zero scalar), and reads them when both are well formed.
pub fn parse_unblind_inputs(blinded_signature_hex: &str, alpha_hex: &str) -> (r: Result<
    UnblindInputs,
    UnblindInputError,
>)
    ensures
        r matches Err(UnblindInputError::InvalidSignature) <==> !is_scalar_hex(
            blinded_signature_hex@,
        ),
        r matches Err(UnblindInputError::InvalidAlpha) <==> is_scalar_hex(blinded_signature_hex@)
            && !is_nonzero_scalar_hex(alpha_hex@),
        r matches Ok(inputs) ==> {
            &&& inputs.blinded_signature@ == hex_bytes_of(blinded_signature_hex@)
            &&& inputs.alpha@ == hex_bytes_of(alpha_hex@)
        },
{
    if scalar_from_hex(blinded_signature_hex).is_none() {
        return Err(UnblindInputError::InvalidSignature);
    }
    if nonzero_scalar_from_hex(alpha_hex).is_none() {
        return Err(UnblindInputError::InvalidAlpha);
    }
    Ok(unblind_inputs(blinded_signature_hex, alpha_hex))
}

/// The kind-1 note, without tags, that carries `content` from the server's
/// key (x-only point hex) at time `now`; its id is the message to blind.
pub fn message_event(server_pubkey_hex: &str, content: String, now: u64) -> (r: UnsignedEvent)
    requires
        is_xonly_hex(server_pubkey_hex@),
    ensures
        r.pubkey@ == hex_bytes_of(server_pubkey_hex@),
        r.kind == 1,
        r.created_at == now,
        r.tags@.len() == 0,
        r.content@ == content@,
        r.hash_bytes@ == event_hash(hex_bytes_of(server_pubkey_hex@), now, 1, Seq::empty(), content@),
        r.id@ == hex_of(r.hash_bytes@),
{
    let pubkey = xonly_point_from_hex(server_pubkey_hex).unwrap();
    let tags: Vec<Vec<String>> = Vec::new();
    proof {
        assert(tags.deep_view() =~= Seq::<Seq<Seq<char>>>::empty());
    }
    UnsignedEvent::new_unsigned(pubkey, 1, tags, content, now)
}

/// The note of `message_event`, or `None` when the server key is not the hex
/// of an x-only point.
pub fn event_for_message(server_pubkey_hex: &str, content: String, now: u64) -> (r: Option<
    UnsignedEvent,
>)
    ensures
        r is None <==> !is_xonly_hex(server_pubkey_hex@),
        r matches Some(ev) ==> {
            &&& ev.pubkey@ == hex_bytes_of(server_pubkey_hex@)
            &&& ev.kind == 1
            &&& ev.created_at == now
            &&& ev.tags@.len() == 0
            &&& ev.content@ == content@
            &&& ev.hash_bytes@ == event_hash(
                hex_bytes_of(server_pubkey_hex@),
                now,
                1,
                Seq::empty(),
                content@,
            )
            &&& ev.id@ == hex_of(ev.hash_bytes@)
        },
{
    if xonly_point_from_hex(server_pubkey_hex).is_none() {
        return None;
    }
    Some(message_event(server_pubkey_hex, content, now))
}

} // verus!
