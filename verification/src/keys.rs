//! Key pairs whose public point has an even y-coordinate: the server's
//! long-term key and the one-time signing nonces are both made this way.
use vstd::prelude::*;
use crate::hexcode::{encode_hex, hex_bytes_of, hex_of, lemma_hex_round_trip};
use crate::secp::{
    base_mul_even_y, base_mul_into_even_y, be_value, curve_order, is_nonzero_scalar,
    is_nonzero_scalar_hex, is_xonly_hex, nonzero_scalar_from_hex, on_curve_x,
    random_nonzero_scalar, scalar_conditional_negate,
};

verus! {

/// A secret scalar and the x-only key of its public point, the secret
/// negated where needed so that the public point has an even y-coordinate.
pub struct KeyPair {
    pub secret: [u8; 32],
    pub public_key: [u8; 32],
}

/// `secret` and `public_key` are what normalizing the scalar `k` gives:
/// `public_key` is the x-coordinate of `k * G`, and `secret` is `k`, or its
/// negation when `k * G` has an odd y-coordinate.
pub open spec fn even_y_pair_from(k: Seq<u8>, secret: Seq<u8>, public_key: Seq<u8>) -> bool {
    let (x, odd) = base_mul_even_y(k);
    &&& public_key == x
    &&& odd ==> be_value(secret) == curve_order() - be_value(k)
    &&& !odd ==> secret == k
}

/// Multiplies the generator by `k` and normalizes the pair to an even
/// y-coordinate, negating the scalar when the point had to be negated.
pub fn even_y_keypair(k: [u8; 32]) -> (r: KeyPair)
    requires
        is_nonzero_scalar(k@),
    ensures
        even_y_pair_from(k@, r.secret@, r.public_key@),
        is_nonzero_scalar(r.secret@),
        on_curve_x(r.public_key@),
{
    let (public_key, negate) = base_mul_into_even_y(k);
    let secret = scalar_conditional_negate(k, negate);
    KeyPair { secret, public_key }
}

/// The server's key pair from the hex secret kept on disk, which must be
/// the hex of a non-zero scalar (a secret that does not read back is not
/// repaired: no key pair is made from it).
pub fn server_keypair_of(secret_hex: &str) -> (r: KeyPair)
    requires
        is_nonzero_scalar_hex(secret_hex@),
    ensures
        even_y_pair_from(hex_bytes_of(secret_hex@), r.secret@, r.public_key@),
        is_nonzero_scalar(r.secret@),
        on_curve_x(r.public_key@),
{
    even_y_keypair(nonzero_scalar_from_hex(secret_hex).unwrap())
}

/// The key pair of `server_keypair_of`, or `None` when the text is not the
/// hex of a non-zero scalar.
pub fn server_keypair(secret_hex: &str) -> (r: Option<KeyPair>)
    ensures
        r is None <==> !is_nonzero_scalar_hex(secret_hex@),
        r matches Some(kp) ==> {
            &&& even_y_pair_from(hex_bytes_of(secret_hex@), kp.secret@, kp.public_key@)
            &&& is_nonzero_scalar(kp.secret@)
            &&& on_curve_x(kp.public_key@)
        },
{
    if nonzero_scalar_from_hex(secret_hex).is_none() {
        return None;
    }
    Some(server_keypair_of(secret_hex))
}

/// A new random server secret, as the hex text that is stored on disk.
pub fn fresh_secret_hex() -> (r: String)
    ensures
        is_nonzero_scalar_hex(r@),
{
    let k = random_nonzero_scalar();
    let s = encode_hex(&k);
    proof {
        lemma_hex_round_trip(k@);
    }
    s
}

/// The hex text of a non-zero scalar reads back as that same scalar: what
/// is stored (the server secret, a secret nonce) parses to what was stored.
pub proof fn lemma_scalar_text_round_trip(k: Seq<u8>)
    requires
        is_nonzero_scalar(k),
    ensures
        is_nonzero_scalar_hex(hex_of(k)),
        hex_bytes_of(hex_of(k)) == k,
{
    lemma_hex_round_trip(k);
}

/// A one-time signing nonce: the secret nonce and the public nonce, both as
/// hex.
pub struct NoncePair {
    pub secret_nonce: String,
    pub public_nonce: String,
}

/// Derives a fresh nonce from the server secret and the public input
/// `blind-signature`, normalized so that the public nonce has an even
/// y-coordinate.
pub fn fresh_nonce(server_secret: [u8; 32]) -> (r: NoncePair)
    requires
        is_nonzero_scalar(server_secret@),
    ensures
        is_nonzero_scalar_hex(r.secret_nonce@),
        is_xonly_hex(r.public_nonce@),
        exists|k: Seq<u8>|
            is_nonzero_scalar(k) && #[trigger] even_y_pair_from(
                k,
                hex_bytes_of(r.secret_nonce@),
                hex_bytes_of(r.public_nonce@),
            ),
{
    let tag: [u8; 15] = [
        98u8, 108, 105, 110, 100, 45, 115, 105, 103, 110, 97, 116, 117, 114, 101,
    ];
    let k = crate::secp::derive_synthetic_nonce(server_secret, &tag);
    let kp = even_y_keypair(k);
    let secret_nonce = encode_hex(&kp.secret);
    let public_nonce = encode_hex(&kp.public_key);
    proof {
        lemma_hex_round_trip(kp.secret@);
        lemma_hex_round_trip(kp.public_key@);
    }
    let r = NoncePair { secret_nonce, public_nonce };
    assert(is_nonzero_scalar(k@) && even_y_pair_from(
        k@,
        hex_bytes_of(r.secret_nonce@),
        hex_bytes_of(r.public_nonce@),
    ));
    r
}

} // verus!
