//! The secp256k1 values that the protocol handles, held as plain bytes:
//! scalars as 32 big-endian bytes, points as 33-byte compressed encodings or
//! 32-byte x-only keys. Each operation of `secp256kfun` and `schnorr_fun`
//! that the protocol needs stands here behind a trusted item.
use vstd::prelude::*;
use crate::hexcode::{hex_bytes_of, hex_decodable};
use schnorr_fun::fun::marker::{EvenY, Normal, NonZero, Public, Secret, Zero};
use schnorr_fun::fun::nonce::NonceGen;
use schnorr_fun::fun::hash::HashAdd;
use schnorr_fun::fun::{Point, Scalar, G};
use schnorr_fun::{Message, Schnorr, Signature};
use sha2::Sha256;
use std::str::FromStr;

verus! {

/// The order of the secp256k1 group.
pub open spec fn curve_order() -> nat {
    0xFFFFFFFFFFFFFFFFFFFFFFFFFFFFFFFEBAAEDCE6AF48A03BBFD25E8CD0364141nat
}

/// The integer that a big-endian byte string denotes.
pub open spec fn be_value(b: Seq<u8>) -> nat
    decreases b.len(),
{
    if b.len() == 0 {
        0
    } else {
        be_value(b.drop_last()) * 256 + b.last() as nat
    }
}

/// 32 bytes that encode a scalar: an integer below the group order.
pub open spec fn is_scalar(b: Seq<u8>) -> bool {
    b.len() == 32 && be_value(b) < curve_order()
}

/// 32 bytes that encode a non-zero scalar.
pub open spec fn is_nonzero_scalar(b: Seq<u8>) -> bool {
    is_scalar(b) && be_value(b) != 0
}

/// The prime of the field over which secp256k1 is defined.
pub open spec fn field_prime() -> nat {
    0xFFFFFFFFFFFFFFFFFFFFFFFFFFFFFFFFFFFFFFFFFFFFFFFFFFFFFFFEFFFFFC2Fnat
}

/// Whether the 32 big-endian bytes are an integer `x` below the field prime
/// that is the x-coordinate of a point on the curve `y^2 = x^3 + 7`: some
/// `y` squares to `x^3 + 7` modulo the prime (what decompression in
/// `secp256kfun`'s point decoding accepts, for either parity of y).
pub open spec fn on_curve_x(x: Seq<u8>) -> bool {
    let p = field_prime() as int;
    let v = be_value(x) as int;
    &&& x.len() == 32
    &&& v < p
    &&& exists|y: int| 0 <= y < p && #[trigger] ((y * y) % p) == (v * v * v + 7) % p
}

/// The x-coordinate of `k * G` and whether its y-coordinate is odd.
pub uninterp spec fn base_mul_even_y(k: Seq<u8>) -> (Seq<u8>, bool);

/// The outcome of BIP-340 verification (SHA-256 challenge, message prefixed
/// with the tag padded to 64 bytes) of signature `(r_x, s)` on `msg` under the
/// x-only key `key_x`.
pub uninterp spec fn bip340_verify_plain(
    tag: Seq<char>,
    key_x: Seq<u8>,
    msg: Seq<u8>,
    r_x: Seq<u8>,
    s: Seq<u8>,
) -> bool;

/// A hex string that `Scalar::<_, Zero>::from_str` accepts.
pub open spec fn is_scalar_hex(s: Seq<char>) -> bool {
    s.len() == 64 && hex_decodable(s) && is_scalar(hex_bytes_of(s))
}

/// A hex string that `Scalar::<_, NonZero>::from_str` accepts.
pub open spec fn is_nonzero_scalar_hex(s: Seq<char>) -> bool {
    s.len() == 64 && hex_decodable(s) && is_nonzero_scalar(hex_bytes_of(s))
}

/// A 33-byte compressed point encoding: prefix 2 (even y) or 3 (odd y)
/// followed by the x-coordinate of a curve point.
pub open spec fn is_compressed_point(b: Seq<u8>) -> bool {
    &&& b.len() == 33
    &&& (b[0] == 2u8 || b[0] == 3u8)
    &&& on_curve_x(b.subrange(1, 33))
}

/// A hex string that `Point::<Normal, _, NonZero>::from_str` accepts.
pub open spec fn is_point_hex(s: Seq<char>) -> bool {
    s.len() == 66 && hex_decodable(s) && is_compressed_point(hex_bytes_of(s))
}

/// A hex string that `Point::<EvenY, _, NonZero>::from_str` accepts.
pub open spec fn is_xonly_hex(s: Seq<char>) -> bool {
    s.len() == 64 && hex_decodable(s) && on_curve_x(hex_bytes_of(s))
}

/// `Scalar::<Public, Zero>::from_str`: exactly 64 hex digits encoding an
/// integer below the group order; gives the scalar's 32 big-endian bytes.
#[verifier::external_body]
pub(crate) fn scalar_from_hex(s: &str) -> (r: Option<[u8; 32]>)
    ensures
        r is Some <==> is_scalar_hex(s@),
        r matches Some(b) ==> b@ == hex_bytes_of(s@),
{
    Scalar::<Public, Zero>::from_str(s).ok().map(|x| x.to_bytes())
}

/// `Scalar::<Secret, NonZero>::from_str`: as `scalar_from_hex`, and the
/// scalar must not be zero.
#[verifier::external_body]
pub(crate) fn nonzero_scalar_from_hex(s: &str) -> (r: Option<[u8; 32]>)
    ensures
        r is Some <==> is_nonzero_scalar_hex(s@),
        r matches Some(b) ==> b@ == hex_bytes_of(s@),
{
    Scalar::<Secret, NonZero>::from_str(s).ok().map(|x| x.to_bytes())
}

/// `Point::<Normal, Public, NonZero>::from_str`: exactly 66 hex digits of a
/// compressed point; the parsed point re-encodes to the same 33 bytes.
#[verifier::external_body]
pub(crate) fn point_from_hex(s: &str) -> (r: Option<[u8; 33]>)
    ensures
        r is Some <==> is_point_hex(s@),
        r matches Some(b) ==> b@ == hex_bytes_of(s@),
{
    Point::<Normal, Public, NonZero>::from_str(s).ok().map(|p| p.to_bytes())
}

/// `Point::<EvenY, Public, NonZero>::from_str`: exactly 64 hex digits of the
/// x-coordinate of a curve point; gives that x-coordinate.
#[verifier::external_body]
pub(crate) fn xonly_point_from_hex(s: &str) -> (r: Option<[u8; 32]>)
    ensures
        r is Some <==> is_xonly_hex(s@),
        r matches Some(b) ==> b@ == hex_bytes_of(s@),
{
    Point::<EvenY, Public, NonZero>::from_str(s).ok().map(|p| p.to_xonly_bytes())
}

/// `scalar_mul_point(k, G)`, normalized, then `into_point_with_even_y`: the
/// x-coordinate of `k * G` and whether it had to be negated (its y was odd).
/// The x-coordinate is that of a curve point.
#[verifier::external_body]
pub(crate) fn base_mul_into_even_y(k: [u8; 32]) -> (r: ([u8; 32], bool))
    requires
        is_nonzero_scalar(k@),
    ensures
        (r.0@, r.1) == base_mul_even_y(k@),
        on_curve_x(r.0@),
{
    let k = Scalar::<Secret, NonZero>::from_bytes(k).unwrap();
    let (p, negated) = schnorr_fun::fun::op::scalar_mul_point(&k, G).normalize().into_point_with_even_y();
    (p.to_xonly_bytes(), negated)
}

/// `Scalar::conditional_negate`: when `cond` holds the result is the additive
/// inverse modulo the group order, else the scalar itself.
#[verifier::external_body]
pub(crate) fn scalar_conditional_negate(k: [u8; 32], cond: bool) -> (r: [u8; 32])
    requires
        is_nonzero_scalar(k@),
    ensures
        is_nonzero_scalar(r@),
        cond ==> be_value(r@) == curve_order() - be_value(k@),
        !cond ==> r == k,
{
    let mut k = Scalar::<Secret, NonZero>::from_bytes(k).unwrap();
    k.conditional_negate(cond);
    k.to_bytes()
}

/// `Scalar::<Secret, NonZero>::random` with the thread's random number
/// generator. Nothing is stated of the value beyond its being a non-zero
/// scalar: it is random. (The crate panics if the reduced random bytes are
/// zero, an event of probability about 2^-256 that no precondition can
/// exclude.)
#[verifier::external_body]
pub(crate) fn random_nonzero_scalar() -> (r: [u8; 32])
    ensures
        is_nonzero_scalar(r@),
{
    Scalar::<Secret, NonZero>::random(&mut rand::thread_rng()).to_bytes()
}

/// The synthetic nonce of a SHA-256 BIP-340 `Schnorr` instance whose nonce
/// generator draws on the thread's random number generator, derived from the
/// secret `secret` and the public input `public` (`begin_derivation`, `add`,
/// `Scalar::from_hash`). The value mixes in fresh randomness, so nothing is
/// stated of it beyond its being a non-zero scalar. (`from_hash` panics if
/// the reduced hash is zero, an event of probability about 2^-256.)
#[verifier::external_body]
pub(crate) fn derive_synthetic_nonce(secret: [u8; 32], public: &[u8]) -> (r: [u8; 32])
    requires
        is_nonzero_scalar(secret@),
    ensures
        is_nonzero_scalar(r@),
{
    let secret = Scalar::<Secret, NonZero>::from_bytes(secret).unwrap();
    let nonce_gen = schnorr_fun::fun::nonce::Synthetic::<
        Sha256,
        schnorr_fun::fun::nonce::GlobalRng<rand::rngs::ThreadRng>,
    >::default();
    let schnorr = Schnorr::<Sha256, _>::new(nonce_gen);
    Scalar::<Secret, NonZero>::from_hash(schnorr.nonce_gen().begin_derivation(&secret).add(public)).to_bytes()
}

/// `Schnorr::<Sha256>::verify` of the signature `(r_x, s)` on
/// `Message::plain(tag, msg)` under the x-only key `key_x` (a verify-only
/// instance: verification uses only the BIP-340 challenge hash, whatever the
/// nonce generator). The outcome is named by `bip340_verify_plain`; it
/// depends on the arguments alone. `Message::plain` panics on an empty tag or
/// one over 64 bytes, which the precondition rules out.
#[verifier::external_body]
#[allow(deprecated)]
pub(crate) fn verify_plain(
    tag: &'static str,
    key_x: [u8; 32],
    msg: &[u8],
    r_x: [u8; 32],
    s: [u8; 32],
) -> (r: bool)
    requires
        0 < tag@.len() <= 64,
        tag.is_ascii(),
        on_curve_x(key_x@),
        on_curve_x(r_x@),
        is_scalar(s@),
    ensures
        r == bip340_verify_plain(tag@, key_x@, msg@, r_x@, s@),
{
    let key = Point::<EvenY, Public, NonZero>::from_xonly_bytes(key_x).unwrap();
    let signature = Signature {
        R: Point::<EvenY, Public, NonZero>::from_xonly_bytes(r_x).unwrap(),
        s: Scalar::<Public, Zero>::from_bytes(s).unwrap(),
    };
    Schnorr::<Sha256>::verify_only().verify(&key, Message::plain(tag, msg), &signature)
}

} // verus!
