//! Nostr events: the id commitment of an unsigned event (NIP-01) and the
//! signed event that carries an unblinded signature.
use vstd::prelude::*;
use vstd::utf8::encode_utf8;
use crate::hexcode::{encode_hex, hex_bytes_of, hex_of};
use crate::json::{
    decimal, json_list_of_lists, json_number, json_quote, json_quoted, lemma_decimal_then_comma,
    list_of_lists_json,
};
use crate::secp::{is_point_hex, is_scalar_hex, point_from_hex, scalar_from_hex};
use sha2::Digest;

verus! {

/// The SHA-256 digest of a byte string.
pub uninterp spec fn sha256_digest(data: Seq<u8>) -> Seq<u8>;

/// `sha2::Sha256`: hashes the bytes; the digest is 32 bytes.
#[verifier::external_body]
pub(crate) fn sha256(data: &[u8]) -> (r: [u8; 32])
    ensures
        r@ == sha256_digest(data@),
{
    let mut hash = sha2::Sha256::default();
    hash.update(data);
    hash.finalize().into()
}

/// The text whose hash is an event's id:
/// `[0,"<pubkey hex>",<created_at>,<kind>,<tags>,"<content>"]`, compact JSON.
pub open spec fn event_commitment(
    pubkey: Seq<u8>,
    created_at: u64,
    kind: u64,
    tags: Seq<Seq<Seq<char>>>,
    content: Seq<char>,
) -> Seq<char> {
    seq!['[', '0', ','] + json_quoted(hex_of(pubkey)) + seq![','] + decimal(created_at as nat)
        + seq![','] + decimal(kind as nat) + seq![','] + json_list_of_lists(tags) + seq![',']
        + json_quoted(content) + seq![']']
}

/// The SHA-256 digest of the UTF-8 bytes of the event's commitment.
pub open spec fn event_hash(
    pubkey: Seq<u8>,
    created_at: u64,
    kind: u64,
    tags: Seq<Seq<Seq<char>>>,
    content: Seq<char>,
) -> Seq<u8> {
    sha256_digest(encode_utf8(event_commitment(pubkey, created_at, kind, tags, content)))
}

/// The commitment records the creation time and the kind exactly: two
/// events that differ only in `created_at` or `kind` have different
/// commitments, so different ids can only come from different times or
/// kinds, and the same commitment gives back the same time and kind.
pub proof fn lemma_commitment_keeps_time_and_kind(
    pubkey: Seq<u8>,
    t1: u64,
    t2: u64,
    k1: u64,
    k2: u64,
    tags: Seq<Seq<Seq<char>>>,
    content: Seq<char>,
)
    requires
        event_commitment(pubkey, t1, k1, tags, content) == event_commitment(
            pubkey,
            t2,
            k2,
            tags,
            content,
        ),
    ensures
        t1 == t2,
        k1 == k2,
{
    let q = json_quoted(hex_of(pubkey));
    let tj = json_list_of_lists(tags);
    let cj = json_quoted(content);
    lemma_commitment_split(q, decimal(t1 as nat), decimal(k1 as nat), tj, cj);
    lemma_commitment_split(q, decimal(t2 as nat), decimal(k2 as nat), tj, cj);
    let p = seq!['[', '0', ','] + q + seq![','];
    let r = tj + seq![','] + cj + seq![']'];
    let x1 = decimal(k1 as nat) + seq![','] + r;
    let x2 = decimal(k2 as nat) + seq![','] + r;
    lemma_prefix_cancel(p, decimal(t1 as nat) + seq![','] + x1, decimal(t2 as nat) + seq![','] + x2);
    lemma_decimal_then_comma(t1 as nat, t2 as nat, x1, x2);
    lemma_decimal_then_comma(k1 as nat, k2 as nat, r, r);
}

/// Equal sequences with equal prefixes have equal rests.
proof fn lemma_prefix_cancel(p: Seq<char>, a: Seq<char>, b: Seq<char>)
    requires
        p + a == p + b,
    ensures
        a == b,
{
    assert(a =~= (p + a).subrange(p.len() as int, (p + a).len() as int));
    assert(b =~= (p + b).subrange(p.len() as int, (p + b).len() as int));
}

/// The commitment as the fixed prefix, the time, a comma, and the rest.
proof fn lemma_commitment_split(q: Seq<char>, t: Seq<char>, k: Seq<char>, tj: Seq<char>, cj: Seq<char>)
    ensures
        seq!['[', '0', ','] + q + seq![','] + t + seq![','] + k + seq![','] + tj + seq![','] + cj
            + seq![']'] == (seq!['[', '0', ','] + q + seq![',']) + (t + seq![','] + (k + seq![',']
            + (tj + seq![','] + cj + seq![']']))),
{
    assert(seq!['[', '0', ','] + q + seq![','] + t + seq![','] + k + seq![','] + tj + seq![',']
        + cj + seq![']'] =~= (seq!['[', '0', ','] + q + seq![',']) + (t + seq![','] + (k + seq![',']
        + (tj + seq![','] + cj + seq![']']))));
}

/// A BIP-340 signature: the x-only public nonce `r` and the scalar `s`.
pub struct Signature {
    pub r: [u8; 32],
    pub s: [u8; 32],
}

/// An event before it is signed; `id` is the lowercase hex of `hash_bytes`,
/// the message that gets blindly signed.
pub struct UnsignedEvent {
    pub id: String,
    pub pubkey: [u8; 32],
    pub created_at: u64,
    pub kind: u64,
    pub tags: Vec<Vec<String>>,
    pub content: String,
    pub hash_bytes: Vec<u8>,
}

/// An event with its signature.
pub struct SignedEvent {
    pub id: String,
    pub pubkey: [u8; 32],
    pub created_at: u64,
    pub kind: u64,
    pub tags: Vec<Vec<String>>,
    pub content: String,
    pub sig: Signature,
}

/// Builds the commitment text of an event.
fn event_commitment_json(
    pubkey: &[u8; 32],
    created_at: u64,
    kind: u64,
    tags: &Vec<Vec<String>>,
    content: &str,
) -> (r: String)
    ensures
        r@ == event_commitment(pubkey@, created_at, kind, tags.deep_view(), content@),
{
    proof {
        reveal_strlit("[0,");
        reveal_strlit(",");
        reveal_strlit("]");
    }
    let mut out = String::new();
    out.append("[0,");
    let key_hex = encode_hex(pubkey);
    out.append(json_quote(key_hex.as_str()).as_str());
    out.append(",");
    out.append(json_number(created_at).as_str());
    out.append(",");
    out.append(json_number(kind).as_str());
    out.append(",");
    out.append(list_of_lists_json(tags).as_str());
    out.append(",");
    out.append(json_quote(content).as_str());
    out.append("]");
    assert(out@ =~= event_commitment(pubkey@, created_at, kind, tags.deep_view(), content@));
    out
}

impl UnsignedEvent {
    /// Creates the event and its id: the SHA-256 hash of its commitment,
    /// kept both as bytes and as lowercase hex.
    pub fn new_unsigned(
        pubkey: [u8; 32],
        kind: u64,
        tags: Vec<Vec<String>>,
        content: String,
        created_at: u64,
    ) -> (r: Self)
        ensures
            r.pubkey == pubkey,
            r.kind == kind,
            r.created_at == created_at,
            r.tags.deep_view() == tags.deep_view(),
            r.content@ == content@,
            r.hash_bytes@ == event_hash(pubkey@, created_at, kind, tags.deep_view(), content@),
            r.id@ == hex_of(r.hash_bytes@),
            r.hash_bytes@.len() == 32,
    {
        let text = event_commitment_json(&pubkey, created_at, kind, &tags, content.as_str());
        let hash = sha256(text.as_str().as_bytes());
        let id = encode_hex(&hash);
        let hash_bytes = vstd::slice::slice_to_vec(&hash);
        UnsignedEvent { id, pubkey, created_at, kind, tags, content, hash_bytes }
    }

    /// Attaches a signature, keeping every field of the event.
    pub fn add_signature(self, signature: Signature) -> (r: SignedEvent)
        ensures
            r.id@ == self.id@,
            r.pubkey == self.pubkey,
            r.created_at == self.created_at,
            r.kind == self.kind,
            r.tags.deep_view() == self.tags.deep_view(),
            r.content@ == self.content@,
            r.sig == signature,
    {
        SignedEvent {
            id: self.id,
            pubkey: self.pubkey,
            created_at: self.created_at,
            kind: self.kind,
            tags: self.tags,
            content: self.content,
            sig: signature,
        }
    }
}

/// Why the parts of an unblinded signature were refused.
pub enum SignatureError {
    /// The blinded public nonce is not the hex of a compressed point.
    InvalidNonce,
    /// The signature scalar is not the hex of a scalar.
    InvalidScalar,
}

/// The signature from the hex of its scalar `s` and of the blinded public
/// nonce (a compressed point, taken with an even y-coordinate, so only its
/// x-coordinate is kept).
pub fn signature_of_hex(s_hex: &str, blinded_nonce_hex: &str) -> (r: Signature)
    requires
        is_point_hex(blinded_nonce_hex@),
        is_scalar_hex(s_hex@),
    ensures
        r.r@ == hex_bytes_of(blinded_nonce_hex@).subrange(1, 33),
        r.s@ == hex_bytes_of(s_hex@),
{
    let nonce = point_from_hex(blinded_nonce_hex).unwrap();
    Signature { r: xonly_of(&nonce), s: scalar_from_hex(s_hex).unwrap() }
}

/// The signature of `signature_of_hex`, or which part failed to parse (the
/// nonce is checked first).
pub fn signature_from_hex(s_hex: &str, blinded_nonce_hex: &str) -> (r: Result<
    Signature,
    SignatureError,
>)
    ensures
        r matches Err(SignatureError::InvalidNonce) <==> !is_point_hex(blinded_nonce_hex@),
        r matches Err(SignatureError::InvalidScalar) <==> is_point_hex(blinded_nonce_hex@)
            && !is_scalar_hex(s_hex@),
        r matches Ok(sig) ==> {
            &&& sig.r@ == hex_bytes_of(blinded_nonce_hex@).subrange(1, 33)
            &&& sig.s@ == hex_bytes_of(s_hex@)
        },
{
    if point_from_hex(blinded_nonce_hex).is_none() {
        return Err(SignatureError::InvalidNonce);
    }
    if scalar_from_hex(s_hex).is_none() {
        return Err(SignatureError::InvalidScalar);
    }
    Ok(signature_of_hex(s_hex, blinded_nonce_hex))
}

/// The x-coordinate of a compressed point: the 32 bytes after the prefix.
pub fn xonly_of(point: &[u8; 33]) -> (r: [u8; 32])
    ensures
        r@ == point@.subrange(1, 33),
{
    let mut x = [0u8; 32];
    for i in 0..32
        invariant
            forall|j: int| 0 <= j < i ==> x@[j] == point@[j + 1],
    {
        x.set(i, point[i + 1]);
    }
    assert(x@ =~= point@.subrange(1, 33));
    x
}

} // verus!
