//! The signing server's request logic: handing out one-time nonces,
//! signing a blinded challenge with a nonce at most once, and verifying an
//! unblinded signature. The signing flow is a sequence of steps that each
//! take what the nonce table answered and say what to do next; `redeem`
//! runs them against the table model of `nonces`.
use vstd::prelude::*;
use crate::hexcode::{encode_hex, hex_bytes_of, hex_of};
use crate::keys::{fresh_nonce, NoncePair};
use crate::nostr::xonly_of;
use crate::nonces::{
    is_valid_row, lemma_delete_keeps_rows_valid, lemma_found_secret_parses, lookup_secret,
    rows_valid, without_nonce, NonceTable,
};
use crate::secp::{
    bip340_verify_plain, is_nonzero_scalar, is_nonzero_scalar_hex, is_point_hex, is_scalar_hex,
    is_xonly_hex, nonzero_scalar_from_hex, point_from_hex, scalar_from_hex, verify_plain,
    xonly_point_from_hex,
};
use vstd::string::StringSliceAdditionalSpecFns;

verus! {

/// The application tag under which blinded messages are signed.
pub const MESSAGE_TAG: &'static str = "blind-schnorr";

/// The public nonce handed to a client.
pub struct NonceResponse {
    pub nonce: String,
}

/// A fresh one-time nonce for the server key: the secret half is to be
/// stored next to the public half, which is sent to the client.
pub fn gennonce(server_secret: [u8; 32]) -> (r: (NoncePair, NonceResponse))
    requires
        is_nonzero_scalar(server_secret@),
    ensures
        r.1.nonce@ == r.0.public_nonce@,
        is_nonzero_scalar_hex(r.0.secret_nonce@),
        crate::secp::is_xonly_hex(r.0.public_nonce@),
        exists|k: Seq<u8>|
            is_nonzero_scalar(k) && #[trigger] crate::keys::even_y_pair_from(
                k,
                hex_bytes_of(r.0.secret_nonce@),
                hex_bytes_of(r.0.public_nonce@),
            ),
{
    let pair = fresh_nonce(server_secret);
    let response = NonceResponse { nonce: pair.public_nonce.clone() };
    (pair, response)
}

/// The answer to a signing request: the blind signature (hex, empty when
/// the request is refused) and a message.
pub struct BlindSignature {
    pub signature: String,
    pub message: String,
}

/// The answer given when the nonce is not (or no longer) held.
pub open spec fn is_refusal(r: BlindSignature) -> bool {
    &&& r.signature@ == Seq::<char>::empty()
    &&& r.message@ == "server refuses to reuse this nonce"@
}

/// Why a signing request cannot start.
pub enum SignError {
    /// The blinded challenge is not the hex of a scalar.
    InvalidChallenge,
}

/// A signing request whose challenge parsed: the nonce is to be looked up.
pub struct SignRequest {
    challenge: [u8; 32],
    nonce: String,
}

/// A nonce that was found in the table: it is to be deleted before use.
pub struct PendingDelete {
    challenge: [u8; 32],
    nonce: String,
    secret_nonce: String,
}

/// A challenge and a secret nonce that was found and deleted: the only way
/// to get one is through a successful lookup followed by a successful delete.
pub struct ReadyToSign {
    challenge: [u8; 32],
    secret_nonce: [u8; 32],
}

/// What follows the lookup of a nonce.
pub enum LookupOutcome {
    /// The nonce is not held: answer with this refusal (a server error).
    Refused(BlindSignature),
    /// The nonce is held: delete it, then continue.
    Delete(PendingDelete),
}

impl SignRequest {
    /// The blinded challenge.
    pub closed spec fn challenge_bytes(&self) -> Seq<u8> {
        self.challenge@
    }

    /// The public nonce named by the request.
    pub closed spec fn nonce_text(&self) -> Seq<char> {
        self.nonce@
    }

    /// The public nonce to look up.
    pub fn public_nonce(&self) -> (r: &str)
        ensures
            r@ == self.nonce_text(),
    {
        self.nonce.as_str()
    }

    /// Continues with what the lookup of the nonce found: the stored secret
    /// nonce, or nothing. Without a stored nonce the request is refused.
    pub fn on_lookup(self, found: Option<String>) -> (r: LookupOutcome)
        ensures
            found is None <==> r is Refused,
            r matches LookupOutcome::Refused(reply) ==> is_refusal(reply),
            r matches LookupOutcome::Delete(p) ==> {
                &&& p.challenge_bytes() == self.challenge_bytes()
                &&& p.nonce_text() == self.nonce_text()
                &&& (found matches Some(s) && p.secret_text() == s@)
            },
    {
        match found {
            None => {
                proof {
                    reveal_strlit("");
                }
                LookupOutcome::Refused(
                    BlindSignature {
                        signature: String::new(),
                        message: String::from_str("server refuses to reuse this nonce"),
                    },
                )
            },
            Some(secret_nonce) => LookupOutcome::Delete(
                PendingDelete { challenge: self.challenge, nonce: self.nonce, secret_nonce },
            ),
        }
    }
}

impl PendingDelete {
    /// The blinded challenge.
    pub closed spec fn challenge_bytes(&self) -> Seq<u8> {
        self.challenge@
    }

    /// The public nonce to delete.
    pub closed spec fn nonce_text(&self) -> Seq<char> {
        self.nonce@
    }

    /// The secret nonce that the lookup found.
    pub closed spec fn secret_text(&self) -> Seq<char> {
        self.secret_nonce@
    }

    /// The public nonce to delete.
    pub fn public_nonce(&self) -> (r: &str)
        ensures
            r@ == self.nonce_text(),
    {
        self.nonce.as_str()
    }

    /// Whether the stored secret nonce is the hex of a non-zero scalar.
    pub fn secret_is_valid(&self) -> (r: bool)
        ensures
            r == is_nonzero_scalar_hex(self.secret_text()),
    {
        nonzero_scalar_from_hex(self.secret_nonce.as_str()).is_some()
    }

    /// Continues once the nonce has been deleted: only a nonce whose delete
    /// succeeded, and whose stored secret parses, is used for signing.
    pub fn on_delete(self, deleted: bool) -> (r: ReadyToSign)
        requires
            deleted,
            is_nonzero_scalar_hex(self.secret_text()),
        ensures
            r.challenge_bytes() == self.challenge_bytes(),
            r.secret_nonce_bytes() == hex_bytes_of(self.secret_text()),
    {
        let secret_nonce = nonzero_scalar_from_hex(self.secret_nonce.as_str()).unwrap();
        ReadyToSign { challenge: self.challenge, secret_nonce }
    }
}

impl ReadyToSign {
    /// The blinded challenge to sign.
    pub closed spec fn challenge_bytes(&self) -> Seq<u8> {
        self.challenge@
    }

    /// The secret nonce to sign with.
    pub closed spec fn secret_nonce_bytes(&self) -> Seq<u8> {
        self.secret_nonce@
    }

    /// The blinded challenge to sign.
    pub fn challenge(&self) -> (r: [u8; 32])
        ensures
            r@ == self.challenge_bytes(),
    {
        self.challenge
    }

    /// The secret nonce to sign with.
    pub fn secret_nonce(&self) -> (r: [u8; 32])
        ensures
            r@ == self.secret_nonce_bytes(),
    {
        self.secret_nonce
    }
}

/// Starts a signing request; the blinded challenge must be the hex of a
/// scalar (nothing is looked up for one that is not).
pub fn sign(challenge: &str, nonce: String) -> (r: SignRequest)
    requires
        is_scalar_hex(challenge@),
    ensures
        r.challenge_bytes() == hex_bytes_of(challenge@),
        r.nonce_text() == nonce@,
{
    SignRequest { challenge: scalar_from_hex(challenge).unwrap(), nonce }
}

/// The request of `sign`, or `InvalidChallenge` when the blinded challenge
/// is not the hex of a scalar.
pub fn try_sign(challenge: &str, nonce: String) -> (r: Result<SignRequest, SignError>)
    ensures
        r is Err <==> !is_scalar_hex(challenge@),
        r matches Ok(req) ==> {
            &&& req.challenge_bytes() == hex_bytes_of(challenge@)
            &&& req.nonce_text() == nonce@
        },
{
    if scalar_from_hex(challenge).is_none() {
        return Err(SignError::InvalidChallenge);
    }
    Ok(sign(challenge, nonce))
}

/// Hands out a fresh nonce and records it in the table.
pub fn issue_nonce(table: &mut NonceTable, server_secret: [u8; 32]) -> (r: NonceResponse)
    requires
        is_nonzero_scalar(server_secret@),
        rows_valid(old(table)@),
    ensures
        rows_valid(final(table)@),
        final(table)@.len() == old(table)@.len() + 1,
        final(table)@.drop_last() == old(table)@,
        final(table)@.last().1 == r.nonce@,
        is_valid_row(final(table)@.last()),
{
    let (pair, response) = gennonce(server_secret);
    let ghost row = (pair.secret_nonce@, pair.public_nonce@);
    let ghost before = table@;
    table.insert(pair);
    proof {
        assert(is_valid_row(row));
        assert(table@.drop_last() =~= before);
        assert forall|i: int| 0 <= i < table@.len() implies is_valid_row(#[trigger] table@[i]) by {
            if i < before.len() {
                assert(table@[i] == before[i]);
            }
        }
    }
    response
}

/// Serves a signing request against the table: a held nonce is deleted and
/// its secret is used; a nonce that is not held is refused. A table whose
/// rows are all valid stays so.
pub fn redeem(table: &mut NonceTable, request: SignRequest) -> (r: Result<ReadyToSign, BlindSignature>)
    requires
        rows_valid(old(table)@),
    ensures
        rows_valid(final(table)@),
        r is Err <==> lookup_secret(old(table)@, request.nonce_text()) is None,
        r matches Err(reply) ==> is_refusal(reply) && final(table)@ == old(table)@,
        r matches Ok(ready) ==> {
            &&& final(table)@ == without_nonce(old(table)@, request.nonce_text())
            &&& ready.challenge_bytes() == request.challenge_bytes()
            &&& ready.secret_nonce_bytes() == hex_bytes_of(
                lookup_secret(old(table)@, request.nonce_text())->0,
            )
        },
{
    let found = table.lookup(request.public_nonce());
    let ghost n = request.nonce_text();
    let ghost rows = table@;
    match request.on_lookup(found) {
        LookupOutcome::Refused(reply) => Err(reply),
        LookupOutcome::Delete(pending) => {
            table.delete(pending.public_nonce());
            proof {
                lemma_found_secret_parses(rows, n);
                lemma_delete_keeps_rows_valid(rows, n);
            }
            Ok(pending.on_delete(true))
        },
    }
}

/// The answer that carries a blind signature.
pub fn signed_reply(signature: [u8; 32]) -> (r: BlindSignature)
    ensures
        r.signature@ == hex_of(signature@),
        r.message@ == "ok"@,
{
    BlindSignature {
        signature: encode_hex(&signature),
        message: String::from_str("ok"),
    }
}

/// The answer to a verification request.
pub struct ValidResponse {
    pub valid: bool,
}

/// Why a verification request ends without an answer.
pub enum VerifyError {
    /// The tweaked public key is not the hex of a compressed point.
    InvalidPubkey,
    /// The blinded nonce is not the hex of a compressed point.
    InvalidNonce,
}

/// Verifies an unblinded signature: the scalar `signature` with the blinded
/// nonce as its public nonce, on `message` under the tag `blind-schnorr`,
/// for the tweaked public key (both points taken with an even
/// y-coordinate). The key must be the hex of a compressed point, and so
/// must the nonce whenever the signature is the hex of a scalar; a
/// signature that is not the hex of a scalar is invalid.
pub fn verify_well_formed(
    signature: &str,
    blinded_nonce: &str,
    message: &str,
    tweaked_pubkey: &str,
) -> (r: ValidResponse)
    requires
        is_point_hex(tweaked_pubkey@),
        is_scalar_hex(signature@) ==> is_point_hex(blinded_nonce@),
    ensures
        !is_scalar_hex(signature@) ==> !r.valid,
        is_scalar_hex(signature@) ==> r.valid == bip340_verify_plain(
            MESSAGE_TAG@,
            hex_bytes_of(tweaked_pubkey@).subrange(1, 33),
            message.spec_bytes(),
            hex_bytes_of(blinded_nonce@).subrange(1, 33),
            hex_bytes_of(signature@),
        ),
{
    let pubkey = xonly_of(&point_from_hex(tweaked_pubkey).unwrap());
    let s = match scalar_from_hex(signature) {
        None => return ValidResponse { valid: false },
        Some(s) => s,
    };
    let nonce = xonly_of(&point_from_hex(blinded_nonce).unwrap());
    proof {
        reveal_strlit("blind-schnorr");
        assert(MESSAGE_TAG@.len() == 13);
    }
    let valid = verify_plain(MESSAGE_TAG, pubkey, message.as_bytes(), nonce, s);
    ValidResponse { valid }
}

/// The answer of `verify_well_formed`, or which point failed to parse: the
/// key, or the nonce of a signature that is the hex of a scalar.
pub fn verify(signature: &str, blinded_nonce: &str, message: &str, tweaked_pubkey: &str) -> (r:
    Result<ValidResponse, VerifyError>)
    ensures
        r matches Err(VerifyError::InvalidPubkey) <==> !is_point_hex(tweaked_pubkey@),
        r matches Err(VerifyError::InvalidNonce) <==> is_point_hex(tweaked_pubkey@)
            && is_scalar_hex(signature@) && !is_point_hex(blinded_nonce@),
        is_point_hex(tweaked_pubkey@) && !is_scalar_hex(signature@) ==> (r matches Ok(v) && !v.valid),
        is_point_hex(tweaked_pubkey@) && is_scalar_hex(signature@) && is_point_hex(blinded_nonce@)
            ==> (r matches Ok(v) && v.valid == bip340_verify_plain(
            MESSAGE_TAG@,
            hex_bytes_of(tweaked_pubkey@).subrange(1, 33),
            message.spec_bytes(),
            hex_bytes_of(blinded_nonce@).subrange(1, 33),
            hex_bytes_of(signature@),
        )),
{
    if point_from_hex(tweaked_pubkey).is_none() {
        return Err(VerifyError::InvalidPubkey);
    }
    if scalar_from_hex(signature).is_some() && point_from_hex(blinded_nonce).is_none() {
        return Err(VerifyError::InvalidNonce);
    }
    Ok(verify_well_formed(signature, blinded_nonce, message, tweaked_pubkey))
}

/// The public nonce of a blinding request, which must be the hex of an
/// x-only point.
pub fn blind_nonce(nonce: &str) -> (r: [u8; 32])
    requires
        is_xonly_hex(nonce@),
    ensures
        r@ == hex_bytes_of(nonce@),
{
    xonly_point_from_hex(nonce).unwrap()
}

/// The nonce of `blind_nonce`, or `None` when the text is not the hex of an
/// x-only point.
pub fn parse_blind_nonce(nonce: &str) -> (r: Option<[u8; 32]>)
    ensures
        r is None <==> !is_xonly_hex(nonce@),
        r matches Some(b) ==> b@ == hex_bytes_of(nonce@),
{
    if xonly_point_from_hex(nonce).is_none() {
        return None;
    }
    Some(blind_nonce(nonce))
}

/// The four scalars of an unblinding request.
pub struct UnblindRequest {
    pub blind_signature: [u8; 32],
    pub alpha: [u8; 32],
    pub challenge: [u8; 32],
    pub tweak: [u8; 32],
}

/// Which scalar of an unblinding request failed to parse (they are checked
/// in the order of the fields).
pub enum UnblindRequestError {
    InvalidBlindSignature,
    InvalidAlpha,
    InvalidChallenge,
    InvalidTweak,
}

/// The unblinding request from four hex scalars.
pub fn unblind_request(blindsig: &str, alpha: &str, challenge: &str, tweak: &str) -> (r:
    UnblindRequest)
    requires
        is_scalar_hex(blindsig@),
        is_scalar_hex(alpha@),
        is_scalar_hex(challenge@),
        is_scalar_hex(tweak@),
    ensures
        r.blind_signature@ == hex_bytes_of(blindsig@),
        r.alpha@ == hex_bytes_of(alpha@),
        r.challenge@ == hex_bytes_of(challenge@),
        r.tweak@ == hex_bytes_of(tweak@),
{
    UnblindRequest {
        blind_signature: scalar_from_hex(blindsig).unwrap(),
        alpha: scalar_from_hex(alpha).unwrap(),
        challenge: scalar_from_hex(challenge).unwrap(),
        tweak: scalar_from_hex(tweak).unwrap(),
    }
}

/// The request of `unblind_request`, or the first scalar that is not hex of
/// a scalar.
pub fn parse_unblind_request(blindsig: &str, alpha: &str, challenge: &str, tweak: &str) -> (r:
    Result<UnblindRequest, UnblindRequestError>)
    ensures
        r matches Err(UnblindRequestError::InvalidBlindSignature) <==> !is_scalar_hex(blindsig@),
        r matches Err(UnblindRequestError::InvalidAlpha) <==> is_scalar_hex(blindsig@)
            && !is_scalar_hex(alpha@),
        r matches Err(UnblindRequestError::InvalidChallenge) <==> is_scalar_hex(blindsig@)
            && is_scalar_hex(alpha@) && !is_scalar_hex(challenge@),
        r matches Err(UnblindRequestError::InvalidTweak) <==> is_scalar_hex(blindsig@)
            && is_scalar_hex(alpha@) && is_scalar_hex(challenge@) && !is_scalar_hex(tweak@),
        r matches Ok(req) ==> {
            &&& req.blind_signature@ == hex_bytes_of(blindsig@)
            &&& req.alpha@ == hex_bytes_of(alpha@)
            &&& req.challenge@ == hex_bytes_of(challenge@)
            &&& req.tweak@ == hex_bytes_of(tweak@)
        },
{
    if scalar_from_hex(blindsig).is_none() {
        return Err(UnblindRequestError::InvalidBlindSignature);
    }
    if scalar_from_hex(alpha).is_none() {
        return Err(UnblindRequestError::InvalidAlpha);
    }
    if scalar_from_hex(challenge).is_none() {
        return Err(UnblindRequestError::InvalidChallenge);
    }
    if scalar_from_hex(tweak).is_none() {
        return Err(UnblindRequestError::InvalidTweak);
    }
    Ok(unblind_request(blindsig, alpha, challenge, tweak))
}

} // verus!
