use blind_sig_demo::api::{
    gennonce, issue_nonce, parse_blind_nonce, parse_unblind_request, redeem, sign, signed_reply,
    try_sign, unblind_request, verify, verify_well_formed, LookupOutcome, SignError,
    UnblindRequestError, VerifyError,
};
use blind_sig_demo::keys::server_keypair_of;
use blind_sig_demo::nonces::NonceTable;
use blind_sig_demo::hexcode::encode_hex;
use blind_sig_demo::keys::{fresh_secret_hex, server_keypair};
use schnorr_fun::fun::marker::{NonZero, Secret};
use schnorr_fun::fun::Scalar;
use schnorr_fun::Message;
use std::str::FromStr;

const G_X: &str = "79be667ef9dcbbac55a06295ce870b07029bfcdb2dce28d959f2815b16f81798";

#[test]
fn keypair_with_even_generator_multiple_is_unchanged() {
    let secret = format!("{}01", "00".repeat(31));
    let kp = server_keypair(&secret).unwrap();
    assert_eq!(encode_hex(&kp.public_key), G_X);
    assert_eq!(encode_hex(&kp.secret), secret);
    let two = format!("{}02", "00".repeat(31));
    let kp2 = server_keypair(&two).unwrap();
    assert_eq!(
        encode_hex(&kp2.public_key),
        "c6047f9441ed7d6d3045406e95c07cd85c778e4b8cef3ca7abac09b95c709ee5"
    );
}

#[test]
fn keypair_with_odd_y_negates_the_secret() {
    let six = format!("{}06", "00".repeat(31));
    let kp = server_keypair(&six).unwrap();
    assert_eq!(
        encode_hex(&kp.public_key),
        "fff97bd5755eeea420453a14355235d382f6472f8568a18b2f057a1460297556"
    );
    assert_eq!(
        encode_hex(&kp.secret),
        "fffffffffffffffffffffffffffffffebaaedce6af48a03bbfd25e8cd036413b"
    );
}

#[test]
fn keypair_rejects_bad_secrets() {
    let kp = server_keypair_of(&format!("{}06", "00".repeat(31)));
    assert_eq!(
        encode_hex(&kp.public_key),
        "fff97bd5755eeea420453a14355235d382f6472f8568a18b2f057a1460297556"
    );
    assert!(server_keypair(&"00".repeat(32)).is_none());
    assert!(server_keypair("01").is_none());
    assert!(server_keypair(&"zz".repeat(32)).is_none());
    assert!(server_keypair("fffffffffffffffffffffffffffffffebaaedce6af48a03bbfd25e8cd0364141").is_none());
    // upper case hex is accepted
    assert!(server_keypair(&format!("{}0A", "00".repeat(31))).is_some());
}

#[test]
fn fresh_secret_reads_back() {
    let s1 = fresh_secret_hex();
    let s2 = fresh_secret_hex();
    assert_eq!(s1.len(), 64);
    assert_ne!(s1, s2);
    let kp = server_keypair(&s1).unwrap();
    // re-normalizing the normalized secret changes nothing
    let again = server_keypair(&encode_hex(&kp.secret)).unwrap();
    assert_eq!(again.secret, kp.secret);
    assert_eq!(again.public_key, kp.public_key);
}

#[test]
fn gennonce_hands_out_even_y_nonces() {
    let kp = server_keypair(&format!("{}07", "00".repeat(31))).unwrap();
    let (pair, response) = gennonce(kp.secret);
    let (pair2, _) = gennonce(kp.secret);
    assert_ne!(pair.secret_nonce, pair2.secret_nonce);
    assert_eq!(response.nonce, pair.public_nonce);
    let nonce_kp = server_keypair(&pair.secret_nonce).unwrap();
    assert_eq!(encode_hex(&nonce_kp.public_key), pair.public_nonce);
    assert_eq!(encode_hex(&nonce_kp.secret), pair.secret_nonce);
}

#[allow(deprecated)]
fn signed(message: &[u8]) -> (String, String, String) {
    let schnorr = schnorr_fun::new_with_deterministic_nonces::<sha2::Sha256>();
    let secret = Scalar::<Secret, NonZero>::from_str(&format!("{}2a", "00".repeat(31))).unwrap();
    let keypair = schnorr.new_keypair(secret);
    let sig = schnorr.sign(&keypair, Message::plain("blind-schnorr", message));
    let pubkey = format!("02{}", keypair.public_key());
    let nonce = format!("03{}", sig.R);
    (sig.s.to_string(), nonce, pubkey)
}

#[test]
fn verify_accepts_a_valid_signature() {
    let (s, nonce, pubkey) = signed(b"an event id");
    let r = verify(&s, &nonce, "an event id", &pubkey).ok().unwrap();
    assert!(r.valid);
    let pubkey_odd = format!("03{}", &pubkey[2..]);
    assert!(verify(&s, &nonce, "an event id", &pubkey_odd).ok().unwrap().valid);
}

#[test]
fn verify_rejects_wrong_message_and_tag() {
    let (s, nonce, pubkey) = signed(b"an event id");
    assert!(!verify(&s, &nonce, "another id", &pubkey).ok().unwrap().valid);
    // a signature under the raw message (no tag) does not verify
    let schnorr = schnorr_fun::new_with_deterministic_nonces::<sha2::Sha256>();
    let secret = Scalar::<Secret, NonZero>::from_str(&format!("{}2a", "00".repeat(31))).unwrap();
    let keypair = schnorr.new_keypair(secret);
    let raw = schnorr.sign(&keypair, Message::raw(b"an event id"));
    let raw_nonce = format!("02{}", raw.R);
    assert!(!verify(&raw.s.to_string(), &raw_nonce, "an event id", &pubkey).ok().unwrap().valid);
}

#[test]
fn verify_request_errors() {
    let (s, nonce, pubkey) = signed(b"m");
    assert!(matches!(verify(&s, &nonce, "m", "02ff"), Err(VerifyError::InvalidPubkey)));
    // an unreadable signature is simply invalid, whatever the nonce
    assert!(!verify("nothex", "junk", "m", &pubkey).ok().unwrap().valid);
    assert!(matches!(verify(&s, "junk", "m", &pubkey), Err(VerifyError::InvalidNonce)));
}

#[test]
fn sign_flow_refuses_unknown_nonce() {
    let challenge = "11".repeat(32);
    let req = sign(&challenge, "abcd".to_string());
    assert_eq!(req.public_nonce(), "abcd");
    match req.on_lookup(None) {
        LookupOutcome::Refused(reply) => {
            assert_eq!(reply.signature, "");
            assert_eq!(reply.message, "server refuses to reuse this nonce");
        }
        LookupOutcome::Delete(_) => panic!("a missing nonce must be refused"),
    }
}

#[test]
fn sign_flow_deletes_then_signs() {
    let challenge = "11".repeat(32);
    let secret = format!("{}05", "00".repeat(31));
    let req = try_sign(&challenge, "abcd".to_string()).ok().unwrap();
    let pending = match req.on_lookup(Some(secret.clone())) {
        LookupOutcome::Delete(p) => p,
        LookupOutcome::Refused(_) => panic!("a held nonce must be used"),
    };
    assert_eq!(pending.public_nonce(), "abcd");
    assert!(pending.secret_is_valid());
    let ready = pending.on_delete(true);
    assert_eq!(encode_hex(&ready.challenge()), challenge);
    assert_eq!(encode_hex(&ready.secret_nonce()), secret);
}

#[test]
fn sign_flow_errors() {
    assert!(matches!(try_sign("12", "n".to_string()), Err(SignError::InvalidChallenge)));
    let challenge = "00".repeat(32);
    let req = sign(&challenge, "n".to_string());
    let pending = match req.on_lookup(Some("05".to_string())) {
        LookupOutcome::Delete(p) => p,
        LookupOutcome::Refused(_) => panic!(),
    };
    assert!(!pending.secret_is_valid());
}

#[test]
fn nonce_table_signs_a_nonce_once() {
    let kp = server_keypair_of(&format!("{}07", "00".repeat(31)));
    let mut table = NonceTable::new();
    let first = issue_nonce(&mut table, kp.secret);
    let second = issue_nonce(&mut table, kp.secret);
    assert_ne!(first.nonce, second.nonce);
    let secret = table.lookup(&first.nonce).unwrap();
    let challenge = "11".repeat(32);
    let ready = match redeem(&mut table, sign(&challenge, first.nonce.clone())) {
        Ok(ready) => ready,
        Err(_) => panic!("an issued nonce is served"),
    };
    assert_eq!(encode_hex(&ready.secret_nonce()), secret);
    assert_eq!(encode_hex(&ready.challenge()), challenge);
    assert!(table.lookup(&first.nonce).is_none());
    // a second request with the same nonce is refused, whatever the challenge
    match redeem(&mut table, sign(&"22".repeat(32), first.nonce.clone())) {
        Err(reply) => {
            assert_eq!(reply.signature, "");
            assert_eq!(reply.message, "server refuses to reuse this nonce");
        }
        Ok(_) => panic!("a used nonce must be refused"),
    }
    // the other nonce is untouched
    assert!(table.lookup(&second.nonce).is_some());
    assert!(redeem(&mut table, sign(&challenge, second.nonce.clone())).is_ok());
    assert!(redeem(&mut table, sign(&challenge, "unknown".to_string())).is_err());
}

#[test]
fn nonce_table_delete_removes_every_copy() {
    let mut table = NonceTable::new();
    let kp = server_keypair_of(&format!("{}03", "00".repeat(31)));
    let (pair, _) = gennonce(kp.secret);
    let public = pair.public_nonce.clone();
    let secret = pair.secret_nonce.clone();
    table.insert(pair);
    let (again, _) = gennonce(kp.secret);
    table.insert(blind_sig_demo::keys::NoncePair { secret_nonce: again.secret_nonce, public_nonce: public.clone() });
    assert_eq!(table.lookup(&public).unwrap(), secret);
    table.delete(&public);
    assert!(table.lookup(&public).is_none());
}

#[test]
fn verify_well_formed_answers() {
    let (s, nonce, pubkey) = signed(b"abc");
    assert!(verify_well_formed(&s, &nonce, "abc", &pubkey).valid);
    assert!(!verify_well_formed(&s, &nonce, "abd", &pubkey).valid);
    assert!(!verify_well_formed("nothex", "junk", "abc", &pubkey).valid);
}

#[test]
fn blind_and_unblind_requests_parse() {
    assert_eq!(encode_hex(&parse_blind_nonce(G_X).unwrap()), G_X);
    assert!(parse_blind_nonce(&format!("{}05", "00".repeat(31))).is_none());
    let a = "01".repeat(32);
    let z = "00".repeat(32);
    let req = unblind_request(&a, &z, &a, &z);
    assert_eq!(req.blind_signature, [1u8; 32]);
    assert_eq!(req.alpha, [0u8; 32]);
    assert!(parse_unblind_request(&a, &z, &a, &z).is_ok());
    assert!(matches!(parse_unblind_request("x", &z, &a, &z), Err(UnblindRequestError::InvalidBlindSignature)));
    assert!(matches!(parse_unblind_request(&a, "x", &a, &z), Err(UnblindRequestError::InvalidAlpha)));
    assert!(matches!(parse_unblind_request(&a, &z, "x", &z), Err(UnblindRequestError::InvalidChallenge)));
    assert!(matches!(parse_unblind_request(&a, &z, &a, "x"), Err(UnblindRequestError::InvalidTweak)));
}

#[test]
fn signed_reply_carries_hex() {
    let reply = signed_reply([0xab; 32]);
    assert_eq!(reply.signature, "ab".repeat(32));
    assert_eq!(reply.message, "ok");
}
