use blind_sig_demo::hexcode::encode_hex;
use blind_sig_demo::nostr::{
    signature_from_hex, signature_of_hex, xonly_of, Signature, SignatureError, UnsignedEvent,
};

fn g_x() -> [u8; 32] {
    let mut x = [0u8; 32];
    x.copy_from_slice(
        &hex::decode("79be667ef9dcbbac55a06295ce870b07029bfcdb2dce28d959f2815b16f81798").unwrap(),
    );
    x
}

#[test]
fn event_id_hashes_the_nip01_commitment() {
    let tags = vec![
        vec!["e".to_string(), "abc".to_string()],
        vec!["p".to_string(), "x\"y".to_string()],
    ];
    let content = "hello\n\"world\"\u{1}é".to_string();
    let ev = UnsignedEvent::new_unsigned(g_x(), 1, tags.clone(), content.clone(), 1700000000);
    assert_eq!(ev.id, "33e692704a3c0234eaae5739e3286d334c9f10276771460759ac2a1c30bd8d5c");
    assert_eq!(encode_hex(&ev.hash_bytes), ev.id);
    assert_eq!(ev.pubkey, g_x());
    assert_eq!(ev.kind, 1);
    assert_eq!(ev.created_at, 1700000000);
    assert_eq!(ev.tags, tags);
    assert_eq!(ev.content, content);
}

#[test]
fn event_id_of_empty_event() {
    let ev = UnsignedEvent::new_unsigned(g_x(), 0, Vec::new(), String::new(), 0);
    assert_eq!(ev.id, "438633166bd72a6b099ca89b06018a96fc9a175ce81b44a853b1242fcca7ae0b");
    assert_eq!(ev.hash_bytes.len(), 32);
}

#[test]
fn add_signature_keeps_the_event() {
    let ev = UnsignedEvent::new_unsigned(g_x(), 1, vec![vec!["t".to_string()]], "hi".to_string(), 5);
    let id = ev.id.clone();
    let sig = Signature { r: [3u8; 32], s: [4u8; 32] };
    let signed = ev.add_signature(sig);
    assert_eq!(signed.id, id);
    assert_eq!(signed.pubkey, g_x());
    assert_eq!(signed.kind, 1);
    assert_eq!(signed.created_at, 5);
    assert_eq!(signed.tags, vec![vec!["t".to_string()]]);
    assert_eq!(signed.content, "hi");
    assert_eq!(signed.sig.r, [3u8; 32]);
    assert_eq!(signed.sig.s, [4u8; 32]);
}

#[test]
fn signature_from_hex_takes_the_nonce_x_coordinate() {
    let nonce = "0379be667ef9dcbbac55a06295ce870b07029bfcdb2dce28d959f2815b16f81798";
    let s = "00000000000000000000000000000000000000000000000000000000000000ff";
    let sig = signature_from_hex(s, nonce).ok().unwrap();
    assert_eq!(sig.r, g_x());
    let mut expected_s = [0u8; 32];
    expected_s[31] = 0xff;
    assert_eq!(sig.s, expected_s);
}

#[test]
fn signature_from_hex_errors() {
    let nonce = "0279be667ef9dcbbac55a06295ce870b07029bfcdb2dce28d959f2815b16f81798";
    // prefix 04 is not a compressed point
    let bad_nonce = "0479be667ef9dcbbac55a06295ce870b07029bfcdb2dce28d959f2815b16f81798";
    let s = "01".repeat(32);
    assert!(matches!(signature_from_hex(&s, bad_nonce), Err(SignatureError::InvalidNonce)));
    assert!(matches!(signature_from_hex("xyz", bad_nonce), Err(SignatureError::InvalidNonce)));
    // the group order itself is not a scalar
    let order = "fffffffffffffffffffffffffffffffebaaedce6af48a03bbfd25e8cd0364141";
    assert!(matches!(signature_from_hex(order, nonce), Err(SignatureError::InvalidScalar)));
    // zero is a valid signature scalar
    assert!(signature_from_hex(&"00".repeat(32), nonce).is_ok());
}

#[test]
fn xonly_drops_the_prefix() {
    let mut p = [0u8; 33];
    for i in 0..33 {
        p[i] = i as u8;
    }
    let x = xonly_of(&p);
    for i in 0..32 {
        assert_eq!(x[i], (i + 1) as u8);
    }
}

#[test]
fn signature_of_hex_reads_both_parts() {
    let nonce = "0279be667ef9dcbbac55a06295ce870b07029bfcdb2dce28d959f2815b16f81798";
    let sig = signature_of_hex(&"05".repeat(32), nonce);
    assert_eq!(sig.r, g_x());
    assert_eq!(sig.s, [5u8; 32]);
}
