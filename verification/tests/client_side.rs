use blind_sig_demo::client::{
    blinding_inputs, event_for_message, message_event, parse_blinding_inputs,
    parse_unblind_inputs, unblind_inputs, BlindingInputError, UnblindInputError,
};
use blind_sig_demo::signer::{
    parse_signature_request, poll_step, signature_request, PollStep, RequestError,
};

const G_X: &str = "79be667ef9dcbbac55a06295ce870b07029bfcdb2dce28d959f2815b16f81798";
// no curve point has x = 5
const NOT_X: &str = "0000000000000000000000000000000000000000000000000000000000000005";

#[test]
fn blinding_inputs_parse() {
    let two_x = "c6047f9441ed7d6d3045406e95c07cd85c778e4b8cef3ca7abac09b95c709ee5";
    let inputs = parse_blinding_inputs(G_X, two_x, "00ff10").ok().unwrap();
    assert_eq!(hex::encode(inputs.nonce), G_X);
    assert_eq!(hex::encode(inputs.pubkey), two_x);
    assert_eq!(inputs.message, vec![0x00, 0xff, 0x10]);
}

#[test]
fn blinding_inputs_errors_in_order() {
    assert!(matches!(
        parse_blinding_inputs(NOT_X, "zz", "z"),
        Err(BlindingInputError::InvalidNonce)
    ));
    assert!(matches!(
        parse_blinding_inputs(G_X, NOT_X, "z"),
        Err(BlindingInputError::InvalidPubkey)
    ));
    assert!(matches!(
        parse_blinding_inputs(G_X, G_X, "abc"),
        Err(BlindingInputError::InvalidMessage)
    ));
}

#[test]
fn unblind_inputs_parse() {
    let inputs = parse_unblind_inputs(&"00".repeat(32), &"01".repeat(32)).ok().unwrap();
    assert_eq!(inputs.blinded_signature, [0u8; 32]);
    assert_eq!(inputs.alpha, [1u8; 32]);
    assert!(matches!(
        parse_unblind_inputs("00", &"01".repeat(32)),
        Err(UnblindInputError::InvalidSignature)
    ));
    assert!(matches!(
        parse_unblind_inputs(&"00".repeat(32), &"00".repeat(32)),
        Err(UnblindInputError::InvalidAlpha)
    ));
}

#[test]
fn signature_request_parse() {
    let req = parse_signature_request(G_X, &"02".repeat(32)).ok().unwrap();
    assert_eq!(hex::encode(req.public_nonce), G_X);
    assert_eq!(req.blind_challenge, [2u8; 32]);
    assert!(matches!(
        parse_signature_request(NOT_X, "x"),
        Err(RequestError::InvalidNonce)
    ));
    assert!(matches!(
        parse_signature_request(G_X, &"ff".repeat(32)),
        Err(RequestError::InvalidChallenge)
    ));
}

#[test]
fn polling_waits_or_answers() {
    assert!(matches!(poll_step(None), PollStep::Wait));
    match poll_step(Some(Some([9u8; 32]))) {
        PollStep::Respond(resp) => assert_eq!(resp.signature, [9u8; 32]),
        _ => panic!("a signed request is answered"),
    }
}

#[test]
fn event_for_message_is_an_untagged_note() {
    let ev = event_for_message(G_X, String::new(), 0).unwrap();
    assert_eq!(ev.id, "1d60156c7d5c3d752ed401ba085300ea90869712b4acc88edff9601de4c0b15c");
    assert_eq!(ev.kind, 1);
    assert!(ev.tags.is_empty());
    assert!(event_for_message(NOT_X, "hi".to_string(), 0).is_none());
}

#[test]
fn message_event_id_is_the_hash_hex() {
    let ev = message_event(G_X, "hi".to_string(), 1700000000);
    assert_eq!(ev.id, "33c758466a465ce9df004b6d6e3abb039d593277784c276c49725a622794eca0");
    assert_eq!(hex::encode(&ev.hash_bytes), ev.id);
}

#[test]
fn checked_inputs_read_back() {
    let two_x = "c6047f9441ed7d6d3045406e95c07cd85c778e4b8cef3ca7abac09b95c709ee5";
    let inputs = blinding_inputs(G_X, two_x, "AB");
    assert_eq!(inputs.message, vec![0xab]);
    let un = unblind_inputs(&"00".repeat(32), &"02".repeat(32));
    assert_eq!(un.alpha, [2u8; 32]);
    let req = signature_request(two_x, &"03".repeat(32));
    assert_eq!(hex::encode(req.public_nonce), two_x);
    assert_eq!(req.blind_challenge, [3u8; 32]);
}
