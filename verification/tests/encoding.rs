use blind_sig_demo::hexcode::encode_hex;
use blind_sig_demo::json::{list_of_lists_json, string_list_json};
use blind_sig_demo::nevent::{event_link, link_html, nevent_link, nevent_tlv, LinkError, RELAY_HINT};

#[test]
fn hex_encoding_is_lowercase_two_digits_per_byte() {
    assert_eq!(encode_hex(&[0x00, 0x0f, 0xa0, 0xff, 0x12]), "000fa0ff12");
    assert_eq!(encode_hex(&[]), "");
}

#[test]
fn string_list_json_escapes_like_serde_json() {
    let items = vec![
        "plain".to_string(),
        "quote\"back\\slash".to_string(),
        "tab\tnl\ncr\rbs\u{8}ff\u{c}".to_string(),
        "ctl\u{1}\u{1f}del\u{7f}é".to_string(),
    ];
    assert_eq!(
        string_list_json(&items),
        "[\"plain\",\"quote\\\"back\\\\slash\",\"tab\\tnl\\ncr\\rbs\\bff\\f\",\"ctl\\u0001\\u001fdel\u{7f}é\"]"
    );
    assert_eq!(string_list_json(&Vec::new()), "[]");
}

#[test]
fn list_of_lists_json_is_compact() {
    let tags = vec![
        vec!["e".to_string(), "abc".to_string()],
        vec![],
        vec!["p".to_string()],
    ];
    assert_eq!(list_of_lists_json(&tags), "[[\"e\",\"abc\"],[],[\"p\"]]");
    assert_eq!(list_of_lists_json(&Vec::new()), "[]");
}

#[test]
fn nevent_tlv_layout() {
    let id = [7u8; 32];
    let tlv = nevent_tlv(&id, b"wss://r");
    let mut expected = vec![0u8, 32];
    expected.extend_from_slice(&id);
    expected.push(1);
    expected.push(7);
    expected.extend_from_slice(b"wss://r");
    assert_eq!(tlv, expected);
}

#[test]
fn nevent_link_of_event_id() {
    let id = "33e692704a3c0234eaae5739e3286d334c9f10276771460759ac2a1c30bd8d5c";
    let url = nevent_link(id, RELAY_HINT).ok().unwrap();
    assert_eq!(
        url,
        "https://njump.me/nevent1qqsr8e5jwp9rcq35a2h9ww0r9pknxnylzqnkwu2xqav6c2suxz7c6hqpz3mhxue69uhhyetvv9ujuerpd46hxtnfdu0myc5s"
    );
    let upper = "000102030405060708090A0B0C0D0E0F101112131415161718191A1B1C1D1E1F";
    assert_eq!(
        nevent_link(upper, RELAY_HINT).ok().unwrap(),
        "https://njump.me/nevent1qqsqqqgzqvzq2ps8pqys5zcvp58q7yq3zgf3g9gkzuvpjxsmrsw3u8cpz3mhxue69uhhyetvv9ujuerpd46hxtnfduqx3h73"
    );
}

#[test]
fn nevent_link_rejects_bad_ids_and_long_records() {
    assert!(matches!(nevent_link("abc", RELAY_HINT), Err(LinkError::InvalidEventId)));
    assert!(matches!(nevent_link("zz", RELAY_HINT), Err(LinkError::InvalidEventId)));
    let long_relay = "r".repeat(600);
    let id = "00".repeat(32);
    assert!(matches!(nevent_link(&id, &long_relay), Err(LinkError::TooLong)));
    let longest_relay = "r".repeat(595);
    assert!(nevent_link(&id, &longest_relay).is_ok());
}

#[test]
fn link_html_anchor() {
    assert_eq!(
        link_html("https://njump.me/x"),
        "<a href=\"https://njump.me/x\" target=\"_blank\">View on Nostr</a>"
    );
}

#[test]
fn event_link_of_well_formed_id() {
    let id = "33e692704a3c0234eaae5739e3286d334c9f10276771460759ac2a1c30bd8d5c";
    assert_eq!(
        event_link(id, RELAY_HINT),
        "https://njump.me/nevent1qqsr8e5jwp9rcq35a2h9ww0r9pknxnylzqnkwu2xqav6c2suxz7c6hqpz3mhxue69uhhyetvv9ujuerpd46hxtnfdu0myc5s"
    );
}
