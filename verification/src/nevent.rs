//! NIP-19 `nevent` references: the TLV record of an event id with a relay
//! hint, bech32-encoded, and the njump.me link built from it.
use vstd::prelude::*;
use crate::hexcode::{decode_hex, hex_bytes_of, hex_decodable, hex_of, lemma_hex_round_trip};
use vstd::string::StringSliceAdditionalSpecFns;
use bech32::{Bech32, Hrp};

verus! {

/// The relay named as a hint in event links.
pub const RELAY_HINT: &'static str = "wss://relay.damus.io";

/// A human-readable part that `Hrp::parse` accepts: 1 to 83 characters,
/// each printable ASCII (33 to 126), not mixing lower and upper case.
pub open spec fn valid_hrp(h: Seq<char>) -> bool {
    &&& 1 <= h.len() <= 83
    &&& forall|i: int| 0 <= i < h.len() ==> 33 <= (#[trigger] h[i]) as u32 <= 126
    &&& !((exists|i: int| 0 <= i < h.len() && 'a' <= #[trigger] h[i] <= 'z') && (exists|j: int|
        0 <= j < h.len() && 'A' <= #[trigger] h[j] <= 'Z'))
}

/// The length of the bech32 text of `data_len` bytes: the hrp, the
/// separator, one character per 5 bits (rounded up) and 6 checksum
/// characters.
pub open spec fn bech32_length(hrp_len: int, data_len: int) -> int {
    hrp_len + 1 + (8 * data_len + 4) / 5 + 6
}

/// The lowercase bech32 text (BIP-173 checksum) of `data` under `hrp`.
pub uninterp spec fn bech32_text(hrp: Seq<char>, data: Seq<u8>) -> Seq<char>;

/// `bech32::encode::<Bech32>` with the parsed `hrp`: fails exactly when the
/// text would exceed the 1023 characters that the checksum allows.
#[verifier::external_body]
pub(crate) fn bech32_encode(hrp: &str, data: &[u8]) -> (r: Option<String>)
    requires
        valid_hrp(hrp@),
    ensures
        r is Some <==> bech32_length(hrp@.len() as int, data@.len() as int) <= 1023,
        r matches Some(s) ==> s@ == bech32_text(hrp@, data@),
{
    bech32::encode::<Bech32>(Hrp::parse(hrp).unwrap(), data).ok()
}

/// The TLV record of a `nevent`: type 0 with length 32 and the event id,
/// then type 1 with the relay's length (as a byte) and the relay.
pub open spec fn nevent_tlv_of(event_id: Seq<u8>, relay: Seq<u8>) -> Seq<u8> {
    seq![0u8, 32u8] + event_id + seq![1u8, (relay.len() % 256) as u8] + relay
}

/// The `nevent` record carries the event id and the relay unchanged: type
/// 0, length 32, then the id byte for byte; type 1, the relay's length (as a
/// byte), then the relay byte for byte; nothing else.
pub proof fn lemma_tlv_layout(event_id: Seq<u8>, relay: Seq<u8>)
    ensures
        nevent_tlv_of(event_id, relay).len() == 4 + event_id.len() + relay.len(),
        nevent_tlv_of(event_id, relay)[0] == 0u8,
        nevent_tlv_of(event_id, relay)[1] == 32u8,
        nevent_tlv_of(event_id, relay).subrange(2, 2 + event_id.len() as int) == event_id,
        nevent_tlv_of(event_id, relay)[2 + event_id.len() as int] == 1u8,
        nevent_tlv_of(event_id, relay)[3 + event_id.len() as int] as int == relay.len() as int % 256,
        nevent_tlv_of(event_id, relay).subrange(
            4 + event_id.len() as int,
            4 + event_id.len() as int + relay.len() as int,
        ) == relay,
{
    let t = nevent_tlv_of(event_id, relay);
    let n = event_id.len() as int;
    assert(t.subrange(2, 2 + n) =~= event_id);
    assert(t.subrange(4 + n, 4 + n + relay.len()) =~= relay);
}

/// Builds the TLV record of a `nevent`.
pub fn nevent_tlv(event_id: &[u8], relay: &[u8]) -> (r: Vec<u8>)
    ensures
        r@ == nevent_tlv_of(event_id@, relay@),
{
    let mut tlv: Vec<u8> = Vec::new();
    tlv.push(0u8);
    tlv.push(32u8);
    tlv.extend_from_slice(event_id);
    tlv.push(1u8);
    let relay_len: u8 = (relay.len() % 256) as u8;
    tlv.push(relay_len);
    tlv.extend_from_slice(relay);
    assert(tlv@ =~= nevent_tlv_of(event_id@, relay@));
    tlv
}

/// Why no link could be made for an event.
pub enum LinkError {
    /// The event id is not hex.
    InvalidEventId,
    /// The `nevent` text would be longer than bech32 allows.
    TooLong,
}

/// The njump.me link to an event: its hex id decoded, put in a `nevent`
/// TLV record with the relay hint, and bech32-encoded under `nevent`. The id
/// must be hex and the record short enough for bech32.
pub fn event_link(event_id_hex: &str, relay: &str) -> (r: String)
    requires
        hex_decodable(event_id_hex@),
        bech32_length(
            6,
            nevent_tlv_of(hex_bytes_of(event_id_hex@), relay.spec_bytes()).len() as int,
        ) <= 1023,
    ensures
        r@ == "https://njump.me/"@ + bech32_text(
            "nevent"@,
            nevent_tlv_of(hex_bytes_of(event_id_hex@), relay.spec_bytes()),
        ),
{
    let id = decode_hex(event_id_hex).unwrap();
    let tlv = nevent_tlv(id.as_slice(), relay.as_bytes());
    let hrp = "nevent";
    proof {
        reveal_strlit("nevent");
        assert(hrp@ =~= seq!['n', 'e', 'v', 'e', 'n', 't']);
        assert(!exists|j: int| 0 <= j < hrp@.len() && 'A' <= #[trigger] hrp@[j] <= 'Z');
    }
    let text = bech32_encode(hrp, tlv.as_slice()).unwrap();
    let mut url = String::from_str("https://njump.me/");
    url.append(text.as_str());
    url
}

/// The link of `event_link`, or why it cannot be made.
pub fn nevent_link(event_id_hex: &str, relay: &str) -> (r: Result<String, LinkError>)
    ensures
        r matches Err(LinkError::InvalidEventId) <==> !hex_decodable(event_id_hex@),
        r matches Err(LinkError::TooLong) <==> hex_decodable(event_id_hex@) && bech32_length(
            6,
            nevent_tlv_of(hex_bytes_of(event_id_hex@), relay.spec_bytes()).len() as int,
        ) > 1023,
        r matches Ok(url) ==> url@ == "https://njump.me/"@ + bech32_text(
            "nevent"@,
            nevent_tlv_of(hex_bytes_of(event_id_hex@), relay.spec_bytes()),
        ),
{
    let id = match decode_hex(event_id_hex) {
        None => return Err(LinkError::InvalidEventId),
        Some(id) => id,
    };
    let tlv = nevent_tlv(id.as_slice(), relay.as_bytes());
    let hrp = "nevent";
    proof {
        reveal_strlit("nevent");
        assert(hrp@ =~= seq!['n', 'e', 'v', 'e', 'n', 't']);
        assert(!exists|j: int| 0 <= j < hrp@.len() && 'A' <= #[trigger] hrp@[j] <= 'Z');
    }
    if bech32_encode(hrp, tlv.as_slice()).is_none() {
        return Err(LinkError::TooLong);
    }
    Ok(event_link(event_id_hex, relay))
}

/// Every event id (the hex of 32 hash bytes) gets a link: it decodes, and
/// with a relay hint of at most 595 bytes the `nevent` text fits in bech32.
pub proof fn lemma_event_link_fits(hash: Seq<u8>, relay: Seq<u8>)
    requires
        hash.len() == 32,
        relay.len() <= 595,
    ensures
        hex_decodable(hex_of(hash)),
        bech32_length(6, nevent_tlv_of(hex_bytes_of(hex_of(hash)), relay).len() as int) <= 1023,
{
    lemma_hex_round_trip(hash);
    assert(nevent_tlv_of(hex_bytes_of(hex_of(hash)), relay).len() == 36 + relay.len());
}

/// The HTML anchor that opens a link in a new tab.
pub fn link_html(url: &str) -> (r: String)
    ensures
        r@ == "<a href=\""@ + url@ + "\" target=\"_blank\">View on Nostr</a>"@,
{
    let mut html = String::from_str("<a href=\"");
    html.append(url);
    html.append("\" target=\"_blank\">View on Nostr</a>");
    html
}

} // verus!
