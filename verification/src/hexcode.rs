//! Lowercase hexadecimal encoding and the hex decoding used throughout the
//! protocol (scalars, points, event ids and message bytes travel as hex).
use vstd::prelude::*;

verus! {

/// The lowercase hex digit for a nibble.
pub open spec fn hex_char(n: int) -> char {
    if n == 0 { '0' }
    else if n == 1 { '1' }
    else if n == 2 { '2' }
    else if n == 3 { '3' }
    else if n == 4 { '4' }
    else if n == 5 { '5' }
    else if n == 6 { '6' }
    else if n == 7 { '7' }
    else if n == 8 { '8' }
    else if n == 9 { '9' }
    else if n == 10 { 'a' }
    else if n == 11 { 'b' }
    else if n == 12 { 'c' }
    else if n == 13 { 'd' }
    else if n == 14 { 'e' }
    else { 'f' }
}

/// A character accepted as a hex digit (either case).
pub open spec fn is_hex_char(c: char) -> bool {
    ('0' <= c && c <= '9') || ('a' <= c && c <= 'f') || ('A' <= c && c <= 'F')
}

/// The value of a hex digit.
pub open spec fn hex_value(c: char) -> int {
    if '0' <= c && c <= '9' {
        c as int - '0' as int
    } else if 'a' <= c && c <= 'f' {
        c as int - 'a' as int + 10
    } else {
        c as int - 'A' as int + 10
    }
}

/// Two lowercase hex digits per byte, high nibble first.
pub open spec fn hex_of(bytes: Seq<u8>) -> Seq<char> {
    Seq::new(
        2 * bytes.len(),
        |i: int|
            if i % 2 == 0 {
                hex_char(bytes[i / 2] as int / 16)
            } else {
                hex_char(bytes[i / 2] as int % 16)
            },
    )
}

/// A string that decodes as hex: an even number of hex digits.
pub open spec fn hex_decodable(s: Seq<char>) -> bool {
    &&& s.len() % 2 == 0
    &&& forall|i: int| 0 <= i < s.len() ==> is_hex_char(#[trigger] s[i])
}

/// The bytes that a hex string denotes, two digits per byte.
pub open spec fn hex_bytes_of(s: Seq<char>) -> Seq<u8> {
    Seq::new(
        s.len() / 2,
        |i: int| (16 * hex_value(s[2 * i]) + hex_value(s[2 * i + 1])) as u8,
    )
}

/// The one-character string of a nibble's lowercase hex digit.
fn hex_digit(n: u8) -> (r: &'static str)
    requires
        n < 16,
    ensures
        r@ == seq![hex_char(n as int)],
{
    proof {
        reveal_strlit("0");
        reveal_strlit("1");
        reveal_strlit("2");
        reveal_strlit("3");
        reveal_strlit("4");
        reveal_strlit("5");
        reveal_strlit("6");
        reveal_strlit("7");
        reveal_strlit("8");
        reveal_strlit("9");
        reveal_strlit("a");
        reveal_strlit("b");
        reveal_strlit("c");
        reveal_strlit("d");
        reveal_strlit("e");
        reveal_strlit("f");
    }
    if n == 0 { "0" }
    else if n == 1 { "1" }
    else if n == 2 { "2" }
    else if n == 3 { "3" }
    else if n == 4 { "4" }
    else if n == 5 { "5" }
    else if n == 6 { "6" }
    else if n == 7 { "7" }
    else if n == 8 { "8" }
    else if n == 9 { "9" }
    else if n == 10 { "a" }
    else if n == 11 { "b" }
    else if n == 12 { "c" }
    else if n == 13 { "d" }
    else if n == 14 { "e" }
    else { "f" }
}

/// Encodes bytes as lowercase hex, the way keys, nonces, scalars and
/// event ids are displayed.
pub fn encode_hex(bytes: &[u8]) -> (r: String)
    ensures
        r@ == hex_of(bytes@),
{
    let mut out = String::new();
    let n = bytes.len();
    for i in 0..n
        invariant
            n == bytes@.len(),
            out@ == hex_of(bytes@.subrange(0, i as int)),
    {
        let b = bytes[i];
        let ghost before = out@;
        out.append(hex_digit(b / 16));
        out.append(hex_digit(b % 16));
        assert(out@ =~= hex_of(bytes@.subrange(0, i + 1))) by {
            let next = bytes@.subrange(0, i + 1);
            assert forall|k: int| 0 <= k < 2 * i implies out@[k] == hex_of(next)[k] by {
                assert(next[k / 2] == bytes@.subrange(0, i as int)[k / 2]);
            }
        }
    }
    assert(bytes@.subrange(0, n as int) =~= bytes@);
    out
}

/// Hex-decodes a string (`hex::decode`): succeeds exactly on an even number
/// of hex digits of either case, giving one byte per pair of digits.
#[verifier::external_body]
pub(crate) fn decode_hex(s: &str) -> (r: Option<Vec<u8>>)
    ensures
        r is Some <==> hex_decodable(s@),
        r matches Some(v) ==> v@ == hex_bytes_of(s@),
{
    hex::decode(s).ok()
}

/// Decoding the lowercase hex encoding of any bytes gives those bytes back.
pub proof fn lemma_hex_round_trip(bytes: Seq<u8>)
    ensures
        hex_decodable(hex_of(bytes)),
        hex_bytes_of(hex_of(bytes)) == bytes,
{
    let h = hex_of(bytes);
    assert forall|i: int| 0 <= i < h.len() implies is_hex_char(#[trigger] h[i]) by {
        let b = bytes[i / 2] as int;
        assert(0 <= b / 16 < 16);
    }
    assert forall|i: int| 0 <= i < bytes.len() implies #[trigger] hex_bytes_of(h)[i] == bytes[i] by {
        let b = bytes[i] as int;
        assert((2 * i) / 2 == i);
        assert((2 * i + 1) / 2 == i);
        assert((2 * i) % 2 == 0);
        assert((2 * i + 1) % 2 == 1);
        assert(hex_value(hex_char(b / 16)) == b / 16);
        assert(hex_value(hex_char(b % 16)) == b % 16);
    }
    assert(hex_bytes_of(h) =~= bytes);
}

/// Hex encoding works byte by byte: the encoding of two byte strings put
/// together is the two encodings put together, and each byte gives two
/// lowercase digits, the high nibble first.
pub proof fn lemma_hex_concat(a: Seq<u8>, b: Seq<u8>, x: u8)
    ensures
        hex_of(a + b) == hex_of(a) + hex_of(b),
        hex_of(seq![x]) == seq![hex_char(x as int / 16), hex_char(x as int % 16)],
{
    let l = hex_of(a + b);
    let r = hex_of(a) + hex_of(b);
    assert forall|i: int| 0 <= i < l.len() implies l[i] == r[i] by {
        if i < 2 * a.len() {
            assert((a + b)[i / 2] == a[i / 2]);
        } else {
            let j = i - 2 * a.len();
            assert(i / 2 == a.len() + j / 2);
            assert(i % 2 == j % 2);
            assert((a + b)[i / 2] == b[j / 2]);
        }
    }
    assert(l =~= r);
    assert(hex_of(seq![x]) =~= seq![hex_char(x as int / 16), hex_char(x as int % 16)]);
}

} // verus!
