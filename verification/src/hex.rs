//! Hexadecimal codec.
//!
//! Decoding accepts both letter cases and fails, without panicking, on text
//! of odd length or with a character outside the hexadecimal digits.
//! Encoding writes lowercase digits; decoding inverts it on every byte
//! sequence.

use vstd::prelude::*;

verus! {

use vstd::string::StringSliceAdditionalSpecFns;

/// A byte that is an ASCII hexadecimal digit, either letter case.
pub open spec fn is_hex_digit(b: u8) -> bool {
    (48 <= b && b <= 57) || (97 <= b && b <= 102) || (65 <= b && b <= 70)
}

/// Numeric value of an ASCII hexadecimal digit byte.
pub open spec fn hex_digit_value(b: u8) -> u8
    recommends
        is_hex_digit(b),
{
    if 48 <= b && b <= 57 {
        (b - 48) as u8
    } else if 97 <= b && b <= 102 {
        (b - 97 + 10) as u8
    } else {
        (b - 65 + 10) as u8
    }
}

/// Lowercase ASCII hexadecimal digit byte for a value below 16.
pub open spec fn hex_digit_char(v: u8) -> u8
    recommends
        v < 16,
{
    if v < 10 {
        (48 + v) as u8
    } else {
        (97 + v - 10) as u8
    }
}

/// Hexadecimal text, given as its UTF-8 bytes, that decodes: the length is
/// even and every byte is a hexadecimal digit.
pub open spec fn hex_decodable(s: Seq<u8>) -> bool {
    s.len() % 2 == 0 && forall|i: int| 0 <= i < s.len() ==> is_hex_digit(#[trigger] s[i])
}

/// The byte written by two hexadecimal digits, high digit first.
pub open spec fn hex_byte(hi: u8, lo: u8) -> u8
    recommends
        is_hex_digit(hi),
        is_hex_digit(lo),
{
    (hex_digit_value(hi) * 16 + hex_digit_value(lo)) as u8
}

/// The bytes denoted by hexadecimal text, given as its UTF-8 bytes.
pub open spec fn hex_decode(s: Seq<u8>) -> Seq<u8>
    recommends
        hex_decodable(s),
{
    Seq::new((s.len() / 2) as nat, |i: int| hex_byte(s[2 * i], s[2 * i + 1]))
}

/// Lowercase hexadecimal text, as UTF-8 bytes, for a byte sequence.
pub open spec fn hex_encode(b: Seq<u8>) -> Seq<u8> {
    Seq::new(
        (b.len() * 2) as nat,
        |i: int|
            if i % 2 == 0 {
                hex_digit_char(b[i / 2] >> 4)
            } else {
                hex_digit_char(b[i / 2] & 0x0f)
            },
    )
}

/// Value of one hexadecimal digit byte; `None` for any other byte.
fn hex_val(b: u8) -> (r: Option<u8>)
    ensures
        match r {
            Some(v) => is_hex_digit(b) && v == hex_digit_value(b) && v < 16,
            None => !is_hex_digit(b),
        },
{
    if 48 <= b && b <= 57 {
        Some(b - 48)
    } else if 97 <= b && b <= 102 {
        Some(b - 97 + 10)
    } else if 65 <= b && b <= 70 {
        Some(b - 65 + 10)
    } else {
        None
    }
}

/// Decodes hexadecimal text. Returns `None`, and never panics, when the
/// length is odd or some character is not a hexadecimal digit; both letter
/// cases are accepted, and the empty string decodes to no bytes.
pub fn parse_hex(hex: &str) -> (r: Option<Vec<u8>>)
    ensures
        match r {
            Some(v) => hex_decodable(hex.spec_bytes()) && v@ == hex_decode(hex.spec_bytes()),
            None => !hex_decodable(hex.spec_bytes()),
        },
{
    let b = hex.as_bytes();
    if b.len() % 2 != 0 {
        return None;
    }
    let mut out: Vec<u8> = Vec::new();
    let mut i: usize = 0;
    while i < b.len()
        invariant
            b@ == hex.spec_bytes(),
            b@.len() % 2 == 0,
            i % 2 == 0,
            i <= b@.len(),
            out@.len() * 2 == i,
            forall|j: int| 0 <= j < i ==> is_hex_digit(#[trigger] b@[j]),
            forall|k: int|
                0 <= k < out@.len() ==> out@[k] == hex_byte(b@[2 * k], b@[2 * k + 1]),
        decreases b@.len() - i,
    {
        let hi = match hex_val(b[i]) {
            Some(v) => v,
            None => {
                return None;
            },
        };
        let lo = match hex_val(b[i + 1]) {
            Some(v) => v,
            None => {
                return None;
            },
        };
        out.push(hi * 16 + lo);
        i = i + 2;
    }
    proof {
        assert(out@ =~= hex_decode(hex.spec_bytes()));
    }
    Some(out)
}

/// One-character string for a value below 16, the lowercase digit.
fn hex_digit_str(v: u8) -> (d: &'static str)
    requires
        v < 16,
    ensures
        d@.len() == 1,
        d@[0] as u8 == hex_digit_char(v),
        '\0' <= d@[0] <= '\u{7f}',
{
    proof {
        reveal_strlit("0");
        reveal_strlit("1");
        reveal_strlit("2");
        reveal_strlit("3");
        reveal_strlit("4");
        reveal_strlit("5");
        reveal_strlit("6");
        reveal_strlit("7");
        reveal_strlit("8");
        reveal_strlit("9");
        reveal_strlit("a");
        reveal_strlit("b");
        reveal_strlit("c");
        reveal_strlit("d");
        reveal_strlit("e");
        reveal_strlit("f");
    }
    match v {
        0 => "0",
        1 => "1",
        2 => "2",
        3 => "3",
        4 => "4",
        5 => "5",
        6 => "6",
        7 => "7",
        8 => "8",
        9 => "9",
        10 => "a",
        11 => "b",
        12 => "c",
        13 => "d",
        14 => "e",
        _ => "f",
    }
}

/// Encodes a byte sequence as lowercase hexadecimal text: two digits for
/// each byte, high digit first.
pub fn encode_hex(bytes: &[u8]) -> (r: String)
    ensures
        r@.len() == hex_encode(bytes@).len(),
        forall|i: int| 0 <= i < r@.len() ==> #[trigger] r@[i] as u8 == hex_encode(bytes@)[i],
        vstd::utf8::encode_utf8(r@) == hex_encode(bytes@),
{
    let mut r = String::new();
    let mut i: usize = 0;
    while i < bytes.len()
        invariant
            r@.len() == 2 * i,
            i <= bytes@.len(),
            forall|j: int| 0 <= j < r@.len() ==> #[trigger] r@[j] as u8 == hex_encode(bytes@)[j],
            forall|j: int| 0 <= j < r@.len() ==> '\0' <= #[trigger] r@[j] <= '\u{7f}',
        decreases bytes@.len() - i,
    {
        let x = bytes[i];
        proof {
            assert(x >> 4 < 16) by (bit_vector);
            assert(x & 0x0f < 16) by (bit_vector);
        }
        r.append(hex_digit_str(x >> 4));
        r.append(hex_digit_str(x & 0x0f));
        i = i + 1;
    }
    proof {
        assert(vstd::utf8::is_ascii_chars(r@));
        vstd::utf8::is_ascii_chars_encode_utf8(r@);
        assert(vstd::utf8::encode_utf8(r@) =~= hex_encode(bytes@));
    }
    r
}

/// Law: decoding inverts encoding. For every byte sequence, the lowercase
/// hexadecimal text written for it decodes, and decodes back to it.
pub proof fn lemma_hex_round_trip(b: Seq<u8>)
    ensures
        hex_decodable(hex_encode(b)),
        hex_decode(hex_encode(b)) == b,
{
    assert forall|i: int| 0 <= i < hex_encode(b).len() implies is_hex_digit(
        #[trigger] hex_encode(b)[i],
    ) by {
        let x = b[i / 2];
        assert(x >> 4 < 16) by (bit_vector);
        assert(x & 0x0f < 16) by (bit_vector);
    }
    assert forall|i: int| 0 <= i < b.len() implies #[trigger] hex_decode(hex_encode(b))[i]
        == b[i] by {
        let x = b[i];
        assert(x >> 4 < 16) by (bit_vector);
        assert(x & 0x0f < 16) by (bit_vector);
        assert(hex_encode(b)[2 * i] == hex_digit_char(x >> 4));
        assert(hex_encode(b)[2 * i + 1] == hex_digit_char(x & 0x0f));
        assert((x >> 4) * 16 + (x & 0x0f) == x) by (bit_vector);
    }
    assert(hex_decode(hex_encode(b)) =~= b);
}

} // verus!
