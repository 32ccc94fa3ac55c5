//! The hex byte-string codec: encoding is total and lowercase, decoding
//! fails on odd length or a non-hex character.

use vstd::prelude::*;
use vstd::string::*;

verus! {

/// The sixteen lowercase hex digits, in value order.
pub open spec fn hex_digits() -> Seq<char> {
    "0123456789abcdef"@
}

/// The digit character for a nibble.
pub open spec fn hex_char_of(n: u8) -> char
    recommends
        n < 16,
{
    hex_digits()[n as int]
}

/// The lowercase hex spelling of a byte sequence: two digits per byte,
/// high nibble first.
pub open spec fn hex_of(b: Seq<u8>) -> Seq<char> {
    Seq::new(
        (2 * b.len()) as nat,
        |i: int| if i % 2 == 0 { hex_char_of(b[i / 2] / 16) } else { hex_char_of(b[i / 2] % 16) },
    )
}

/// Whether a character is a hex digit (either case).
pub open spec fn is_hex_digit(c: char) -> bool {
    (48 <= c as u32 <= 57) || (97 <= c as u32 <= 102) || (65 <= c as u32 <= 70)
}

/// The value of a hex digit character; zero on anything else.
pub open spec fn digit_val(c: char) -> u8 {
    if 48 <= c as u32 <= 57 {
        (c as u32 - 48) as u8
    } else if 97 <= c as u32 <= 102 {
        (c as u32 - 87) as u8
    } else if 65 <= c as u32 <= 70 {
        (c as u32 - 55) as u8
    } else {
        0
    }
}

/// Whether a character sequence is well-formed hex: even length, all digits.
pub open spec fn is_hex_seq(s: Seq<char>) -> bool {
    &&& s.len() % 2 == 0
    &&& forall|i: int| 0 <= i < s.len() ==> is_hex_digit(#[trigger] s[i])
}

/// The bytes a hex character sequence spells, pairing digits high-first.
pub open spec fn hex_bytes_of(s: Seq<char>) -> Seq<u8> {
    Seq::new(
        (s.len() / 2) as nat,
        |i: int| (16 * digit_val(s[2 * i]) + digit_val(s[2 * i + 1])) as u8,
    )
}

/// Every nibble's digit decodes back to the nibble.
proof fn lemma_digit_round_trip(n: u8)
    requires
        n < 16,
    ensures
        is_hex_digit(hex_char_of(n)),
        digit_val(hex_char_of(n)) == n,
{
    reveal_strlit("0123456789abcdef");
}

/// Hex encoding round-trips: what `hex_of` spells, `hex_bytes_of` reads back.
pub proof fn lemma_hex_round_trip(b: Seq<u8>)
    ensures
        is_hex_seq(hex_of(b)),
        hex_bytes_of(hex_of(b)) == b,
{
    assert forall|i: int| 0 <= i < hex_of(b).len() implies is_hex_digit(#[trigger] hex_of(b)[i]) by {
        if i % 2 == 0 {
            lemma_digit_round_trip(b[i / 2] / 16);
        } else {
            lemma_digit_round_trip(b[i / 2] % 16);
        }
    }
    assert forall|i: int| 0 <= i < b.len() implies hex_bytes_of(hex_of(b))[i] == b[i] by {
        lemma_digit_round_trip(b[i] / 16);
        lemma_digit_round_trip(b[i] % 16);
        assert(hex_of(b)[2 * i] == hex_char_of(b[i] / 16));
        assert(hex_of(b)[2 * i + 1] == hex_char_of(b[i] % 16));
    }
    assert(hex_bytes_of(hex_of(b)) =~= b);
}

/// Encode bytes as a lowercase hex string. Always succeeds.
pub fn encode(bytes: &Vec<u8>) -> (r: String)
    ensures
        r@ == hex_of(bytes@),
{
    let digits: &str = "0123456789abcdef";
    proof {
        reveal_strlit("0123456789abcdef");
    }
    let mut out = String::new();
    let mut i: usize = 0;
    while i < bytes.len()
        invariant
            i <= bytes.len(),
            digits@ == hex_digits(),
            digits@.len() == 16,
            out@ =~= hex_of(bytes@).take(2 * i as int),
        decreases bytes.len() - i,
    {
        let byte = bytes[i];
        let hi = (byte / 16) as usize;
        let lo = (byte % 16) as usize;
        out.append(digits.substring_char(hi, hi + 1));
        out.append(digits.substring_char(lo, lo + 1));
        proof {
            assert(out@ =~= hex_of(bytes@).take(2 * (i + 1) as int));
        }
        i += 1;
    }
    proof {
        assert(hex_of(bytes@).take(2 * bytes@.len() as int) =~= hex_of(bytes@));
    }
    out
}

/// The value of one hex digit character, or `None` if it is not one.
fn hex_digit(c: char) -> (r: Option<u8>)
    ensures
        r matches Some(v) ==> is_hex_digit(c) && digit_val(c) == v,
        r is None ==> !is_hex_digit(c),
{
    let u = c as u32;
    if 48 <= u && u <= 57 {
        Some((u - 48) as u8)
    } else if 97 <= u && u <= 102 {
        Some((u - 87) as u8)
    } else if 65 <= u && u <= 70 {
        Some((u - 55) as u8)
    } else {
        None
    }
}

/// Decode a hex string into bytes. Fails with `InvalidHex` on odd length or
/// a non-hex character, and succeeds exactly on well-formed hex.
pub fn decode(s: &str) -> (r: Result<Vec<u8>, crate::error::DecodeError>)
    ensures
        is_hex_seq(s@) ==> (r matches Ok(b) && b@ == hex_bytes_of(s@)),
        !is_hex_seq(s@) ==> r == Err::<Vec<u8>, crate::error::DecodeError>(
            crate::error::DecodeError::InvalidHex,
        ),
{
    let n = s.unicode_len();
    if n % 2 != 0 {
        return Err(crate::error::DecodeError::InvalidHex);
    }
    let half = n / 2;
    let mut out: Vec<u8> = Vec::new();
    let mut i: usize = 0;
    while i < half
        invariant
            n == s@.len(),
            n % 2 == 0,
            half == n / 2,
            i <= half,
            out@ =~= hex_bytes_of(s@).take(i as int),
            forall|j: int| 0 <= j < 2 * i ==> is_hex_digit(#[trigger] s@[j]),
        decreases half - i,
    {
        let c1 = s.get_char(2 * i);
        let c2 = s.get_char(2 * i + 1);
        let v1 = match hex_digit(c1) {
            Some(v) => v,
            None => {
                proof {
                    assert(!is_hex_digit(s@[2 * i as int]));
                }
                return Err(crate::error::DecodeError::InvalidHex);
            },
        };
        let v2 = match hex_digit(c2) {
            Some(v) => v,
            None => {
                proof {
                    assert(!is_hex_digit(s@[2 * i as int + 1]));
                }
                return Err(crate::error::DecodeError::InvalidHex);
            },
        };
        out.push(16 * v1 + v2);
        proof {
            assert(out@ =~= hex_bytes_of(s@).take(i + 1 as int));
        }
        i += 1;
    }
    proof {
        assert(out@ =~= hex_bytes_of(s@));
        assert(is_hex_seq(s@));
    }
    Ok(out)
}

/// Decode a hex string that must spell exactly `want` bytes, as the
/// fixed-size hash and key-image fields do.
pub fn decode_exact(s: &str, want: usize) -> (r: Result<Vec<u8>, crate::error::DecodeError>)
    ensures
        is_hex_seq(s@) && s@.len() == 2 * want ==> (r matches Ok(b) && b@ == hex_bytes_of(s@)),
        is_hex_seq(s@) && s@.len() != 2 * want ==> r == Err::<Vec<u8>, crate::error::DecodeError>(
            crate::error::DecodeError::WrongLength,
        ),
        !is_hex_seq(s@) ==> r == Err::<Vec<u8>, crate::error::DecodeError>(
            crate::error::DecodeError::InvalidHex,
        ),
{
    match decode(s) {
        Ok(b) => {
            if b.len() == want {
                Ok(b)
            } else {
                Err(crate::error::DecodeError::WrongLength)
            }
        },
        Err(e) => Err(e),
    }
}

} // verus!
