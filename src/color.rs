//! Hex color decoding (`#RRGGBB` and `#RGB`).

use vstd::prelude::*;

verus! {

/// The value of a hexadecimal digit, case-insensitive.
pub open spec fn hex_digit_value(c: char) -> Option<u8> {
    if '0' <= c && c <= '9' {
        Some((c as int - '0' as int) as u8)
    } else if 'a' <= c && c <= 'f' {
        Some((c as int - 'a' as int + 10) as u8)
    } else if 'A' <= c && c <= 'F' {
        Some((c as int - 'A' as int + 10) as u8)
    } else {
        None
    }
}

pub open spec fn is_hex_digit(c: char) -> bool {
    hex_digit_value(c) is Some
}

/// Every character of `s` is a hexadecimal digit.
pub open spec fn all_hex_digits(s: Seq<char>) -> bool {
    forall|i: int| 0 <= i < s.len() ==> #[trigger] is_hex_digit(s[i])
}

/// Digit value of a character already known to be a hex digit.
pub open spec fn digit(c: char) -> int {
    hex_digit_value(c)->Some_0 as int
}

/// Returns the value of a hexadecimal digit, or `None` for any other character.
pub fn hex_digit(c: char) -> (r: Option<u8>)
    ensures
        r == hex_digit_value(c),
{
    if '0' <= c && c <= '9' {
        Some((c as u32 - '0' as u32) as u8)
    } else if 'a' <= c && c <= 'f' {
        Some((c as u32 - 'a' as u32 + 10) as u8)
    } else if 'A' <= c && c <= 'F' {
        Some((c as u32 - 'A' as u32 + 10) as u8)
    } else {
        None
    }
}

/// A color with 8-bit red, green and blue channels.
#[derive(Clone, Copy, Debug, PartialEq, Eq, Structural)]
pub struct Color3uint8 {
    pub r: u8,
    pub g: u8,
    pub b: u8,
}

/// Why a hex color string could not be decoded.
#[derive(Clone, Copy, Debug, PartialEq, Eq, Structural)]
pub enum HexColorError {
    /// After the optional `#`, the text is neither 3 nor 6 characters long.
    InvalidLength,
    /// The length is right but a character is not a hexadecimal digit.
    InvalidDigit,
}

/// `s` without its leading `#`, if it has one.
pub open spec fn strip_hash(s: Seq<char>) -> Seq<char> {
    if s.len() > 0 && s[0] == '#' {
        s.drop_first()
    } else {
        s
    }
}

/// The byte written by two hex digits, high digit first.
pub open spec fn byte_of_pair(hi: char, lo: char) -> u8 {
    (digit(hi) * 16 + digit(lo)) as u8
}

/// The byte written by one hex digit repeated (`F` stands for `FF`).
pub open spec fn byte_of_nibble(c: char) -> u8 {
    (digit(c) * 17) as u8
}

/// What a hex color string decodes to: one optional leading `#`, then either six
/// digits (two per channel) or three digits (one per channel, replicated).
pub open spec fn decode_hex_color(s: Seq<char>) -> Result<Color3uint8, HexColorError> {
    let t = strip_hash(s);
    if t.len() != 3 && t.len() != 6 {
        Err(HexColorError::InvalidLength)
    } else if !all_hex_digits(t) {
        Err(HexColorError::InvalidDigit)
    } else if t.len() == 6 {
        Ok(Color3uint8 { r: byte_of_pair(t[0], t[1]), g: byte_of_pair(t[2], t[3]), b: byte_of_pair(t[4], t[5]) })
    } else {
        Ok(Color3uint8 { r: byte_of_nibble(t[0]), g: byte_of_nibble(t[1]), b: byte_of_nibble(t[2]) })
    }
}

/// Decodes a hex color string in `#RRGGBB` or `#RGB` form (the `#` is optional,
/// digits are case-insensitive) into its three 8-bit channels.
pub fn hex_to_color3(hex: &str) -> (r: Result<Color3uint8, HexColorError>)
    ensures
        r == decode_hex_color(hex@),
{
    let n = hex.unicode_len();
    let start: usize = if n > 0 && hex.get_char(0) == '#' {
        1
    } else {
        0
    };
    let ghost t = strip_hash(hex@);
    assert(t =~= hex@.subrange(start as int, n as int));
    let len = n - start;
    if len != 3 && len != 6 {
        return Err(HexColorError::InvalidLength);
    }
    let mut digits: Vec<u8> = Vec::new();
    let mut i: usize = start;
    while i < n
        invariant
            start <= i <= n,
            n == hex@.len(),
            len == n - start,
            len == 3 || len == 6,
            t == strip_hash(hex@),
            t =~= hex@.subrange(start as int, n as int),
            digits@.len() == i - start,
            forall|k: int| 0 <= k < i - start ==> #[trigger] is_hex_digit(t[k]),
            forall|k: int| 0 <= k < i - start ==> digits@[k] == #[trigger] digit(t[k]),
            forall|k: int| 0 <= k < i - start ==> digits@[k] < 16,
        decreases n - i,
    {
        let c = hex.get_char(i);
        assert(c == t[i - start]);
        match hex_digit(c) {
            Some(d) => {
                digits.push(d);
            },
            None => {
                assert(!is_hex_digit(t[i - start]));
                return Err(HexColorError::InvalidDigit);
            },
        }
        i = i + 1;
    }
    assert(all_hex_digits(t));
    if len == 6 {
        Ok(Color3uint8 {
            r: digits[0] * 16 + digits[1],
            g: digits[2] * 16 + digits[3],
            b: digits[4] * 16 + digits[5],
        })
    } else {
        Ok(Color3uint8 { r: digits[0] * 17, g: digits[1] * 17, b: digits[2] * 17 })
    }
}

/// A three-digit color is the six-digit color that repeats each of its digits:
/// `#F00` decodes as `#FF0000` does.
pub proof fn lemma_short_form_expands(s: Seq<char>)
    requires
        s.len() == 3,
        all_hex_digits(s),
    ensures
        decode_hex_color(s) == decode_hex_color(seq![s[0], s[0], s[1], s[1], s[2], s[2]]),
        decode_hex_color(seq!['#'] + s) == decode_hex_color(
            seq!['#', s[0], s[0], s[1], s[1], s[2], s[2]],
        ),
        decode_hex_color(s) is Ok,
{
    let long = seq![s[0], s[0], s[1], s[1], s[2], s[2]];
    assert(is_hex_digit(s[0]) && is_hex_digit(s[1]) && is_hex_digit(s[2]));
    assert(all_hex_digits(long));
    assert(strip_hash(seq!['#'] + s) =~= s);
    assert(strip_hash(seq!['#', s[0], s[0], s[1], s[1], s[2], s[2]]) =~= long);
    assert(s[0] != '#');
}

} // verus!
