use vstd::prelude::*;
use vstd::string::StringSliceAdditionalSpecFns;

verus! {

/// The value of one ASCII hexadecimal digit, if `b` is one.
pub open spec fn hex_digit_value(b: u8) -> Option<u8> {
    if 48 <= b && b <= 57 {
        Some((b - 48) as u8)
    } else if 65 <= b && b <= 70 {
        Some((b - 55) as u8)
    } else if 97 <= b && b <= 102 {
        Some((b - 87) as u8)
    } else {
        None
    }
}

/// The value of a hexadecimal digit character, if `c` is one.
pub open spec fn hex_char_value(c: char) -> Option<u8> {
    if '0' <= c <= '9' {
        Some((c as u32 - '0' as u32) as u8)
    } else if 'A' <= c <= 'F' {
        Some((c as u32 - 'A' as u32 + 10) as u8)
    } else if 'a' <= c <= 'f' {
        Some((c as u32 - 'a' as u32 + 10) as u8)
    } else {
        None
    }
}

/// The byte that two hex digits spell, high digit first.
pub open spec fn hex_pair_value(hi: char, lo: char) -> u8 {
    (hex_char_value(hi).unwrap() * 16 + hex_char_value(lo).unwrap()) as u8
}

/// Whether `s` is exactly six hexadecimal digits.
pub open spec fn is_rgb_hex(s: Seq<char>) -> bool {
    s.len() == 6 && forall|i: int| 0 <= i < 6 ==> (#[trigger] hex_char_value(s[i])).is_some()
}

/// On ASCII characters the byte and character readings of a digit agree.
proof fn lemma_ascii_hex_digit(c: char)
    requires
        c <= '\u{7f}',
    ensures
        hex_digit_value(c as u8) == hex_char_value(c),
{
}

/// A color by its red, green and blue channels; where it is drawn, its
/// alpha is given beside it.
#[derive(Clone, Copy, Debug, PartialEq, Eq, Structural)]
pub struct Color {
    pub red: u8,
    pub green: u8,
    pub blue: u8,
}

/// A color string that is not six hexadecimal digits.
#[derive(Clone, Copy, Debug, PartialEq, Eq, Structural)]
pub struct InvalidColorFormat;

impl Color {
    /// The color that the six hex digits `s` spell.
    pub open spec fn spec_from_hex(s: Seq<char>) -> Color {
        Color {
            red: hex_pair_value(s[0], s[1]),
            green: hex_pair_value(s[2], s[3]),
            blue: hex_pair_value(s[4], s[5]),
        }
    }

    pub fn rgb(red: u8, green: u8, blue: u8) -> (c: Color)
        ensures
            c == (Color { red, green, blue }),
    {
        Color { red, green, blue }
    }

    /// Parses a color written as six hexadecimal digits (`"FF00FF"`), either case.
    pub fn from_hex(s: &str) -> (r: Result<Color, InvalidColorFormat>)
        ensures
            r.is_ok() == is_rgb_hex(s@),
            r.is_ok() ==> r.unwrap() == Color::spec_from_hex(s@),
    {
        broadcast use vstd::string::is_ascii_spec_bytes;

        if !s.is_ascii() {
            proof {
                let k = choose|k: int| 0 <= k < s@.len() && !('\0' <= #[trigger] s@[k] <= '\u{7f}');
                assert(hex_char_value(s@[k]) is None);
            }
            return Err(InvalidColorFormat);
        }
        let b = s.as_bytes();
        if b.len() != 6 {
            return Err(InvalidColorFormat);
        }
        let mut digits: [u8; 6] = [0; 6];
        let mut i: usize = 0;
        while i < 6
            invariant
                b@ == s.spec_bytes(),
                vstd::string::is_ascii(s),
                b@.len() == 6,
                s@.len() == 6,
                i <= 6,
                forall|j: int| 0 <= j < i ==> (#[trigger] hex_char_value(s@[j])).is_some()
                    && digits@[j] == hex_char_value(s@[j]).unwrap() && digits@[j] < 16,
            decreases 6 - i,
        {
            proof {
                assert(b@[i as int] == s@[i as int] as u8);
                lemma_ascii_hex_digit(s@[i as int]);
            }
            match hex_digit(b[i]) {
                Some(v) => {
                    digits[i] = v;
                },
                None => {
                    return Err(InvalidColorFormat);
                },
            }
            i = i + 1;
        }
        assert(hex_char_value(s@[0]).is_some() && hex_char_value(s@[1]).is_some());
        assert(hex_char_value(s@[2]).is_some() && hex_char_value(s@[3]).is_some());
        assert(hex_char_value(s@[4]).is_some() && hex_char_value(s@[5]).is_some());
        Ok(Color {
            red: digits[0] * 16 + digits[1],
            green: digits[2] * 16 + digits[3],
            blue: digits[4] * 16 + digits[5],
        })
    }
}

/// The value of a hexadecimal digit.
pub fn hex_digit(b: u8) -> (r: Option<u8>)
    ensures
        r == hex_digit_value(b),
        r.is_some() ==> r.unwrap() < 16,
{
    if 48 <= b && b <= 57 {
        Some(b - 48)
    } else if 65 <= b && b <= 70 {
        Some(b - 55)
    } else if 97 <= b && b <= 102 {
        Some(b - 87)
    } else {
        None
    }
}

} // verus!
