//! RGB colours as the terminal styles use them: parsing from hex strings
//! and the luminance rule that picks a readable foreground.

use vstd::prelude::*;

verus! {

/// An RGB colour with 8-bit channels.
#[derive(Clone, Copy, Debug, PartialEq, Eq, Structural)]
pub struct Colour {
    pub red: u8,
    pub green: u8,
    pub blue: u8,
}

/// A colour counts as light when the weighted luminance
/// `0.299 * red + 0.587 * green + 0.114 * blue` exceeds 146; stated here
/// over integers with every weight scaled by 1000.
pub open spec fn is_light_spec(c: Colour) -> bool {
    299 * (c.red as int) + 587 * (c.green as int) + 114 * (c.blue as int) > 146000
}

/// Decides whether text drawn over this background should be black
/// (light background) or white (dark background).
pub fn is_light_colour(colour: &Colour) -> (r: bool)
    ensures
        r == is_light_spec(*colour),
{
    299u64 * (colour.red as u64) + 587u64 * (colour.green as u64) + 114u64 * (colour.blue as u64)
        > 146000u64
}

/// Whether `c` is a hexadecimal digit.
pub open spec fn is_hex_digit(c: char) -> bool {
    ('0' as int <= c as int && c as int <= '9' as int) || ('a' as int <= c as int && c as int
        <= 'f' as int) || ('A' as int <= c as int && c as int <= 'F' as int)
}

/// The value of a hexadecimal digit.
pub open spec fn hex_digit_val(c: char) -> int {
    if '0' as int <= c as int && c as int <= '9' as int {
        c as int - '0' as int
    } else if 'a' as int <= c as int && c as int <= 'f' as int {
        10 + c as int - 'a' as int
    } else {
        10 + c as int - 'A' as int
    }
}

/// The numeric value of a hex string, most significant digit first.
pub open spec fn hex_val(s: Seq<char>) -> int
    decreases s.len(),
{
    if s.len() == 0 {
        0
    } else {
        16 * hex_val(s.drop_last()) + hex_digit_val(s.last())
    }
}

/// A string the colour parser accepts: non-empty, hexadecimal digits
/// only, and a value that fits in 64 bits.
pub open spec fn valid_hex_colour(s: Seq<char>) -> bool {
    &&& s.len() > 0
    &&& forall|i: int| 0 <= i < s.len() ==> is_hex_digit(#[trigger] s[i])
    &&& hex_val(s) <= u64::MAX
}

/// The colour a value decodes to: its low three bytes are red, green and
/// blue; anything above them is ignored.
pub open spec fn colour_of_u64(v: u64) -> Colour {
    Colour { red: ((v >> 16) & 0xff) as u8, green: ((v >> 8) & 0xff) as u8, blue: (v & 0xff) as u8 }
}

/// The value of an all-digits string is never negative.
proof fn lemma_hex_val_nonneg(s: Seq<char>)
    requires
        forall|i: int| 0 <= i < s.len() ==> is_hex_digit(#[trigger] s[i]),
    ensures
        hex_val(s) >= 0,
    decreases s.len(),
{
    if s.len() > 0 {
        lemma_hex_val_nonneg(s.drop_last());
    }
}

/// On an all-digits string, the value of a prefix never exceeds the value
/// of the whole.
proof fn lemma_hex_val_grows(s: Seq<char>, k: int)
    requires
        forall|i: int| 0 <= i < s.len() ==> is_hex_digit(#[trigger] s[i]),
        0 <= k <= s.len(),
    ensures
        hex_val(s) >= hex_val(s.take(k)),
    decreases s.len(),
{
    if k == s.len() {
        assert(s.take(k) =~= s);
    } else {
        let prefix = s.drop_last();
        lemma_hex_val_grows(prefix, k);
        assert(prefix.take(k) =~= s.take(k));
        lemma_hex_val_nonneg(prefix);
    }
}

/// The value of one hexadecimal digit character, or `None` when the
/// character is no such digit.
fn hex_digit_value(c: char) -> (r: Option<u64>)
    ensures
        match r {
            Some(d) => is_hex_digit(c) && d as int == hex_digit_val(c),
            None => !is_hex_digit(c),
        },
{
    let v = c as u32;
    if v >= 48 && v <= 57 {
        Some((v - 48) as u64)
    } else if v >= 97 && v <= 102 {
        Some((v - 87) as u64)
    } else if v >= 65 && v <= 70 {
        Some((v - 55) as u64)
    } else {
        None
    }
}

/// Parses a colour from its hexadecimal form, as the issue tracker sends
/// it (`ff00aa`): the string is read as one number whose low three bytes
/// are the channels. An empty string, a stray character or a value over
/// 64 bits is rejected.
pub fn parse_hex_colour(s: &str) -> (r: Option<Colour>)
    ensures
        match r {
            Some(c) => valid_hex_colour(s@) && c == colour_of_u64(hex_val(s@) as u64),
            None => !valid_hex_colour(s@),
        },
{
    let n = s.unicode_len();
    if n == 0 {
        return None;
    }
    let mut acc: u64 = 0;
    let mut i: usize = 0;
    while i < n
        invariant
            i <= n,
            n == s@.len(),
            forall|j: int| 0 <= j < i ==> is_hex_digit(#[trigger] s@[j]),
            acc as int == hex_val(s@.take(i as int)),
        decreases n - i,
    {
        let c = s.get_char(i);
        proof {
            assert(s@.take(i as int + 1).drop_last() =~= s@.take(i as int));
            assert(s@.take(i as int + 1).last() == s@[i as int]);
        }
        match hex_digit_value(c) {
            None => {
                return None;
            },
            Some(d) => {
                if acc >= 0x1000_0000_0000_0000 {
                    proof {
                        if valid_hex_colour(s@) {
                            assert(hex_val(s@.take(i as int + 1)) == 16 * (acc as int)
                                + hex_digit_val(s@[i as int]));
                            lemma_hex_val_grows(s@, i as int + 1);
                            assert(hex_val(s@) > u64::MAX);
                        }
                    }
                    return None;
                }
                acc = acc * 16 + d;
            },
        }
        i += 1;
    }
    proof {
        assert(s@.take(n as int) =~= s@);
    }
    let red_bits = (acc >> 16) & 0xff;
    let green_bits = (acc >> 8) & 0xff;
    let blue_bits = acc & 0xff;
    proof {
        assert(((acc >> 16) & 0xff) <= 0xff && ((acc >> 8) & 0xff) <= 0xff && (acc & 0xff)
            <= 0xff) by (bit_vector);
    }
    Some(Colour { red: red_bits as u8, green: green_bits as u8, blue: blue_bits as u8 })
}

} // verus!
