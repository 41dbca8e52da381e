//! Hexadecimal color parsing.
//!
//! Parses the textual `#RRGGBB` form into its three byte components; turning
//! those into device constants (including the transfer-curve conversion,
//! which is floating-point work) is the caller's.
use vstd::prelude::*;
use vstd::string::StrSliceExecFns;

verus! {

/// `c` is a hexadecimal digit.
pub open spec fn spec_is_hex_digit(c: char) -> bool {
    ('0' <= c && c <= '9') || ('a' <= c && c <= 'f') || ('A' <= c && c <= 'F')
}

/// The value of a hexadecimal digit.
pub open spec fn spec_hex_val(c: char) -> int {
    if '0' <= c && c <= '9' {
        c as int - '0' as int
    } else if 'a' <= c && c <= 'f' {
        c as int - 'a' as int + 10
    } else {
        c as int - 'A' as int + 10
    }
}

/// The byte written as the hexadecimal digits `hi``lo`.
pub open spec fn spec_hex_byte(hi: char, lo: char) -> int {
    16 * spec_hex_val(hi) + spec_hex_val(lo)
}

/// The digit part of a hexadecimal color string: the string with its
/// leading `#`, if any, removed.
pub open spec fn spec_hex_trimmed(s: Seq<char>) -> Seq<char> {
    if s.len() > 0 && s[0] == '#' {
        s.drop_first()
    } else {
        s
    }
}

/// What a hexadecimal color string denotes: an optional leading `#`, then
/// exactly six hexadecimal digits, two per component, red first.
pub open spec fn spec_parse_hex_rgb(s: Seq<char>) -> Option<(u8, u8, u8)> {
    let t = spec_hex_trimmed(s);
    if t.len() == 6 && (forall|i: int| 0 <= i < 6 ==> spec_is_hex_digit(#[trigger] t[i])) {
        Some(
            (
                spec_hex_byte(t[0], t[1]) as u8,
                spec_hex_byte(t[2], t[3]) as u8,
                spec_hex_byte(t[4], t[5]) as u8,
            ),
        )
    } else {
        None
    }
}

/// The value of one hexadecimal digit character.
fn hex_val(c: char) -> (r: u8)
    requires
        spec_is_hex_digit(c),
    ensures
        r == spec_hex_val(c),
        r < 16,
{
    if '0' <= c && c <= '9' {
        ((c as u32) - ('0' as u32)) as u8
    } else if 'a' <= c && c <= 'f' {
        ((c as u32) - ('a' as u32) + 10) as u8
    } else {
        ((c as u32) - ('A' as u32) + 10) as u8
    }
}

/// Whether `c` is a hexadecimal digit.
fn is_hex_digit(c: char) -> (r: bool)
    ensures
        r == spec_is_hex_digit(c),
{
    ('0' <= c && c <= '9') || ('a' <= c && c <= 'f') || ('A' <= c && c <= 'F')
}

/// Parse a hexadecimal color: an optional leading `#`, then six hexadecimal
/// digits; anything else parses to nothing.
pub fn parse_hex_rgb(s: &str) -> (r: Option<(u8, u8, u8)>)
    ensures
        r == spec_parse_hex_rgb(s@),
{
    let n = s.unicode_len();
    let has_hash = n > 0 && s.get_char(0) == '#';
    let start: usize = if has_hash {
        1
    } else {
        0
    };
    let ghost t = spec_hex_trimmed(s@);
    proof {
        assert(forall|i: int| 0 <= i < t.len() ==> t[i] == s@[i + start]);
    }
    if n - start != 6 {
        proof {
            assert(t.len() != 6);
        }
        return None;
    }
    let mut vals: Vec<u8> = Vec::new();
    let mut i: usize = 0;
    while i < 6
        invariant
            n == s@.len(),
            start <= 1,
            start + 6 == n,
            t == spec_hex_trimmed(s@),
            t.len() == 6,
            forall|j: int| 0 <= j < t.len() ==> t[j] == s@[j + start],
            i <= 6,
            vals@.len() == i,
            forall|j: int|
                0 <= j < i ==> spec_is_hex_digit(#[trigger] t[j]) && vals@[j] == spec_hex_val(t[j])
                    && vals@[j] < 16,
        decreases 6 - i,
    {
        let c = s.get_char(start + i);
        proof {
            assert(c == t[i as int]);
        }
        if !is_hex_digit(c) {
            proof {
                assert(!spec_is_hex_digit(t[i as int]));
                assert(spec_parse_hex_rgb(s@) is None);
            }
            return None;
        }
        vals.push(hex_val(c));
        i = i + 1;
    }
    let red = 16 * vals[0] + vals[1];
    let green = 16 * vals[2] + vals[3];
    let blue = 16 * vals[4] + vals[5];
    proof {
        assert(red == spec_hex_byte(t[0], t[1]));
        assert(green == spec_hex_byte(t[2], t[3]));
        assert(blue == spec_hex_byte(t[4], t[5]));
        assert(spec_parse_hex_rgb(s@) == Some((red, green, blue)));
    }
    Some((red, green, blue))
}

} // verus!
