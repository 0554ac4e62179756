//! Character classification used by slug normalization: ASCII case
//! handling and the Unicode white-space set.

use vstd::prelude::*;

verus! {

/// An ASCII uppercase letter, `'A'` through `'Z'`.
pub open spec fn is_ascii_upper(c: char) -> bool {
    65 <= c as u32 && c as u32 <= 90
}

/// The Unicode white-space characters, exactly the set that carries the
/// `White_Space` property (what `char::is_whitespace` recognizes).
pub open spec fn is_space(c: char) -> bool {
    ||| c == ' '
    ||| c == '\t'
    ||| c == '\n'
    ||| c == '\u{000B}'
    ||| c == '\u{000C}'
    ||| c == '\r'
    ||| c == '\u{0085}'
    ||| c == '\u{00A0}'
    ||| c == '\u{1680}'
    ||| (0x2000 <= c as u32 && c as u32 <= 0x200A)
    ||| c == '\u{2028}'
    ||| c == '\u{2029}'
    ||| c == '\u{202F}'
    ||| c == '\u{205F}'
    ||| c == '\u{3000}'
}

/// An ASCII uppercase letter folded to its lowercase form; every other
/// character is left unchanged.
pub open spec fn to_lower(c: char) -> char {
    if is_ascii_upper(c) {
        (c as u32 + 32) as char
    } else {
        c
    }
}

/// Runtime test for `is_ascii_upper`.
pub fn upper_check(c: char) -> (r: bool)
    ensures
        r == is_ascii_upper(c),
{
    let u = c as u32;
    65 <= u && u <= 90
}

/// Runtime test for `is_space`.
pub fn space_check(c: char) -> (r: bool)
    ensures
        r == is_space(c),
{
    let u = c as u32;
    u == 0x20 || u == 0x09 || u == 0x0A || u == 0x0B || u == 0x0C || u == 0x0D || u == 0x85
        || u == 0xA0 || u == 0x1680 || (0x2000 <= u && u <= 0x200A) || u == 0x2028 || u == 0x2029
        || u == 0x202F || u == 0x205F || u == 0x3000
}

/// Runtime counterpart of `to_lower`.
pub fn lower_char(c: char) -> (r: char)
    ensures
        r == to_lower(c),
{
    if upper_check(c) {
        ((c as u8) + 32) as char
    } else {
        c
    }
}

} // verus!
