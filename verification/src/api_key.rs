//! Validation of the search service's API key format.

use vstd::prelude::*;

verus! {

/// A lowercase hexadecimal digit.
pub open spec fn is_lower_hex(c: char) -> bool {
    (0x30 <= c as u32 && c as u32 <= 0x39) || (0x61 <= c as u32 && c as u32 <= 0x66)
}

/// The positions that hold the dashes of a UUID.
pub open spec fn uuid_dash_position(i: int) -> bool {
    i == 8 || i == 13 || i == 18 || i == 23
}

/// What position `i` of a UUID must hold: a dash at the fixed dash
/// positions, a lowercase hexadecimal digit everywhere else.
pub open spec fn uuid_char_ok(s: Seq<char>, i: int) -> bool {
    if uuid_dash_position(i) {
        s[i] == '-'
    } else {
        is_lower_hex(s[i])
    }
}

/// The string is a UUID: 36 characters, 8-4-4-4-12 lowercase hex groups
/// with dashes at the fixed positions.
pub open spec fn valid_uuid(s: Seq<char>) -> bool {
    s.len() == 36 && forall|i: int| 0 <= i < 36 ==> #[trigger] uuid_char_ok(s, i)
}

/// Validates that a string matches the UUID format
/// `xxxxxxxx-xxxx-xxxx-xxxx-xxxxxxxxxxxx` (lowercase hex, dashes at
/// fixed positions).
pub fn is_valid_uuid(s: &str) -> (r: bool)
    ensures
        r == valid_uuid(s@),
{
    let n = s.unicode_len();
    if n != 36 {
        return false;
    }
    let mut i: usize = 0;
    while i < 36
        invariant
            i <= 36,
            s@.len() == 36,
            forall|q: int| 0 <= q < i ==> #[trigger] uuid_char_ok(s@, q),
        decreases 36 - i,
    {
        let c = s.get_char(i);
        let ok = if i == 8 || i == 13 || i == 18 || i == 23 {
            c == '-'
        } else {
            let u = c as u32;
            (0x30 <= u && u <= 0x39) || (0x61 <= u && u <= 0x66)
        };
        if !ok {
            assert(!uuid_char_ok(s@, i as int));
            return false;
        }
        i = i + 1;
    }
    true
}

} // verus!
