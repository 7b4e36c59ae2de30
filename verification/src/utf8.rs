//! UTF-8 validity of a byte sequence, and an executable validator proved
//! against it. A request payload must be valid UTF-8 before it may become a
//! prompt; the definition follows the encoding's shortest-form rules, which
//! exclude overlong forms, surrogate code points and values above 0x10FFFF.

use vstd::prelude::*;

verus! {

/// `b` is a continuation byte (`10xxxxxx`).
pub open spec fn is_cont_byte(b: u8) -> bool {
    0x80 <= b && b <= 0xBF
}

/// Length of the well-formed encoded scalar value starting at `i`, or 0 when
/// no well-formed encoding starts there.
pub open spec fn scalar_len_at(s: Seq<u8>, i: int) -> int {
    if i < 0 || i >= s.len() {
        0
    } else {
        let b0 = s[i];
        if b0 <= 0x7F {
            1
        } else if 0xC2 <= b0 && b0 <= 0xDF {
            if i + 2 <= s.len() && is_cont_byte(s[i + 1]) { 2 } else { 0 }
        } else if b0 == 0xE0 {
            if i + 3 <= s.len() && 0xA0 <= s[i + 1] && s[i + 1] <= 0xBF
                && is_cont_byte(s[i + 2]) { 3 } else { 0 }
        } else if (0xE1 <= b0 && b0 <= 0xEC) || b0 == 0xEE || b0 == 0xEF {
            if i + 3 <= s.len() && is_cont_byte(s[i + 1])
                && is_cont_byte(s[i + 2]) { 3 } else { 0 }
        } else if b0 == 0xED {
            if i + 3 <= s.len() && 0x80 <= s[i + 1] && s[i + 1] <= 0x9F
                && is_cont_byte(s[i + 2]) { 3 } else { 0 }
        } else if b0 == 0xF0 {
            if i + 4 <= s.len() && 0x90 <= s[i + 1] && s[i + 1] <= 0xBF
                && is_cont_byte(s[i + 2]) && is_cont_byte(s[i + 3]) { 4 } else { 0 }
        } else if 0xF1 <= b0 && b0 <= 0xF3 {
            if i + 4 <= s.len() && is_cont_byte(s[i + 1])
                && is_cont_byte(s[i + 2]) && is_cont_byte(s[i + 3]) { 4 } else { 0 }
        } else if b0 == 0xF4 {
            if i + 4 <= s.len() && 0x80 <= s[i + 1] && s[i + 1] <= 0x8F
                && is_cont_byte(s[i + 2]) && is_cont_byte(s[i + 3]) { 4 } else { 0 }
        } else {
            0
        }
    }
}

/// The suffix of `s` starting at `i` is a sequence of well-formed encoded
/// scalar values.
pub open spec fn is_utf8_from(s: Seq<u8>, i: int) -> bool
    decreases s.len() - i
        when 0 <= i <= s.len()
{
    if i == s.len() {
        true
    } else {
        let n = scalar_len_at(s, i);
        n > 0 && is_utf8_from(s, i + n)
    }
}

/// `s` is a well-formed UTF-8 byte sequence.
pub open spec fn is_utf8(s: Seq<u8>) -> bool {
    is_utf8_from(s, 0)
}

/// Decides well-formedness of `s` as UTF-8.
pub fn validate_utf8(s: &Vec<u8>) -> (r: bool)
    ensures
        r == is_utf8(s@),
{
    let n = s.len();
    let mut i: usize = 0;
    while i < n
        invariant
            n == s@.len(),
            i <= n,
            is_utf8(s@) == is_utf8_from(s@, i as int),
        decreases n - i,
    {
        let rem = n - i;
        let b0 = s[i];
        let step: usize;
        if b0 <= 0x7F {
            step = 1;
        } else if 0xC2 <= b0 && b0 <= 0xDF {
            if rem >= 2 && 0x80 <= s[i + 1] && s[i + 1] <= 0xBF {
                step = 2;
            } else {
                return false;
            }
        } else if b0 == 0xE0 {
            if rem >= 3 && 0xA0 <= s[i + 1] && s[i + 1] <= 0xBF
                && 0x80 <= s[i + 2] && s[i + 2] <= 0xBF {
                step = 3;
            } else {
                return false;
            }
        } else if (0xE1 <= b0 && b0 <= 0xEC) || b0 == 0xEE || b0 == 0xEF {
            if rem >= 3 && 0x80 <= s[i + 1] && s[i + 1] <= 0xBF
                && 0x80 <= s[i + 2] && s[i + 2] <= 0xBF {
                step = 3;
            } else {
                return false;
            }
        } else if b0 == 0xED {
            if rem >= 3 && 0x80 <= s[i + 1] && s[i + 1] <= 0x9F
                && 0x80 <= s[i + 2] && s[i + 2] <= 0xBF {
                step = 3;
            } else {
                return false;
            }
        } else if b0 == 0xF0 {
            if rem >= 4 && 0x90 <= s[i + 1] && s[i + 1] <= 0xBF
                && 0x80 <= s[i + 2] && s[i + 2] <= 0xBF
                && 0x80 <= s[i + 3] && s[i + 3] <= 0xBF {
                step = 4;
            } else {
                return false;
            }
        } else if 0xF1 <= b0 && b0 <= 0xF3 {
            if rem >= 4 && 0x80 <= s[i + 1] && s[i + 1] <= 0xBF
                && 0x80 <= s[i + 2] && s[i + 2] <= 0xBF
                && 0x80 <= s[i + 3] && s[i + 3] <= 0xBF {
                step = 4;
            } else {
                return false;
            }
        } else if b0 == 0xF4 {
            if rem >= 4 && 0x80 <= s[i + 1] && s[i + 1] <= 0x8F
                && 0x80 <= s[i + 2] && s[i + 2] <= 0xBF
                && 0x80 <= s[i + 3] && s[i + 3] <= 0xBF {
                step = 4;
            } else {
                return false;
            }
        } else {
            return false;
        }
        proof {
            assert(scalar_len_at(s@, i as int) == step as int);
        }
        i += step;
    }
    true
}

} // verus!
