//! The broad safe-character predicate used to judge whole texts: whether a
//! character is known to survive the engine untouched, so that text made
//! only of such characters needs no special handling. It is the complement
//! of the ranges the engine was observed to corrupt: the control
//! characters, the Hangul blocks, and the corrupted-symbol table — except
//! the circled numbers, which later scans showed the engine keeps.

use vstd::prelude::*;
use crate::codec::{is_hangul_range, is_special_char, spec_is_hangul_range, spec_is_special_char};

verus! {

/// Whether a character is known to survive the engine untouched.
pub open spec fn spec_is_safe_chars(c: char) -> bool {
    let code = c as u32;
    !(code < 0x20 || code == 0x7F || spec_is_hangul_range(code) || (spec_is_special_char(c) && !(
    0x2460 <= code && code <= 0x2473)))
}

/// Decides whether a character is known to survive the engine untouched.
pub fn is_safe_chars(c: char) -> (r: bool)
    ensures
        r == spec_is_safe_chars(c),
{
    let code = c as u32;
    !(code < 0x20 || code == 0x7F || is_hangul_range(code) || (is_special_char(c) && !(0x2460
        <= code && code <= 0x2473)))
}

} // verus!
