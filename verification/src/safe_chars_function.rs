//! A narrow table of characters observed to pass the engine's legacy path
//! untouched, gathered by scanning code points against it. Like the
//! corrupted-symbol table of the codec, it is a compatibility table to be
//! reproduced exactly, not derived from any principle.

use vstd::prelude::*;

verus! {

/// Whether a character is known to survive the engine untouched.
pub open spec fn spec_is_safe_chars(c: char) -> bool {
    let code = c as u32;
    code == 0x000020
        || (0x0000A0 <= code && code <= 0x0000A3)
        || (0x0000A5 <= code && code <= 0x0000A6)
        || (0x0000A9 <= code && code <= 0x0000AC)
        || (0x0000AE <= code && code <= 0x0000B0)
        || (0x0000B2 <= code && code <= 0x0000B3)
        || code == 0x0000B9
        || (0x0000C0 <= code && code <= 0x0000D6)
        || (0x0000D8 <= code && code <= 0x0000F6)
        || (0x0000F8 <= code && code <= 0x0000FF)
        || code == 0x00029E
        || code == 0x00033A
        || code == 0x000492
        || code == 0x0004A1
        || code == 0x0004A4
        || code == 0x00210D
        || code == 0x002202
        || (0x00222B <= code && code <= 0x00222C)
        || code == 0x0022E6
        || (0x00246F <= code && code <= 0x002473)
        || (0x0024B6 <= code && code <= 0x0024BE)
        || (0x0024C0 <= code && code <= 0x0024C3)
        || (0x0024C5 <= code && code <= 0x0024C8)
        || (0x0024CA <= code && code <= 0x0024CF)
        || code == 0x002582
        || code == 0x0025EF
        || code == 0x003013
        || (0x003099 <= code && code <= 0x00309A)
        || code == 0x003232
        || code == 0x003239
        || (0x0032A4 <= code && code <= 0x0032A8)
        || code == 0x00565B
        || code == 0x005699
        || code == 0x005BE4
        || code == 0x005CFB
        || code == 0x006766
        || code == 0x0067BB
        || code == 0x0067C0
        || code == 0x006844
        || code == 0x0068CF
        || code == 0x006998
        || code == 0x0069E2
        || code == 0x006A30
        || code == 0x006A46
        || code == 0x006A73
        || code == 0x006A7E
        || code == 0x006AE2
        || code == 0x006AE4
        || code == 0x006BD6
        || code == 0x006C3F
        || code == 0x006C5C
        || code == 0x006C6F
        || code == 0x006C86
        || code == 0x006CDA
        || code == 0x006D04
        || code == 0x006D6F
        || code == 0x006D87
        || code == 0x007195
        || code == 0x007F52
        || code == 0x008A51
        || code == 0x009357
        || code == 0x0093A4
        || code == 0x0093C6
        || code == 0x0093DE
        || code == 0x0093F8
        || code == 0x009431
        || code == 0x009445
        || code == 0x009448
        || code == 0x00969D
        || code == 0x0096AF
        || code == 0x009733
        || code == 0x00973B
        || code == 0x009743
        || code == 0x00974D
        || code == 0x00974F
        || code == 0x009755
        || code == 0x009857
        || code == 0x009865
        || code == 0x009927
        || code == 0x00999E
        || code == 0x00F929
        || code == 0x00F9DC
        || (0x00FA13 <= code && code <= 0x00FA14)
        || (0x00FA29 <= code && code <= 0x00FA2C)
}

/// Decides whether a character is known to survive the engine untouched.
pub fn is_safe_chars(c: char) -> (r: bool)
    ensures
        r == spec_is_safe_chars(c),
{
    let code = c as u32;
    code == 0x000020
        || (0x0000A0 <= code && code <= 0x0000A3)
        || (0x0000A5 <= code && code <= 0x0000A6)
        || (0x0000A9 <= code && code <= 0x0000AC)
        || (0x0000AE <= code && code <= 0x0000B0)
        || (0x0000B2 <= code && code <= 0x0000B3)
        || code == 0x0000B9
        || (0x0000C0 <= code && code <= 0x0000D6)
        || (0x0000D8 <= code && code <= 0x0000F6)
        || (0x0000F8 <= code && code <= 0x0000FF)
        || code == 0x00029E
        || code == 0x00033A
        || code == 0x000492
        || code == 0x0004A1
        || code == 0x0004A4
        || code == 0x00210D
        || code == 0x002202
        || (0x00222B <= code && code <= 0x00222C)
        || code == 0x0022E6
        || (0x00246F <= code && code <= 0x002473)
        || (0x0024B6 <= code && code <= 0x0024BE)
        || (0x0024C0 <= code && code <= 0x0024C3)
        || (0x0024C5 <= code && code <= 0x0024C8)
        || (0x0024CA <= code && code <= 0x0024CF)
        || code == 0x002582
        || code == 0x0025EF
        || code == 0x003013
        || (0x003099 <= code && code <= 0x00309A)
        || code == 0x003232
        || code == 0x003239
        || (0x0032A4 <= code && code <= 0x0032A8)
        || code == 0x00565B
        || code == 0x005699
        || code == 0x005BE4
        || code == 0x005CFB
        || code == 0x006766
        || code == 0x0067BB
        || code == 0x0067C0
        || code == 0x006844
        || code == 0x0068CF
        || code == 0x006998
        || code == 0x0069E2
        || code == 0x006A30
        || code == 0x006A46
        || code == 0x006A73
        || code == 0x006A7E
        || code == 0x006AE2
        || code == 0x006AE4
        || code == 0x006BD6
        || code == 0x006C3F
        || code == 0x006C5C
        || code == 0x006C6F
        || code == 0x006C86
        || code == 0x006CDA
        || code == 0x006D04
        || code == 0x006D6F
        || code == 0x006D87
        || code == 0x007195
        || code == 0x007F52
        || code == 0x008A51
        || code == 0x009357
        || code == 0x0093A4
        || code == 0x0093C6
        || code == 0x0093DE
        || code == 0x0093F8
        || code == 0x009431
        || code == 0x009445
        || code == 0x009448
        || code == 0x00969D
        || code == 0x0096AF
        || code == 0x009733
        || code == 0x00973B
        || code == 0x009743
        || code == 0x00974D
        || code == 0x00974F
        || code == 0x009755
        || code == 0x009857
        || code == 0x009865
        || code == 0x009927
        || code == 0x00999E
        || code == 0x00F929
        || code == 0x00F9DC
        || (0x00FA13 <= code && code <= 0x00FA14)
        || (0x00FA29 <= code && code <= 0x00FA2C)
}

} // verus!
