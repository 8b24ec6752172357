//! Escape codec: a reversible transform that shields code points the
//! translation engine corrupts. A protected character is replaced by a
//! two-character marker (`+x` for Hangul, `@` and NUL; `+X` for the listed
//! symbol characters) followed by its code point as four uppercase
//! hexadecimal digits; every other character passes through unchanged.
//! Decoding scans for the marker and degrades to passthrough on anything
//! malformed, so it never fails.

use vstd::prelude::*;

verus! {

/// The Hangul blocks the engine cannot round-trip: Jamo, Compatibility Jamo,
/// Jamo Extended-A, Syllables, and Jamo Extended-B.
pub open spec fn spec_is_hangul_range(code: u32) -> bool {
    (0x1100 <= code && code <= 0x11FF)
        || (0x3130 <= code && code <= 0x318F)
        || (0xA960 <= code && code <= 0xA97F)
        || (0xAC00 <= code && code <= 0xD7A3)
        || (0xD7B0 <= code && code <= 0xD7FF)
}

/// Decides whether a code point lies in one of the Hangul blocks.
pub fn is_hangul_range(code: u32) -> (r: bool)
    ensures
        r == spec_is_hangul_range(code),
{
    (0x1100 <= code && code <= 0x11FF)
        || (0x3130 <= code && code <= 0x318F)
        || (0xA960 <= code && code <= 0xA97F)
        || (0xAC00 <= code && code <= 0xD7A3)
        || (0xD7B0 <= code && code <= 0xD7FF)
}

/// The symbol characters the engine corrupts, found by trial against it.
/// This table is a compatibility table: it must match the engine's observed
/// behaviour exactly and is not derived from any principle.
pub open spec fn spec_is_special_char(c: char) -> bool {
    let code = c as u32;
    code == 0x00A1
        || (0x00BC <= code && code <= 0x00BF)
        || code == 0x0111
        || (0x0126 <= code && code <= 0x0127)
        || (0x0131 <= code && code <= 0x0133)
        || code == 0x0138
        || (0x013F <= code && code <= 0x0142)
        || (0x0149 <= code && code <= 0x014B)
        || (0x0152 <= code && code <= 0x0153)
        || (0x0166 <= code && code <= 0x0167)
        || code == 0x02C7
        || code == 0x02D0
        || (0x02D8 <= code && code <= 0x02DB)
        || code == 0x02DD
        || code == 0x03A9
        || code == 0x207F
        || (0x2081 <= code && code <= 0x2084)
        || code == 0x20AC
        || code == 0x2109
        || code == 0x2113
        || code == 0x2122
        || (0x2153 <= code && code <= 0x2154)
        || (0x215B <= code && code <= 0x215E)
        || (0x2170 <= code && code <= 0x2179)
        || (0x2194 <= code && code <= 0x2199)
        || code == 0x220F
        || code == 0x223C
        || code == 0x2299
        || (0x2460 <= code && code <= 0x246E)
        || (0x2474 <= code && code <= 0x2482)
        || (0x249C <= code && code <= 0x24B5)
        || (0x24D0 <= code && code <= 0x24E9)
        || (0x250D <= code && code <= 0x250E)
        || (0x2511 <= code && code <= 0x2512)
        || (0x2515 <= code && code <= 0x2516)
        || (0x2519 <= code && code <= 0x251A)
        || (0x251E <= code && code <= 0x251F)
        || (0x2521 <= code && code <= 0x2522)
        || (0x2526 <= code && code <= 0x2527)
        || code == 0x252A
        || (0x252D <= code && code <= 0x252E)
        || (0x2531 <= code && code <= 0x2532)
        || (0x2535 <= code && code <= 0x2536)
        || (0x2539 <= code && code <= 0x253A)
        || (0x253D <= code && code <= 0x253E)
        || (0x2540 <= code && code <= 0x2541)
        || (0x2543 <= code && code <= 0x254A)
        || code == 0x2592
        || (0x25A3 <= code && code <= 0x25A9)
        || (0x25B6 <= code && code <= 0x25B7)
        || (0x25C0 <= code && code <= 0x25C1)
        || code == 0x25C8
        || (0x25D0 <= code && code <= 0x25D1)
        || (0x260E <= code && code <= 0x260F)
        || code == 0x261C
        || code == 0x261E
        || (0x2660 <= code && code <= 0x2661)
        || (0x2663 <= code && code <= 0x2665)
        || (0x2667 <= code && code <= 0x2669)
        || code == 0x266C
        || (0x3200 <= code && code <= 0x321C)
        || (0x3260 <= code && code <= 0x327B)
        || code == 0x327F
        || (0x3380 <= code && code <= 0x3384)
        || (0x3388 <= code && code <= 0x338D)
        || (0x3390 <= code && code <= 0x339B)
        || (0x339F <= code && code <= 0x33A0)
        || (0x33A2 <= code && code <= 0x33B8)
        || (0x33BA <= code && code <= 0x33C3)
        || (0x33C5 <= code && code <= 0x33CA)
        || (0x33CF <= code && code <= 0x33D0)
        || code == 0x33D3
        || code == 0x33D6
        || code == 0x33D8
        || (0x33DB <= code && code <= 0x33DD)
        || code == 0xFF02
        || code == 0xFF07
        || code == 0xFFE6
}

/// Decides whether a character is in the corrupted-symbol table.
pub fn is_special_char(c: char) -> (r: bool)
    ensures
        r == spec_is_special_char(c),
{
    let code = c as u32;
    code == 0x00A1
        || (0x00BC <= code && code <= 0x00BF)
        || code == 0x0111
        || (0x0126 <= code && code <= 0x0127)
        || (0x0131 <= code && code <= 0x0133)
        || code == 0x0138
        || (0x013F <= code && code <= 0x0142)
        || (0x0149 <= code && code <= 0x014B)
        || (0x0152 <= code && code <= 0x0153)
        || (0x0166 <= code && code <= 0x0167)
        || code == 0x02C7
        || code == 0x02D0
        || (0x02D8 <= code && code <= 0x02DB)
        || code == 0x02DD
        || code == 0x03A9
        || code == 0x207F
        || (0x2081 <= code && code <= 0x2084)
        || code == 0x20AC
        || code == 0x2109
        || code == 0x2113
        || code == 0x2122
        || (0x2153 <= code && code <= 0x2154)
        || (0x215B <= code && code <= 0x215E)
        || (0x2170 <= code && code <= 0x2179)
        || (0x2194 <= code && code <= 0x2199)
        || code == 0x220F
        || code == 0x223C
        || code == 0x2299
        || (0x2460 <= code && code <= 0x246E)
        || (0x2474 <= code && code <= 0x2482)
        || (0x249C <= code && code <= 0x24B5)
        || (0x24D0 <= code && code <= 0x24E9)
        || (0x250D <= code && code <= 0x250E)
        || (0x2511 <= code && code <= 0x2512)
        || (0x2515 <= code && code <= 0x2516)
        || (0x2519 <= code && code <= 0x251A)
        || (0x251E <= code && code <= 0x251F)
        || (0x2521 <= code && code <= 0x2522)
        || (0x2526 <= code && code <= 0x2527)
        || code == 0x252A
        || (0x252D <= code && code <= 0x252E)
        || (0x2531 <= code && code <= 0x2532)
        || (0x2535 <= code && code <= 0x2536)
        || (0x2539 <= code && code <= 0x253A)
        || (0x253D <= code && code <= 0x253E)
        || (0x2540 <= code && code <= 0x2541)
        || (0x2543 <= code && code <= 0x254A)
        || code == 0x2592
        || (0x25A3 <= code && code <= 0x25A9)
        || (0x25B6 <= code && code <= 0x25B7)
        || (0x25C0 <= code && code <= 0x25C1)
        || code == 0x25C8
        || (0x25D0 <= code && code <= 0x25D1)
        || (0x260E <= code && code <= 0x260F)
        || code == 0x261C
        || code == 0x261E
        || (0x2660 <= code && code <= 0x2661)
        || (0x2663 <= code && code <= 0x2665)
        || (0x2667 <= code && code <= 0x2669)
        || code == 0x266C
        || (0x3200 <= code && code <= 0x321C)
        || (0x3260 <= code && code <= 0x327B)
        || code == 0x327F
        || (0x3380 <= code && code <= 0x3384)
        || (0x3388 <= code && code <= 0x338D)
        || (0x3390 <= code && code <= 0x339B)
        || (0x339F <= code && code <= 0x33A0)
        || (0x33A2 <= code && code <= 0x33B8)
        || (0x33BA <= code && code <= 0x33C3)
        || (0x33C5 <= code && code <= 0x33CA)
        || (0x33CF <= code && code <= 0x33D0)
        || code == 0x33D3
        || code == 0x33D6
        || code == 0x33D8
        || (0x33DB <= code && code <= 0x33DD)
        || code == 0xFF02
        || code == 0xFF07
        || code == 0xFFE6
}

/// Characters escaped with the `+x` marker: the two called-out scalars and
/// the Hangul blocks.
pub open spec fn spec_needs_code_escape(c: char) -> bool {
    c == '@' || c == '\0' || spec_is_hangul_range(c as u32)
}

fn needs_code_escape(c: char) -> (r: bool)
    ensures
        r == spec_needs_code_escape(c),
{
    c == '@' || c == '\0' || is_hangul_range(c as u32)
}

/// A protected character: one the codec must escape before the engine sees it.
pub open spec fn spec_is_protected(c: char) -> bool {
    spec_needs_code_escape(c) || spec_is_special_char(c)
}

/// The fast pre-check of the dispatch layer: does any character of the text
/// need protection at all?
pub open spec fn spec_needs_encoding(s: Seq<char>) -> bool {
    exists|i: int| 0 <= i < s.len() && spec_is_protected(s[i])
}

/// Every protected character lies in the basic multilingual plane, so four
/// hexadecimal digits always suffice for its code point.
pub proof fn lemma_protected_in_bmp(c: char)
    requires
        spec_is_protected(c),
    ensures
        (c as u32) < 0x10000,
{
}

// ---------------------------------------------------------------------------
// Hexadecimal digits
// ---------------------------------------------------------------------------

/// The uppercase hexadecimal digit for a value below 16.
pub open spec fn spec_hex_digit_char(d: u32) -> char {
    if d == 0 {
        '0'
    } else if d == 1 {
        '1'
    } else if d == 2 {
        '2'
    } else if d == 3 {
        '3'
    } else if d == 4 {
        '4'
    } else if d == 5 {
        '5'
    } else if d == 6 {
        '6'
    } else if d == 7 {
        '7'
    } else if d == 8 {
        '8'
    } else if d == 9 {
        '9'
    } else if d == 10 {
        'A'
    } else if d == 11 {
        'B'
    } else if d == 12 {
        'C'
    } else if d == 13 {
        'D'
    } else if d == 14 {
        'E'
    } else {
        'F'
    }
}

fn hex_digit_char(d: u32) -> (c: char)
    requires
        d < 16,
    ensures
        c == spec_hex_digit_char(d),
{
    if d == 0 {
        '0'
    } else if d == 1 {
        '1'
    } else if d == 2 {
        '2'
    } else if d == 3 {
        '3'
    } else if d == 4 {
        '4'
    } else if d == 5 {
        '5'
    } else if d == 6 {
        '6'
    } else if d == 7 {
        '7'
    } else if d == 8 {
        '8'
    } else if d == 9 {
        '9'
    } else if d == 10 {
        'A'
    } else if d == 11 {
        'B'
    } else if d == 12 {
        'C'
    } else if d == 13 {
        'D'
    } else if d == 14 {
        'E'
    } else {
        'F'
    }
}

/// An ASCII hexadecimal digit of either case, as the decoder accepts.
pub open spec fn spec_is_hex_digit(c: char) -> bool {
    let d = c as u32;
    (0x30 <= d && d <= 0x39) || (0x41 <= d && d <= 0x46) || (0x61 <= d && d <= 0x66)
}

fn is_hex_digit(c: char) -> (r: bool)
    ensures
        r == spec_is_hex_digit(c),
{
    let d = c as u32;
    (0x30 <= d && d <= 0x39) || (0x41 <= d && d <= 0x46) || (0x61 <= d && d <= 0x66)
}

/// The value of a hexadecimal digit character (0 for any other character).
pub open spec fn spec_hex_char_val(c: char) -> int {
    let d = c as int;
    if 0x30 <= d && d <= 0x39 {
        d - 0x30
    } else if 0x41 <= d && d <= 0x46 {
        d - 0x41 + 10
    } else if 0x61 <= d && d <= 0x66 {
        d - 0x61 + 10
    } else {
        0
    }
}

fn hex_char_val(c: char) -> (r: u32)
    requires
        spec_is_hex_digit(c),
    ensures
        r == spec_hex_char_val(c),
        r < 16,
{
    let d = c as u32;
    if 0x30 <= d && d <= 0x39 {
        d - 0x30
    } else if 0x41 <= d && d <= 0x46 {
        d - 0x41 + 10
    } else {
        d - 0x61 + 10
    }
}

/// A code point below 0x10000 as four uppercase hexadecimal digits.
pub open spec fn spec_hex4(code: u32) -> Seq<char> {
    seq![
        spec_hex_digit_char((code >> 12) & 0xF),
        spec_hex_digit_char((code >> 8) & 0xF),
        spec_hex_digit_char((code >> 4) & 0xF),
        spec_hex_digit_char(code & 0xF),
    ]
}

fn push_hex4(out: &mut Vec<char>, code: u32)
    requires
        code < 0x10000,
    ensures
        final(out)@ == old(out)@ + spec_hex4(code),
{
    proof {
        assert((code >> 12) & 0xF < 16 && (code >> 8) & 0xF < 16 && (code >> 4) & 0xF < 16
            && code & 0xF < 16) by (bit_vector);
    }
    out.push(hex_digit_char((code >> 12) & 0xF));
    out.push(hex_digit_char((code >> 8) & 0xF));
    out.push(hex_digit_char((code >> 4) & 0xF));
    out.push(hex_digit_char(code & 0xF));
    proof {
        assert(out@ =~= old(out)@ + spec_hex4(code));
    }
}

// ---------------------------------------------------------------------------
// Encoding
// ---------------------------------------------------------------------------

/// What one character becomes under the escape encoding.
pub open spec fn spec_encode_char(c: char) -> Seq<char> {
    if spec_needs_code_escape(c) {
        seq!['+', 'x'] + spec_hex4(c as u32)
    } else if spec_is_special_char(c) {
        seq!['+', 'X'] + spec_hex4(c as u32)
    } else {
        seq![c]
    }
}

/// The escape encoding of a whole text: each character's encoding, in order.
pub open spec fn spec_encode(s: Seq<char>) -> Seq<char>
    decreases s.len(),
{
    if s.len() == 0 {
        Seq::empty()
    } else {
        spec_encode_char(s[0]) + spec_encode(s.skip(1))
    }
}

/// Encoding distributes over concatenation.
pub proof fn lemma_encode_app(a: Seq<char>, b: Seq<char>)
    ensures
        spec_encode(a + b) == spec_encode(a) + spec_encode(b),
    decreases a.len(),
{
    if a.len() == 0 {
        assert(a + b =~= b);
        assert(spec_encode(a) + spec_encode(b) =~= spec_encode(b));
    } else {
        assert((a + b).skip(1) =~= a.skip(1) + b);
        lemma_encode_app(a.skip(1), b);
        assert(spec_encode(a + b) =~= spec_encode(a) + spec_encode(b));
    }
}

/// Applies the escape encoding to a sequence of characters.
pub fn encode_chars(input: &Vec<char>) -> (r: Vec<char>)
    ensures
        r@ == spec_encode(input@),
{
    let mut out: Vec<char> = Vec::new();
    let n: usize = input.len();
    let mut i: usize = 0;
    while i < n
        invariant
            i <= n,
            n == input@.len(),
            out@ == spec_encode(input@.take(i as int)),
        decreases n - i,
    {
        let c = input[i];
        if needs_code_escape(c) {
            proof {
                lemma_protected_in_bmp(c);
            }
            out.push('+');
            out.push('x');
            push_hex4(&mut out, c as u32);
        } else if is_special_char(c) {
            proof {
                lemma_protected_in_bmp(c);
            }
            out.push('+');
            out.push('X');
            push_hex4(&mut out, c as u32);
        } else {
            out.push(c);
        }
        proof {
            let c0 = input@[i as int];
            assert(seq![c0].skip(1) =~= Seq::<char>::empty());
            assert(spec_encode(Seq::<char>::empty()) =~= Seq::<char>::empty());
            assert(spec_encode(seq![c0]) =~= spec_encode_char(c0));
            assert(input@.take(i + 1) =~= input@.take(i as int) + seq![c0]);
            lemma_encode_app(input@.take(i as int), seq![c0]);
            assert(out@ =~= spec_encode(input@.take(i + 1)));
        }
        i = i + 1;
    }
    proof {
        assert(input@.take(n as int) =~= input@);
    }
    out
}

// ---------------------------------------------------------------------------
// Decoding
// ---------------------------------------------------------------------------

/// A Unicode scalar value: a code point that is not a surrogate.
pub open spec fn spec_is_scalar_value(code: int) -> bool {
    (0 <= code < 0xD800) || (0xE000 <= code <= 0x10FFFF)
}

/// The value of four hexadecimal digit characters.
pub open spec fn spec_hex4_val(s: Seq<char>) -> int {
    spec_hex_char_val(s[0]) * 4096 + spec_hex_char_val(s[1]) * 256 + spec_hex_char_val(s[2]) * 16
        + spec_hex_char_val(s[3])
}

/// Whether every character of the sequence is a hexadecimal digit.
pub open spec fn spec_all_hex(s: Seq<char>) -> bool {
    forall|i: int| 0 <= i < s.len() ==> spec_is_hex_digit(s[i])
}

/// The escape decoding of a text. At a marker (`+` then `x` or `X`) followed
/// by four hexadecimal digits that name a scalar value, the escape is
/// replaced by that character; any malformed escape is emitted verbatim.
pub open spec fn spec_decode(s: Seq<char>) -> Seq<char>
    decreases s.len(),
{
    if s.len() == 0 {
        Seq::empty()
    } else if s.len() >= 2 && s[0] == '+' && (s[1] == 'x' || s[1] == 'X') {
        let hex = s.subrange(2, if s.len() < 6 { s.len() as int } else { 6 });
        if hex.len() == 4 && spec_all_hex(hex) && spec_is_scalar_value(spec_hex4_val(hex)) {
            seq![(spec_hex4_val(hex) as u32) as char] + spec_decode(s.skip(6))
        } else {
            seq!['+', s[1]] + hex + spec_decode(s.skip(2 + hex.len() as int))
        }
    } else {
        seq![s[0]] + spec_decode(s.skip(1))
    }
}

/// Relies on `char::from_u32`: it returns `Some` exactly on the
/// non-surrogate code points at most 0x10FFFF, holding the character with
/// that code.
#[verifier::external_body]
fn char_from_u32(code: u32) -> (r: Option<char>)
    ensures
        r matches Some(c) ==> c as u32 == code && c == (code as char),
        spec_is_scalar_value(code as int) <==> r is Some,
{
    char::from_u32(code)
}

/// The character of a scalar value.
pub(crate) fn char_from_scalar(code: u32) -> (c: char)
    requires
        spec_is_scalar_value(code as int),
    ensures
        c as u32 == code,
        c == (code as char),
{
    match char_from_u32(code) {
        Some(c) => c,
        None => vstd::pervasive::unreached(),
    }
}

/// Applies the escape decoding to a sequence of characters.
pub fn decode_chars(input: &Vec<char>) -> (r: Vec<char>)
    ensures
        r@ == spec_decode(input@),
{
    let mut out: Vec<char> = Vec::new();
    let n: usize = input.len();
    let mut i: usize = 0;
    proof {
        assert(input@.skip(0) =~= input@);
        assert(Seq::<char>::empty() + spec_decode(input@) =~= spec_decode(input@));
    }
    while i < n
        invariant
            i <= n,
            n == input@.len(),
            spec_decode(input@) == out@ + spec_decode(input@.skip(i as int)),
        decreases n - i,
    {
        let ghost rest = input@.skip(i as int);
        let c = input[i];
        proof {
            assert(rest[0] == input@[i as int]);
        }
        if c == '+' && i + 1 < n && (input[i + 1] == 'x' || input[i + 1] == 'X') {
            let marker = input[i + 1];
            proof {
                assert(rest[1] == input@[i + 1]);
            }
            let avail: usize = n - i - 2;
            let take: usize = if avail < 4 {
                avail
            } else {
                4
            };
            let ghost hex = rest.subrange(2, if rest.len() < 6 { rest.len() as int } else { 6 });
            proof {
                assert(hex =~= input@.subrange(i + 2, i + 2 + take));
            }
            let mut parsed: Option<u32> = None;
            if take == 4 {
                let c0 = input[i + 2];
                let c1 = input[i + 3];
                let c2 = input[i + 4];
                let c3 = input[i + 5];
                proof {
                    assert(hex[0] == input@[i + 2] && hex[1] == input@[i + 3] && hex[2] == input@[i
                        + 4] && hex[3] == input@[i + 5]);
                }
                if is_hex_digit(c0) && is_hex_digit(c1) && is_hex_digit(c2) && is_hex_digit(c3) {
                    let val: u32 = hex_char_val(c0) * 4096 + hex_char_val(c1) * 256 + hex_char_val(
                        c2,
                    ) * 16 + hex_char_val(c3);
                    if val < 0xD800 || 0xE000 <= val {
                        parsed = Some(val);
                    }
                    proof {
                        assert(val == spec_hex4_val(hex));
                        assert(val < 0x10000);
                        assert(forall|k: int| 0 <= k < 4 ==> spec_is_hex_digit(hex[k]));
                    }
                }
            }
            match parsed {
                Some(val) => {
                    out.push(char_from_scalar(val));
                    proof {
                        assert(spec_all_hex(hex));
                        assert(spec_hex4_val(hex) as u32 == val);
                        assert(spec_decode(rest) == seq![(spec_hex4_val(hex) as u32) as char]
                            + spec_decode(rest.skip(6)));
                        assert(rest.skip(6) =~= input@.skip(i + 6));
                    }
                    i = i + 6;
                },
                None => {
                    out.push('+');
                    out.push(marker);
                    let ghost out_mid = out@;
                    let mut k: usize = 0;
                    while k < take
                        invariant
                            k <= take,
                            i + 2 + take <= n,
                            n == input@.len(),
                            out@ == out_mid + input@.subrange(i as int + 2, i as int + 2
                                + k as int),
                        decreases take - k,
                    {
                        out.push(input[i + 2 + k]);
                        proof {
                            assert(input@.subrange(i as int + 2, i as int + 2 + k as int + 1)
                                =~= input@.subrange(i as int + 2, i as int + 2 + k as int) + seq![
                                input@[i as int + 2 + k as int],
                            ]);
                        }
                        k = k + 1;
                    }
                    proof {
                        assert(!(hex.len() == 4 && spec_all_hex(hex) && spec_is_scalar_value(
                            spec_hex4_val(hex),
                        )));
                        assert(spec_decode(rest) == seq!['+', rest[1]] + hex + spec_decode(
                            rest.skip(2 + hex.len() as int),
                        ));
                        assert(rest.skip(2 + take) =~= input@.skip(i + 2 + take));
                    }
                    i = i + 2 + take;
                },
            }
        } else {
            out.push(c);
            proof {
                assert(spec_decode(rest) == seq![rest[0]] + spec_decode(rest.skip(1)));
                assert(rest.skip(1) =~= input@.skip(i + 1));
            }
            i = i + 1;
        }
    }
    proof {
        assert(input@.skip(n as int) =~= Seq::<char>::empty());
        assert(spec_decode(Seq::<char>::empty()) =~= Seq::<char>::empty());
        assert(out@ =~= spec_decode(input@));
    }
    out
}

// ---------------------------------------------------------------------------
// Laws
// ---------------------------------------------------------------------------

proof fn lemma_hex_digit_roundtrip(d: u32)
    requires
        d < 16,
    ensures
        spec_is_hex_digit(spec_hex_digit_char(d)),
        spec_hex_char_val(spec_hex_digit_char(d)) == d,
{
}

proof fn lemma_hex4_of_code(code: u32)
    requires
        code < 0x10000,
    ensures
        spec_hex4(code).len() == 4,
        spec_all_hex(spec_hex4(code)),
        spec_hex4_val(spec_hex4(code)) == code,
{
    let d0 = (code >> 12) & 0xF;
    let d1 = (code >> 8) & 0xF;
    let d2 = (code >> 4) & 0xF;
    let d3 = code & 0xF;
    assert(((code >> 12) & 0xF) < 16 && ((code >> 8) & 0xF) < 16 && ((code >> 4) & 0xF) < 16 && (
    code & 0xF) < 16) by (bit_vector);
    lemma_hex_digit_roundtrip(d0);
    lemma_hex_digit_roundtrip(d1);
    lemma_hex_digit_roundtrip(d2);
    lemma_hex_digit_roundtrip(d3);
    assert(((code >> 12) & 0xF) * 4096 + ((code >> 8) & 0xF) * 256 + ((code >> 4) & 0xF) * 16 + (
    code & 0xF) == code) by (bit_vector)
        requires
            code < 0x10000,
    ;
}

/// A text is marker-free when no `+` in it is immediately followed by an
/// `x` or `X`: such a text contains nothing the decoder could mistake for
/// an escape the encoder did not write.
pub open spec fn spec_marker_free(s: Seq<char>) -> bool {
    forall|i: int|
        0 <= i && i + 1 < s.len() ==> !((#[trigger] s[i]) == '+' && (s[i + 1] == 'x' || s[i + 1]
            == 'X'))
}

/// A text without protected characters is left unchanged by the encoder.
pub proof fn lemma_encode_unprotected_identity(s: Seq<char>)
    requires
        !spec_needs_encoding(s),
    ensures
        spec_encode(s) == s,
    decreases s.len(),
{
    if s.len() == 0 {
        assert(spec_encode(s) =~= s);
    } else {
        assert(!spec_is_protected(s[0]));
        lemma_encode_unprotected_identity(s.skip(1));
        assert(spec_encode(s) =~= seq![s[0]] + s.skip(1));
        assert(seq![s[0]] + s.skip(1) =~= s);
    }
}

/// An index where a well-formed escape stands: a marker, then four
/// hexadecimal digits that name a scalar value.
pub open spec fn spec_escape_at(s: Seq<char>, i: int) -> bool {
    &&& 0 <= i
    &&& i + 6 <= s.len()
    &&& s[i] == '+'
    &&& (s[i + 1] == 'x' || s[i + 1] == 'X')
    &&& spec_all_hex(s.subrange(i + 2, i + 6))
    &&& spec_is_scalar_value(spec_hex4_val(s.subrange(i + 2, i + 6)))
}

proof fn lemma_escape_at_skip(s: Seq<char>, k: int)
    requires
        0 <= k <= s.len(),
        forall|i: int| !spec_escape_at(s, i),
    ensures
        forall|i: int| !spec_escape_at(s.skip(k), i),
{
    assert forall|i: int| !spec_escape_at(s.skip(k), i) by {
        if spec_escape_at(s.skip(k), i) {
            assert(forall|j: int|
                0 <= j < s.skip(k).len() ==> (#[trigger] s.skip(k)[j]) == s[k + j]);
            assert(s.skip(k).subrange(i + 2, i + 6) =~= s.subrange(k + i + 2, k + i + 6));
            assert(spec_escape_at(s, k + i));
        }
    }
}

/// Decoding never fails, it degrades to passthrough: a text with no
/// well-formed escape anywhere in it is left unchanged by the decoder,
/// whatever markers and partial digits it holds.
pub proof fn lemma_decode_passthrough(s: Seq<char>)
    requires
        forall|i: int| !spec_escape_at(s, i),
    ensures
        spec_decode(s) == s,
    decreases s.len(),
{
    if s.len() == 0 {
        assert(spec_decode(s) =~= s);
    } else if s.len() >= 2 && s[0] == '+' && (s[1] == 'x' || s[1] == 'X') {
        let hex = s.subrange(2, if s.len() < 6 { s.len() as int } else { 6 });
        if hex.len() == 4 && spec_all_hex(hex) && spec_is_scalar_value(spec_hex4_val(hex)) {
            assert(spec_escape_at(s, 0));
            assert(false);
        } else {
            let consumed = 2 + hex.len() as int;
            lemma_escape_at_skip(s, consumed);
            lemma_decode_passthrough(s.skip(consumed));
            assert(seq!['+', s[1]] + hex =~= s.take(consumed));
            assert(s.take(consumed) + s.skip(consumed) =~= s);
        }
    } else {
        lemma_escape_at_skip(s, 1);
        lemma_decode_passthrough(s.skip(1));
        assert(spec_decode(s) == seq![s[0]] + spec_decode(s.skip(1)));
        assert(seq![s[0]] + s.skip(1) =~= s);
    }
}

/// A marker-free text is left unchanged by the decoder, since without a
/// marker no well-formed escape can stand anywhere in it.
pub proof fn lemma_decode_marker_free_identity(s: Seq<char>)
    requires
        spec_marker_free(s),
    ensures
        spec_decode(s) == s,
{
    assert forall|i: int| !spec_escape_at(s, i) by {
        if spec_escape_at(s, i) {
            assert(s[i] == '+' && (s[i + 1] == 'x' || s[i + 1] == 'X'));
        }
    }
    lemma_decode_passthrough(s);
}

/// The round-trip law: decoding undoes encoding on every marker-free text.
/// A text that itself spells out a marker (`+x` or `+X`) is passed through
/// by the encoder and may be mistaken for an escape by the decoder; that
/// ambiguity is accepted, and such texts are excluded here.
pub proof fn lemma_decode_encode_roundtrip(s: Seq<char>)
    requires
        spec_marker_free(s),
    ensures
        spec_decode(spec_encode(s)) == s,
    decreases s.len(),
{
    if s.len() == 0 {
        assert(spec_encode(s) =~= Seq::<char>::empty());
        assert(spec_decode(spec_encode(s)) =~= s);
    } else {
        let c = s[0];
        let tail = s.skip(1);
        assert(spec_marker_free(tail)) by {
            assert(forall|i: int|
                0 <= i && i + 1 < tail.len() ==> (#[trigger] tail[i]) == s[i + 1] && tail[i + 1]
                    == s[i + 2]);
        }
        lemma_decode_encode_roundtrip(tail);
        let e = spec_encode(s);
        assert(e == spec_encode_char(c) + spec_encode(tail));
        if spec_is_protected(c) {
            lemma_protected_in_bmp(c);
            let code = c as u32;
            lemma_hex4_of_code(code);
            assert(spec_encode_char(c).len() == 6);
            assert(e.len() >= 6);
            assert(e[0] == '+' && (e[1] == 'x' || e[1] == 'X'));
            let hex = e.subrange(2, 6);
            assert(hex =~= spec_hex4(code));
            assert(spec_hex4_val(hex) == code);
            vstd::utf8::char_is_scalar(c);
            assert(spec_is_scalar_value(code as int));
            assert(spec_decode(e) == seq![(spec_hex4_val(hex) as u32) as char] + spec_decode(
                e.skip(6),
            ));
            assert(e.skip(6) =~= spec_encode(tail));
            assert(spec_hex4_val(hex) as u32 == code);
            vstd::utf8::char_u32_cast(c, code);
            assert((spec_hex4_val(hex) as u32) as char == c);
            assert(spec_decode(e) =~= seq![c] + tail);
            assert(seq![c] + tail =~= s);
        } else {
            assert(spec_encode_char(c) =~= seq![c]);
            assert(e[0] == c);
            let fine = if e.len() >= 2 && e[0] == '+' && (e[1] == 'x' || e[1] == 'X') {
                false
            } else {
                true
            };
            assert(fine) by {
                if c == '+' && tail.len() > 0 {
                    let d = tail[0];
                    if spec_is_protected(d) {
                        assert(spec_encode(tail) == spec_encode_char(d) + spec_encode(
                            tail.skip(1),
                        ));
                        assert(spec_encode_char(d)[0] == '+');
                        assert(e[1] == '+');
                    } else {
                        assert(spec_encode(tail) == spec_encode_char(d) + spec_encode(
                            tail.skip(1),
                        ));
                        assert(spec_encode_char(d) =~= seq![d]);
                        assert(e[1] == d);
                        assert(s[0] == '+' && s[1] == d);
                        assert(!(d == 'x' || d == 'X'));
                    }
                } else if c == '+' {
                    assert(spec_encode(tail) =~= Seq::<char>::empty());
                    assert(e.len() == 1);
                }
            }
            assert(spec_decode(e) == seq![e[0]] + spec_decode(e.skip(1)));
            assert(e.skip(1) =~= spec_encode(tail));
            assert(spec_decode(e) =~= seq![c] + tail);
            assert(seq![c] + tail =~= s);
        }
    }
}

/// A text whose only characters are protected characters and marker-free
/// filler always survives the round trip; in particular a text holding a
/// single protected character does.
pub proof fn lemma_protected_char_roundtrip(c: char)
    requires
        spec_is_protected(c),
    ensures
        spec_decode(spec_encode(seq![c])) == seq![c],
{
    assert(spec_marker_free(seq![c]));
    lemma_decode_encode_roundtrip(seq![c]);
}

/// Decides whether any character of the text is protected.
pub fn needs_encoding_chars(input: &Vec<char>) -> (r: bool)
    ensures
        r == spec_needs_encoding(input@),
{
    let n: usize = input.len();
    let mut i: usize = 0;
    while i < n
        invariant
            i <= n,
            n == input@.len(),
            forall|j: int| 0 <= j < i ==> !spec_is_protected(input@[j]),
        decreases n - i,
    {
        let c = input[i];
        if needs_code_escape(c) || is_special_char(c) {
            return true;
        }
        i = i + 1;
    }
    false
}

// ---------------------------------------------------------------------------
// String boundary
// ---------------------------------------------------------------------------

/// Relies on `str::chars` collected into a `Vec`: it yields exactly the
/// characters of the string, in order.
#[verifier::external_body]
pub(crate) fn str_chars(s: &str) -> (r: Vec<char>)
    ensures
        r@ == s@,
{
    s.chars().collect()
}

/// Relies on `String`'s `FromIterator` over `char`: collecting characters
/// builds the string holding exactly those characters, in order.
#[verifier::external_body]
pub(crate) fn chars_to_string(v: &Vec<char>) -> (r: String)
    ensures
        r@ == v@,
{
    v.iter().collect()
}

/// Applies the escape encoding to a text: protected characters become
/// marker-and-four-hex-digit escapes, everything else passes through.
pub fn hangul_encode(input: &str) -> (r: String)
    ensures
        r@ == spec_encode(input@),
{
    let chars = str_chars(input);
    let encoded = encode_chars(&chars);
    chars_to_string(&encoded)
}

/// Applies the escape decoding to a text. Malformed escapes are emitted
/// verbatim: decoding never fails.
pub fn hangul_decode(input: &str) -> (r: String)
    ensures
        r@ == spec_decode(input@),
{
    let chars = str_chars(input);
    let decoded = decode_chars(&chars);
    chars_to_string(&decoded)
}

/// The fast pre-check of the dispatch layer: whether the text holds any
/// protected character at all, so that ordinary text can skip the codec.
pub fn needs_encoding(input: &str) -> (r: bool)
    ensures
        r == spec_needs_encoding(input@),
{
    let chars = str_chars(input);
    needs_encoding_chars(&chars)
}

} // verus!
