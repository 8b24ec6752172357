//! UTF-16 for the wide text buffers of the wire protocol: characters to
//! code units and back. Decoding is lossy in the usual way: any unpaired
//! surrogate becomes the replacement character, so no buffer is rejected.

use vstd::prelude::*;

verus! {

/// The UTF-16 code units of one character: one unit below 0x10000, else a
/// surrogate pair.
pub open spec fn spec_utf16_encode_char(c: char) -> Seq<u16> {
    let v = c as u32;
    if v < 0x10000 {
        seq![v as u16]
    } else {
        let w = (v - 0x10000) as u32;
        seq![(0xD800 + (w >> 10)) as u16, (0xDC00 + (w & 0x3FF)) as u16]
    }
}

/// The UTF-16 code units of a text, in order.
pub open spec fn spec_utf16_encode(s: Seq<char>) -> Seq<u16>
    decreases s.len(),
{
    if s.len() == 0 {
        Seq::empty()
    } else {
        spec_utf16_encode_char(s[0]) + spec_utf16_encode(s.skip(1))
    }
}

/// UTF-16 encoding distributes over concatenation.
pub proof fn lemma_utf16_encode_app(a: Seq<char>, b: Seq<char>)
    ensures
        spec_utf16_encode(a + b) == spec_utf16_encode(a) + spec_utf16_encode(b),
    decreases a.len(),
{
    if a.len() == 0 {
        assert(a + b =~= b);
        assert(spec_utf16_encode(a) + spec_utf16_encode(b) =~= spec_utf16_encode(b));
    } else {
        assert((a + b).skip(1) =~= a.skip(1) + b);
        lemma_utf16_encode_app(a.skip(1), b);
        assert(spec_utf16_encode(a + b) =~= spec_utf16_encode(a) + spec_utf16_encode(b));
    }
}

/// The characters read back from a code-unit sequence: an ordinary unit is
/// a character, a high surrogate followed by a low one is the paired
/// character, and any unpaired surrogate is the replacement character.
pub open spec fn spec_utf16_decode_lossy(u: Seq<u16>) -> Seq<char>
    decreases u.len(),
{
    if u.len() == 0 {
        Seq::empty()
    } else {
        let a = u[0];
        if a < 0xD800 || a >= 0xE000 {
            seq![(a as u32) as char] + spec_utf16_decode_lossy(u.skip(1))
        } else if a < 0xDC00 && u.len() >= 2 && 0xDC00 <= u[1] && u[1] < 0xE000 {
            let v = 0x10000 + (a - 0xD800) * 0x400 + (u[1] - 0xDC00);
            seq![(v as u32) as char] + spec_utf16_decode_lossy(u.skip(2))
        } else {
            seq!['\u{FFFD}'] + spec_utf16_decode_lossy(u.skip(1))
        }
    }
}

/// Encodes a text as UTF-16 code units.
pub fn utf16_encode_chars(input: &Vec<char>) -> (r: Vec<u16>)
    ensures
        r@ == spec_utf16_encode(input@),
{
    let mut out: Vec<u16> = Vec::new();
    let n: usize = input.len();
    let mut i: usize = 0;
    proof {
        assert(input@.take(0) =~= Seq::<char>::empty());
        assert(spec_utf16_encode(Seq::<char>::empty()) =~= Seq::<u16>::empty());
    }
    while i < n
        invariant
            i <= n,
            n == input@.len(),
            out@ == spec_utf16_encode(input@.take(i as int)),
        decreases n - i,
    {
        let c = input[i];
        let v = c as u32;
        proof {
            vstd::utf8::char_is_scalar(c);
        }
        if v < 0x10000 {
            out.push(v as u16);
        } else {
            let w = v - 0x10000;
            proof {
                assert(v <= 0x10FFFF);
                assert(w >> 10 <= 0x3FF && w & 0x3FF <= 0x3FF) by (bit_vector)
                    requires
                        w <= 0xFFFFF,
                ;
            }
            out.push((0xD800 + (w >> 10)) as u16);
            out.push((0xDC00 + (w & 0x3FF)) as u16);
        }
        proof {
            let c0 = input@[i as int];
            assert(seq![c0].skip(1) =~= Seq::<char>::empty());
            assert(spec_utf16_encode(Seq::<char>::empty()) =~= Seq::<u16>::empty());
            assert(spec_utf16_encode(seq![c0]) =~= spec_utf16_encode_char(c0));
            assert(input@.take(i + 1) =~= input@.take(i as int) + seq![c0]);
            lemma_utf16_encode_app(input@.take(i as int), seq![c0]);
            assert(out@ =~= spec_utf16_encode(input@.take(i + 1)));
        }
        i = i + 1;
    }
    proof {
        assert(input@.take(n as int) =~= input@);
    }
    out
}

/// Decodes UTF-16 code units back into text, replacing unpaired surrogates.
pub fn utf16_decode_lossy_chars(input: &Vec<u16>) -> (r: Vec<char>)
    ensures
        r@ == spec_utf16_decode_lossy(input@),
{
    let mut out: Vec<char> = Vec::new();
    let n: usize = input.len();
    let mut i: usize = 0;
    proof {
        assert(input@.skip(0) =~= input@);
        assert(Seq::<char>::empty() + spec_utf16_decode_lossy(input@) =~= spec_utf16_decode_lossy(
            input@,
        ));
    }
    while i < n
        invariant
            i <= n,
            n == input@.len(),
            spec_utf16_decode_lossy(input@) == out@ + spec_utf16_decode_lossy(
                input@.skip(i as int),
            ),
        decreases n - i,
    {
        let ghost rest = input@.skip(i as int);
        let a = input[i];
        proof {
            assert(rest[0] == input@[i as int]);
        }
        if a < 0xD800 || a >= 0xE000 {
            out.push(crate::codec::char_from_scalar(a as u32));
            proof {
                assert(spec_utf16_decode_lossy(rest) == seq![(rest[0] as u32) as char]
                    + spec_utf16_decode_lossy(rest.skip(1)));
                assert(rest.skip(1) =~= input@.skip(i + 1));
            }
            i = i + 1;
        } else if a < 0xDC00 && i + 1 < n && 0xDC00 <= input[i + 1] && input[i + 1] < 0xE000 {
            let b = input[i + 1];
            let v: u32 = 0x10000 + ((a - 0xD800) as u32) * 0x400 + ((b - 0xDC00) as u32);
            out.push(crate::codec::char_from_scalar(v));
            proof {
                assert(rest[1] == input@[i + 1]);
                assert(spec_utf16_decode_lossy(rest) == seq![((0x10000 + (rest[0] - 0xD800) * 0x400
                    + (rest[1] - 0xDC00)) as u32) as char] + spec_utf16_decode_lossy(rest.skip(2)));
                assert(rest.skip(2) =~= input@.skip(i + 2));
            }
            i = i + 2;
        } else {
            out.push('\u{FFFD}');
            proof {
                assert(spec_utf16_decode_lossy(rest) == seq!['\u{FFFD}'] + spec_utf16_decode_lossy(
                    rest.skip(1),
                ));
                assert(rest.skip(1) =~= input@.skip(i + 1));
            }
            i = i + 1;
        }
    }
    proof {
        assert(input@.skip(n as int) =~= Seq::<u16>::empty());
        assert(spec_utf16_decode_lossy(Seq::<u16>::empty()) =~= Seq::<char>::empty());
        assert(out@ =~= spec_utf16_decode_lossy(input@));
    }
    out
}

/// A text without NUL characters encodes to code units without NUL: an
/// ordinary unit carries its character's nonzero code, and the units of a
/// surrogate pair are never below 0xD800.
pub proof fn lemma_utf16_encode_no_nul(s: Seq<char>)
    requires
        forall|i: int| 0 <= i < s.len() ==> s[i] != '\0',
    ensures
        forall|j: int|
            0 <= j < spec_utf16_encode(s).len() ==> (#[trigger] spec_utf16_encode(s)[j]) != 0,
    decreases s.len(),
{
    if s.len() > 0 {
        let c = s[0];
        let tail = s.skip(1);
        let e = spec_utf16_encode_char(c);
        vstd::utf8::char_is_scalar(c);
        let v = c as u32;
        assert(s[0] != '\0');
        if v < 0x10000 {
            assert(e.len() == 1 && e[0] == v as u16);
            assert(v != 0) by {
                if v == 0 {
                    vstd::utf8::char_u32_cast(c, v);
                    vstd::utf8::char_u32_cast('\0', 0);
                    assert(c == '\0');
                }
            }
            assert(e[0] != 0);
        } else {
            let w = (v - 0x10000) as u32;
            assert(w >> 10 <= 0x3FF && w & 0x3FF <= 0x3FF) by (bit_vector)
                requires
                    w <= 0xFFFFF,
            ;
            assert(e.len() == 2 && e[0] != 0 && e[1] != 0);
        }
        assert(forall|j: int| 0 <= j < e.len() ==> e[j] != 0);
        lemma_utf16_encode_no_nul(tail);
        assert(spec_utf16_encode(s) == e + spec_utf16_encode(tail));
        assert forall|j: int|
            0 <= j < spec_utf16_encode(s).len() implies (#[trigger] spec_utf16_encode(s)[j])
            != 0 by {
            if j < e.len() {
                assert(spec_utf16_encode(s)[j] == e[j]);
            } else {
                assert(spec_utf16_encode(s)[j] == spec_utf16_encode(tail)[j - e.len()]);
            }
        }
    }
}

/// The UTF-16 round-trip law: decoding undoes encoding on every text.
/// Characters never carry surrogate code points, so every encoded unit or
/// pair reads back as the character it came from.
pub proof fn lemma_utf16_roundtrip(s: Seq<char>)
    ensures
        spec_utf16_decode_lossy(spec_utf16_encode(s)) == s,
    decreases s.len(),
{
    if s.len() == 0 {
        assert(spec_utf16_encode(s) =~= Seq::<u16>::empty());
        assert(spec_utf16_decode_lossy(spec_utf16_encode(s)) =~= s);
    } else {
        let c = s[0];
        let tail = s.skip(1);
        lemma_utf16_roundtrip(tail);
        let e = spec_utf16_encode(s);
        assert(e == spec_utf16_encode_char(c) + spec_utf16_encode(tail));
        vstd::utf8::char_is_scalar(c);
        let v = c as u32;
        if v < 0x10000 {
            assert(e[0] == v as u16);
            assert(v < 0xD800 || v >= 0xE000);
            assert((v as u16) as u32 == v);
            vstd::utf8::char_u32_cast(c, v);
            assert(spec_utf16_decode_lossy(e) == seq![(e[0] as u32) as char]
                + spec_utf16_decode_lossy(e.skip(1)));
            assert(e.skip(1) =~= spec_utf16_encode(tail));
            assert(spec_utf16_decode_lossy(e) =~= seq![c] + tail);
            assert(seq![c] + tail =~= s);
        } else {
            let w = (v - 0x10000) as u32;
            let hi = (0xD800 + (w >> 10)) as u16;
            let lo = (0xDC00 + (w & 0x3FF)) as u16;
            assert(w <= 0xFFFFF);
            assert(w >> 10 <= 0x3FF && w & 0x3FF <= 0x3FF && (w >> 10) * 0x400 + (w & 0x3FF) == w)
                by (bit_vector)
                requires
                    w <= 0xFFFFF,
            ;
            assert(e[0] == hi && e[1] == lo);
            assert(0xD800 <= hi && hi < 0xDC00);
            assert(0xDC00 <= lo && lo < 0xE000);
            let val = 0x10000 + (hi - 0xD800) * 0x400 + (lo - 0xDC00);
            assert(val == v);
            vstd::utf8::char_u32_cast(c, v);
            assert(spec_utf16_decode_lossy(e) == seq![(val as u32) as char]
                + spec_utf16_decode_lossy(e.skip(2)));
            assert((val as u32) as char == c);
            assert(e.skip(2) =~= spec_utf16_encode(tail));
            assert(spec_utf16_decode_lossy(e) =~= seq![c] + tail);
            assert(seq![c] + tail =~= s);
        }
    }
}

} // verus!
