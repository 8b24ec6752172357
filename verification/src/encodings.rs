//! The two legacy table-driven encodings of the wire protocol, done by the
//! `encoding_rs` crate: the legacy request text arrives as Shift-JIS bytes,
//! and the legacy response text leaves as EUC-KR bytes. The tables run to
//! thousands of entries, so each conversion's result is only given a name
//! here: a function of its input alone, never restated.

use vstd::prelude::*;

verus! {

/// The characters that Shift-JIS decoding yields for a byte sequence,
/// malformed sequences replaced with the replacement character.
pub uninterp spec fn spec_shift_jis_chars(b: Seq<u8>) -> Seq<char>;

/// The bytes that EUC-KR encoding yields for a text, unmappable characters
/// replaced with numeric character references.
pub uninterp spec fn spec_euc_kr_bytes(s: Seq<char>) -> Seq<u8>;

/// Relies on `encoding_rs::SHIFT_JIS`'s `decode`: complete-input decoding
/// with malformed sequences replaced, a function of the bytes alone. The
/// length bound keeps its internal buffer-size calculation far from
/// overflow, the one case its documentation reserves a panic for.
#[verifier::external_body]
pub(crate) fn decode_shift_jis(bytes: &Vec<u8>) -> (r: String)
    requires
        bytes@.len() <= 0x100000,
    ensures
        r@ == spec_shift_jis_chars(bytes@),
{
    let (decoded, _, _) = encoding_rs::SHIFT_JIS.decode(bytes.as_slice());
    decoded.into_owned()
}

/// Relies on `encoding_rs::EUC_KR`'s `encode`: complete-input encoding with
/// unmappable characters replaced by numeric character references, a
/// function of the text alone. The length bound keeps its internal
/// buffer-size calculation far from overflow, the one case its
/// documentation reserves a panic for.
#[verifier::external_body]
pub(crate) fn encode_euc_kr(s: &str) -> (r: Vec<u8>)
    requires
        s@.len() <= 0x4000000,
    ensures
        r@ == spec_euc_kr_bytes(s@),
{
    let (encoded, _, _) = encoding_rs::EUC_KR.encode(s);
    encoded.into_owned()
}

} // verus!
