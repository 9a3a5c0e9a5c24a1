//! Texts: from the bytes of the input to a `String`.

use crate::model::Encoding;
use crate::wire::{le_u16, u16_from_le};
use vstd::prelude::*;

verus! {

/// The text that `String::from_utf8_lossy` makes of a run of bytes.
pub uninterp spec fn utf8_lossy(bytes: Seq<u8>) -> Seq<char>;

/// The text that `String::from_utf16_lossy` makes of a run of code units.
pub uninterp spec fn utf16_lossy(units: Seq<u16>) -> Seq<char>;

/// The UTF-16 code units that a run of bytes spells, two bytes each, the low
/// byte first. A last byte without a partner spells nothing.
pub open spec fn utf16_units(bytes: Seq<u8>) -> Seq<u16> {
    Seq::new(bytes.len() / 2, |i: int| le_u16(bytes.subrange(2 * i, 2 * i + 2)))
}

/// The text that a run of bytes spells in an encoding. What is malformed is
/// replaced, never refused.
pub open spec fn decoded(encoding: Encoding, bytes: Seq<u8>) -> Seq<char> {
    match encoding {
        Encoding::Utf16 => utf16_lossy(utf16_units(bytes)),
        Encoding::Utf8 => utf8_lossy(bytes),
    }
}

/// Calls `String::from_utf8_lossy` and takes the text out of what it returns.
/// The contract only gives the text a name: of which characters it holds,
/// nothing is claimed.
#[verifier::external_body]
fn from_utf8_lossy(bytes: &[u8]) -> (text: String)
    ensures
        text@ == utf8_lossy(bytes@),
{
    String::from_utf8_lossy(bytes).into_owned()
}

/// Calls `String::from_utf16_lossy`. The contract only gives the text a name:
/// of which characters it holds, nothing is claimed.
#[verifier::external_body]
fn from_utf16_lossy(units: &[u16]) -> (text: String)
    ensures
        text@ == utf16_lossy(units@),
{
    String::from_utf16_lossy(units)
}

/// Puts the code units of a UTF-16 text together, byte pair by byte pair.
pub fn assemble_utf16(bytes: &[u8]) -> (units: Vec<u16>)
    ensures
        units@ == utf16_units(bytes@),
{
    let count = bytes.len() / 2;
    let mut units: Vec<u16> = Vec::new();
    let mut i: usize = 0;
    while i < count
        invariant
            count == bytes@.len() / 2,
            bytes@.len() <= usize::MAX,
            i <= count,
            units@.len() == i,
            forall|j: int| 0 <= j < i ==> units@[j] == #[trigger] utf16_units(bytes@)[j],
        decreases count - i,
    {
        let pair = [bytes[2 * i], bytes[2 * i + 1]];
        assert(pair@ =~= bytes@.subrange(2 * i, 2 * i + 2));
        units.push(u16_from_le(pair));
        i += 1;
    }
    assert(units@ =~= utf16_units(bytes@));
    units
}

/// Decodes a text. It cannot fail.
pub fn decode(encoding: Encoding, bytes: &[u8]) -> (text: String)
    ensures
        text@ == decoded(encoding, bytes@),
{
    match encoding {
        Encoding::Utf16 => {
            let units = assemble_utf16(bytes);
            from_utf16_lossy(units.as_slice())
        },
        Encoding::Utf8 => from_utf8_lossy(bytes),
    }
}

} // verus!
