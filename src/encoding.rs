use vstd::prelude::*;
use codepage_437::{FromCp437, CP437_CONTROL};

verus! {

/// The text that the code page 437 decoder (control-character dialect)
/// gives for a byte sequence.
pub uninterp spec fn cp437_text(b: Seq<u8>) -> Seq<char>;

/// Relies on codepage_437's `String::from_cp437` with the `CP437_CONTROL`
/// dialect: it maps every byte to exactly one character through a 256-entry
/// table, and that table keeps every byte below 0x80 as the same character.
#[verifier::external_body]
fn from_cp437_control(b: Vec<u8>) -> (r: String)
    ensures
        r@ == cp437_text(b@),
        r@.len() == b@.len(),
        forall|i: int| 0 <= i < b@.len() && b@[i] < 128 ==> r@[i] == b@[i] as char,
{
    String::from_cp437(b, &CP437_CONTROL)
}

/// Decodes data from the backend, read as code page 437 text, into the text
/// sent on to the client. Every byte value yields one character: the decode
/// never fails, and ASCII bytes stand for themselves.
pub fn decode_backend_data(data: Vec<u8>) -> (r: String)
    ensures
        r@ == cp437_text(data@),
        r@.len() == data@.len(),
        forall|i: int| 0 <= i < data@.len() && data@[i] < 128 ==> r@[i] == data@[i] as char,
{
    from_cp437_control(data)
}

} // verus!
