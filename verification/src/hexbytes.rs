//! Byte strings in their hexadecimal wire form.

use vstd::prelude::*;

verus! {

/// What `Bytes::from_str` yields for a given text: the bytes it decoded, or
/// the words in which it reports its failure.
pub uninterp spec fn bytes_from_hex(text: Seq<char>) -> Result<Seq<u8>, Seq<char>>;

/// Decoded bytes, or the words of the failure, as plain values.
pub open spec fn parsed_bytes(r: Result<Vec<u8>, String>) -> Result<Seq<u8>, Seq<char>> {
    match r {
        Ok(b) => Ok(b@),
        Err(c) => Err(c@),
    }
}

/// Calls `Bytes::from_str` (`ethers::types::Bytes`, whose error is
/// `ParseBytesError`) and hands back the decoded bytes, or the text that its
/// error displays. Nothing is claimed of which texts decode: the result is
/// only given its name.
#[verifier::external_body]
fn bytes_of_hex(text: &str) -> (r: Result<Vec<u8>, String>)
    ensures
        parsed_bytes(r) == bytes_from_hex(text@),
{
    let parsed: Result<ethers::types::Bytes, ethers::types::ParseBytesError> = text.parse();
    match parsed {
        Ok(b) => Ok(b.to_vec()),
        Err(e) => Err(e.to_string()),
    }
}

/// Reads a byte string from its hexadecimal wire form.
pub fn decode_hex(text: &str) -> (r: Result<Vec<u8>, String>)
    ensures
        parsed_bytes(r) == bytes_from_hex(text@),
{
    bytes_of_hex(text)
}

/// Whether two byte strings are the same.
pub fn same_bytes(a: &[u8], b: &[u8]) -> (e: bool)
    ensures
        e == (a@ == b@),
{
    if a.len() != b.len() {
        return false;
    }
    let mut i: usize = 0;
    while i < a.len()
        invariant
            i <= a@.len(),
            a@.len() == b@.len(),
            forall|j: int| 0 <= j < i ==> a@[j] == b@[j],
        decreases a@.len() - i,
    {
        if a[i] != b[i] {
            return false;
        }
        i += 1;
    }
    assert(a@ =~= b@);
    true
}

} // verus!
