//! Twenty-byte ledger addresses and their hexadecimal text form.

use vstd::prelude::*;

verus! {

/// What `H160::from_str` yields for a given text: the twenty bytes it decoded,
/// or the words in which it reports its failure.
pub uninterp spec fn address_from_hex(text: Seq<char>) -> Result<Seq<u8>, Seq<char>>;

/// A ledger address: exactly twenty bytes.
#[derive(Clone, Copy, Debug)]
pub struct Address {
    bytes: [u8; 20],
}

impl View for Address {
    type V = Seq<u8>;

    closed spec fn view(&self) -> Seq<u8> {
        self.bytes@
    }
}

/// The twenty zero bytes.
pub open spec fn zero_bytes() -> Seq<u8> {
    Seq::new(20, |i: int| 0u8)
}

/// A parsed address, or the words of the failure, as plain values.
pub open spec fn parsed_address(r: Result<Address, String>) -> Result<Seq<u8>, Seq<char>> {
    match r {
        Ok(a) => Ok(a@),
        Err(c) => Err(c@),
    }
}

/// An address that may be missing, as plain values.
pub open spec fn optional_address(a: Option<Address>) -> Option<Seq<u8>> {
    match a {
        Some(a) => Some(a@),
        None => None,
    }
}

/// Calls `H160::from_str` (`ethers::types::H160`, whose error is
/// `rustc_hex::FromHexError`) and hands back its twenty bytes, or the text
/// that its error displays. Nothing is claimed of which texts decode: the
/// result is only given its name.
#[verifier::external_body]
fn address_of_hex(text: &str) -> (r: Result<Address, String>)
    ensures
        parsed_address(r) == address_from_hex(text@),
{
    let parsed: Result<ethers::types::H160, rustc_hex::FromHexError> = text.parse();
    match parsed {
        Ok(h) => Ok(Address { bytes: h.0 }),
        Err(e) => Err(e.to_string()),
    }
}

impl Address {
    /// The address whose bytes are all zero.
    pub fn zero() -> (a: Address)
        ensures
            a@ == zero_bytes(),
    {
        let a = Address { bytes: [0u8; 20] };
        assert(a@ =~= zero_bytes());
        a
    }

    /// The address made of the given bytes, if there are exactly twenty.
    pub fn from_bytes(bytes: &[u8]) -> (r: Option<Address>)
        ensures
            bytes@.len() == 20 ==> r is Some && r->Some_0@ == bytes@,
            bytes@.len() != 20 ==> r is None,
    {
        if bytes.len() != 20 {
            return None;
        }
        let mut out: [u8; 20] = [0u8; 20];
        let mut i: usize = 0;
        while i < 20
            invariant
                i <= 20,
                bytes@.len() == 20,
                forall|j: int| 0 <= j < i ==> out@[j] == bytes@[j],
            decreases 20 - i,
        {
            out[i] = bytes[i];
            i += 1;
        }
        let a = Address { bytes: out };
        assert(a@ =~= bytes@);
        Some(a)
    }

    /// The bytes of the address, first byte first.
    pub fn to_vec(&self) -> (v: Vec<u8>)
        ensures
            v@ == self@,
    {
        let mut v: Vec<u8> = Vec::new();
        let mut i: usize = 0;
        while i < 20
            invariant
                i <= 20,
                v@ == self.bytes@.subrange(0, i as int),
            decreases 20 - i,
        {
            v.push(self.bytes[i]);
            assert(v@ =~= self.bytes@.subrange(0, i + 1));
            i += 1;
        }
        assert(v@ =~= self@);
        v
    }

    /// Whether every byte is zero.
    pub fn is_zero(&self) -> (z: bool)
        ensures
            z == (self@ == zero_bytes()),
    {
        let mut i: usize = 0;
        while i < 20
            invariant
                i <= 20,
                forall|j: int| 0 <= j < i ==> self.bytes@[j] == 0u8,
            decreases 20 - i,
        {
            if self.bytes[i] != 0 {
                assert(zero_bytes()[i as int] == 0u8);
                return false;
            }
            i += 1;
        }
        assert(self@ =~= zero_bytes());
        true
    }

    /// Whether two addresses have the same bytes.
    pub fn same_as(&self, other: &Address) -> (e: bool)
        ensures
            e == (self@ == other@),
    {
        let mut i: usize = 0;
        while i < 20
            invariant
                i <= 20,
                forall|j: int| 0 <= j < i ==> self.bytes@[j] == other.bytes@[j],
            decreases 20 - i,
        {
            if self.bytes[i] != other.bytes[i] {
                return false;
            }
            i += 1;
        }
        assert(self@ =~= other@);
        true
    }

    /// Reads an address from its hexadecimal text.
    pub fn parse(text: &str) -> (r: Result<Address, String>)
        ensures
            parsed_address(r) == address_from_hex(text@),
    {
        address_of_hex(text)
    }
}

} // verus!
