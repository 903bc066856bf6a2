//! Recoverable signatures over the canonical payload of a request.

use crate::address::{optional_address, Address};
use vstd::bytes::*;
use vstd::prelude::*;
use vstd::slice::*;
use vstd::string::*;
use vstd::utf8::*;

verus! {

/// Number of bytes in each of the two scalars of a signature.
pub const SCALAR_LEN: usize = 32;

/// A recoverable signature as it arrives: the recovery value, and the two
/// scalars in hexadecimal text.
#[derive(Debug)]
pub struct Signature {
    pub v: u64,
    pub r: String,
    pub s: String,
}

/// One field of a payload: its length in eight bytes, least significant
/// first, then its bytes.
pub open spec fn frame(field: Seq<u8>) -> Seq<u8> {
    spec_u64_to_le_bytes(field.len() as u64) + field
}

/// The bytes that a requester signs: the identifier, the name and the value,
/// each framed by its length, in that order.
pub open spec fn canonical_payload(did: Seq<u8>, name: Seq<u8>, value: Seq<u8>) -> Seq<u8> {
    frame(did) + frame(name) + frame(value)
}

/// A framed field can be cut off the front of a payload in one way only.
pub proof fn lemma_frame_splits(a: Seq<u8>, rest_a: Seq<u8>, b: Seq<u8>, rest_b: Seq<u8>)
    requires
        a.len() <= u64::MAX,
        b.len() <= u64::MAX,
        frame(a) + rest_a == frame(b) + rest_b,
    ensures
        a == b,
        rest_a == rest_b,
{
    lemma_auto_spec_u64_to_from_le_bytes();
    let pa = frame(a) + rest_a;
    let pb = frame(b) + rest_b;
    let la = spec_u64_to_le_bytes(a.len() as u64);
    let lb = spec_u64_to_le_bytes(b.len() as u64);
    assert(pa.subrange(0, 8) =~= la);
    assert(pb.subrange(0, 8) =~= lb);
    assert(spec_u64_from_le_bytes(la) == a.len() as u64);
    assert(spec_u64_from_le_bytes(lb) == b.len() as u64);
    assert(a.len() == b.len());
    assert(pa.subrange(8, 8 + a.len() as int) =~= a);
    assert(pb.subrange(8, 8 + b.len() as int) =~= b);
    assert(pa.subrange(8 + a.len() as int, pa.len() as int) =~= rest_a);
    assert(pb.subrange(8 + b.len() as int, pb.len() as int) =~= rest_b);
}

/// Two requests with the same canonical payload are the same request: a
/// signature over one cannot be passed off as a signature over another.
pub proof fn lemma_payload_injective(
    did_a: Seq<u8>,
    name_a: Seq<u8>,
    value_a: Seq<u8>,
    did_b: Seq<u8>,
    name_b: Seq<u8>,
    value_b: Seq<u8>,
)
    requires
        did_a.len() <= u64::MAX && name_a.len() <= u64::MAX && value_a.len() <= u64::MAX,
        did_b.len() <= u64::MAX && name_b.len() <= u64::MAX && value_b.len() <= u64::MAX,
        canonical_payload(did_a, name_a, value_a) == canonical_payload(did_b, name_b, value_b),
    ensures
        did_a == did_b,
        name_a == name_b,
        value_a == value_b,
{
    let empty = Seq::<u8>::empty();
    assert(canonical_payload(did_a, name_a, value_a) =~= frame(did_a) + (frame(name_a) + frame(
        value_a,
    )));
    assert(canonical_payload(did_b, name_b, value_b) =~= frame(did_b) + (frame(name_b) + frame(
        value_b,
    )));
    lemma_frame_splits(did_a, frame(name_a) + frame(value_a), did_b, frame(name_b) + frame(value_b));
    lemma_frame_splits(name_a, frame(value_a), name_b, frame(value_b));
    assert(frame(value_a) =~= frame(value_a) + empty);
    assert(frame(value_b) =~= frame(value_b) + empty);
    lemma_frame_splits(value_a, empty, value_b, empty);
}

/// The canonical payload of a request whose identifier and name are texts:
/// their UTF-8 bytes and the value, framed.
pub open spec fn request_payload(did: Seq<char>, name: Seq<char>, value: Seq<u8>) -> Seq<u8> {
    canonical_payload(encode_utf8(did), encode_utf8(name), value)
}

/// Two requests with the same payload have the same identifier, the same
/// name and the same value.
pub proof fn lemma_request_payload_injective(
    did_a: Seq<char>,
    name_a: Seq<char>,
    value_a: Seq<u8>,
    did_b: Seq<char>,
    name_b: Seq<char>,
    value_b: Seq<u8>,
)
    requires
        encode_utf8(did_a).len() <= u64::MAX && encode_utf8(name_a).len() <= u64::MAX
            && value_a.len() <= u64::MAX,
        encode_utf8(did_b).len() <= u64::MAX && encode_utf8(name_b).len() <= u64::MAX
            && value_b.len() <= u64::MAX,
        request_payload(did_a, name_a, value_a) == request_payload(did_b, name_b, value_b),
    ensures
        did_a == did_b,
        name_a == name_b,
        value_a == value_b,
{
    lemma_payload_injective(
        encode_utf8(did_a),
        encode_utf8(name_a),
        value_a,
        encode_utf8(did_b),
        encode_utf8(name_b),
        value_b,
    );
    encode_utf8_decode_utf8(did_a);
    encode_utf8_decode_utf8(did_b);
    encode_utf8_decode_utf8(name_a);
    encode_utf8_decode_utf8(name_b);
}

/// Appends one framed field to a payload under construction.
fn push_frame(out: &mut Vec<u8>, field: &[u8])
    ensures
        final(out)@ == old(out)@ + frame(field@),
{
    let ghost before = out@;
    let mut len = u64_to_le_bytes(field.len() as u64);
    out.append(&mut len);
    let mut body = slice_to_vec(field);
    out.append(&mut body);
    assert(out@ =~= before + frame(field@));
}

/// The canonical payload of a request.
pub fn payload(did: &str, name: &str, value: &[u8]) -> (bytes: Vec<u8>)
    ensures
        bytes@ == request_payload(did@, name@, value@),
{
    let mut out: Vec<u8> = Vec::new();
    push_frame(&mut out, did.as_bytes());
    push_frame(&mut out, name.as_bytes());
    push_frame(&mut out, value);
    assert(out@ =~= request_payload(did@, name@, value@));
    out
}

/// What `Signature::recover` yields for a recovery value, two scalars of
/// thirty-two bytes each, most significant byte first, and a message: the
/// twenty bytes of the signer's address, or nothing where it reports an
/// error.
pub uninterp spec fn recovered_signer(v: u64, r: Seq<u8>, s: Seq<u8>, message: Seq<u8>) -> Option<
    Seq<u8>,
>;

/// Calls `ethers::types::Signature::recover` on the message bytes, with the
/// scalars read by `U256::from_big_endian`, and hands back the bytes of the
/// address or `None` for any `SignatureError`. The scalars must not be longer
/// than thirty-two bytes, or the reading panics. The result is only given its
/// name.
#[verifier::external_body]
fn recover_bytes(v: u64, r: &[u8], s: &[u8], message: &[u8]) -> (signer: Option<[u8; 20]>)
    requires
        r@.len() == 32,
        s@.len() == 32,
    ensures
        signer is Some ==> recovered_signer(v, r@, s@, message@) == Some(signer->Some_0@),
        signer is None ==> recovered_signer(v, r@, s@, message@) is None,
{
    let signature = ethers::types::Signature {
        r: ethers::types::U256::from_big_endian(r),
        s: ethers::types::U256::from_big_endian(s),
        v,
    };
    match signature.recover(message) {
        Ok(address) => Some(address.0),
        Err(_) => None,
    }
}

/// The signer of a message, as far as the scalars have the right length.
pub open spec fn signer_of(v: u64, r: Seq<u8>, s: Seq<u8>, message: Seq<u8>) -> Option<Seq<u8>> {
    if r.len() == 32 && s.len() == 32 {
        recovered_signer(v, r, s, message)
    } else {
        None
    }
}

/// Recovers the address that signed `message`. Scalars that are not
/// thirty-two bytes long have no signer.
pub fn recover(v: u64, r: &[u8], s: &[u8], message: &[u8]) -> (signer: Option<Address>)
    ensures
        optional_address(signer) == signer_of(v, r@, s@, message@),
{
    if r.len() != 32 || s.len() != 32 {
        return None;
    }
    match recover_bytes(v, r, s, message) {
        Some(bytes) => Address::from_bytes(bytes.as_slice()),
        None => None,
    }
}

} // verus!
