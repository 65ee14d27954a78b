//! Wire codecs (binary and JSON) for the values the directory moves around.
//!
//! Every payload travels as bytes.  The envelope `(id, bytes)` and the small
//! test payloads are encoded by the serialization crates the wire peers use;
//! each call is wrapped in a trusted item whose contract names the resulting
//! byte string as a function of the encoded value, so that decode contracts
//! can promise the round trip exactly.

use vstd::prelude::*;

verus! {

/// Which of the two supported serializations a registration uses.
#[derive(Clone, Copy, Debug, PartialEq, Eq, Structural)]
pub enum WireFormat {
    Binary,
    Json,
}

/// The byte string that the binary codec produces for an `(id, bytes)` pair.
pub uninterp spec fn bin_wire_pair(id: Seq<char>, body: Seq<u8>) -> Seq<u8>;

/// The byte string that the JSON codec produces for an `(id, bytes)` pair.
pub uninterp spec fn json_wire_pair(id: Seq<char>, body: Seq<u8>) -> Seq<u8>;

/// The byte string that the JSON codec produces for a single byte value.
pub uninterp spec fn json_wire_byte(x: u8) -> Seq<u8>;

/// Relies on `bincode::serialize`: the little-endian, fixed-int encoding of a
/// `(String, Vec<u8>)` pair is a function of the pair's contents alone, and
/// encoding values in memory with the unlimited default configuration does
/// not fail.
#[verifier::external_body]
pub(crate) fn bin_encode_pair(id: &String, body: &Vec<u8>) -> (r: Vec<u8>)
    ensures
        r@ == bin_wire_pair(id@, body@),
{
    bincode::serialize(&(id, body)).expect("bincode rejected an in-memory pair")
}

/// Relies on `bincode::deserialize`: decoding the exact bytes that
/// `bincode::serialize` produced for a `(String, Vec<u8>)` pair yields that
/// pair back (the length-prefixed layout admits no other preimage).
#[verifier::external_body]
pub(crate) fn bin_decode_pair(w: &[u8]) -> (r: Option<(String, Vec<u8>)>)
    ensures
        forall|id: Seq<char>, body: Seq<u8>|
            w@ == bin_wire_pair(id, body) ==> r is Some && r.unwrap().0@ == id
                && r.unwrap().1@ == body,
{
    bincode::deserialize::<(String, Vec<u8>)>(w).ok()
}

/// Relies on `serde_json::to_vec`: the JSON text for a `(String, Vec<u8>)`
/// pair is a function of the pair's contents alone, and serializing strings
/// and byte sequences cannot fail.
#[verifier::external_body]
pub(crate) fn json_encode_pair(id: &String, body: &Vec<u8>) -> (r: Vec<u8>)
    ensures
        r@ == json_wire_pair(id@, body@),
{
    serde_json::to_vec(&(id, body)).expect("serde_json rejected an in-memory pair")
}

/// Relies on `serde_json::from_slice`: parsing the exact JSON text that
/// `serde_json::to_vec` produced for a `(String, Vec<u8>)` pair yields that
/// pair back.
#[verifier::external_body]
pub(crate) fn json_decode_pair(w: &[u8]) -> (r: Option<(String, Vec<u8>)>)
    ensures
        forall|id: Seq<char>, body: Seq<u8>|
            w@ == json_wire_pair(id, body) ==> r is Some && r.unwrap().0@ == id
                && r.unwrap().1@ == body,
{
    serde_json::from_slice::<(String, Vec<u8>)>(w).ok()
}

/// Relies on `serde_json::to_vec`: the JSON text for a byte value is its
/// decimal numeral, a function of the value alone, and serializing an integer
/// cannot fail.
#[verifier::external_body]
pub(crate) fn json_encode_byte(x: u8) -> (r: Vec<u8>)
    ensures
        r@ == json_wire_byte(x),
{
    serde_json::to_vec(&x).expect("serde_json rejected a byte")
}

/// Relies on `serde_json::from_slice`: parsing the decimal numeral that
/// `serde_json::to_vec` produced for a byte yields that byte back.
#[verifier::external_body]
pub(crate) fn json_decode_byte(w: &[u8]) -> (r: Option<u8>)
    ensures
        forall|x: u8| w@ == json_wire_byte(x) ==> r == Some(x),
{
    serde_json::from_slice::<u8>(w).ok()
}

} // verus!
