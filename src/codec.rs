//! The byte forms of profile records and of the identity index, both written
//! by bincode.
use std::collections::HashMap;
use vstd::prelude::*;
use vstd::utf8::encode_utf8;

verus! {

#[verifier::external_type_specification]
#[verifier::external_body]
pub struct ExBincodeErrorKind(bincode::ErrorKind);

/// `n` as eight little-endian bytes.
pub open spec fn le_u64(n: nat) -> Seq<u8> {
    seq![
        (n % 0x100) as u8,
        ((n / 0x100) % 0x100) as u8,
        ((n / 0x1_0000) % 0x100) as u8,
        ((n / 0x100_0000) % 0x100) as u8,
        ((n / 0x1_0000_0000) % 0x100) as u8,
        ((n / 0x100_0000_0000) % 0x100) as u8,
        ((n / 0x1_0000_0000_0000) % 0x100) as u8,
        ((n / 0x100_0000_0000_0000) % 0x100) as u8,
    ]
}

/// A string as bincode writes it: its UTF-8 byte count as a little-endian
/// `u64`, then its UTF-8 bytes.
pub open spec fn string_bytes(s: Seq<char>) -> Seq<u8> {
    le_u64(encode_utf8(s).len()) + encode_utf8(s)
}

/// The bytes that bincode writes for the record `(username, email)`: the two
/// strings one after the other.
pub open spec fn record_bytes(username: Seq<char>, email: Seq<char>) -> Seq<u8> {
    string_bytes(username) + string_bytes(email)
}

/// What bincode reads back from `b` as an index table, where `b` is one.
pub uninterp spec fn index_of_bytes(b: Seq<u8>) -> Option<Map<u64, Seq<char>>>;

/// Relies on `bincode::serialize` with its default fixed-width little-endian
/// encoding and no size limit: writing two strings into a `Vec` cannot fail.
#[verifier::external_body]
pub(crate) fn encode_record(username: &str, email: &str) -> (r: Result<Vec<u8>, bincode::Error>)
    ensures
        r is Ok,
        r matches Ok(b) ==> b@ == record_bytes(username@, email@),
{
    bincode::serialize(&(username, email))
}

/// Relies on `bincode::deserialize` reading back the pair of strings that
/// `bincode::serialize` wrote.
#[verifier::external_body]
pub(crate) fn decode_record(bytes: &[u8]) -> (r: Result<(String, String), bincode::Error>)
    ensures
        r matches Ok(p) ==> forall|f: (Seq<char>, Seq<char>)| #[trigger] record_bytes(f.0, f.1) == bytes@ ==> p.0@ == f.0 && p.1@ == f.1,
        r is Err ==> forall|f: (Seq<char>, Seq<char>)| #[trigger] record_bytes(f.0, f.1) != bytes@,
{
    bincode::deserialize(bytes)
}

/// Relies on `bincode::serialize` for the index table: with no size limit a
/// map of integers to strings is always written, and `bincode::deserialize`
/// reads the same table back. The entries come out in the map's iteration
/// order, so the bytes themselves are not stated.
#[verifier::external_body]
pub(crate) fn encode_index(table: &HashMap<u64, String>) -> (r: Result<Vec<u8>, bincode::Error>)
    ensures
        r is Ok,
        r matches Ok(b) ==> index_of_bytes(b@) == Some(table@.map_values(|v: String| v@)),
{
    bincode::serialize(table)
}

/// Relies on `bincode::deserialize` for the index table: the table read
/// depends on the bytes alone.
#[verifier::external_body]
pub(crate) fn decode_index(bytes: &[u8]) -> (r: Result<HashMap<u64, String>, bincode::Error>)
    ensures
        r is Ok <==> index_of_bytes(bytes@) is Some,
        r matches Ok(m) ==> index_of_bytes(bytes@) == Some(m@.map_values(|v: String| v@)),
{
    bincode::deserialize(bytes)
}

} // verus!
