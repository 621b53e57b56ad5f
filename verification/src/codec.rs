//! The bincode codec behind [`Storage`], and its implementation for
//! `String` — the value type the embedding program persists most often.

use crate::error::Error;
use crate::storage::Storage;
use vstd::prelude::*;

verus! {

// bincode's error type, returned raw by the decoding wrapper and mapped to
// the crate's own `Error` in verified code.
#[verifier::external_type_specification]
#[verifier::external_body]
pub struct ExBincodeErrorKind(bincode::ErrorKind);

/// The byte image bincode's default configuration gives a string.  It is a
/// function of the characters alone (a fixed-width length prefix followed
/// by the UTF-8 bytes), so it can be named without being written out.
pub uninterp spec fn string_encoding(s: Seq<char>) -> Seq<u8>;

/// Relies on bincode::serialize: under the default configuration it writes
/// a fixed-width length prefix and the string's UTF-8 bytes into a fresh
/// vector, so the result depends on the characters alone; with no size
/// limit set and an infallible vector writer, serializing a string cannot
/// fail.
#[verifier::external_body]
fn bincode_encode_string(s: &String) -> (r: Vec<u8>)
    ensures
        r@ == string_encoding(s@),
{
    bincode::serialize(s).unwrap()
}

/// What bincode makes of arbitrary bytes offered as a string: the decoded
/// characters, or `None` where the bytes decode to nothing.  Decoding
/// reads a fixed-width length prefix and validates UTF-8, so the outcome
/// is a function of the bytes alone.
pub uninterp spec fn string_decoding(bytes: Seq<u8>) -> Option<Seq<char>>;

/// Relies on bincode::deserialize: decoding is deterministic — its outcome
/// depends on the input bytes alone — and bytes produced by
/// bincode::serialize deserialize back to the string that was serialized,
/// the crate's documented round-trip guarantee.
#[verifier::external_body]
fn bincode_decode_string(bytes: &[u8]) -> (r: Result<String, Box<bincode::ErrorKind>>)
    ensures
        r is Ok <==> string_decoding(bytes@) is Some,
        r matches Ok(w) ==> string_decoding(bytes@) == Some(w@),
        r is Ok <== exists|s: Seq<char>| bytes@ == string_encoding(s),
        r matches Ok(w) ==> forall|s: Seq<char>| bytes@ == string_encoding(s) ==> w@ == s,
{
    bincode::deserialize(bytes)
}

impl Storage for String {
    open spec fn default_view() -> Seq<char> {
        Seq::empty()
    }

    open spec fn encoding_of(v: Seq<char>) -> Seq<u8> {
        string_encoding(v)
    }

    open spec fn decoding_of(bytes: Seq<u8>) -> Option<Seq<char>> {
        string_decoding(bytes)
    }

    open spec fn type_name_view() -> Seq<char> {
        "String"@
    }

    fn name_of_type() -> (r: &'static str) {
        "String"
    }

    fn default_value() -> (r: String) {
        String::new()
    }

    fn is_default(&self) -> (r: bool) {
        let empty = String::new();
        *self == empty
    }

    fn encode(&self) -> (r: Vec<u8>) {
        bincode_encode_string(self)
    }

    fn decode(bytes: &[u8]) -> (r: Result<String, Error>) {
        let raw = bincode_decode_string(bytes);
        match raw {
            Ok(s) => Ok(s),
            Err(_) => {
                proof {
                    assert forall|v: Seq<char>| bytes@ != string_encoding(v) by {
                        if bytes@ == string_encoding(v) {
                            assert(raw matches Ok(w) && w@ == v);
                        }
                    }
                }
                Err(Error::Decode)
            },
        }
    }
}

} // verus!
