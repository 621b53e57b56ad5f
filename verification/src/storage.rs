//! The capability set a persisted value type must provide.

use crate::error::Error;
use vstd::prelude::*;

verus! {

/// What a slot's value type must support: default construction, a
/// decidable test against the default, and a byte codec.
///
/// `encoding_of` is the abstract byte image of a value's contents, and
/// `decoding_of` is what the codec deterministically makes of arbitrary
/// bytes.  `encode` must produce exactly the image, `decode` must succeed
/// exactly on bytes that decode to something and return exactly that, and
/// the image of any value must decode back to that value — the codec
/// round-trips.
pub trait Storage: Sized + View {
    /// The abstract contents of the type's default value.
    spec fn default_view() -> Self::V;

    /// The byte image of a value with abstract contents `v`.
    spec fn encoding_of(v: Self::V) -> Seq<u8>;

    /// What the codec makes of arbitrary bytes: `Some(v)` when they decode
    /// to contents `v`, `None` when they decode to nothing.  A function of
    /// the bytes alone.
    spec fn decoding_of(bytes: Seq<u8>) -> Option<Self::V>;

    /// The name of the value type, embedded in the synthetic keys given to
    /// anonymous slots.
    spec fn type_name_view() -> Seq<char>;

    /// The type's name.
    fn name_of_type() -> (r: &'static str)
        ensures
            r@ == Self::type_name_view(),
    ;

    /// The type's default value.
    fn default_value() -> (r: Self)
        ensures
            r@ == Self::default_view(),
    ;

    /// Whether this value equals the type's default.
    fn is_default(&self) -> (r: bool)
        ensures
            r == (self@ == Self::default_view()),
    ;

    /// Serializes the value to its byte image.
    fn encode(&self) -> (r: Vec<u8>)
        ensures
            r@ == Self::encoding_of(self@),
    ;

    /// Deserializes a value from persisted bytes: succeeds — with exactly
    /// the decoded contents — if and only if the bytes decode to
    /// something, and bytes that are the image of some value must decode
    /// to exactly that value.
    fn decode(bytes: &[u8]) -> (r: Result<Self, Error>)
        ensures
            r is Ok <==> Self::decoding_of(bytes@) is Some,
            r matches Ok(w) ==> Self::decoding_of(bytes@) == Some(w@),
            forall|v: Self::V| bytes@ == Self::encoding_of(v) ==> (r matches Ok(w) && w@ == v),
    ;
}

} // verus!
