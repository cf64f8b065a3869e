use vstd::prelude::*;
use vstd::utf8::{decode_utf8, encode_utf8, encode_utf8_decode_utf8, encode_utf8_valid_utf8,
    valid_utf8};

use crate::error::LoadError;

verus! {

/// Any type that can construct itself from a byte stream.
///
/// The contract is pure with respect to the stream: which value (if any)
/// comes out depends on the consumed bytes alone, as pinned down by the two
/// specification members.
pub trait FromReader: Sized {
    /// Whether this byte stream decodes to a value of the implementing type
    spec fn decode_ok(bytes: Seq<u8>) -> bool;

    /// Which values this byte stream can decode to
    spec fn decoded(bytes: Seq<u8>, v: Self) -> bool;

    /// How the type constructs itself from a byte stream
    fn from_reader(bytes: Vec<u8>) -> (r: Result<Self, LoadError>)
        ensures
            r is Ok <==> Self::decode_ok(bytes@),
            r is Ok ==> Self::decoded(bytes@, r->Ok_0),
            r is Err ==> r->Err_0 is Decode,
    ;
}

impl FromReader for Vec<u8> {
    /// A raw byte vector reads the stream to its end; every stream decodes.
    open spec fn decode_ok(bytes: Seq<u8>) -> bool {
        true
    }

    open spec fn decoded(bytes: Seq<u8>, v: Self) -> bool {
        v@ == bytes
    }

    fn from_reader(bytes: Vec<u8>) -> (r: Result<Self, LoadError>) {
        Ok(bytes)
    }
}

/// Relies on String::from_utf8: it succeeds exactly on valid UTF-8 input
/// and then yields the string whose encoding is that input.
#[verifier::external_body]
pub(crate) fn string_from_utf8(bytes: Vec<u8>) -> (r: Result<String, String>)
    ensures
        r is Ok <==> valid_utf8(bytes@),
        r is Ok ==> r->Ok_0@ == decode_utf8(bytes@),
{
    match String::from_utf8(bytes) {
        Ok(s) => Ok(s),
        Err(e) => Err(format!("{e}")),
    }
}

impl FromReader for String {
    /// A text string reads the stream to its end as UTF-8.
    open spec fn decode_ok(bytes: Seq<u8>) -> bool {
        valid_utf8(bytes)
    }

    open spec fn decoded(bytes: Seq<u8>, v: Self) -> bool {
        v@ == decode_utf8(bytes)
    }

    fn from_reader(bytes: Vec<u8>) -> (r: Result<Self, LoadError>) {
        match string_from_utf8(bytes) {
            Ok(s) => Ok(s),
            Err(message) => Err(LoadError::Decode { message }),
        }
    }
}

/// Law: a byte vector round-trips through the raw loader. Its serialized
/// form is the vector itself, and loading that form gives back exactly the
/// original bytes.
pub proof fn lemma_bytes_round_trip(bytes: Seq<u8>, v: Vec<u8>)
    requires
        <Vec<u8> as FromReader>::decoded(bytes, v),
    ensures
        <Vec<u8> as FromReader>::decode_ok(bytes),
        v@ == bytes,
{
}

/// Law: a string round-trips through the text loader. Serializing a string
/// is encoding it as UTF-8; loading that encoding succeeds and gives back
/// exactly the original characters.
pub proof fn lemma_string_round_trip(chars: Seq<char>, v: String)
    requires
        <String as FromReader>::decoded(encode_utf8(chars), v),
    ensures
        <String as FromReader>::decode_ok(encode_utf8(chars)),
        v@ == chars,
{
    encode_utf8_valid_utf8(chars);
    encode_utf8_decode_utf8(chars);
}

} // verus!
