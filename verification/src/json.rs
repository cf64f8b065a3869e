use vstd::prelude::*;

use crate::error::LoadError;
use crate::fs::PathTo;
use crate::traits::FromReader;

verus! {

/// The declared shape of serde_json's generic document value
#[verifier::external_type_specification]
#[verifier::external_body]
pub struct ExJsonValue(serde_json::Value);

/// Relies on serde_json::Value's Clone: the copy equals the original.
pub assume_specification[ <serde_json::Value as Clone>::clone ](v: &serde_json::Value) -> (r:
    serde_json::Value)
    ensures
        r == *v,
;

/// Whether serde_json parses these bytes as a JSON document
pub uninterp spec fn json_parses(bytes: Seq<u8>) -> bool;

/// Relies on serde_json::from_slice for serde_json::Value: whether the
/// bytes deserialize, and to which document, depends on the bytes alone;
/// an empty input holds no document and is rejected.
#[verifier::external_body]
fn json_from_slice(bytes: &Vec<u8>) -> (r: Result<serde_json::Value, String>)
    ensures
        r is Ok <==> json_parses(bytes@),
        bytes@.len() == 0 ==> r is Err,
{
    match serde_json::from_slice::<serde_json::Value>(bytes.as_slice()) {
        Ok(v) => Ok(v),
        Err(e) => Err(format!("{e}")),
    }
}

/// An adapter for deserializing a JSON document from a byte stream
#[derive(Debug, Clone)]
pub struct JsonOf(pub serde_json::Value);

impl FromReader for JsonOf {
    /// A JSON wrapper decodes exactly the streams serde_json accepts.
    open spec fn decode_ok(bytes: Seq<u8>) -> bool {
        json_parses(bytes)
    }

    open spec fn decoded(bytes: Seq<u8>, v: Self) -> bool {
        true
    }

    fn from_reader(bytes: Vec<u8>) -> (r: Result<Self, LoadError>) {
        match json_from_slice(&bytes) {
            Ok(v) => Ok(JsonOf(v)),
            Err(message) => Err(LoadError::Decode { message }),
        }
    }
}

impl PathTo<JsonOf> {
    /// Returns a reference to the inner JSON datatype
    pub fn json(&self) -> (r: &serde_json::Value)
        ensures
            *r == self.data.0,
    {
        &self.data.0
    }
}

} // verus!
