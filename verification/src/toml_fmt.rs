use vstd::prelude::*;
use vstd::utf8::{decode_utf8, valid_utf8};

use crate::error::LoadError;
use crate::fs::PathTo;
use crate::traits::FromReader;

verus! {

/// The declared shape of the toml crate's generic document value
#[verifier::external_type_specification]
#[verifier::external_body]
pub struct ExTomlValue(::toml::Value);

/// Relies on toml::Value's Clone: the copy equals the original.
pub assume_specification[ <::toml::Value as Clone>::clone ](v: &::toml::Value) -> (r:
    ::toml::Value)
    ensures
        r == *v,
;

/// Whether the toml crate parses this text as a TOML document
pub uninterp spec fn toml_parses(text: Seq<char>) -> bool;

/// Relies on toml::from_str for toml::Value: whether the text deserializes,
/// and to which document, depends on the text alone.
#[verifier::external_body]
fn toml_from_str(text: &str) -> (r: Result<::toml::Value, String>)
    ensures
        r is Ok <==> toml_parses(text@),
{
    match ::toml::from_str::<::toml::Value>(text) {
        Ok(v) => Ok(v),
        Err(e) => Err(format!("{e}")),
    }
}

/// An adapter for deserializing a TOML document from a byte stream
#[derive(Debug, Clone)]
pub struct TomlOf(pub ::toml::Value);

impl FromReader for TomlOf {
    /// TOML is a text format: the stream is buffered to a UTF-8 string and
    /// the wrapper decodes exactly the texts the toml crate accepts.
    open spec fn decode_ok(bytes: Seq<u8>) -> bool {
        valid_utf8(bytes) && toml_parses(decode_utf8(bytes))
    }

    open spec fn decoded(bytes: Seq<u8>, v: Self) -> bool {
        true
    }

    fn from_reader(bytes: Vec<u8>) -> (r: Result<Self, LoadError>) {
        let text = match String::from_reader(bytes) {
            Ok(s) => s,
            Err(e) => {
                return Err(e);
            },
        };
        match toml_from_str(text.as_str()) {
            Ok(v) => Ok(TomlOf(v)),
            Err(message) => Err(LoadError::Decode { message }),
        }
    }
}

impl PathTo<TomlOf> {
    /// Returns a reference to the inner TOML datatype
    pub fn toml_value(&self) -> (r: &::toml::Value)
        ensures
            *r == self.data.0,
    {
        &self.data.0
    }
}

} // verus!
