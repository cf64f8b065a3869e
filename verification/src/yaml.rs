use vstd::prelude::*;

use crate::error::LoadError;
use crate::fs::PathTo;
use crate::traits::FromReader;

verus! {

/// The declared shape of serde_yaml's generic document value
#[verifier::external_type_specification]
#[verifier::external_body]
pub struct ExYamlValue(serde_yaml::Value);

/// Relies on serde_yaml::Value's Clone: the copy equals the original.
pub assume_specification[ <serde_yaml::Value as Clone>::clone ](v: &serde_yaml::Value) -> (r:
    serde_yaml::Value)
    ensures
        r == *v,
;

/// Whether serde_yaml parses these bytes as a YAML document
pub uninterp spec fn yaml_parses(bytes: Seq<u8>) -> bool;

/// Relies on serde_yaml::from_slice for serde_yaml::Value: whether the
/// bytes deserialize, and to which document, depends on the bytes alone.
#[verifier::external_body]
fn yaml_from_slice(bytes: &Vec<u8>) -> (r: Result<serde_yaml::Value, String>)
    ensures
        r is Ok <==> yaml_parses(bytes@),
{
    match serde_yaml::from_slice::<serde_yaml::Value>(bytes.as_slice()) {
        Ok(v) => Ok(v),
        Err(e) => Err(format!("{e}")),
    }
}

/// An adapter for deserializing a YAML document from a byte stream
#[derive(Debug, Clone)]
pub struct YamlOf(pub serde_yaml::Value);

impl FromReader for YamlOf {
    /// A YAML wrapper decodes exactly the streams serde_yaml accepts.
    open spec fn decode_ok(bytes: Seq<u8>) -> bool {
        yaml_parses(bytes)
    }

    open spec fn decoded(bytes: Seq<u8>, v: Self) -> bool {
        true
    }

    fn from_reader(bytes: Vec<u8>) -> (r: Result<Self, LoadError>) {
        match yaml_from_slice(&bytes) {
            Ok(v) => Ok(YamlOf(v)),
            Err(message) => Err(LoadError::Decode { message }),
        }
    }
}

impl PathTo<YamlOf> {
    /// Returns a reference to the inner YAML datatype
    pub fn yaml(&self) -> (r: &serde_yaml::Value)
        ensures
            *r == self.data.0,
    {
        &self.data.0
    }
}

} // verus!
