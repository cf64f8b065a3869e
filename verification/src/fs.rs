use vstd::prelude::*;

use crate::error::LoadError;
use crate::traits::FromReader;

verus! {

/// An adapter pairing a filesystem path with the value decoded from the
/// contents of the file at that path.
///
/// The location is immutable after construction; on a reload the data is
/// replaced wholesale, never mutated in place.
#[derive(Debug, Clone)]
pub struct PathTo<T> {
    /// The path given as an argument by the user
    pub path: String,

    /// The data extracted from the file at the path
    pub data: T,
}

impl<T: FromReader> PathTo<T> {
    /// Decode the bytes read from a file into a located value carrying both
    /// the path and the decoded data.
    ///
    /// Opening and reading the file happens at the caller; this function is
    /// the pure tail of the load: it succeeds exactly when the bytes decode,
    /// and the constructed value's location is the given path.
    pub fn from_bytes(path: String, bytes: Vec<u8>) -> (r: Result<Self, LoadError>)
        ensures
            r is Ok <==> T::decode_ok(bytes@),
            r is Ok ==> r->Ok_0.path == path,
            r is Ok ==> T::decoded(bytes@, r->Ok_0.data),
            r is Err ==> r->Err_0 is Decode,
    {
        match T::from_reader(bytes) {
            Ok(data) => Ok(PathTo { path, data }),
            Err(e) => Err(e),
        }
    }
}

} // verus!
