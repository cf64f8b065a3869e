use vstd::prelude::*;

use crate::error::LoadError;
use crate::traits::FromReader;

verus! {

/// The normalized serialization of the input when it parses as an absolute
/// URL, and nothing when it does not
pub uninterp spec fn url_norm(s: Seq<char>) -> Option<Seq<char>>;

/// Relies on url::Url::parse and url::Url::as_str: the parse accepts
/// exactly the absolute URLs, and the accepted URL's serialization is a
/// function of the input string alone.
#[verifier::external_body]
fn url_parse_normalize(s: &str) -> (r: Result<String, String>)
    ensures
        r is Ok <==> url_norm(s@) is Some,
        r is Ok ==> url_norm(s@) == Some(r->Ok_0@),
{
    match url::Url::parse(s) {
        Ok(u) => Ok(u.as_str().to_owned()),
        Err(e) => Err(format!("{e}")),
    }
}

/// Parse the user-supplied string as an absolute URL, yielding the
/// normalized location that the GET request will be made against.
///
/// Succeeds exactly when the string is an absolute URL; a failure is a
/// location-parse error carrying the parser's description.
pub fn parse_location(s: &str) -> (r: Result<String, LoadError>)
    ensures
        r is Ok <==> url_norm(s@) is Some,
        r is Ok ==> url_norm(s@) == Some(r->Ok_0@),
        r is Err ==> r->Err_0 is LocationParse,
{
    match url_parse_normalize(s) {
        Ok(location) => Ok(location),
        Err(message) => Err(LoadError::LocationParse { message }),
    }
}

/// Whether an HTTP status code counts as success for a GET source
pub open spec fn status_is_success(status: u16) -> bool {
    200 <= status < 300
}

/// An adapter for loading contents from an HTTP GET endpoint
#[derive(Debug, Clone)]
pub struct HttpGet<T> {
    /// The URL of the GET request to make
    pub url: String,

    /// The data received from the request
    pub data: T,
}

impl<T: FromReader> HttpGet<T> {
    /// Decode the response of the GET request into a located value carrying
    /// both the URL and the decoded data.
    ///
    /// Performing the request happens at the caller; this function is the
    /// pure tail of the load. A non-success status is a fetch error carrying
    /// the location and the status; with a success status the body decodes
    /// exactly when the inner reader-loadable accepts it.
    pub fn from_response(url: String, status: u16, body: Vec<u8>) -> (r: Result<Self, LoadError>)
        ensures
            r is Ok <==> status_is_success(status) && T::decode_ok(body@),
            r is Ok ==> r->Ok_0.url == url,
            r is Ok ==> T::decoded(body@, r->Ok_0.data),
            !status_is_success(status) ==> (r->Err_0 matches LoadError::Fetch {
                location: loc,
                status: st,
                message: _,
            } && loc == url && st == Some(status)),
            status_is_success(status) && !T::decode_ok(body@) ==> r->Err_0 is Decode,
    {
        if !(200 <= status && status < 300) {
            let message = "request returned a non-success HTTP status".to_owned();
            return Err(LoadError::Fetch { location: url, message, status: Some(status) });
        }
        match T::from_reader(body) {
            Ok(data) => Ok(HttpGet { url, data }),
            Err(e) => Err(e),
        }
    }
}

} // verus!
