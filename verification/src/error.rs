use vstd::prelude::*;

verus! {

/// `url::ParseError` is the error type of the `url` crate's parser; values of
/// it pass through this library untouched, so it is declared opaque here.
#[verifier::external_type_specification]
#[verifier::external_body]
pub struct ExParseError(url::ParseError);

/// A configuration fault: the caller handed the client a string that cannot
/// serve its purpose. Transport faults are not represented here, since the
/// library never touches the network.
#[derive(Debug)]
pub enum Error {
    /// An identification string holds a character that may not stand in an
    /// HTTP header value.
    InvalidHeaderValue,
    /// A URL string, or the URL assembled from the base URL and an endpoint
    /// path, could not be parsed.
    UrlParse(url::ParseError),
}

} // verus!
