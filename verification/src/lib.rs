//! A client library for the Nominatim geocoding HTTP API.
//!
//! The library holds the request-shaping logic: how a caller identifies
//! itself to the server, how the four endpoint URLs and their query strings
//! are built, and how loosely populated response records resolve to typed
//! values. The HTTP transport itself and the JSON wire format sit outside
//! the library; callers hand a [`Request`] to whatever transport they use.

pub mod client;
pub mod error;
pub mod ident;
pub mod query;
pub mod response;
pub mod urls;

pub use client::Client;
pub use client::Request;
pub use error::Error;
pub use ident::IdentificationMethod;
pub use response::Address;
pub use response::ExtraTags;
pub use response::Place;
pub use response::PlaceParts;
pub use response::Status;
