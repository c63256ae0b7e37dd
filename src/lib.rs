//! A typed client model for a perpetuals exchange's HTTP API: identifiers that
//! name a resource by number or by address, the field codecs of the wire
//! format, request payloads and the response shapes they come back as.
pub mod decimal;
pub mod codec;
pub mod identifier;
pub mod request;
pub mod response;
pub mod client;
pub mod body;
