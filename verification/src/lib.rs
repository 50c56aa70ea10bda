//! Verified core of a small image-compression relay.
//!
//! The relay accepts raw image bytes, forwards them to an upstream
//! compression service, downloads the compressed artifact from the URL the
//! service returns, and hands the bytes back with content headers.  The
//! verified library holds the whole decision pipeline: parsing the upstream
//! response body into one of its two documented shapes, classifying failures,
//! deriving the attachment filename, and assembling the outgoing response.
//! The unverified binary around it only moves bytes over the network.

pub mod bytes;
pub mod json;
pub mod shape;
pub mod media;
pub mod relay;
pub mod laws;
