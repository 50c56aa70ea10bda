//! Media types: the `type/subtype` pair a descriptor's output type carries.
//!
//! The upstream service reports the output type as a string such as
//! `image/png`.  The relay needs two things from it: the exact string, to
//! echo as the content type, and the subtype, to end the generated filename
//! with.  Splitting and validating the string is delegated to the `mime`
//! crate, the same parser the rest of the ecosystem uses; its result is
//! named, not restated, and everything downstream is proved in terms of the
//! name.

use vstd::prelude::*;

verus! {

/// A parsed media type: its top-level type and its subtype, as bytes.
pub struct MediaType {
    pub top: Vec<u8>,
    pub sub: Vec<u8>,
}

/// The (type, subtype) pair that the media-type parser of the `mime` crate
/// yields for the given bytes, or `None` when they do not form a valid
/// media type.  The result is a function of the bytes alone.
pub uninterp spec fn media_parse_of(s: Seq<u8>) -> Option<(Seq<u8>, Seq<u8>)>;

/// Relies on `mime::Mime`'s `FromStr` to validate the type string and to
/// split off its top-level type and subtype; bytes that are not UTF-8 are
/// not a media type.
#[verifier::external_body]
pub(crate) fn parse_media_type(b: &Vec<u8>) -> (r: Option<MediaType>)
    ensures
        match r {
            Some(m) => media_parse_of(b@) == Some((m.top@, m.sub@)),
            None => media_parse_of(b@) is None,
        },
{
    let s = match core::str::from_utf8(b.as_slice()) {
        Ok(s) => s,
        Err(_) => return None,
    };
    let m = match s.parse::<mime::Mime>() {
        Ok(m) => m,
        Err(_) => return None,
    };
    Some(MediaType {
        top: m.type_().as_str().as_bytes().to_vec(),
        sub: m.subtype().as_str().as_bytes().to_vec(),
    })
}

} // verus!
