use crate::errors::Error;
use crate::metadata::{Embed, Image, ImageSize, Metadata, Video};
use crate::upload::{blob_dims, image_size};
use vstd::prelude::*;

verus! {

/// Query of an embed or proxy request.
pub struct Parameters {
    pub url: String,
}

/// The top-level type and subtype of a MIME type as the mime crate parses
/// it (lower case); `None` where it does not parse.
pub uninterp spec fn mime_parts(s: Seq<char>) -> Option<(Seq<char>, Seq<char>)>;

/// Relies on mime: `str::parse::<Mime>`, `Mime::type_` and `Mime::subtype`.
#[verifier::external_body]
fn parse_mime(s: &str) -> (r: Option<(String, String)>)
    ensures
        match r {
            Some(p) => mime_parts(s@) == Some((p.0@, p.1@)),
            None => mime_parts(s@) is None,
        },
{
    let m = s.parse::<mime::Mime>().ok()?;
    Some((m.type_().as_str().to_string(), m.subtype().as_str().to_string()))
}

/// What a fetched resource is, for embedding.
#[derive(Debug, Clone, Copy, PartialEq, Eq, Structural)]
pub enum MediaKind {
    Html,
    Image,
    Video,
    Other,
}

pub open spec fn kind_of(content_type: Seq<char>) -> MediaKind {
    match mime_parts(content_type) {
        Some(p) => if p.1 == "html"@ {
            MediaKind::Html
        } else if p.0 == "image"@ {
            MediaKind::Image
        } else if p.0 == "video"@ {
            MediaKind::Video
        } else {
            MediaKind::Other
        },
        None => MediaKind::Other,
    }
}

/// `RequestFailed` unless a fetch answered with a 2xx status.
pub fn check_fetch_status(status: u16) -> (r: Result<(), Error>)
    ensures
        r is Ok <==> 200 <= status <= 299,
        r is Err ==> r == Err::<(), Error>(Error::RequestFailed),
{
    if 200 <= status && status <= 299 { Ok(()) } else { Err(Error::RequestFailed) }
}

/// Classifies a fetched resource by its Content-Type header;
/// `MissingContentType` when there is none.
pub fn classify_response(content_type: Option<&str>) -> (r: Result<MediaKind, Error>)
    ensures
        match content_type {
            Some(c) => r == Ok::<MediaKind, Error>(kind_of(c@)),
            None => r == Err::<MediaKind, Error>(Error::MissingContentType),
        },
{
    let c = match content_type {
        Some(c) => c,
        None => return Err(Error::MissingContentType),
    };
    let kind = match parse_mime(c) {
        Some((t, sub)) => {
            if sub == String::from_str("html") {
                MediaKind::Html
            } else if t == String::from_str("image") {
                MediaKind::Image
            } else if t == String::from_str("video") {
                MediaKind::Video
            } else {
                MediaKind::Other
            }
        }
        None => MediaKind::Other,
    };
    Ok(kind)
}

/// Only images and videos are proxied.
pub fn check_proxy(kind: MediaKind) -> (r: Result<(), Error>)
    ensures
        r is Ok <==> (kind == MediaKind::Image || kind == MediaKind::Video),
        r is Err ==> r == Err::<(), Error>(Error::CannotProxy),
{
    match kind {
        MediaKind::Image | MediaKind::Video => Ok(()),
        _ => Err(Error::CannotProxy),
    }
}

pub open spec fn probed_image_size(bytes: Seq<u8>) -> Option<(isize, isize)> {
    match blob_dims(bytes) {
        Some(d) => if d.0 <= isize::MAX && d.1 <= isize::MAX { Some((d.0 as isize, d.1 as isize)) } else { None },
        None => None,
    }
}

/// Pixel size of the image in `bytes`, when it can be read.
pub fn image_media_size(bytes: &Vec<u8>) -> (r: Option<(isize, isize)>)
    ensures
        r == probed_image_size(bytes@),
{
    match image_size(bytes) {
        Some((w, h)) => {
            if w <= isize::MAX as usize && h <= isize::MAX as usize {
                Some((w as isize, h as isize))
            } else {
                None
            }
        }
        None => None,
    }
}

/// The embed of a direct image or video at `url` whose size probing
/// reported `size`; empty when probing failed or the resource is neither.
pub fn media_embed(kind: MediaKind, url: String, size: Option<(isize, isize)>) -> (r: Embed)
    ensures
        match (kind, size) {
            (MediaKind::Image, Some(d)) => r == Embed::Image(Image { url, width: d.0, height: d.1, size: ImageSize::Large }),
            (MediaKind::Video, Some(d)) => r == Embed::Video(Video { url, width: d.0, height: d.1 }),
            _ => r is Empty,
        },
{
    match (kind, size) {
        (MediaKind::Image, Some((w, h))) => Embed::Image(Image { url, width: w, height: h, size: ImageSize::Large }),
        (MediaKind::Video, Some((w, h))) => Embed::Video(Video { url, width: w, height: h }),
        _ => Embed::Empty,
    }
}

/// The embed of a resolved web page: empty when it has no description,
/// image or video; a title alone is no embed.
pub fn website_embed(metadata: Metadata) -> (r: Embed)
    ensures
        (metadata.description is None && metadata.image is None && metadata.video is None) ==> r is Empty,
        !(metadata.description is None && metadata.image is None && metadata.video is None)
            ==> r == Embed::Website(Box::new(metadata)),
{
    if metadata.is_none() {
        Embed::Empty
    } else {
        Embed::Website(Box::new(metadata))
    }
}

} // verus!
