//! The content sniffer: from the first bytes of an upload to a supported
//! media format, or to a refusal that names what was found.

use vstd::prelude::*;
use crate::error::Error;
use crate::text::{joined, same_text};

verus! {

/// The coarse kind of a media file.
#[derive(Clone, Copy, Debug, PartialEq, Eq, Structural)]
pub enum MediaType {
    Image,
    Video,
}

/// What the magic numbers of a buffer gave away: a MIME type and the usual
/// file extension for it.
pub struct Detected {
    pub mime: String,
    pub extension: String,
}

/// A format that the board accepts.
pub struct Sniffed {
    pub media_type: MediaType,
    pub mime: String,
    pub extension: String,
}

/// The MIME type and extension of the first known format whose magic number
/// `buf` starts with, as `infer` recognises them; `None` where it knows none.
pub uninterp spec fn inferred(buf: Seq<u8>) -> Option<(Seq<char>, Seq<char>)>;

/// `infer::get`: looks the buffer's magic number up among the formats that
/// the `infer` crate knows, and reports the MIME type and extension of the
/// first that matches.
#[verifier::external_body]
fn infer_get(buf: &[u8]) -> (found: Option<Detected>)
    ensures
        match found {
            Some(d) => inferred(buf@) == Some((d.mime@, d.extension@)),
            None => inferred(buf@) is None,
        },
{
    match infer::get(buf) {
        Some(t) => Some(Detected { mime: t.mime_type().to_string(), extension: t.extension().to_string() }),
        None => None,
    }
}

/// The MIME types that the board understands, each with its kind.
pub open spec fn understood(mime: Seq<char>) -> Option<MediaType> {
    if mime == "image/apng"@ || mime == "image/avif"@ || mime == "image/gif"@ || mime == "image/jpeg"@
        || mime == "image/png"@ || mime == "image/webp"@ || mime == "image/bmp"@ || mime
        == "image/tiff"@ {
        Some(MediaType::Image)
    } else if mime == "video/webm"@ || mime == "video/ogg"@ || mime == "video/mp4"@ {
        Some(MediaType::Video)
    } else {
        None
    }
}

/// Looks a MIME type up in the list of understood ones.
pub fn understood_kind(mime: &str) -> (kind: Option<MediaType>)
    ensures
        kind == understood(mime@),
{
    if same_text(mime, "image/apng") || same_text(mime, "image/avif") || same_text(mime, "image/gif")
        || same_text(mime, "image/jpeg") || same_text(mime, "image/png") || same_text(
        mime,
        "image/webp",
    ) || same_text(mime, "image/bmp") || same_text(mime, "image/tiff") {
        Some(MediaType::Image)
    } else if same_text(mime, "video/webm") || same_text(mime, "video/ogg") || same_text(
        mime,
        "video/mp4",
    ) {
        Some(MediaType::Video)
    } else {
        None
    }
}

/// The text of the refusal for a recognised type that is not understood.
pub open spec fn unsupported_text(mime: Seq<char>) -> Seq<char> {
    "MIME type "@ + mime + " is unsupported"@
}

/// What the sniffer answers to a detection: the format where the type is
/// understood, and an unsupported-media-type refusal where nothing was
/// detected or the detected type is not on the list.
pub open spec fn sniffing_gives(found: Option<(Seq<char>, Seq<char>)>, answer: Result<Sniffed, Error>) -> bool {
    match found {
        None => answer matches Err(Error::UnsupportedMediaType(why)) && why@ == "couldn't determine"@,
        Some((mime, extension)) => match understood(mime) {
            None => answer matches Err(Error::UnsupportedMediaType(why)) && why@ == unsupported_text(mime),
            Some(kind) => answer matches Ok(format) && format.media_type == kind && format.mime@ == mime
                && format.extension@ == extension,
        },
    }
}

/// The view of a detection.
pub open spec fn detection(found: Option<Detected>) -> Option<(Seq<char>, Seq<char>)> {
    match found {
        Some(d) => Some((d.mime@, d.extension@)),
        None => None,
    }
}

/// Decides on a detection whether the upload is of a supported format.
pub fn classify(found: Option<Detected>) -> (answer: Result<Sniffed, Error>)
    ensures
        sniffing_gives(detection(found), answer),
{
    match found {
        None => Err(Error::UnsupportedMediaType(String::from_str("couldn't determine"))),
        Some(d) => match understood_kind(d.mime.as_str()) {
            None => {
                let mut why = joined("MIME type ", d.mime.as_str());
                why.append(" is unsupported");
                Err(Error::UnsupportedMediaType(why))
            },
            Some(kind) => Ok(Sniffed { media_type: kind, mime: d.mime, extension: d.extension }),
        },
    }
}

/// Classifies the first chunk of an upload by its magic number.
pub fn sniff(first_chunk: &[u8]) -> (answer: Result<Sniffed, Error>)
    ensures
        sniffing_gives(inferred(first_chunk@), answer),
{
    classify(infer_get(first_chunk))
}

/// Nothing but an understood type passes the sniffer: whenever it accepts,
/// a type was detected and that type is on the list, with the kind reported.
pub proof fn only_understood_types_pass(found: Option<(Seq<char>, Seq<char>)>, answer: Result<Sniffed, Error>)
    requires
        sniffing_gives(found, answer),
    ensures
        answer is Ok <==> (found matches Some(d) && understood(d.0) is Some),
        answer matches Ok(format) ==> understood(format.mime@) == Some(format.media_type),
        answer matches Err(e) ==> e is UnsupportedMediaType,
{
}

} // verus!
