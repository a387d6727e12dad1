use crate::stores::Store;
use crate::text::str_in;
use vstd::prelude::*;

verus! {

/// Cache directive of every served file: a week, public, revalidated.
pub const CACHE_CONTROL: &'static str = "public, max-age=604800, must-revalidate";

pub const SERVICE: &'static str = "cdn";

pub const VERSION: &'static str = "0.1.0";

/// What the service-info request reports.
pub struct ServiceResponse {
    pub service: String,
    pub version: String,
    pub stores: Vec<(String, Store)>,
}

pub open spec fn is_inline_type(t: Seq<char>) -> bool {
    t == "image/jpeg"@ || t == "image/png"@ || t == "image/gif"@ || t == "image/webp"@
        || t == "video/mp4"@ || t == "video/webm"@ || t == "video/webp"@
        || t == "audio/quicktime"@ || t == "audio/mpeg"@
}

/// Content-Disposition of a served file: `inline` for the media types that
/// browsers show, `attachment` for the rest.
pub fn disposition(content_type: &str) -> (r: &'static str)
    ensures
        r@ == (if is_inline_type(content_type@) { "inline"@ } else { "attachment"@ }),
{
    let inline = [
        "image/jpeg", "image/png", "image/gif", "image/webp", "video/mp4", "video/webm", "video/webp",
        "audio/quicktime", "audio/mpeg",
    ];
    let found = str_in(content_type, &inline);
    if found { "inline" } else { "attachment" }
}

/// Content-Disposition of a download: always an attachment under the
/// original file name.
pub fn download_disposition(filename: &str) -> (r: String)
    ensures
        r@ == "attachment; filename=\""@ + filename@ + "\""@,
{
    let mut r = String::from_str("attachment; filename=\"");
    r.append(filename);
    r.append("\"");
    r
}

} // verus!
