use crate::errors::Error;
use std::io::Cursor;
use vstd::prelude::*;

verus! {

/// What was sniffed from a file's content when it was uploaded.
#[derive(Debug, Clone, Copy, PartialEq, Eq, Structural)]
pub enum FileMetadata {
    File,
    Text,
    Image { width: isize, height: isize },
    Video { width: isize, height: isize },
    Audio,
}

/// The persisted record of an uploaded file.
#[derive(Debug)]
pub struct File {
    pub id: String,
    pub store: String,
    pub filename: String,
    pub metadata: FileMetadata,
    pub content_type: String,
    pub size: isize,
    pub attached: bool,
    pub deleted: bool,
    pub flagged: bool,
}

/// Resize parameters of a serve request.
#[derive(Debug, Clone, Copy, PartialEq, Eq, Structural)]
pub struct Resize {
    pub size: Option<isize>,
    pub width: Option<isize>,
    pub height: Option<isize>,
    pub max_side: Option<isize>,
}

/// A record may be handed out only while it is attached and not deleted.
pub open spec fn is_visible(f: File) -> bool {
    f.attached && !f.deleted
}

/// `f` is the record `id` of store `store`, and is visible.
pub open spec fn matches_lookup(f: File, id: Seq<char>, store: Seq<char>) -> bool {
    f.id@ == id && f.store@ == store && is_visible(f)
}

/// Every candidate before position `n` fails the lookup.
pub open spec fn none_match_before(candidates: Seq<File>, n: int, id: Seq<char>, store: Seq<char>) -> bool {
    forall|j: int| 0 <= j < n ==> !matches_lookup(#[trigger] candidates[j], id, store)
}

pub open spec fn smaller(a: int, b: int) -> int {
    if a <= b { a } else { b }
}

/// `a * num / den` rounded toward zero, saturated to the range of `isize`;
/// 0 for a zero denominator.
pub open spec fn scale(a: int, num: int, den: int) -> int {
    let p = a * num;
    if den == 0 {
        0
    } else {
        let q = (if p < 0 { -p } else { p }) / (if den < 0 { -den } else { den });
        let t = if (p < 0) != (den < 0) { -q } else { q };
        if t > isize::MAX { isize::MAX as int } else if t < isize::MIN { isize::MIN as int } else { t }
    }
}

/// Target dimensions of a resize request on an image of `width` x `height`;
/// the first parameter present decides, and `None` means no resize.
pub open spec fn target_dims(width: int, height: int, r: Resize) -> Option<(int, int)> {
    let shortest = smaller(width, height);
    if r.size is Some {
        let t = smaller(r.size->Some_0 as int, shortest);
        Some((t, t))
    } else if r.max_side is Some {
        let s = r.max_side->Some_0 as int;
        if shortest == width {
            let h = smaller(height, s);
            Some((scale(width, h, height), h))
        } else {
            let w = smaller(width, s);
            Some((w, scale(height, w, width)))
        }
    } else if r.width is Some && r.height is Some {
        Some((smaller(width, r.width->Some_0 as int), smaller(height, r.height->Some_0 as int)))
    } else if r.width is Some {
        let w = smaller(width, r.width->Some_0 as int);
        Some((w, scale(w, height, width)))
    } else if r.height is Some {
        let h = smaller(height, r.height->Some_0 as int);
        Some((scale(h, width, height), h))
    } else {
        None
    }
}

/// Resize parameters count only on files classified as images.
pub open spec fn resize_target(metadata: FileMetadata, resize: Option<Resize>) -> Option<(int, int)> {
    match (metadata, resize) {
        (FileMetadata::Image { width, height }, Some(r)) => target_dims(width as int, height as int, r),
        _ => None,
    }
}

/// Largest side, in pixels, that the output encoder accepts.
pub const MAX_ENCODED_SIDE: u32 = 16383;

pub open spec fn encodable(d: (int, int)) -> bool {
    1 <= d.0 <= MAX_ENCODED_SIDE && 1 <= d.1 <= MAX_ENCODED_SIDE
}

/// Bytes of the lossless WebP encoding of the image in `bytes` resized to
/// `width` x `height`; `None` where the image cannot be decoded or encoded.
pub uninterp spec fn webp_resized(bytes: Seq<u8>, width: u32, height: u32) -> Option<Seq<u8>>;

/// Content type of every resized output.
pub open spec fn resized_type() -> Seq<char> {
    seq!['i', 'm', 'a', 'g', 'e', '/', 'w', 'e', 'b', 'p']
}

/// What serving `contents` answers: the resized encoding with its content
/// type, or the original bytes with no content type override.
pub open spec fn served(metadata: FileMetadata, contents: Seq<u8>, resize: Option<Resize>) -> (Seq<u8>, Option<Seq<char>>) {
    match resize_target(metadata, resize) {
        Some(d) => if encodable(d) {
            match webp_resized(contents, d.0 as u32, d.1 as u32) {
                Some(out) => (out, Some(resized_type())),
                None => (contents, None),
            }
        } else {
            (contents, None)
        },
        None => (contents, None),
    }
}

/// Relies on image's `ImageReader` (format guessed from the bytes, then
/// `decode`), `DynamicImage::resize_exact`, and webp's `Encoder::from_image`
/// with `encode_lossless`: the result depends on the bytes and size alone.
/// The encoder fails on sides over 16383 pixels, which `requires` leaves out.
#[verifier::external_body]
pub fn try_resize(buf: &Vec<u8>, width: u32, height: u32) -> (r: Option<Vec<u8>>)
    requires
        1 <= width <= MAX_ENCODED_SIDE,
        1 <= height <= MAX_ENCODED_SIDE,
    ensures
        match r {
            Some(out) => webp_resized(buf@, width, height) == Some(out@),
            None => webp_resized(buf@, width, height) is None,
        },
{
    let reader = image::ImageReader::new(Cursor::new(buf)).with_guessed_format().ok()?;
    let image = reader.decode().ok()?.resize_exact(width, height, image::imageops::FilterType::Gaussian);
    let encoder = webp::Encoder::from_image(&image).ok()?;
    Some(encoder.encode_lossless().to_vec())
}

fn min_isize(a: isize, b: isize) -> (r: isize)
    ensures
        r == smaller(a as int, b as int),
{
    if a <= b { a } else { b }
}

/// `a * num / den` as `scale` states it.
pub fn scale_exec(a: isize, num: isize, den: isize) -> (r: isize)
    ensures
        r == scale(a as int, num as int, den as int),
{
    if den == 0 {
        return 0;
    }
    let ai = a as i128;
    let ni = num as i128;
    proof {
        assert(-0x8000_0000_0000_0000 <= ai <= 0x7fff_ffff_ffff_ffff);
        assert(-0x8000_0000_0000_0000 <= ni <= 0x7fff_ffff_ffff_ffff);
        assert(-0x4000_0000_0000_0000_0000_0000_0000_0000 <= ai * ni <= 0x4000_0000_0000_0000_0000_0000_0000_0000)
            by (nonlinear_arith)
            requires
                -0x8000_0000_0000_0000 <= ai <= 0x7fff_ffff_ffff_ffff,
                -0x8000_0000_0000_0000 <= ni <= 0x7fff_ffff_ffff_ffff,
        ;
    }
    let p: i128 = ai * ni;
    let pa: u128 = if p < 0 { (-p) as u128 } else { p as u128 };
    let di: i128 = den as i128;
    let da: u128 = if di < 0 { (-di) as u128 } else { di as u128 };
    let q: u128 = pa / da;
    assert(q <= pa) by (nonlinear_arith)
        requires q == pa / da, da >= 1;
    let qi: i128 = q as i128;
    let t: i128 = if (p < 0) != (di < 0) { -qi } else { qi };
    if t > isize::MAX as i128 {
        isize::MAX
    } else if t < isize::MIN as i128 {
        isize::MIN
    } else {
        t as isize
    }
}

/// `t` is the target of `r` on an image of `width` x `height`.
pub open spec fn is_target_of(width: isize, height: isize, r: Resize, t: Option<(isize, isize)>) -> bool {
    match t {
        Some(d) => target_dims(width as int, height as int, r) == Some((d.0 as int, d.1 as int)),
        None => target_dims(width as int, height as int, r) is None,
    }
}

/// Resizing is total and deterministic: there is a target exactly when one
/// of the four parameters is present, and two resolutions of the same size
/// and request give the same target.
pub proof fn lemma_resize_deterministic(width: isize, height: isize, r: Resize, t1: Option<(isize, isize)>, t2: Option<(isize, isize)>)
    requires
        is_target_of(width, height, r, t1),
        is_target_of(width, height, r, t2),
    ensures
        t1 == t2,
        t1 is Some <==> (r.size is Some || r.max_side is Some || r.width is Some || r.height is Some),
{
    if t1 is Some && t2 is Some {
        let a = t1->Some_0;
        let b = t2->Some_0;
        assert(a.0 == b.0 && a.1 == b.1);
    }
}

/// The cases of a resize request apply in a fixed priority and are never
/// combined: `size` alone decides when present, then `max_side`, then both
/// bounds, then `width` alone, then `height` alone.
pub proof fn lemma_resize_priority(width: int, height: int, r: Resize)
    ensures
        r.size is Some ==> target_dims(width, height, r) == Some((
            smaller(r.size->Some_0 as int, smaller(width, height)),
            smaller(r.size->Some_0 as int, smaller(width, height)),
        )),
        r.size is None && r.max_side is Some && smaller(width, height) == width ==> target_dims(width, height, r) == Some((
            scale(width, smaller(height, r.max_side->Some_0 as int), height),
            smaller(height, r.max_side->Some_0 as int),
        )),
        r.size is None && r.max_side is Some && smaller(width, height) != width ==> target_dims(width, height, r) == Some((
            smaller(width, r.max_side->Some_0 as int),
            scale(height, smaller(width, r.max_side->Some_0 as int), width),
        )),
        r.size is None && r.max_side is None && r.width is Some && r.height is Some ==> target_dims(width, height, r) == Some((
            smaller(width, r.width->Some_0 as int),
            smaller(height, r.height->Some_0 as int),
        )),
        r.size is None && r.max_side is None && r.width is Some && r.height is None ==> target_dims(width, height, r) == Some((
            smaller(width, r.width->Some_0 as int),
            scale(smaller(width, r.width->Some_0 as int), height, width),
        )),
        r.size is None && r.max_side is None && r.width is None && r.height is Some ==> target_dims(width, height, r) == Some((
            scale(smaller(height, r.height->Some_0 as int), width, height),
            smaller(height, r.height->Some_0 as int),
        )),
        r.size is None && r.max_side is None && r.width is None && r.height is None ==> target_dims(width, height, r) is None,
{
}

/// Target dimensions of `r` on an image of `width` x `height`.
pub fn target_size(width: isize, height: isize, r: &Resize) -> (t: Option<(isize, isize)>)
    ensures
        is_target_of(width, height, *r, t),
{
    let shortest = min_isize(width, height);
    if let Some(s) = r.size {
        let t = min_isize(s, shortest);
        Some((t, t))
    } else if let Some(s) = r.max_side {
        if shortest == width {
            let h = min_isize(height, s);
            Some((scale_exec(width, h, height), h))
        } else {
            let w = min_isize(width, s);
            Some((w, scale_exec(height, w, width)))
        }
    } else if let (Some(w), Some(h)) = (r.width, r.height) {
        Some((min_isize(width, w), min_isize(height, h)))
    } else if let Some(w) = r.width {
        let w = min_isize(width, w);
        Some((w, scale_exec(w, height, width)))
    } else if let Some(h) = r.height {
        let h = min_isize(height, h);
        Some((scale_exec(h, width, height), h))
    } else {
        None
    }
}

impl File {
    /// The record `id` of store `store_id` among `candidates`, the records
    /// that the database holds under that identifier; `NotFound` unless one
    /// of them is attached and not deleted.
    pub fn find(candidates: Vec<File>, id: &str, store_id: &String) -> (r: Result<File, Error>)
        ensures
            match r {
                Ok(f) => exists|i: int|
                    0 <= i < candidates@.len() && candidates@[i] == f
                        && matches_lookup(f, id@, store_id@)
                        && none_match_before(candidates@, i, id@, store_id@),
                Err(e) => e == Error::NotFound
                    && none_match_before(candidates@, candidates@.len() as int, id@, store_id@),
            },
    {
        let id_owned = id.to_owned();
        let mut i: usize = 0;
        while i < candidates.len()
            invariant
                i <= candidates@.len(),
                id_owned@ == id@,
                none_match_before(candidates@, i as int, id@, store_id@),
            decreases candidates@.len() - i,
        {
            let c = &candidates[i];
            if c.id == id_owned && c.store == *store_id && c.attached && !c.deleted {
                let mut candidates = candidates;
                return Ok(candidates.remove(i));
            }
            i = i + 1;
        }
        Err(Error::NotFound)
    }

    /// The bytes and content type to answer with: the stored `contents`
    /// resized when the record is an image and `resize` asks for it, else
    /// `contents` as they are.
    pub fn fetch(&self, contents: Vec<u8>, resize: Option<Resize>) -> (r: (Vec<u8>, Option<String>))
        ensures
            r.0@ == served(self.metadata, contents@, resize).0,
            match r.1 {
                Some(t) => served(self.metadata, contents@, resize).1 == Some(t@),
                None => served(self.metadata, contents@, resize).1 is None,
            },
    {
        fetch_file(self.metadata, contents, resize)
    }
}

/// The bytes and content type to answer with for a file classified as
/// `metadata` whose stored bytes are `contents`. Resizing is best effort: on
/// any decode or encode failure the original bytes are answered.
pub fn fetch_file(metadata: FileMetadata, contents: Vec<u8>, resize: Option<Resize>) -> (r: (Vec<u8>, Option<String>))
    ensures
        r.0@ == served(metadata, contents@, resize).0,
        match r.1 {
            Some(t) => served(metadata, contents@, resize).1 == Some(t@),
            None => served(metadata, contents@, resize).1 is None,
        },
{
    if let Some(parameters) = resize {
        if let FileMetadata::Image { width, height } = metadata {
            match target_size(width, height, &parameters) {
                Some((w, h)) => {
                    if 1 <= w && w <= MAX_ENCODED_SIDE as isize && 1 <= h && h <= MAX_ENCODED_SIDE as isize {
                        if let Some(bytes) = try_resize(&contents, w as u32, h as u32) {
                            let t = String::from_str("image/webp");
                            proof { reveal_strlit("image/webp"); }
                            assert(t@ =~= resized_type());
                            return (bytes, Some(t));
                        }
                    }
                }
                None => {}
            }
        }
    }
    (contents, None)
}

} // verus!
