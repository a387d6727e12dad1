use crate::errors::Error;
use crate::files::{File, FileMetadata};
use crate::stores::{ContentType, Store};
use crate::text::str_equals;
use vstd::prelude::*;

verus! {

/// Answer to a successful upload: the identifier given to the new file.
pub struct UploadResponse {
    pub id: String,
}

/// Pixel width and height that imagesize reads from the header of the image
/// in `bytes`; `None` where it recognises no image.
pub uninterp spec fn blob_dims(bytes: Seq<u8>) -> Option<(usize, usize)>;

/// Relies on imagesize::blob_size: the size comes from the bytes alone.
#[verifier::external_body]
pub(crate) fn image_size(buf: &Vec<u8>) -> (r: Option<(usize, usize)>)
    ensures
        r == blob_dims(buf@),
{
    imagesize::blob_size(buf).ok().map(|s| (s.width, s.height))
}

pub open spec fn starts_with(bytes: Seq<u8>, prefix: Seq<u8>) -> bool {
    prefix.len() <= bytes.len() && bytes.subrange(0, prefix.len() as int) == prefix
}

/// content_inspector's rule: a byte-order mark makes text; otherwise a zero
/// byte in the first 1024 bytes, or a PDF or PNG signature, makes binary.
pub open spec fn looks_textual(b: Seq<u8>) -> bool {
    let scan = if b.len() < 1024 { b.len() } else { 1024 };
    if starts_with(b, seq![0xEFu8, 0xBB, 0xBF]) || starts_with(b, seq![0x00u8, 0x00, 0xFE, 0xFF])
        || starts_with(b, seq![0xFFu8, 0xFE]) || starts_with(b, seq![0xFEu8, 0xFF]) {
        true
    } else if exists|i: int| 0 <= i < scan && b[i] == 0 {
        false
    } else {
        !starts_with(b, seq![0x25u8, 0x50, 0x44, 0x46]) && !starts_with(b, seq![0x89u8, 0x50, 0x4E, 0x47])
    }
}

/// Relies on content_inspector::inspect and `ContentType::is_text`.
#[verifier::external_body]
fn is_text(buf: &Vec<u8>) -> (r: bool)
    ensures
        r == looks_textual(buf@),
{
    content_inspector::inspect(buf).is_text()
}

/// Relies on tree_magic_mini::from_u8. Its answer depends on the MIME
/// database installed on the machine, so nothing is stated of it.
#[verifier::external_body]
fn sniff_content_type(buf: &Vec<u8>) -> (r: String) {
    tree_magic_mini::from_u8(buf).to_string()
}

/// Relies on `ulid::Ulid::new` and its canonical text form, 26 characters
/// of Crockford base 32. The value depends on the clock and on chance.
#[verifier::external_body]
fn new_file_id() -> (r: String)
    ensures
        r@.len() == 26,
{
    ulid::Ulid::new().to_string()
}

pub open spec fn is_image_type(m: Seq<char>) -> bool {
    m == "image/jpeg"@ || m == "image/png"@ || m == "image/gif"@ || m == "image/webp"@
}

pub open spec fn is_video_type(m: Seq<char>) -> bool {
    m == "video/mp4"@ || m == "video/webm"@ || m == "video/quicktime"@
}

/// Classification of uploaded `bytes` of sniffed type `mime`; `video` is what
/// probing the bytes as a video reported, if anything.
pub open spec fn classification(mime: Seq<char>, bytes: Seq<u8>, video: Option<(isize, isize)>) -> Result<FileMetadata, Error> {
    if is_image_type(mime) {
        match blob_dims(bytes) {
            Some(d) => if d.0 <= isize::MAX && d.1 <= isize::MAX {
                Ok(FileMetadata::Image { width: d.0 as isize, height: d.1 as isize })
            } else {
                Err(Error::ProcessingError)
            },
            None => Ok(FileMetadata::File),
        }
    } else if is_video_type(mime) {
        match video {
            Some(d) => Ok(FileMetadata::Video { width: d.0, height: d.1 }),
            None => Ok(FileMetadata::File),
        }
    } else if mime == "audio/mpeg"@ {
        Ok(FileMetadata::Audio)
    } else if looks_textual(bytes) {
        Ok(FileMetadata::Text)
    } else {
        Ok(FileMetadata::File)
    }
}

/// Whether the classification is one that `store` takes.
pub open spec fn allowed(store: Store, m: FileMetadata) -> bool {
    match store.restrict_content_type {
        None => true,
        Some(ContentType::Image) => m is Image,
        Some(ContentType::Video) => m is Video,
        Some(ContentType::Audio) => m is Audio,
    }
}

/// Whether uploads of `mime` are probed as videos before classification.
pub fn needs_video_probe(mime: &str) -> (r: bool)
    ensures
        r == is_video_type(mime@),
{
    str_equals(mime, "video/mp4") || str_equals(mime, "video/webm") || str_equals(mime, "video/quicktime")
}

/// Classifies uploaded content from its sniffed type and bytes.
pub fn classify(mime: &str, buf: &Vec<u8>, video: Option<(isize, isize)>) -> (r: Result<FileMetadata, Error>)
    ensures
        r == classification(mime@, buf@, video),
{
    if str_equals(mime, "image/jpeg") || str_equals(mime, "image/png") || str_equals(mime, "image/gif")
        || str_equals(mime, "image/webp") {
        match image_size(buf) {
            Some((w, h)) => {
                if w <= isize::MAX as usize && h <= isize::MAX as usize {
                    Ok(FileMetadata::Image { width: w as isize, height: h as isize })
                } else {
                    Err(Error::ProcessingError)
                }
            }
            None => Ok(FileMetadata::File),
        }
    } else if needs_video_probe(mime) {
        match video {
            Some((w, h)) => Ok(FileMetadata::Video { width: w, height: h }),
            None => Ok(FileMetadata::File),
        }
    } else if str_equals(mime, "audio/mpeg") {
        Ok(FileMetadata::Audio)
    } else if is_text(buf) {
        Ok(FileMetadata::Text)
    } else {
        Ok(FileMetadata::File)
    }
}

/// `FileTypeNotAllowed` unless the store takes content of this classification.
pub fn check_restriction(store: &Store, metadata: &FileMetadata) -> (r: Result<(), Error>)
    ensures
        r is Ok <==> allowed(*store, *metadata),
        r is Err ==> r == Err::<(), Error>(Error::FileTypeNotAllowed),
{
    let ok = match store.restrict_content_type {
        None => true,
        Some(ContentType::Image) => matches!(metadata, FileMetadata::Image { .. }),
        Some(ContentType::Video) => matches!(metadata, FileMetadata::Video { .. }),
        Some(ContentType::Audio) => matches!(metadata, FileMetadata::Audio),
    };
    if ok { Ok(()) } else { Err(Error::FileTypeNotAllowed) }
}

/// The bytes of an upload received so far, bounded by the store's size cap.
pub struct UploadBuffer {
    pub bytes: Vec<u8>,
    pub max_size: usize,
}

impl UploadBuffer {
    pub open spec fn wf(&self) -> bool {
        self.bytes@.len() <= self.max_size
    }

    pub fn new(store: &Store) -> (r: UploadBuffer)
        ensures
            r.wf(),
            r.bytes@.len() == 0,
            r.max_size == store.max_size,
    {
        UploadBuffer { bytes: Vec::new(), max_size: store.max_size }
    }

    /// Appends a chunk, or fails with `FileTooLarge` and keeps the buffer as
    /// it was when the upload would then exceed the cap.
    pub fn push_chunk(&mut self, chunk: &[u8]) -> (r: Result<(), Error>)
        requires
            old(self).wf(),
        ensures
            final(self).wf(),
            final(self).max_size == old(self).max_size,
            r is Ok <==> old(self).bytes@.len() + chunk@.len() <= old(self).max_size,
            r is Ok ==> final(self).bytes@ == old(self).bytes@ + chunk@,
            r is Err ==> r == Err::<(), Error>(Error::FileTooLarge { max_size: old(self).max_size })
                && final(self).bytes@ == old(self).bytes@,
    {
        if chunk.len() > self.max_size - self.bytes.len() {
            return Err(Error::FileTooLarge { max_size: self.max_size });
        }
        let ghost pre = self.bytes@;
        let mut i: usize = 0;
        while i < chunk.len()
            invariant
                i <= chunk@.len(),
                self.bytes@ == pre + chunk@.subrange(0, i as int),
                pre.len() + chunk@.len() <= self.max_size,
                self.max_size == old(self).max_size,
            decreases chunk@.len() - i,
        {
            self.bytes.push(chunk[i]);
            i = i + 1;
            assert(self.bytes@ =~= pre + chunk@.subrange(0, i as int));
        }
        assert(chunk@.subrange(0, chunk@.len() as int) =~= chunk@);
        Ok(())
    }
}

/// A completely received upload with its sniffed content type.
pub struct ReceivedUpload {
    pub bytes: Vec<u8>,
    pub content_type: String,
    /// Whether the bytes must be probed as a video before classification.
    pub probe_video: bool,
}

impl UploadBuffer {
    /// Ends reception: sniffs the content type of the bytes received.
    pub fn finish(self) -> (r: ReceivedUpload)
        ensures
            r.bytes@ == self.bytes@,
            r.probe_video == is_video_type(r.content_type@),
    {
        let content_type = sniff_content_type(&self.bytes);
        let probe_video = needs_video_probe(content_type.as_str());
        ReceivedUpload { bytes: self.bytes, content_type, probe_video }
    }
}

/// What an upload of `bytes` into `store` yields, up to the identifier that
/// the new record gets.
pub open spec fn upload_outcome(store: Store, mime: Seq<char>, bytes: Seq<u8>, video: Option<(isize, isize)>) -> Result<FileMetadata, Error> {
    if bytes.len() > store.max_size {
        Err(Error::FileTooLarge { max_size: store.max_size })
    } else if bytes.len() > isize::MAX {
        Err(Error::ProcessingError)
    } else {
        match classification(mime, bytes, video) {
            Ok(m) => if allowed(store, m) { Ok(m) } else { Err(Error::FileTypeNotAllowed) },
            Err(e) => Err(e),
        }
    }
}

/// Builds the record of a new upload of `buf` into store `store_id`, with a
/// fresh identifier; the record starts detached, not deleted, not flagged.
/// The caller persists the record, then `buf` under the record's identifier.
pub fn prepare_upload(
    store: &Store,
    store_id: &String,
    filename: String,
    buf: &Vec<u8>,
    content_type: &str,
    video: Option<(isize, isize)>,
) -> (r: Result<File, Error>)
    ensures
        match upload_outcome(*store, content_type@, buf@, video) {
            Ok(m) => r is Ok && {
                let f = r->Ok_0;
                &&& f.id@.len() == 26
                &&& f.store@ == store_id@
                &&& f.filename@ == filename@
                &&& f.metadata == m
                &&& f.content_type@ == content_type@
                &&& f.size == buf@.len()
                &&& !f.attached && !f.deleted && !f.flagged
            },
            Err(e) => r == Err::<File, Error>(e),
        },
{
    if buf.len() > store.max_size {
        return Err(Error::FileTooLarge { max_size: store.max_size });
    }
    if buf.len() > isize::MAX as usize {
        return Err(Error::ProcessingError);
    }
    let metadata = classify(content_type, buf, video)?;
    check_restriction(store, &metadata)?;
    let id = new_file_id();
    Ok(File {
        id,
        store: store_id.clone(),
        filename,
        metadata,
        content_type: String::from_str(content_type),
        size: buf.len() as isize,
        attached: false,
        deleted: false,
        flagged: false,
    })
}

/// An upload one byte over the store's cap is refused with `FileTooLarge`
/// carrying the cap, so no record is built and no bytes are stored.
pub proof fn lemma_oversize_upload_refused(store: Store, mime: Seq<char>, bytes: Seq<u8>, video: Option<(isize, isize)>)
    requires
        bytes.len() == store.max_size + 1,
    ensures
        upload_outcome(store, mime, bytes, video) == Err::<FileMetadata, Error>(Error::FileTooLarge { max_size: store.max_size }),
{
}

/// The width and height recorded for an uploaded image are those that probing
/// the stored bytes reports.
pub proof fn lemma_recorded_image_size(store: Store, mime: Seq<char>, bytes: Seq<u8>, video: Option<(isize, isize)>, width: isize, height: isize)
    requires
        upload_outcome(store, mime, bytes, video) == Ok::<FileMetadata, Error>(FileMetadata::Image { width, height }),
    ensures
        blob_dims(bytes) == Some((width as usize, height as usize)),
{
    assert(is_image_type(mime));
}

/// First stream of a probed video that reports both sides within range.
pub open spec fn first_stream_size(streams: Seq<(Option<i64>, Option<i64>)>) -> Option<(isize, isize)>
    decreases streams.len(),
{
    if streams.len() == 0 {
        None
    } else {
        let s = streams[0];
        if s.0 is Some && s.1 is Some && isize::MIN <= s.0->Some_0 <= isize::MAX
            && isize::MIN <= s.1->Some_0 <= isize::MAX {
            Some((s.0->Some_0 as isize, s.1->Some_0 as isize))
        } else {
            first_stream_size(streams.drop_first())
        }
    }
}

/// The size of a video from the (width, height) of each of its streams, as a
/// media prober lists them: the first stream that has both; `ProcessingError`
/// when none has.
pub fn determine_video_size(streams: &Vec<(Option<i64>, Option<i64>)>) -> (r: Result<(isize, isize), Error>)
    ensures
        match first_stream_size(streams@) {
            Some(d) => r == Ok::<(isize, isize), Error>(d),
            None => r == Err::<(isize, isize), Error>(Error::ProcessingError),
        },
{
    let mut i: usize = 0;
    assert(streams@.subrange(0, streams@.len() as int) =~= streams@);
    while i < streams.len()
        invariant
            i <= streams@.len(),
            first_stream_size(streams@) == first_stream_size(streams@.subrange(i as int, streams@.len() as int)),
        decreases streams@.len() - i,
    {
        let ghost rest = streams@.subrange(i as int, streams@.len() as int);
        assert(rest.drop_first() =~= streams@.subrange(i + 1, streams@.len() as int));
        if let (Some(w), Some(h)) = streams[i] {
            if isize::MIN as i64 <= w && w <= isize::MAX as i64 && isize::MIN as i64 <= h && h <= isize::MAX as i64 {
                return Ok((w as isize, h as isize));
            }
        }
        i = i + 1;
    }
    assert(streams@.subrange(i as int, streams@.len() as int).len() == 0);
    Err(Error::ProcessingError)
}

} // verus!
