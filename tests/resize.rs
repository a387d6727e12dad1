use cdn::files::{scale_exec, target_size, File, FileMetadata, Resize};
use std::io::Cursor;

fn request(size: Option<isize>, width: Option<isize>, height: Option<isize>, max_side: Option<isize>) -> Resize {
    Resize { size, width, height, max_side }
}

fn image_record(width: isize, height: isize) -> File {
    File {
        id: "01HZX".to_string(),
        store: "attachments".to_string(),
        filename: "a.png".to_string(),
        metadata: FileMetadata::Image { width, height },
        content_type: "image/png".to_string(),
        size: 10,
        attached: true,
        deleted: false,
        flagged: false,
    }
}

fn png(width: u32, height: u32) -> Vec<u8> {
    let img = image::DynamicImage::ImageRgba8(image::RgbaImage::from_pixel(width, height, image::Rgba([200, 10, 10, 255])));
    let mut buf = Vec::new();
    img.write_to(&mut Cursor::new(&mut buf), image::ImageFormat::Png).unwrap();
    buf
}

#[test]
fn size_fits_square() {
    assert_eq!(target_size(200, 300, &request(Some(100), None, None, None)), Some((100, 100)));
}

#[test]
fn size_capped_by_shortest_side() {
    assert_eq!(target_size(200, 300, &request(Some(500), None, None, None)), Some((200, 200)));
}

#[test]
fn both_bounds_clamp_each_axis() {
    assert_eq!(target_size(200, 100, &request(None, Some(50), Some(1000), None)), Some((50, 100)));
}

#[test]
fn size_wins_over_everything() {
    assert_eq!(target_size(200, 100, &request(Some(10), Some(50), Some(60), Some(70))), Some((10, 10)));
}

#[test]
fn max_side_on_portrait_clamps_height() {
    assert_eq!(target_size(200, 300, &request(None, None, None, Some(150))), Some((100, 150)));
}

#[test]
fn max_side_on_landscape_clamps_width() {
    assert_eq!(target_size(300, 200, &request(None, None, None, Some(150))), Some((150, 100)));
}

#[test]
fn width_only_scales_height() {
    assert_eq!(target_size(200, 300, &request(None, Some(100), None, None)), Some((100, 150)));
}

#[test]
fn height_only_scales_width() {
    assert_eq!(target_size(200, 300, &request(None, None, Some(100), None)), Some((66, 100)));
}

#[test]
fn no_parameters_no_resize() {
    assert_eq!(target_size(200, 300, &request(None, None, None, None)), None);
}

#[test]
fn same_request_same_target() {
    let r = request(None, Some(37), None, Some(91));
    assert_eq!(target_size(640, 480, &r), target_size(640, 480, &r));
}

#[test]
fn scale_truncates_toward_zero() {
    assert_eq!(scale_exec(7, 2, 3), 4);
    assert_eq!(scale_exec(-7, 2, 3), -4);
    assert_eq!(scale_exec(5, 5, 0), 0);
    assert_eq!(scale_exec(isize::MAX, 4, 1), isize::MAX);
}

#[test]
fn fetch_resizes_image_to_webp() {
    let bytes = png(4, 2);
    let (out, content_type) = image_record(4, 2).fetch(bytes.clone(), Some(request(None, Some(2), None, None)));
    assert_eq!(content_type, Some("image/webp".to_string()));
    assert_ne!(out, bytes);
    assert_eq!(&out[0..4], b"RIFF");
    assert_eq!(imagesize::blob_size(&out).map(|s| (s.width, s.height)).unwrap(), (2, 1));
}

#[test]
fn fetch_without_resize_returns_original() {
    let bytes = png(4, 2);
    let (out, content_type) = image_record(4, 2).fetch(bytes.clone(), None);
    assert_eq!(out, bytes);
    assert_eq!(content_type, None);
}

#[test]
fn fetch_ignores_resize_on_non_images() {
    let mut record = image_record(4, 2);
    record.metadata = FileMetadata::Text;
    let (out, content_type) = record.fetch(b"hello".to_vec(), Some(request(Some(1), None, None, None)));
    assert_eq!(out, b"hello".to_vec());
    assert_eq!(content_type, None);
}

#[test]
fn fetch_falls_back_on_undecodable_bytes() {
    let (out, content_type) = image_record(4, 2).fetch(b"not an image".to_vec(), Some(request(Some(2), None, None, None)));
    assert_eq!(out, b"not an image".to_vec());
    assert_eq!(content_type, None);
}

#[test]
fn fetch_file_square_resize() {
    let bytes = png(6, 4);
    let (out, content_type) = cdn::files::fetch_file(FileMetadata::Image { width: 6, height: 4 }, bytes, Some(request(Some(3), None, None, None)));
    assert_eq!(content_type.as_deref(), Some("image/webp"));
    assert_eq!(imagesize::blob_size(&out).map(|s| (s.width, s.height)).unwrap(), (3, 3));
}
