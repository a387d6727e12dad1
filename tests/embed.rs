use cdn::embed::{check_fetch_status, check_proxy, classify_response, image_media_size, media_embed, website_embed, MediaKind};
use cdn::errors::Error;
use cdn::metadata::{Embed, Image, ImageSize, Metadata, Special, TwitchChannel};
use cdn::providers::{recognise_provider, special_of, twitch_special, youtube_special, Provider, Thumbnail, YoutubeVideo};
use cdn::serve::{disposition, download_disposition};

fn pairs(v: &[(&str, &str)]) -> Vec<(String, String)> {
    v.iter().map(|(a, b)| (a.to_string(), b.to_string())).collect()
}

#[test]
fn title_chain_and_defaults() {
    let meta = pairs(&[("twitter:title", "T2"), ("title", "T3"), ("og:image", "https://x/i.png"), ("og:image:width", "abc")]);
    let m = Metadata::from_tags(&meta, &vec![], "https://x/".to_string()).unwrap();
    assert_eq!(m.title.as_deref(), Some("T2"));
    let img = m.image.unwrap();
    assert_eq!((img.width, img.height), (0, 0));
    assert_eq!(img.size, ImageSize::Preview);
    assert_eq!(m.url, "https://x/");
    assert_eq!(m.original_url, "https://x/");
}

#[test]
fn later_meta_tag_wins() {
    let meta = pairs(&[("og:title", "first"), ("og:title", "second")]);
    let m = Metadata::from_tags(&meta, &vec![], "u".to_string()).unwrap();
    assert_eq!(m.title.as_deref(), Some("second"));
}

#[test]
fn large_card_and_icon_prefix() {
    let meta = pairs(&[("og:image", "https://x/i.png"), ("twitter:card", "summary_large_image"), ("og:image:width", "640"), ("og:image:height", "480"), ("og:url", "https://x/canonical")]);
    let link = pairs(&[("icon", "/favicon.ico")]);
    let m = Metadata::from_tags(&meta, &link, "https://x".to_string()).unwrap();
    let img = m.image.unwrap();
    assert_eq!((img.width, img.height, img.size), (640, 480, ImageSize::Large));
    assert_eq!(m.icon_url.as_deref(), Some("https://x/favicon.ico"));
    assert_eq!(m.url, "https://x/canonical");
}

#[test]
fn overlong_title_fails_validation() {
    let long = "a".repeat(101);
    let meta = pairs(&[("og:title", long.as_str())]);
    assert!(matches!(Metadata::from_tags(&meta, &vec![], "u".to_string()), Err(Error::ValidationFailed)));
    let meta = pairs(&[("og:title", "")]);
    assert!(matches!(Metadata::from_tags(&meta, &vec![], "u".to_string()), Err(Error::ValidationFailed)));
}

#[test]
fn parses_html_document() {
    let html = "<html><head><meta property=\"og:title\" content=\"Hello\"><meta name=\"description\" content=\"World\"><link rel=\"icon\" href=\"https://x/i.ico\"></head></html>";
    let m = Metadata::from(html, "https://x".to_string()).unwrap();
    assert_eq!(m.title.as_deref(), Some("Hello"));
    assert_eq!(m.description.as_deref(), Some("World"));
    assert_eq!(m.icon_url.as_deref(), Some("https://x/i.ico"));
}

#[test]
fn bare_page_is_no_embed() {
    let m = Metadata::from("<html><head><meta property=\"og:type\" content=\"website\"></head></html>", "https://x".to_string()).unwrap();
    assert!(m.is_none());
    assert!(matches!(website_embed(m), Embed::Empty));
}

#[test]
fn title_only_page_is_no_embed() {
    let m = Metadata::from("<html><head><meta property=\"og:title\" content=\"Only\"></head></html>", "https://x".to_string()).unwrap();
    assert_eq!(m.title.as_deref(), Some("Only"));
    assert!(m.is_none());
    assert!(matches!(website_embed(m), Embed::Empty));
}

#[test]
fn description_makes_an_embed() {
    let m = Metadata::from("<html><head><meta name=\"description\" content=\"About\"></head></html>", "https://x".to_string()).unwrap();
    assert!(!m.is_none());
    assert!(matches!(website_embed(m), Embed::Website(_)));
}

#[test]
fn attributes_in_any_order() {
    let m = Metadata::from("<html><head><meta content=\"Late\" property=\"og:title\"><meta content=\"D\" name=\"description\"></head></html>", "https://x".to_string()).unwrap();
    assert_eq!(m.title.as_deref(), Some("Late"));
    assert_eq!(m.description.as_deref(), Some("D"));
}

#[test]
fn special_from_provider() {
    let s = special_of(Provider::Spotify { content_type: "album".to_string(), id: "X1".to_string() }, None, None);
    assert!(matches!(s, Special::Spotify { ref content_type, ref id } if content_type == "album" && id == "X1"));
    assert!(matches!(special_of(Provider::Gif, None, None), Special::Gif));
    assert!(matches!(special_of(Provider::Soundcloud, None, None), Special::Soundcloud));
    assert!(matches!(special_of(Provider::Unrecognised, None, None), Special::Plain));
    assert!(matches!(special_of(Provider::Twitch { channel: "c".to_string() }, None, None), Special::Plain));
    assert!(matches!(special_of(Provider::Youtube { id: "i".to_string(), timestamp: None }, None, None), Special::Plain));
}

#[test]
fn youtube_with_timestamp() {
    let url = "https://www.youtube.com/watch?v=dQw4w9WgXcQ";
    let p = recognise_provider(url, url, Some("https://www.youtube.com/embed/dQw4w9WgXcQ?t=90"));
    let (id, timestamp) = match p {
        Provider::Youtube { id, timestamp } => (id, timestamp),
        other => panic!("unexpected {:?}", other),
    };
    assert_eq!(id, "dQw4w9WgXcQ");
    assert_eq!(timestamp.as_deref(), Some("90"));
    let video = YoutubeVideo {
        is_private: false,
        title: "Song".to_string(),
        author: "Artist".to_string(),
        thumbnails: vec![
            Thumbnail { url: "small".to_string(), width: 120 },
            Thumbnail { url: "big".to_string(), width: 1280 },
            Thumbnail { url: "big2".to_string(), width: 1280 },
        ],
    };
    let special = youtube_special(id, timestamp, Some(video));
    let mut m = Metadata::from_tags(&pairs(&[("og:title", "Song"), ("theme-color", "#000000")]), &vec![], url.to_string()).unwrap();
    m.resolve_external(special, None);
    assert_eq!(m.color.as_deref(), Some("#FF424F"));
    match m.special {
        Some(Special::Youtube { timestamp, thumbnail, title, .. }) => {
            assert_eq!(timestamp.as_deref(), Some("90"));
            assert_eq!(thumbnail, "big2");
            assert_eq!(title, "Song");
        }
        other => panic!("unexpected {:?}", other),
    }
}

#[test]
fn private_youtube_video_has_no_special() {
    let video = YoutubeVideo { is_private: true, title: "t".to_string(), author: "a".to_string(), thumbnails: vec![Thumbnail { url: "u".to_string(), width: 1 }] };
    assert!(matches!(youtube_special("id".to_string(), None, Some(video)), Special::Plain));
    assert!(matches!(youtube_special("id".to_string(), None, None), Special::Plain));
}

#[test]
fn youtube_needs_video_tag() {
    let url = "https://www.youtube.com/watch?v=dQw4w9WgXcQ";
    assert!(matches!(recognise_provider(url, url, None), Provider::Unrecognised));
}

#[test]
fn other_providers() {
    match recognise_provider("https://twitch.tv/somechannel", "https://twitch.tv/somechannel", None) {
        Provider::Twitch { channel } => assert_eq!(channel, "somechannel"),
        other => panic!("unexpected {:?}", other),
    }
    match recognise_provider("u", "https://open.spotify.com/track/4uLU6hMCjMI75M1A2tKUQC", None) {
        Provider::Spotify { content_type, id } => {
            assert_eq!(content_type, "track");
            assert_eq!(id, "4uLU6hMCjMI75M1A2tKUQC");
        }
        other => panic!("unexpected {:?}", other),
    }
    assert!(matches!(recognise_provider("u", "https://soundcloud.com/artist/track", None), Provider::Soundcloud));
    assert!(matches!(recognise_provider("u", "https://tenor.com/view/cat-123", None), Provider::Gif));
    assert!(matches!(recognise_provider("u", "https://example.com/", None), Provider::Unrecognised));
}

#[test]
fn twitch_colour_and_soundcloud_none() {
    let channel = TwitchChannel { id: "1".into(), name: "n".into(), color: "c".into(), avatar: "a".into(), banner: "b".into() };
    let mut m = Metadata::from_tags(&pairs(&[("og:title", "x"), ("theme-color", "#123456")]), &vec![], "u".to_string()).unwrap();
    m.apply_special(twitch_special(Some(channel)));
    assert_eq!(m.color.as_deref(), Some("#7B68EE"));
    let mut m = Metadata::from_tags(&pairs(&[("og:title", "x"), ("theme-color", "#123456")]), &vec![], "u".to_string()).unwrap();
    m.apply_special(Special::Soundcloud);
    assert_eq!(m.color.as_deref(), Some("#123456"));
    assert!(matches!(twitch_special(None), Special::Plain));
}

#[test]
fn image_backfill() {
    let meta = pairs(&[("og:image", "https://x/i.png")]);
    let mut m = Metadata::from_tags(&meta, &vec![], "u".to_string()).unwrap();
    assert!(m.needs_image_size());
    m.apply_image_size(Some((10, 20)));
    let img = m.image.as_ref().unwrap();
    assert_eq!((img.width, img.height), (10, 20));
    let mut m = Metadata::from_tags(&meta, &vec![], "u".to_string()).unwrap();
    m.apply_image_size(None);
    assert!(m.image.is_none());
}

#[test]
fn response_classification() {
    assert_eq!(classify_response(Some("text/html; charset=utf-8")), Ok(MediaKind::Html));
    assert_eq!(classify_response(Some("image/png")), Ok(MediaKind::Image));
    assert_eq!(classify_response(Some("video/mp4")), Ok(MediaKind::Video));
    assert_eq!(classify_response(Some("application/json")), Ok(MediaKind::Other));
    assert_eq!(classify_response(None), Err(Error::MissingContentType));
    assert_eq!(check_fetch_status(204), Ok(()));
    assert_eq!(check_fetch_status(404), Err(Error::RequestFailed));
    assert_eq!(check_proxy(MediaKind::Html), Err(Error::CannotProxy));
    assert_eq!(check_proxy(MediaKind::Video), Ok(()));
}

#[test]
fn media_embeds() {
    let img = image::DynamicImage::ImageRgba8(image::RgbaImage::new(5, 6));
    let mut buf = Vec::new();
    img.write_to(&mut std::io::Cursor::new(&mut buf), image::ImageFormat::Png).unwrap();
    assert_eq!(image_media_size(&buf), Some((5, 6)));
    assert_eq!(image_media_size(&b"x".to_vec()), None);
    match media_embed(MediaKind::Image, "https://x/i.png".to_string(), Some((5, 6))) {
        Embed::Image(Image { url, width, height, size }) => {
            assert_eq!((url.as_str(), width, height, size), ("https://x/i.png", 5, 6, ImageSize::Large));
        }
        other => panic!("unexpected {:?}", other),
    }
    assert!(matches!(media_embed(MediaKind::Video, "v".to_string(), None), Embed::Empty));
}

#[test]
fn dispositions() {
    assert_eq!(disposition("image/png"), "inline");
    assert_eq!(disposition("audio/mpeg"), "inline");
    assert_eq!(disposition("application/pdf"), "attachment");
    assert_eq!(download_disposition("a b.txt"), "attachment; filename=\"a b.txt\"");
}
