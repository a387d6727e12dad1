use crate::metadata::{opt_view, Special, TwitchChannel};
use vstd::prelude::*;

verus! {

pub const YOUTUBE_PATTERN: &'static str = "^(?:(?:https?:)?//)?(?:(?:www|m)\\.)?(?:(?:youtube\\.com|youtu.be))(?:/(?:[\\w\\-]+\\?v=|embed/|v/)?)([\\w\\-]+)(?:\\S+)?$";

pub const TWITCH_PATTERN: &'static str = "^(?:https?://)?(?:www\\.|go\\.)?twitch\\.tv/([a-z0-9_]+)($|\\?)";

pub const SPOTIFY_PATTERN: &'static str = "^(?:https?://)?open.spotify.com/(track|user|artist|album|playlist)/([A-z0-9]+)";

pub const SOUNDCLOUD_PATTERN: &'static str = "^(?:https?://)?soundcloud.com/([a-zA-Z0-9-]+)/([A-z0-9-]+)";

pub const GIF_PATTERN: &'static str = "^(?:https?://)?(www\\.)?(tenor\\.com/view|giphy\\.com/gifs|gfycat\\.com)/[\\w\\d-]+";

pub const TIMESTAMP_PATTERN: &'static str = "(?:\\?|&)(?:t|start)=([\\w]+)";

/// Text of capture group `group` in the first match of regular expression
/// `pattern` in `text`; `None` when the pattern does not compile, nothing
/// matches, or the group took no part in the match (group 0 is the whole
/// match).
pub uninterp spec fn regex_capture(pattern: Seq<char>, text: Seq<char>, group: usize) -> Option<Seq<char>>;

/// Relies on regex: `Regex::new`, `Regex::captures` and `Captures::get`.
#[verifier::external_body]
fn capture(pattern: &str, text: &str, group: usize) -> (r: Option<String>)
    ensures
        opt_view(r) == regex_capture(pattern@, text@, group),
{
    let re = regex::Regex::new(pattern).ok()?;
    re.captures(text)?.get(group).map(|m| m.as_str().to_string())
}

/// A provider recognised from a page's URLs, before any lookup.
#[derive(Debug)]
pub enum Provider {
    Youtube { id: String, timestamp: Option<String> },
    Twitch { channel: String },
    Spotify { content_type: String, id: String },
    Soundcloud,
    Gif,
    Unrecognised,
}

pub open spec fn youtube_applies(url: Seq<char>, video_url: Option<Seq<char>>) -> bool {
    video_url is Some && regex_capture(YOUTUBE_PATTERN@, url, 1) is Some
}

pub open spec fn twitch_applies(original_url: Seq<char>) -> bool {
    regex_capture(TWITCH_PATTERN@, original_url, 1) is Some
}

pub open spec fn spotify_applies(original_url: Seq<char>) -> bool {
    regex_capture(SPOTIFY_PATTERN@, original_url, 1) is Some && regex_capture(SPOTIFY_PATTERN@, original_url, 2) is Some
}

pub open spec fn soundcloud_applies(original_url: Seq<char>) -> bool {
    regex_capture(SOUNDCLOUD_PATTERN@, original_url, 0) is Some
}

pub open spec fn gif_applies(original_url: Seq<char>) -> bool {
    regex_capture(GIF_PATTERN@, original_url, 0) is Some
}

/// Recognises the provider of a page: the page URL `url` is tried against
/// YouTube when the page has a video (`video_url`), then the requested URL
/// `original_url` against Twitch, Spotify, SoundCloud and GIF hosts; the
/// first that matches wins.
pub fn recognise_provider(url: &str, original_url: &str, video_url: Option<&str>) -> (r: Provider)
    ensures
        ({
            let v = match video_url { Some(s) => Some(s@), None => None::<Seq<char>> };
            if youtube_applies(url@, v) {
                r is Youtube && Some(r->Youtube_id@) == regex_capture(YOUTUBE_PATTERN@, url@, 1)
                    && opt_view(r->Youtube_timestamp) == regex_capture(TIMESTAMP_PATTERN@, v->Some_0, 1)
            } else if twitch_applies(original_url@) {
                r is Twitch && Some(r->Twitch_channel@) == regex_capture(TWITCH_PATTERN@, original_url@, 1)
            } else if spotify_applies(original_url@) {
                r is Spotify && Some(r->Spotify_content_type@) == regex_capture(SPOTIFY_PATTERN@, original_url@, 1)
                    && Some(r->Spotify_id@) == regex_capture(SPOTIFY_PATTERN@, original_url@, 2)
            } else if soundcloud_applies(original_url@) {
                r is Soundcloud
            } else if gif_applies(original_url@) {
                r is Gif
            } else {
                r is Unrecognised
            }
        }),
{
    if let Some(v) = video_url {
        if let Some(id) = capture(YOUTUBE_PATTERN, url, 1) {
            let timestamp = capture(TIMESTAMP_PATTERN, v, 1);
            return Provider::Youtube { id, timestamp };
        }
    }
    if let Some(channel) = capture(TWITCH_PATTERN, original_url, 1) {
        return Provider::Twitch { channel };
    }
    if let Some(content_type) = capture(SPOTIFY_PATTERN, original_url, 1) {
        if let Some(id) = capture(SPOTIFY_PATTERN, original_url, 2) {
            return Provider::Spotify { content_type, id };
        }
    }
    if capture(SOUNDCLOUD_PATTERN, original_url, 0).is_some() {
        return Provider::Soundcloud;
    }
    if capture(GIF_PATTERN, original_url, 0).is_some() {
        return Provider::Gif;
    }
    Provider::Unrecognised
}

#[derive(Debug)]
pub struct Thumbnail {
    pub url: String,
    pub width: u64,
}

/// What the video-info provider reports of a video.
#[derive(Debug)]
pub struct YoutubeVideo {
    pub is_private: bool,
    pub title: String,
    pub author: String,
    pub thumbnails: Vec<Thumbnail>,
}

/// `k` is the last of the widest thumbnails.
pub open spec fn is_widest(t: Seq<Thumbnail>, k: int) -> bool {
    &&& 0 <= k < t.len()
    &&& forall|j: int| 0 <= j < t.len() ==> (#[trigger] t[j]).width <= t[k].width
    &&& forall|j: int| k < j < t.len() ==> (#[trigger] t[j]).width < t[k].width
}

fn widest(t: &Vec<Thumbnail>) -> (k: usize)
    requires
        t@.len() > 0,
    ensures
        is_widest(t@, k as int),
{
    let mut k: usize = 0;
    let mut i: usize = 1;
    while i < t.len()
        invariant
            1 <= i <= t@.len(),
            is_widest(t@.subrange(0, i as int), k as int),
        decreases t@.len() - i,
    {
        if t[i].width >= t[k].width {
            k = i;
        }
        i = i + 1;
        assert(forall|j: int| 0 <= j < i ==> t@.subrange(0, i as int)[j] == t@[j]);
        assert(forall|j: int| 0 <= j < i - 1 ==> t@.subrange(0, i - 1)[j] == t@[j]);
    }
    assert(t@.subrange(0, t@.len() as int) =~= t@);
    k
}

/// The YouTube preview of video `id`: produced when the provider reported
/// the video, it is not private and it has a thumbnail; the widest
/// thumbnail (the last of equals) is used.
pub fn youtube_special(id: String, timestamp: Option<String>, video: Option<YoutubeVideo>) -> (r: Special)
    ensures
        match video {
            Some(v) => if !v.is_private && v.thumbnails@.len() > 0 {
                r is Youtube && r->Youtube_id == id && r->Youtube_timestamp == timestamp
                    && r->Youtube_title == v.title && r->Youtube_author == v.author
                    && exists|k: int| is_widest(v.thumbnails@, k) && r->Youtube_thumbnail == v.thumbnails@[k].url
            } else {
                r is Plain
            },
            None => r is Plain,
        },
{
    match video {
        Some(v) => {
            if !v.is_private && v.thumbnails.len() > 0 {
                let k = widest(&v.thumbnails);
                let thumbnail = v.thumbnails[k].url.clone();
                Special::Youtube { id, timestamp, title: v.title, thumbnail, author: v.author }
            } else {
                Special::Plain
            }
        }
        None => Special::Plain,
    }
}

/// The Twitch preview when the channel lookup succeeded.
pub fn twitch_special(channel: Option<TwitchChannel>) -> (r: Special)
    ensures
        match channel {
            Some(c) => r == (Special::Twitch { channel: c }),
            None => r is Plain,
        },
{
    match channel {
        Some(c) => Special::Twitch { channel: c },
        None => Special::Plain,
    }
}

/// The special of a recognised provider, from what its lookup reported:
/// `video` for YouTube, `channel` for Twitch; the other providers need no
/// lookup.
pub fn special_of(provider: Provider, video: Option<YoutubeVideo>, channel: Option<TwitchChannel>) -> (r: Special)
    ensures
        match provider {
            Provider::Youtube { id, timestamp } => match video {
                Some(v) => if !v.is_private && v.thumbnails@.len() > 0 {
                    r is Youtube && r->Youtube_id == id && r->Youtube_timestamp == timestamp
                        && r->Youtube_title == v.title && r->Youtube_author == v.author
                        && exists|k: int| is_widest(v.thumbnails@, k) && r->Youtube_thumbnail == v.thumbnails@[k].url
                } else {
                    r is Plain
                },
                None => r is Plain,
            },
            Provider::Twitch { .. } => match channel {
                Some(c) => r == (Special::Twitch { channel: c }),
                None => r is Plain,
            },
            Provider::Spotify { content_type, id } => r == (Special::Spotify { content_type, id }),
            Provider::Soundcloud => r is Soundcloud,
            Provider::Gif => r is Gif,
            Provider::Unrecognised => r is Plain,
        },
{
    match provider {
        Provider::Youtube { id, timestamp } => youtube_special(id, timestamp, video),
        Provider::Twitch { .. } => twitch_special(channel),
        Provider::Spotify { content_type, id } => Special::Spotify { content_type, id },
        Provider::Soundcloud => Special::Soundcloud,
        Provider::Gif => Special::Gif,
        Provider::Unrecognised => Special::Plain,
    }
}

} // verus!
