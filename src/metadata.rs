use crate::errors::Error;
use crate::text::str_equals;
use vstd::prelude::*;

verus! {

/// How large an embedded image is meant to be shown.
#[derive(Debug, Clone, Copy, PartialEq, Eq, Structural)]
pub enum ImageSize {
    Large,
    Preview,
}

#[derive(Debug)]
pub struct Image {
    pub url: String,
    pub width: isize,
    pub height: isize,
    pub size: ImageSize,
}

#[derive(Debug)]
pub struct Video {
    pub url: String,
    pub width: isize,
    pub height: isize,
}

#[derive(Debug)]
pub struct TwitchChannel {
    pub id: String,
    pub name: String,
    pub color: String,
    pub avatar: String,
    pub banner: String,
}

/// Provider-specific preview data beyond OpenGraph metadata.
#[derive(Debug)]
pub enum Special {
    Plain,
    Gif,
    Youtube { id: String, timestamp: Option<String>, title: String, thumbnail: String, author: String },
    Twitch { channel: TwitchChannel },
    Spotify { content_type: String, id: String },
    Soundcloud,
}

/// The preview of a web page.
#[derive(Debug)]
pub struct Metadata {
    pub url: String,
    pub original_url: String,
    pub special: Option<Special>,
    pub title: Option<String>,
    pub description: Option<String>,
    pub image: Option<Image>,
    pub video: Option<Video>,
    pub opengraph_type: Option<String>,
    pub site_name: Option<String>,
    pub icon_url: Option<String>,
    pub color: Option<String>,
}

/// What an embed request answers.
#[derive(Debug)]
pub enum Embed {
    Website(Box<Metadata>),
    Image(Image),
    Video(Video),
    Empty,
}

pub open spec fn opt_view(o: Option<String>) -> Option<Seq<char>> {
    match o {
        Some(s) => Some(s@),
        None => None,
    }
}

/// Attributes of one element, name and value, in document order.
pub type AttrsView = Seq<(Seq<char>, Seq<char>)>;

/// Value of the first attribute called `name`.
pub open spec fn attr_of(attrs: AttrsView, name: Seq<char>) -> Option<Seq<char>>
    decreases attrs.len(),
{
    if attrs.len() == 0 {
        None
    } else if attrs[0].0 == name {
        Some(attrs[0].1)
    } else {
        attr_of(attrs.drop_first(), name)
    }
}

/// The (key, value) pair that an element contributes: key from attribute
/// `key`, else from `fallback`; value from attribute `value`.
pub open spec fn element_pair(attrs: AttrsView, key: Seq<char>, fallback: Seq<char>, value: Seq<char>) -> Option<(Seq<char>, Seq<char>)> {
    let k = if attr_of(attrs, key) is Some { attr_of(attrs, key) } else { attr_of(attrs, fallback) };
    match (k, attr_of(attrs, value)) {
        (Some(k), Some(v)) => Some((k, v)),
        _ => None,
    }
}

/// The pairs that `elements` contribute, in document order.
pub open spec fn pairs_of(elements: Seq<AttrsView>, key: Seq<char>, fallback: Seq<char>, value: Seq<char>) -> Seq<(Seq<char>, Seq<char>)>
    decreases elements.len(),
{
    if elements.len() == 0 {
        Seq::empty()
    } else {
        let rest = pairs_of(elements.drop_last(), key, fallback, value);
        match element_pair(elements.last(), key, fallback, value) {
            Some(p) => rest.push(p),
            None => rest,
        }
    }
}

/// The value under `key`, where a later pair replaces an earlier one.
pub open spec fn value_of(pairs: Seq<(Seq<char>, Seq<char>)>, key: Seq<char>) -> Option<Seq<char>>
    decreases pairs.len(),
{
    if pairs.len() == 0 {
        None
    } else if pairs.last().0 == key {
        Some(pairs.last().1)
    } else {
        value_of(pairs.drop_last(), key)
    }
}

/// The value under the first of `keys` that has one.
pub open spec fn first_value(pairs: Seq<(Seq<char>, Seq<char>)>, keys: Seq<Seq<char>>) -> Option<Seq<char>>
    decreases keys.len(),
{
    if keys.len() == 0 {
        None
    } else if value_of(pairs, keys[0]) is Some {
        value_of(pairs, keys[0])
    } else {
        first_value(pairs, keys.drop_first())
    }
}

pub open spec fn pairs_view(v: Seq<(String, String)>) -> Seq<(Seq<char>, Seq<char>)> {
    v.map_values(|p: (String, String)| (p.0@, p.1@))
}

pub open spec fn elements_view(v: Seq<Vec<(String, String)>>) -> Seq<AttrsView> {
    v.map_values(|e: Vec<(String, String)>| pairs_view(e@))
}

fn attr_value(attrs: &Vec<(String, String)>, name: &str) -> (r: Option<String>)
    ensures
        opt_view(r) == attr_of(pairs_view(attrs@), name@),
{
    let mut i: usize = 0;
    assert(pairs_view(attrs@).subrange(0, attrs@.len() as int) =~= pairs_view(attrs@));
    while i < attrs.len()
        invariant
            i <= attrs@.len(),
            attr_of(pairs_view(attrs@), name@) == attr_of(pairs_view(attrs@).subrange(i as int, attrs@.len() as int), name@),
        decreases attrs@.len() - i,
    {
        let ghost rest = pairs_view(attrs@).subrange(i as int, attrs@.len() as int);
        assert(rest.drop_first() =~= pairs_view(attrs@).subrange(i + 1, attrs@.len() as int));
        if str_equals(attrs[i].0.as_str(), name) {
            return Some(attrs[i].1.clone());
        }
        i = i + 1;
    }
    None
}

/// Relies on scraper: `Html::parse_document`, then for each element that
/// `selector` selects, in document order, its attributes (name, value) as
/// `Element::attrs` lists them. Built with scraper's `deterministic`
/// feature, an element keeps its attributes in an insertion-ordered map, so
/// the result depends on its arguments alone.
pub uninterp spec fn html_elements(html: Seq<char>, selector: Seq<char>) -> Option<Seq<AttrsView>>;

#[verifier::external_body]
fn select_elements(html: &str, selector: &str) -> (r: Option<Vec<Vec<(String, String)>>>)
    ensures
        match r {
            Some(v) => html_elements(html@, selector@) == Some(elements_view(v@)),
            None => html_elements(html@, selector@) is None,
        },
{
    let document = scraper::Html::parse_document(html);
    let selector = scraper::Selector::parse(selector).ok()?;
    Some(document.select(&selector).map(|el| el.value().attrs().map(|(k, v)| (k.to_string(), v.to_string())).collect()).collect())
}

pub open spec fn is_digit(c: char) -> bool {
    '0' <= c <= '9'
}

/// Value of a string of decimal digits.
pub open spec fn digits_value(d: Seq<char>) -> int
    decreases d.len(),
{
    if d.len() == 0 {
        0
    } else {
        digits_value(d.drop_last()) * 10 + (d.last() as int - '0' as int)
    }
}

/// The value of `s` as std's `str::parse::<isize>` reads it: an optional
/// `+` or `-`, then one or more ASCII digits, within the range of `isize`.
pub open spec fn isize_parsed(s: Seq<char>) -> Option<isize> {
    let negative = s.len() > 0 && s[0] == '-';
    let signed = s.len() > 0 && (s[0] == '-' || s[0] == '+');
    let d = if signed { s.drop_first() } else { s };
    let v = if negative { -digits_value(d) } else { digits_value(d) };
    if d.len() > 0 && (forall|i: int| 0 <= i < d.len() ==> is_digit(#[trigger] d[i])) && isize::MIN <= v <= isize::MAX {
        Some(v as isize)
    } else {
        None
    }
}

/// Relies on `str::parse::<isize>`, which accepts exactly this form.
#[verifier::external_body]
fn parse_isize(s: &str) -> (r: Option<isize>)
    ensures
        r == isize_parsed(s@),
{
    s.parse::<isize>().ok()
}

fn collect_pairs(elements: &Vec<Vec<(String, String)>>, key: &str, fallback: &str, value: &str) -> (r: Vec<(String, String)>)
    ensures
        pairs_view(r@) == pairs_of(elements_view(elements@), key@, fallback@, value@),
{
    let mut r: Vec<(String, String)> = Vec::new();
    let mut i: usize = 0;
    while i < elements.len()
        invariant
            i <= elements@.len(),
            pairs_view(r@) == pairs_of(elements_view(elements@.subrange(0, i as int)), key@, fallback@, value@),
        decreases elements@.len() - i,
    {
        let ghost prev = elements@.subrange(0, i as int);
        let ghost next = elements@.subrange(0, i + 1);
        assert(elements_view(next).drop_last() =~= elements_view(prev));
        let attrs = &elements[i];
        let k = match attr_value(attrs, key) {
            Some(k) => Some(k),
            None => attr_value(attrs, fallback),
        };
        let v = attr_value(attrs, value);
        match (k, v) {
            (Some(k), Some(v)) => {
                r.push((k, v));
                assert(pairs_view(r@) =~= pairs_of(elements_view(next), key@, fallback@, value@));
            }
            _ => {}
        }
        i = i + 1;
    }
    assert(elements@.subrange(0, elements@.len() as int) =~= elements@);
    r
}

fn lookup(pairs: &Vec<(String, String)>, key: &str) -> (r: Option<String>)
    ensures
        opt_view(r) == value_of(pairs_view(pairs@), key@),
{
    let mut i: usize = pairs.len();
    assert(pairs_view(pairs@).subrange(0, pairs@.len() as int) =~= pairs_view(pairs@));
    while i > 0
        invariant
            i <= pairs@.len(),
            value_of(pairs_view(pairs@), key@) == value_of(pairs_view(pairs@).subrange(0, i as int), key@),
        decreases i,
    {
        let ghost cur = pairs_view(pairs@).subrange(0, i as int);
        assert(cur.drop_last() =~= pairs_view(pairs@).subrange(0, i - 1));
        if str_equals(pairs[i - 1].0.as_str(), key) {
            return Some(pairs[i - 1].1.clone());
        }
        i = i - 1;
    }
    None
}

pub open spec fn or_else(a: Option<Seq<char>>, b: Option<Seq<char>>) -> Option<Seq<char>> {
    if a is Some { a } else { b }
}

/// A pixel count from markup: its decimal value, 0 when absent or unreadable.
pub open spec fn dimension(v: Option<Seq<char>>) -> isize {
    match v {
        Some(s) => match isize_parsed(s) {
            Some(n) => n,
            None => 0,
        },
        None => 0,
    }
}

fn dimension_exec(v: Option<String>) -> (r: isize)
    ensures
        r == dimension(opt_view(v)),
{
    match v {
        Some(s) => match parse_isize(s.as_str()) {
            Some(n) => n,
            None => 0,
        },
        None => 0,
    }
}

pub open spec fn title_of(meta: Seq<(Seq<char>, Seq<char>)>) -> Option<Seq<char>> {
    or_else(value_of(meta, "og:title"@), or_else(value_of(meta, "twitter:title"@), value_of(meta, "title"@)))
}

pub open spec fn description_of(meta: Seq<(Seq<char>, Seq<char>)>) -> Option<Seq<char>> {
    or_else(value_of(meta, "og:description"@), or_else(value_of(meta, "twitter:description"@), value_of(meta, "description"@)))
}

pub open spec fn image_url_of(meta: Seq<(Seq<char>, Seq<char>)>) -> Option<Seq<char>> {
    or_else(value_of(meta, "og:image"@), or_else(value_of(meta, "og:image:secure_url"@),
        or_else(value_of(meta, "twitter:image"@), value_of(meta, "twitter:image:src"@))))
}

pub open spec fn image_size_of(meta: Seq<(Seq<char>, Seq<char>)>) -> ImageSize {
    if value_of(meta, "twitter:card"@) == Some("summary_large_image"@) { ImageSize::Large } else { ImageSize::Preview }
}

pub open spec fn video_url_of(meta: Seq<(Seq<char>, Seq<char>)>) -> Option<Seq<char>> {
    or_else(value_of(meta, "og:video"@), or_else(value_of(meta, "og:video:url"@), value_of(meta, "og:video:secure_url"@)))
}

/// The icon link; one that starts with `/` is taken relative to `url`.
pub open spec fn icon_of(link: Seq<(Seq<char>, Seq<char>)>, url: Seq<char>) -> Option<Seq<char>> {
    match or_else(value_of(link, "apple-touch-icon"@), value_of(link, "icon"@)) {
        Some(v) => if v.len() > 0 && v[0] == '/' { Some(url + v) } else { Some(v) },
        None => None,
    }
}

pub open spec fn page_url_of(meta: Seq<(Seq<char>, Seq<char>)>, url: Seq<char>) -> Seq<char> {
    match value_of(meta, "og:url"@) {
        Some(u) => u,
        None => url,
    }
}

/// An optional text field is absent, or holds between 1 and `max` characters.
pub open spec fn bounded(v: Option<Seq<char>>, max: int) -> bool {
    match v {
        Some(s) => 1 <= s.len() <= max,
        None => true,
    }
}

pub const MAX_URL: usize = 512;

pub const MAX_TITLE: usize = 100;

pub const MAX_DESCRIPTION: usize = 2000;

pub const MAX_SITE_NAME: usize = 100;

pub const MAX_ICON: usize = 256;

pub const MAX_COLOR: usize = 64;

/// Whether the preview built from `meta` and `link` respects every bound.
pub open spec fn tags_valid(meta: Seq<(Seq<char>, Seq<char>)>, link: Seq<(Seq<char>, Seq<char>)>, url: Seq<char>) -> bool {
    &&& bounded(Some(page_url_of(meta, url)), MAX_URL as int)
    &&& bounded(title_of(meta), MAX_TITLE as int)
    &&& bounded(description_of(meta), MAX_DESCRIPTION as int)
    &&& bounded(image_url_of(meta), MAX_URL as int)
    &&& bounded(video_url_of(meta), MAX_URL as int)
    &&& bounded(value_of(meta, "og:site_name"@), MAX_SITE_NAME as int)
    &&& bounded(icon_of(link, url), MAX_ICON as int)
    &&& bounded(value_of(meta, "theme-color"@), MAX_COLOR as int)
}

fn bounded_exec(v: &Option<String>, max: usize) -> (r: bool)
    ensures
        r == bounded(opt_view(*v), max as int),
{
    match v {
        Some(s) => {
            let n = s.as_str().unicode_len();
            1 <= n && n <= max
        }
        None => true,
    }
}

/// Whether `m`'s text fields respect their bounds.
pub open spec fn metadata_valid(m: Metadata) -> bool {
    &&& bounded(Some(m.url@), MAX_URL as int)
    &&& bounded(opt_view(m.title), MAX_TITLE as int)
    &&& bounded(opt_view(m.description), MAX_DESCRIPTION as int)
    &&& match m.image { Some(i) => bounded(Some(i.url@), MAX_URL as int), None => true }
    &&& match m.video { Some(v) => bounded(Some(v.url@), MAX_URL as int), None => true }
    &&& bounded(opt_view(m.site_name), MAX_SITE_NAME as int)
    &&& bounded(opt_view(m.icon_url), MAX_ICON as int)
    &&& bounded(opt_view(m.color), MAX_COLOR as int)
}

/// `m` is the preview that the tags `meta` and `link` of page `url` describe,
/// before any provider is recognised.
pub open spec fn built_from(m: Metadata, meta: Seq<(Seq<char>, Seq<char>)>, link: Seq<(Seq<char>, Seq<char>)>, url: Seq<char>) -> bool {
    &&& m.url@ == page_url_of(meta, url)
    &&& m.original_url@ == url
    &&& m.special is None
    &&& opt_view(m.title) == title_of(meta)
    &&& opt_view(m.description) == description_of(meta)
    &&& match m.image {
        Some(i) => image_url_of(meta) == Some(i.url@)
            && i.width == dimension(value_of(meta, "og:image:width"@))
            && i.height == dimension(value_of(meta, "og:image:height"@))
            && i.size == image_size_of(meta),
        None => image_url_of(meta) is None,
    }
    &&& match m.video {
        Some(v) => video_url_of(meta) == Some(v.url@)
            && v.width == dimension(value_of(meta, "og:video:width"@))
            && v.height == dimension(value_of(meta, "og:video:height"@)),
        None => video_url_of(meta) is None,
    }
    &&& opt_view(m.icon_url) == icon_of(link, url)
    &&& opt_view(m.color) == value_of(meta, "theme-color"@)
    &&& opt_view(m.opengraph_type) == value_of(meta, "og:type"@)
    &&& opt_view(m.site_name) == value_of(meta, "og:site_name"@)
}

fn first_value_of(pairs: &Vec<(String, String)>, a: &str, b: &str) -> (r: Option<String>)
    ensures
        opt_view(r) == or_else(value_of(pairs_view(pairs@), a@), value_of(pairs_view(pairs@), b@)),
{
    match lookup(pairs, a) {
        Some(v) => Some(v),
        None => lookup(pairs, b),
    }
}

fn resolve_icon(link: &Vec<(String, String)>, url: &String) -> (r: Option<String>)
    ensures
        opt_view(r) == icon_of(pairs_view(link@), url@),
{
    match first_value_of(link, "apple-touch-icon", "icon") {
        Some(v) => {
            if v.as_str().unicode_len() > 0 && v.as_str().get_char(0) == '/' {
                let mut full = url.clone();
                full.append(v.as_str());
                Some(full)
            } else {
                Some(v)
            }
        }
        None => None,
    }
}

impl Metadata {
    /// The preview of page `url` from its `<meta>` pairs (`property`, else
    /// `name`, to `content`) and `<link>` pairs (`rel` to `href`);
    /// `ValidationFailed` when a text field breaks its bound.
    pub fn from_tags(meta: &Vec<(String, String)>, link: &Vec<(String, String)>, url: String) -> (r: Result<Metadata, Error>)
        ensures
            r is Ok <==> tags_valid(pairs_view(meta@), pairs_view(link@), url@),
            match r {
                Ok(m) => built_from(m, pairs_view(meta@), pairs_view(link@), url@) && metadata_valid(m),
                Err(e) => e == Error::ValidationFailed,
            },
    {
        let title = match first_value_of(meta, "og:title", "twitter:title") {
            Some(t) => Some(t),
            None => lookup(meta, "title"),
        };
        let description = match first_value_of(meta, "og:description", "twitter:description") {
            Some(t) => Some(t),
            None => lookup(meta, "description"),
        };
        let image_url = match first_value_of(meta, "og:image", "og:image:secure_url") {
            Some(t) => Some(t),
            None => first_value_of(meta, "twitter:image", "twitter:image:src"),
        };
        let image = match image_url {
            Some(u) => {
                let size = match lookup(meta, "twitter:card") {
                    Some(card) => {
                        if str_equals(card.as_str(), "summary_large_image") { ImageSize::Large } else { ImageSize::Preview }
                    }
                    None => ImageSize::Preview,
                };
                let width = dimension_exec(lookup(meta, "og:image:width"));
                let height = dimension_exec(lookup(meta, "og:image:height"));
                Some(Image { url: u, width, height, size })
            }
            None => None,
        };
        let video_url = match first_value_of(meta, "og:video", "og:video:url") {
            Some(t) => Some(t),
            None => lookup(meta, "og:video:secure_url"),
        };
        let video = match video_url {
            Some(u) => {
                let width = dimension_exec(lookup(meta, "og:video:width"));
                let height = dimension_exec(lookup(meta, "og:video:height"));
                Some(Video { url: u, width, height })
            }
            None => None,
        };
        let icon_url = resolve_icon(link, &url);
        let page_url = match lookup(meta, "og:url") {
            Some(u) => u,
            None => url.clone(),
        };
        let m = Metadata {
            url: page_url,
            original_url: url,
            special: None,
            title,
            description,
            image,
            video,
            opengraph_type: lookup(meta, "og:type"),
            site_name: lookup(meta, "og:site_name"),
            icon_url,
            color: lookup(meta, "theme-color"),
        };
        if m.is_valid() {
            Ok(m)
        } else {
            Err(Error::ValidationFailed)
        }
    }

    /// Whether every text field respects its bound.
    pub fn is_valid(&self) -> (r: bool)
        ensures
            r == metadata_valid(*self),
    {
        let page = Some(self.url.clone());
        let image_url = match &self.image {
            Some(i) => Some(i.url.clone()),
            None => None,
        };
        let video_url = match &self.video {
            Some(v) => Some(v.url.clone()),
            None => None,
        };
        bounded_exec(&page, MAX_URL) && bounded_exec(&self.title, MAX_TITLE)
            && bounded_exec(&self.description, MAX_DESCRIPTION) && bounded_exec(&image_url, MAX_URL)
            && bounded_exec(&video_url, MAX_URL) && bounded_exec(&self.site_name, MAX_SITE_NAME)
            && bounded_exec(&self.icon_url, MAX_ICON) && bounded_exec(&self.color, MAX_COLOR)
    }

    /// The preview of page `url` from its HTML `body`: `MetaParseFailed`
    /// when the document cannot be queried, else as `from_tags` states.
    pub fn from(body: &str, url: String) -> (r: Result<Metadata, Error>)
        ensures
            match (html_elements(body@, "meta"@), html_elements(body@, "link"@)) {
                (Some(me), Some(le)) => {
                    let meta = pairs_of(me, "property"@, "name"@, "content"@);
                    let link = pairs_of(le, "rel"@, "rel"@, "href"@);
                    &&& (r is Ok <==> tags_valid(meta, link, url@))
                    &&& match r {
                        Ok(m) => built_from(m, meta, link, url@) && metadata_valid(m),
                        Err(e) => e == Error::ValidationFailed,
                    }
                },
                _ => r == Err::<Metadata, Error>(Error::MetaParseFailed),
            },
    {
        let meta_elements = match select_elements(body, "meta") {
            Some(e) => e,
            None => return Err(Error::MetaParseFailed),
        };
        let link_elements = match select_elements(body, "link") {
            Some(e) => e,
            None => return Err(Error::MetaParseFailed),
        };
        let meta = collect_pairs(&meta_elements, "property", "name", "content");
        let link = collect_pairs(&link_elements, "rel", "rel", "href");
        Metadata::from_tags(&meta, &link, url)
    }

    /// Whether the preview has nothing worth embedding: no description,
    /// image or video. A title alone does not make an embed.
    pub fn is_none(&self) -> (r: bool)
        ensures
            r == (self.description is None && self.image is None && self.video is None),
    {
        self.description.is_none() && self.image.is_none() && self.video.is_none()
    }
}

/// A page whose tags give no description, image or video resolves to a
/// preview with nothing worth embedding, whatever title it has.
pub proof fn lemma_bare_page_is_none(m: Metadata, meta: Seq<(Seq<char>, Seq<char>)>, link: Seq<(Seq<char>, Seq<char>)>, url: Seq<char>)
    requires
        built_from(m, meta, link, url),
        description_of(meta) is None,
        image_url_of(meta) is None,
        video_url_of(meta) is None,
    ensures
        m.description is None && m.image is None && m.video is None,
{
}

/// Accent colour that a recognised provider gives a preview.
pub open spec fn accent_of(s: Special) -> Option<Seq<char>> {
    match s {
        Special::Youtube { .. } => Some("#FF424F"@),
        Special::Twitch { .. } => Some("#7B68EE"@),
        Special::Spotify { .. } => Some("#1ABC9C"@),
        _ => None,
    }
}

pub fn accent_color(special: &Special) -> (r: Option<String>)
    ensures
        opt_view(r) == accent_of(*special),
{
    match special {
        Special::Youtube { .. } => Some(String::from_str("#FF424F")),
        Special::Twitch { .. } => Some(String::from_str("#7B68EE")),
        Special::Spotify { .. } => Some(String::from_str("#1ABC9C")),
        _ => None,
    }
}

/// `a` and `b` agree on every field but the special, colour and image.
pub open spec fn same_text(a: Metadata, b: Metadata) -> bool {
    &&& a.url == b.url
    &&& a.original_url == b.original_url
    &&& a.title == b.title
    &&& a.description == b.description
    &&& a.video == b.video
    &&& a.opengraph_type == b.opengraph_type
    &&& a.site_name == b.site_name
    &&& a.icon_url == b.icon_url
}

/// The image after backfilling its size from `probed`: an image whose width
/// or height is unknown (0) takes the probed size, or is dropped when
/// probing failed.
pub open spec fn backfilled(image: Option<Image>, probed: Option<(isize, isize)>) -> Option<Image> {
    match image {
        Some(i) => if i.width != 0 && i.height != 0 {
            Some(i)
        } else {
            match probed {
                Some(d) => Some(Image { width: d.0, height: d.1, ..i }),
                None => None,
            }
        },
        None => None,
    }
}

impl Metadata {
    /// Records the recognised provider; one with an accent colour overrides
    /// the page's own colour.
    pub fn apply_special(&mut self, special: Special)
        ensures
            same_text(*final(self), *old(self)),
            final(self).image == old(self).image,
            final(self).special == Some(special),
            opt_view(final(self).color) == (if accent_of(special) is Some { accent_of(special) } else { opt_view(old(self).color) }),
    {
        if let Some(c) = accent_color(&special) {
            self.color = Some(c);
        }
        self.special = Some(special);
    }

    /// Whether the image's size must be probed from the image itself.
    pub fn needs_image_size(&self) -> (r: bool)
        ensures
            r == (self.image is Some && (self.image->Some_0.width == 0 || self.image->Some_0.height == 0)),
    {
        match &self.image {
            Some(i) => i.width == 0 || i.height == 0,
            None => false,
        }
    }

    /// Backfills the image's size from what probing it reported.
    pub fn apply_image_size(&mut self, probed: Option<(isize, isize)>)
        ensures
            same_text(*final(self), *old(self)),
            final(self).special == old(self).special,
            final(self).color == old(self).color,
            final(self).image == backfilled(old(self).image, probed),
    {
        let image = self.image.take();
        self.image = match image {
            Some(i) => {
                if i.width != 0 && i.height != 0 {
                    Some(i)
                } else {
                    match probed {
                        Some((w, h)) => Some(Image { url: i.url, width: w, height: h, size: i.size }),
                        None => None,
                    }
                }
            }
            None => None,
        };
    }

    /// Completes a preview with the provider's special and the probed image
    /// size; neither can make the resolution fail.
    pub fn resolve_external(&mut self, special: Special, probed: Option<(isize, isize)>)
        ensures
            same_text(*final(self), *old(self)),
            final(self).special == Some(special),
            opt_view(final(self).color) == (if accent_of(special) is Some { accent_of(special) } else { opt_view(old(self).color) }),
            final(self).image == backfilled(old(self).image, probed),
    {
        self.apply_special(special);
        self.apply_image_size(probed);
    }
}

} // verus!
