use vstd::prelude::*;
use crate::text::{
    clone_opt, contains_str, lower_of, lowercase, occurs_in, opt_view, starts_with_str,
};

verus! {

#[derive(Debug, Clone, PartialEq)]
pub struct YouTubeInfo {
    pub title: String,
    pub channel: Option<String>,
    pub uploader: Option<String>,
}

#[derive(Debug, Clone, PartialEq)]
pub struct LocalFileInfo {
    pub filename: String,
    pub is_anime: bool,
}

/// Where the media being played comes from.
#[derive(Debug, Clone, PartialEq)]
pub enum MediaSource {
    YouTube(YouTubeInfo),
    LocalFile(LocalFileInfo),
    Crunchyroll,
    AnimePahe,
    NineAnime,
    Other(String),
}

/// Player properties that describe the media beyond its file name.
#[derive(Debug, Default)]
pub struct MediaMetadata {
    pub title: Option<String>,
    pub channel: Option<String>,
    pub uploader: Option<String>,
    pub date: Option<String>,
    pub channel_url: Option<String>,
}

/// What a `MediaSource` holds, with strings seen as their characters.
pub enum SourceView {
    YouTube { title: Seq<char>, channel: Option<Seq<char>>, uploader: Option<Seq<char>> },
    LocalFile { filename: Seq<char>, is_anime: bool },
    Crunchyroll,
    AnimePahe,
    NineAnime,
    Other(Seq<char>),
}

pub struct MetadataView {
    pub title: Option<Seq<char>>,
    pub channel: Option<Seq<char>>,
    pub uploader: Option<Seq<char>>,
    pub date: Option<Seq<char>>,
    pub channel_url: Option<Seq<char>>,
}

impl View for MediaSource {
    type V = SourceView;

    open spec fn view(&self) -> SourceView {
        match self {
            MediaSource::YouTube(i) => SourceView::YouTube {
                title: i.title@,
                channel: opt_view(i.channel),
                uploader: opt_view(i.uploader),
            },
            MediaSource::LocalFile(i) => SourceView::LocalFile {
                filename: i.filename@,
                is_anime: i.is_anime,
            },
            MediaSource::Crunchyroll => SourceView::Crunchyroll,
            MediaSource::AnimePahe => SourceView::AnimePahe,
            MediaSource::NineAnime => SourceView::NineAnime,
            MediaSource::Other(u) => SourceView::Other(u@),
        }
    }
}

impl View for MediaMetadata {
    type V = MetadataView;

    open spec fn view(&self) -> MetadataView {
        MetadataView {
            title: opt_view(self.title),
            channel: opt_view(self.channel),
            uploader: opt_view(self.uploader),
            date: opt_view(self.date),
            channel_url: opt_view(self.channel_url),
        }
    }
}

pub open spec fn is_video_platform(s: Seq<char>) -> bool {
    occurs_in(s, "youtube.com"@) || occurs_in(s, "youtu.be"@)
}

/// `s` starts with an HTTP or HTTPS scheme.
pub open spec fn is_web_address(s: Seq<char>) -> bool {
    "http://"@.is_prefix_of(s) || "https://"@.is_prefix_of(s)
}

/// Whether a lower-cased file name holds one of the words that mark
/// episodic releases.
pub open spec fn has_episodic_keyword(lower: Seq<char>) -> bool {
    occurs_in(lower, "[horriblesubs]"@) || occurs_in(lower, "[subsplease]"@) || occurs_in(
        lower,
        "[erai-raws]"@,
    ) || occurs_in(lower, "[nyaa]"@) || occurs_in(lower, " - episode"@) || occurs_in(
        lower,
        ".mkv"@,
    )
}

pub open spec fn or_empty(o: Option<Seq<char>>) -> Seq<char> {
    match o {
        Some(t) => t,
        None => Seq::empty(),
    }
}

/// The source of a file name or address, given the player's metadata.
pub open spec fn detect_view(s: Seq<char>, m: MetadataView) -> SourceView {
    if is_video_platform(s) {
        SourceView::YouTube { title: or_empty(m.title), channel: m.channel, uploader: m.uploader }
    } else if is_web_address(s) {
        if occurs_in(s, "crunchyroll.com"@) {
            SourceView::Crunchyroll
        } else if occurs_in(s, "animepahe"@) {
            SourceView::AnimePahe
        } else if occurs_in(s, "9anime"@) {
            SourceView::NineAnime
        } else {
            SourceView::Other(s)
        }
    } else {
        SourceView::LocalFile { filename: s, is_anime: has_episodic_keyword(lower_of(s)) }
    }
}

pub open spec fn large_key(v: SourceView) -> Seq<char> {
    match v {
        SourceView::YouTube { .. } => "youtube_large"@,
        SourceView::LocalFile { is_anime, .. } => if is_anime {
            "anime_large"@
        } else {
            "mpv_large"@
        },
        SourceView::Crunchyroll => "crunchyroll_large"@,
        SourceView::AnimePahe => "anime_large"@,
        SourceView::NineAnime => "anime_large"@,
        SourceView::Other(_) => "mpv_large"@,
    }
}

pub open spec fn small_key(v: SourceView) -> Seq<char> {
    match v {
        SourceView::YouTube { .. } => "youtube_small"@,
        SourceView::LocalFile { is_anime, .. } => if is_anime {
            "anime_small"@
        } else {
            "mpv_small"@
        },
        SourceView::Crunchyroll => "crunchyroll_small"@,
        SourceView::AnimePahe => "anime_small"@,
        SourceView::NineAnime => "anime_small"@,
        SourceView::Other(_) => "mpv_small"@,
    }
}

fn string_from(s: &str) -> (r: String)
    ensures
        r@ == s@,
{
    s.to_string()
}

impl MediaSource {
    /// Classifies a file name or address.
    pub fn detect(filename: &str, metadata: &MediaMetadata) -> (r: MediaSource)
        ensures
            r@ == detect_view(filename@, metadata@),
    {
        if contains_str(filename, "youtube.com") || contains_str(filename, "youtu.be") {
            let title = match &metadata.title {
                Some(t) => t.clone(),
                None => String::new(),
            };
            MediaSource::YouTube(
                YouTubeInfo {
                    title,
                    channel: clone_opt(&metadata.channel),
                    uploader: clone_opt(&metadata.uploader),
                },
            )
        } else if starts_with_str(filename, "http://") || starts_with_str(filename, "https://") {
            if contains_str(filename, "crunchyroll.com") {
                MediaSource::Crunchyroll
            } else if contains_str(filename, "animepahe") {
                MediaSource::AnimePahe
            } else if contains_str(filename, "9anime") {
                MediaSource::NineAnime
            } else {
                MediaSource::Other(string_from(filename))
            }
        } else {
            let is_anime = Self::looks_like_anime(filename);
            MediaSource::LocalFile(LocalFileInfo { filename: string_from(filename), is_anime })
        }
    }

    /// Whether a local file name looks like an episodic release, ignoring case.
    fn looks_like_anime(filename: &str) -> (r: bool)
        ensures
            r == has_episodic_keyword(lower_of(filename@)),
    {
        let lower = lowercase(filename);
        Self::has_episodic_keyword(lower.as_str())
    }

    /// Whether an already lower-cased file name holds a keyword of episodic releases.
    pub fn has_episodic_keyword(lower: &str) -> (r: bool)
        ensures
            r == has_episodic_keyword(lower@),
    {
        contains_str(lower, "[horriblesubs]") || contains_str(lower, "[subsplease]")
            || contains_str(lower, "[erai-raws]") || contains_str(lower, "[nyaa]")
            || contains_str(lower, " - episode") || contains_str(lower, ".mkv")
    }

    /// The key of the large presence image.
    pub fn get_image_key(&self) -> (r: &'static str)
        ensures
            r@ == large_key(self@),
    {
        match self {
            MediaSource::YouTube(_) => "youtube_large",
            MediaSource::LocalFile(info) => if info.is_anime {
                "anime_large"
            } else {
                "mpv_large"
            },
            MediaSource::Crunchyroll => "crunchyroll_large",
            MediaSource::AnimePahe => "anime_large",
            MediaSource::NineAnime => "anime_large",
            MediaSource::Other(_) => "mpv_large",
        }
    }

    /// The key of the small presence image.
    pub fn get_small_image_key(&self) -> (r: &'static str)
        ensures
            r@ == small_key(self@),
    {
        match self {
            MediaSource::YouTube(_) => "youtube_small",
            MediaSource::LocalFile(info) => if info.is_anime {
                "anime_small"
            } else {
                "mpv_small"
            },
            MediaSource::Crunchyroll => "crunchyroll_small",
            MediaSource::AnimePahe => "anime_small",
            MediaSource::NineAnime => "anime_small",
            MediaSource::Other(_) => "mpv_small",
        }
    }
}

/// Detection is a function of its arguments: two sources detected from the
/// same name and metadata are the same variant with the same contents, and
/// carry the same pair of image keys.
pub proof fn lemma_detect_deterministic(
    s: Seq<char>,
    m: MetadataView,
    a: SourceView,
    b: SourceView,
)
    requires
        a == detect_view(s, m),
        b == detect_view(s, m),
    ensures
        a == b,
        large_key(a) == large_key(b),
        small_key(a) == small_key(b),
{
}

/// Every source has a large and a small image key, neither of them empty.
pub proof fn lemma_image_keys_nonempty(v: SourceView)
    ensures
        large_key(v).len() > 0,
        small_key(v).len() > 0,
{
    reveal_strlit("youtube_large");
    reveal_strlit("anime_large");
    reveal_strlit("mpv_large");
    reveal_strlit("crunchyroll_large");
    reveal_strlit("youtube_small");
    reveal_strlit("anime_small");
    reveal_strlit("mpv_small");
    reveal_strlit("crunchyroll_small");
}

/// The platform properties that fill a `MediaMetadata`.
#[derive(Clone, Copy, Debug, PartialEq, Eq, Structural)]
pub enum PlatformField {
    Uploader,
    Channel,
    ChannelUrl,
    UploadDate,
}

pub open spec fn field_property(f: PlatformField) -> Seq<char> {
    match f {
        PlatformField::Uploader => "youtube-uploader"@,
        PlatformField::Channel => "youtube-channel"@,
        PlatformField::ChannelUrl => "youtube-channel-url"@,
        PlatformField::UploadDate => "youtube-upload-date"@,
    }
}

impl PlatformField {
    /// The player property that holds this field.
    pub fn property_name(self) -> (r: &'static str)
        ensures
            r@ == field_property(self),
    {
        match self {
            PlatformField::Uploader => "youtube-uploader",
            PlatformField::Channel => "youtube-channel",
            PlatformField::ChannelUrl => "youtube-channel-url",
            PlatformField::UploadDate => "youtube-upload-date",
        }
    }

    /// The fields, in the order in which they are queried.
    pub fn all() -> (r: Vec<PlatformField>)
        ensures
            r@ == seq![
                PlatformField::Uploader,
                PlatformField::Channel,
                PlatformField::ChannelUrl,
                PlatformField::UploadDate,
            ],
    {
        let r = vec![
            PlatformField::Uploader,
            PlatformField::Channel,
            PlatformField::ChannelUrl,
            PlatformField::UploadDate,
        ];
        assert(r@ =~= seq![
            PlatformField::Uploader,
            PlatformField::Channel,
            PlatformField::ChannelUrl,
            PlatformField::UploadDate,
        ]);
        r
    }
}

impl MediaMetadata {
    /// Metadata with no property set.
    pub fn new() -> (r: MediaMetadata)
        ensures
            r.title is None,
            r.channel is None,
            r.uploader is None,
            r.date is None,
            r.channel_url is None,
    {
        MediaMetadata { title: None, channel: None, uploader: None, date: None, channel_url: None }
    }

    /// Records the value of one platform field; the other fields stay.
    pub fn set_field(&mut self, field: PlatformField, value: String)
        ensures
            final(self).title == old(self).title,
            final(self).uploader == (if field == PlatformField::Uploader {
                Some(value)
            } else {
                old(self).uploader
            }),
            final(self).channel == (if field == PlatformField::Channel {
                Some(value)
            } else {
                old(self).channel
            }),
            final(self).channel_url == (if field == PlatformField::ChannelUrl {
                Some(value)
            } else {
                old(self).channel_url
            }),
            final(self).date == (if field == PlatformField::UploadDate {
                Some(value)
            } else {
                old(self).date
            }),
    {
        match field {
            PlatformField::Uploader => self.uploader = Some(value),
            PlatformField::Channel => self.channel = Some(value),
            PlatformField::ChannelUrl => self.channel_url = Some(value),
            PlatformField::UploadDate => self.date = Some(value),
        }
    }
}

} // verus!
