use vstd::prelude::*;
use crate::text::{append_str, contains_str, ends_with_str, occurs_in, opt_view, push_char};

verus! {

// ---------------------------------------------------------------------------
// Clock text.

pub open spec fn digit_char(d: nat) -> char {
    ((d % 10) + 48) as u8 as char
}

/// The decimal digits of `n`, without leading zeros.
pub open spec fn decimal(n: nat) -> Seq<char>
    decreases n,
{
    if n < 10 {
        seq![digit_char(n)]
    } else {
        decimal(n / 10).push(digit_char(n % 10))
    }
}

/// `n` in decimal, padded with a zero to at least two digits.
pub open spec fn pad2(n: nat) -> Seq<char> {
    if n < 10 {
        seq!['0'] + decimal(n)
    } else {
        decimal(n)
    }
}

/// `HH:MM:SS` for a number of whole seconds; the hours take as many digits
/// as they need.
pub open spec fn clock(t: nat) -> Seq<char> {
    pad2(t / 3600) + seq![':'] + pad2((t % 3600) / 60) + seq![':'] + pad2(t % 60)
}

fn push_decimal(out: &mut String, n: u64)
    ensures
        final(out)@ == old(out)@ + decimal(n as nat),
    decreases n,
{
    if n >= 10 {
        push_decimal(out, n / 10);
    }
    let c = ((n % 10) as u8 + 48) as char;
    push_char(out, c);
    assert(final(out)@ =~= old(out)@ + decimal(n as nat));
}

fn push_pad2(out: &mut String, n: u64)
    ensures
        final(out)@ == old(out)@ + pad2(n as nat),
{
    let ghost start = out@;
    if n < 10 {
        push_char(out, '0');
    }
    push_decimal(out, n);
    proof {
        if n < 10 {
            assert(out@ =~= start + pad2(n as nat));
        }
    }
}

/// Formats whole seconds as `HH:MM:SS`.
pub fn format_time(total_seconds: u64) -> (r: String)
    ensures
        r@ == clock(total_seconds as nat),
{
    let hours = total_seconds / 3600;
    let mins = (total_seconds % 3600) / 60;
    let secs = total_seconds % 60;
    let mut r = String::new();
    push_pad2(&mut r, hours);
    push_char(&mut r, ':');
    push_pad2(&mut r, mins);
    push_char(&mut r, ':');
    push_pad2(&mut r, secs);
    assert(r@ =~= clock(total_seconds as nat));
    r
}

// ---------------------------------------------------------------------------
// Snapshot of the player and the payload derived from it.

/// What kind of media a file name suggests.
#[derive(Clone, Copy, Debug, PartialEq, Eq, Structural)]
pub enum MediaKind {
    Video,
    Music,
    Unknown,
}

pub open spec fn is_music_name(f: Seq<char>) -> bool {
    ".mp3"@.is_suffix_of(f) || ".flac"@.is_suffix_of(f) || ".m4a"@.is_suffix_of(f)
        || ".opus"@.is_suffix_of(f)
}

pub open spec fn is_video_name(f: Seq<char>) -> bool {
    ".mkv"@.is_suffix_of(f) || ".mp4"@.is_suffix_of(f) || ".webm"@.is_suffix_of(f) || occurs_in(
        f,
        "youtube.com"@,
    ) || occurs_in(f, "youtu.be"@)
}

pub open spec fn kind_of(filename: Option<Seq<char>>) -> MediaKind {
    match filename {
        Some(f) => if is_music_name(f) {
            MediaKind::Music
        } else if is_video_name(f) {
            MediaKind::Video
        } else {
            MediaKind::Unknown
        },
        None => MediaKind::Unknown,
    }
}

impl MediaKind {
    /// The kind of media that a file name or address suggests.
    pub fn of_filename(filename: &Option<String>) -> (r: MediaKind)
        ensures
            r == kind_of(opt_view(*filename)),
    {
        match filename {
            Some(f) => {
                let f = f.as_str();
                if ends_with_str(f, ".mp3") || ends_with_str(f, ".flac") || ends_with_str(f, ".m4a")
                    || ends_with_str(f, ".opus") {
                    MediaKind::Music
                } else if ends_with_str(f, ".mkv") || ends_with_str(f, ".mp4") || ends_with_str(
                    f,
                    ".webm",
                ) || contains_str(f, "youtube.com") || contains_str(f, "youtu.be") {
                    MediaKind::Video
                } else {
                    MediaKind::Unknown
                }
            },
            None => MediaKind::Unknown,
        }
    }
}

/// The player's state at one poll. Times are whole seconds; a time that the
/// player did not report, or reported as negative, is zero.
#[derive(Debug)]
pub struct MediaSnapshot {
    pub title: Option<String>,
    pub artist: Option<String>,
    pub filename: Option<String>,
    pub duration: u64,
    pub position: u64,
    pub paused: bool,
}

/// The player properties read at each poll, in the order in which they are
/// queried.
pub fn snapshot_properties() -> (r: Vec<&'static str>)
    ensures
        r@.len() == 6,
        r@[0]@ == "media-title"@,
        r@[1]@ == "metadata/by-key/artist"@,
        r@[2]@ == "filename"@,
        r@[3]@ == "duration"@,
        r@[4]@ == "time-pos"@,
        r@[5]@ == "pause"@,
{
    vec!["media-title", "metadata/by-key/artist", "filename", "duration", "time-pos", "pause"]
}

impl MediaSnapshot {
    /// A snapshot from the replies to the queries; an absent time is zero and
    /// an absent pause flag means playing.
    pub fn from_replies(
        title: Option<String>,
        artist: Option<String>,
        filename: Option<String>,
        duration: Option<u64>,
        position: Option<u64>,
        paused: Option<bool>,
    ) -> (r: MediaSnapshot)
        ensures
            r.title == title,
            r.artist == artist,
            r.filename == filename,
            r.duration == (match duration {
                Some(d) => d,
                None => 0,
            }),
            r.position == (match position {
                Some(p) => p,
                None => 0,
            }),
            r.paused == (match paused {
                Some(b) => b,
                None => false,
            }),
    {
        MediaSnapshot {
            title,
            artist,
            filename,
            duration: match duration {
                Some(d) => d,
                None => 0,
            },
            position: match position {
                Some(p) => p,
                None => 0,
            },
            paused: match paused {
                Some(b) => b,
                None => false,
            },
        }
    }

    /// The kind of media being played.
    pub fn kind(&self) -> (r: MediaKind)
        ensures
            r == kind_of(opt_view(self.filename)),
    {
        MediaKind::of_filename(&self.filename)
    }
}

/// The image keys of the configuration; unset keys fall back to defaults.
#[derive(Debug)]
pub struct ImageKeys {
    pub large_image: Option<String>,
    pub small_image: Option<String>,
}

/// What is handed to the presence service.
#[derive(Debug)]
pub struct PresencePayload {
    pub state: String,
    pub details: String,
    pub large_image: String,
    pub small_image: String,
    pub start: u64,
    pub end: u64,
}

pub open spec fn or_default(o: Option<String>, d: Seq<char>) -> Seq<char> {
    match o {
        Some(x) => x@,
        None => d,
    }
}

/// The title shown: the media title, else the file name, else a placeholder.
pub open spec fn shown_title(snap: MediaSnapshot) -> Seq<char> {
    match snap.title {
        Some(t) => t@,
        None => or_default(snap.filename, "Unknown Title"@),
    }
}

pub open spec fn state_text(snap: MediaSnapshot) -> Seq<char> {
    if snap.paused {
        "⏸️ Paused"@
    } else {
        clock(snap.position as nat) + " / "@ + clock(snap.duration as nat)
    }
}

pub open spec fn details_text(snap: MediaSnapshot) -> Seq<char> {
    if kind_of(opt_view(snap.filename)) == MediaKind::Music && snap.artist is Some {
        shown_title(snap) + " - "@ + snap.artist->0@
    } else {
        shown_title(snap)
    }
}

/// `x` brought into the range of `u64`.
pub open spec fn clamp_u64(x: int) -> int {
    if x < 0 {
        0
    } else if x > u64::MAX {
        u64::MAX as int
    } else {
        x
    }
}

/// When the media started playing, in epoch seconds, at time `now`.
pub open spec fn start_time(snap: MediaSnapshot, now: u64) -> int {
    clamp_u64(now - snap.position)
}

/// When the media will end, in epoch seconds, at time `now`.
pub open spec fn end_time(snap: MediaSnapshot, now: u64) -> int {
    clamp_u64(start_time(snap, now) + (snap.duration - snap.position))
}

pub open spec fn payload_matches(p: PresencePayload, snap: MediaSnapshot, keys: ImageKeys, now: u64) -> bool {
    &&& p.state@ == state_text(snap)
    &&& p.details@ == details_text(snap)
    &&& p.large_image@ == or_default(keys.large_image, "default_large"@)
    &&& p.small_image@ == or_default(keys.small_image, "default_small"@)
    &&& p.start == start_time(snap, now)
    &&& p.end == end_time(snap, now)
}

fn key_or(o: &Option<String>, d: &str) -> (r: String)
    ensures
        r@ == or_default(*o, d@),
{
    match o {
        Some(x) => x.clone(),
        None => d.to_string(),
    }
}

impl PresencePayload {
    /// The payload for one poll of the player, at epoch second `now`.
    pub fn from_snapshot(snap: &MediaSnapshot, keys: &ImageKeys, now: u64) -> (r: PresencePayload)
        ensures
            payload_matches(r, *snap, *keys, now),
    {
        let title = match &snap.title {
            Some(t) => t.clone(),
            None => key_or(&snap.filename, "Unknown Title"),
        };
        let state = if snap.paused {
            "⏸️ Paused".to_string()
        } else {
            let mut s = format_time(snap.position);
            append_str(&mut s, " / ");
            let d = format_time(snap.duration);
            append_str(&mut s, d.as_str());
            s
        };
        let details = match (MediaKind::of_filename(&snap.filename), &snap.artist) {
            (MediaKind::Music, Some(artist)) => {
                let mut d = title;
                append_str(&mut d, " - ");
                append_str(&mut d, artist.as_str());
                d
            },
            _ => title,
        };
        let start: u64 = if now >= snap.position {
            now - snap.position
        } else {
            0
        };
        let e: i128 = start as i128 + snap.duration as i128 - snap.position as i128;
        let end: u64 = if e < 0 {
            0
        } else if e > u64::MAX as i128 {
            u64::MAX
        } else {
            e as u64
        };
        PresencePayload {
            state,
            details,
            large_image: key_or(&keys.large_image, "default_large"),
            small_image: key_or(&keys.small_image, "default_small"),
            start,
            end,
        }
    }
}

/// Neither time is clamped at `now`: the clock is past the position, the
/// position within the duration, and the end fits a `u64`.
pub open spec fn unclamped(snap: MediaSnapshot, now: u64) -> bool {
    &&& snap.position <= now
    &&& snap.position <= snap.duration
    &&& now + snap.duration - 2 * snap.position <= u64::MAX
}

/// Two polls of an unchanged player give the same texts and image keys; their
/// times agree when the clock has not moved, and their start times differ
/// when it has (once the clock is past the position); where neither poll
/// clamps its times, both move by exactly the clock difference.
pub proof fn lemma_frozen_player(
    snap: MediaSnapshot,
    keys: ImageKeys,
    now1: u64,
    now2: u64,
    p1: PresencePayload,
    p2: PresencePayload,
)
    requires
        payload_matches(p1, snap, keys, now1),
        payload_matches(p2, snap, keys, now2),
    ensures
        p1.state@ == p2.state@,
        p1.details@ == p2.details@,
        p1.large_image@ == p2.large_image@,
        p1.small_image@ == p2.small_image@,
        now1 == now2 ==> p1.start == p2.start && p1.end == p2.end,
        now1 != now2 && snap.position <= now1 && snap.position <= now2 ==> p1.start != p2.start,
        unclamped(snap, now1) && unclamped(snap, now2) ==> p2.start - p1.start == now2 - now1
            && p2.end - p1.end == now2 - now1,
{
}

} // verus!
