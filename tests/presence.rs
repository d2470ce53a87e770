use discord_mpv_rpc::presence::{
    format_time, snapshot_properties, ImageKeys, MediaKind, MediaSnapshot, PresencePayload,
};

fn snap(paused: bool) -> MediaSnapshot {
    MediaSnapshot::from_replies(
        Some("Song".to_string()),
        Some("Band".to_string()),
        Some("song.flac".to_string()),
        Some(200),
        Some(50),
        Some(paused),
    )
}

fn no_keys() -> ImageKeys {
    ImageKeys { large_image: None, small_image: None }
}

#[test]
fn format_time_values() {
    assert_eq!(format_time(0), "00:00:00");
    assert_eq!(format_time(3661), "01:01:01");
    assert_eq!(format_time(59), "00:00:59");
    assert_eq!(format_time(360000), "100:00:00");
}

#[test]
fn format_time_defaults_bad_seconds() {
    assert_eq!(format_time(-5.0f64 as u64), "00:00:00");
    assert_eq!(format_time(f64::NAN as u64), "00:00:00");
    assert_eq!(format_time(3661.9f64 as u64), "01:01:01");
}

#[test]
fn media_kinds() {
    assert_eq!(MediaKind::of_filename(&Some("a.opus".to_string())), MediaKind::Music);
    assert_eq!(MediaKind::of_filename(&Some("a.webm".to_string())), MediaKind::Video);
    assert_eq!(MediaKind::of_filename(&Some("https://youtu.be/a".to_string())), MediaKind::Video);
    assert_eq!(MediaKind::of_filename(&Some("a.txt".to_string())), MediaKind::Unknown);
    assert_eq!(MediaKind::of_filename(&None), MediaKind::Unknown);
}

#[test]
fn payload_while_playing() {
    let p = PresencePayload::from_snapshot(&snap(false), &no_keys(), 1000);
    assert_eq!(p.state, "00:00:50 / 00:03:20");
    assert_eq!(p.details, "Song - Band");
    assert_eq!(p.large_image, "default_large");
    assert_eq!(p.small_image, "default_small");
    assert_eq!(p.start, 950);
    assert_eq!(p.end, 1100);
}

#[test]
fn payload_while_paused() {
    let keys = ImageKeys { large_image: Some("big".to_string()), small_image: Some("tiny".to_string()) };
    let p = PresencePayload::from_snapshot(&snap(true), &keys, 1000);
    assert_eq!(p.state, "⏸️ Paused");
    assert_eq!(p.large_image, "big");
    assert_eq!(p.small_image, "tiny");
}

#[test]
fn payload_title_fallbacks() {
    let s = MediaSnapshot::from_replies(None, None, Some("clip.mkv".to_string()), None, None, None);
    let p = PresencePayload::from_snapshot(&s, &no_keys(), 10);
    assert_eq!(p.details, "clip.mkv");
    assert_eq!(p.state, "00:00:00 / 00:00:00");
    let s = MediaSnapshot::from_replies(None, Some("x".to_string()), None, None, None, None);
    let p = PresencePayload::from_snapshot(&s, &no_keys(), 10);
    assert_eq!(p.details, "Unknown Title");
}

#[test]
fn payload_tolerates_overshoot() {
    let s = MediaSnapshot::from_replies(None, None, None, Some(10), Some(30), Some(false));
    let p = PresencePayload::from_snapshot(&s, &no_keys(), 100);
    assert_eq!(p.start, 70);
    assert_eq!(p.end, 50);
    let p = PresencePayload::from_snapshot(&s, &no_keys(), 5);
    assert_eq!(p.start, 0);
    assert_eq!(p.end, 0);
}

#[test]
fn frozen_player_cycles() {
    let s = snap(false);
    let a = PresencePayload::from_snapshot(&s, &no_keys(), 5000);
    let b = PresencePayload::from_snapshot(&s, &no_keys(), 5000);
    let c = PresencePayload::from_snapshot(&s, &no_keys(), 5003);
    assert_eq!((a.start, a.end), (b.start, b.end));
    assert_eq!(a.state, c.state);
    assert_eq!(a.details, c.details);
    assert_eq!(a.large_image, c.large_image);
    assert_eq!(a.small_image, c.small_image);
    assert_eq!(c.start, a.start + 3);
    assert_eq!(c.end, a.end + 3);
}

#[test]
fn queried_properties() {
    assert_eq!(
        snapshot_properties(),
        vec!["media-title", "metadata/by-key/artist", "filename", "duration", "time-pos", "pause"]
    );
}

#[test]
fn frozen_player_times_move_with_the_clock() {
    let s = MediaSnapshot::from_replies(None, None, None, Some(600), Some(120), Some(false));
    let a = PresencePayload::from_snapshot(&s, &no_keys(), 1_700_000_000);
    let b = PresencePayload::from_snapshot(&s, &no_keys(), 1_700_000_017);
    assert_eq!(b.start - a.start, 17);
    assert_eq!(b.end - a.end, 17);
    assert_eq!(a.start, 1_699_999_880);
    assert_eq!(a.end, 1_700_000_360);
}
