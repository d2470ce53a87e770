use discord_mpv_rpc::sources::{LocalFileInfo, MediaMetadata, MediaSource, PlatformField};

fn metadata() -> MediaMetadata {
    let mut m = MediaMetadata::new();
    m.title = Some("A video".to_string());
    m.set_field(PlatformField::Channel, "chan".to_string());
    m.set_field(PlatformField::Uploader, "upl".to_string());
    m
}

#[test]
fn detect_video_platform() {
    match MediaSource::detect("https://www.youtube.com/watch?v=x", &metadata()) {
        MediaSource::YouTube(info) => {
            assert_eq!(info.title, "A video");
            assert_eq!(info.channel.as_deref(), Some("chan"));
            assert_eq!(info.uploader.as_deref(), Some("upl"));
        }
        other => panic!("unexpected {:?}", other),
    }
    let empty = MediaMetadata::new();
    match MediaSource::detect("https://youtu.be/x", &empty) {
        MediaSource::YouTube(info) => assert_eq!(info.title, ""),
        other => panic!("unexpected {:?}", other),
    }
}

#[test]
fn detect_streaming_services() {
    let m = MediaMetadata::new();
    assert!(matches!(MediaSource::detect("https://www.crunchyroll.com/a", &m), MediaSource::Crunchyroll));
    assert!(matches!(MediaSource::detect("https://animepahe.ru/a", &m), MediaSource::AnimePahe));
    assert!(matches!(MediaSource::detect("http://9anime.to/a", &m), MediaSource::NineAnime));
    match MediaSource::detect("https://example.org/v", &m) {
        MediaSource::Other(u) => assert_eq!(u, "https://example.org/v"),
        other => panic!("unexpected {:?}", other),
    }
}

#[test]
fn detect_local_files() {
    let m = MediaMetadata::new();
    match MediaSource::detect("/home/me/[SubsPlease] Show - 01.MKV", &m) {
        MediaSource::LocalFile(info) => {
            assert_eq!(info.filename, "/home/me/[SubsPlease] Show - 01.MKV");
            assert!(info.is_anime);
        }
        other => panic!("unexpected {:?}", other),
    }
    match MediaSource::detect("/music/song.flac", &m) {
        MediaSource::LocalFile(info) => assert!(!info.is_anime),
        other => panic!("unexpected {:?}", other),
    }
    assert!(MediaSource::has_episodic_keyword("show - episode 3"));
    assert!(!MediaSource::has_episodic_keyword("SHOW - EPISODE 3"));
}

#[test]
fn detect_is_deterministic() {
    let m = metadata();
    for name in ["https://youtu.be/a", "http://x.org", "a.mkv", "plain", ""] {
        let a = MediaSource::detect(name, &m);
        let b = MediaSource::detect(name, &m);
        assert_eq!(format!("{:?}", a), format!("{:?}", b));
        assert_eq!(a.get_image_key(), b.get_image_key());
        assert_eq!(a.get_small_image_key(), b.get_small_image_key());
    }
}

#[test]
fn image_keys_of_every_variant() {
    let m = MediaMetadata::new();
    let cases = [
        ("https://youtube.com/x", "youtube_large", "youtube_small"),
        ("[nyaa] x.mp4", "anime_large", "anime_small"),
        ("x.mp4", "mpv_large", "mpv_small"),
        ("https://crunchyroll.com/x", "crunchyroll_large", "crunchyroll_small"),
        ("https://animepahe.com/x", "anime_large", "anime_small"),
        ("https://9anime.to/x", "anime_large", "anime_small"),
        ("https://other.net/x", "mpv_large", "mpv_small"),
    ];
    for (name, large, small) in cases {
        let s = MediaSource::detect(name, &m);
        assert_eq!(s.get_image_key(), large);
        assert_eq!(s.get_small_image_key(), small);
        assert!(!s.get_image_key().is_empty());
        assert!(!s.get_small_image_key().is_empty());
    }
}

#[test]
fn platform_fields_table() {
    let names: Vec<&str> = PlatformField::all().into_iter().map(|f| f.property_name()).collect();
    assert_eq!(
        names,
        vec!["youtube-uploader", "youtube-channel", "youtube-channel-url", "youtube-upload-date"]
    );
    let mut m = MediaMetadata::new();
    m.set_field(PlatformField::UploadDate, "20240101".to_string());
    m.set_field(PlatformField::ChannelUrl, "u".to_string());
    assert_eq!(m.date.as_deref(), Some("20240101"));
    assert_eq!(m.channel_url.as_deref(), Some("u"));
    assert_eq!(m.channel, None);
}

#[test]
fn web_address_needs_a_scheme() {
    let m = MediaMetadata::default();
    let local = MediaSource::detect("httpdocs/a.mkv", &m);
    assert_eq!(
        local,
        MediaSource::LocalFile(LocalFileInfo { filename: "httpdocs/a.mkv".to_string(), is_anime: true })
    );
    assert!(matches!(MediaSource::detect("http", &m), MediaSource::LocalFile(_)));
    assert_eq!(MediaSource::detect("http://a.b/c", &m), MediaSource::Other("http://a.b/c".to_string()));
    assert_eq!(MediaSource::detect("https://crunchyroll.com/x", &m), MediaSource::Crunchyroll);
}
