use discord_mpv_rpc::anilist::{get_preferred_title, CoverImage, Media, MediaTitle};
use discord_mpv_rpc::config::{parse_u64, Config, ConfigError};

fn config(client_id: Option<&str>) -> Config {
    Config {
        socket: None,
        client_id: client_id.map(|s| s.to_string()),
        large_image: Some("L".to_string()),
        small_image: None,
    }
}

#[test]
fn client_id_rules() {
    assert_eq!(config(None).client_id(), Err(ConfigError::MissingClientId));
    assert_eq!(config(Some("abc")).client_id(), Err(ConfigError::InvalidClientId));
    assert_eq!(config(Some("")).client_id(), Err(ConfigError::InvalidClientId));
    assert_eq!(config(Some("123456789012345678")).client_id(), Ok(123456789012345678));
}

#[test]
fn unsigned_parsing() {
    assert_eq!(parse_u64("+7"), Some(7));
    assert_eq!(parse_u64("+"), None);
    assert_eq!(parse_u64("-1"), None);
    assert_eq!(parse_u64("18446744073709551615"), Some(u64::MAX));
    assert_eq!(parse_u64("18446744073709551616"), None);
}

#[test]
fn socket_and_images() {
    let c = config(None);
    assert_eq!(c.socket_path(), "/tmp/mpvsocket");
    let mut d = c.clone();
    d.socket = Some("/run/mpv".to_string());
    assert_eq!(d.socket_path(), "/run/mpv");
    let k = c.image_keys();
    assert_eq!(k.large_image.as_deref(), Some("L"));
    assert_eq!(k.small_image, None);
}

fn media(english: Option<&str>, romaji: Option<&str>, native: Option<&str>) -> Media {
    Media {
        id: 1,
        title: MediaTitle {
            romaji: romaji.map(|s| s.to_string()),
            english: english.map(|s| s.to_string()),
            native: native.map(|s| s.to_string()),
        },
        media_type: "ANIME".to_string(),
        episodes: Some(12),
        duration: Some(24),
        coverImage: CoverImage { large: "https://img".to_string() },
    }
}

#[test]
fn preferred_title_order() {
    assert_eq!(get_preferred_title(&media(Some("E"), Some("R"), Some("N"))), "E");
    assert_eq!(get_preferred_title(&media(None, Some("R"), Some("N"))), "R");
    assert_eq!(get_preferred_title(&media(None, None, Some("N"))), "N");
    assert_eq!(get_preferred_title(&media(None, None, None)), "Unknown Anime");
}
