use discord_mpv_rpc::anime::{clean_title, AnimeInfo};

#[test]
fn test_episode_extraction() {
    let test_cases = vec![
        ("[Group] Anime Title - Episode 01 [1080p]", Some(1)),
        ("Anime.Title.E02.mkv", Some(2)),
        ("Anime Title ep.03", Some(3)),
        ("Anime Title - 04", None),
        ("[Group] Anime Title - E05v2 [1080p]", Some(5)),
    ];

    for (input, expected) in test_cases {
        let info = AnimeInfo::from_filename(input);
        assert_eq!(info.episode, expected, "Failed for input: {}", input);
    }
}

#[test]
fn test_title_cleaning() {
    let test_cases = vec![
        ("[Group] My Hero Academia - Episode 01 [1080p]", "My Hero Academia"),
        ("One.Piece.E1000.mkv", "One Piece"),
        ("[SubsGroup]_Naruto_Shippuden_-_ep001_(1080p)", "Naruto Shippuden"),
    ];

    for (input, expected) in test_cases {
        let info = AnimeInfo::from_filename(input);
        assert_eq!(info.title, expected, "Failed for input: {}", input);
    }
}

#[test]
fn classify_my_hero_academia() {
    let info = AnimeInfo::from_filename("[Group] My Hero Academia - Episode 01 [1080p]");
    assert_eq!(info.title, "My Hero Academia");
    assert_eq!(info.episode, Some(1));
}

#[test]
fn classify_one_piece() {
    let info = AnimeInfo::from_filename("One.Piece.E1000.mkv");
    assert_eq!(info.title, "One Piece");
    assert_eq!(info.episode, Some(1000));
}

#[test]
fn classify_naruto() {
    let info = AnimeInfo::from_filename("[SubsGroup]_Naruto_Shippuden_-_ep001_(1080p)");
    assert_eq!(info.title, "Naruto Shippuden");
    assert_eq!(info.episode, Some(1));
}

#[test]
fn marker_number_is_the_episode() {
    assert_eq!(AnimeInfo::from_filename("Show EPISODE 12").episode, Some(12));
    assert_eq!(AnimeInfo::from_filename("Show ep 7 and e 9").episode, Some(7));
    assert_eq!(AnimeInfo::from_filename("Show e\t42").episode, Some(42));
}

#[test]
fn bare_number_is_no_episode() {
    assert_eq!(AnimeInfo::from_filename("Anime Title 04").episode, None);
    assert_eq!(AnimeInfo::from_filename("Movie 1999").episode, None);
    assert_eq!(AnimeInfo::from_filename("").episode, None);
}

#[test]
fn episode_too_large_is_none() {
    assert_eq!(AnimeInfo::from_filename("Show ep2147483647").episode, Some(2147483647));
    assert_eq!(AnimeInfo::from_filename("Show ep2147483648").episode, None);
}

#[test]
fn title_cleaning_edges() {
    assert_eq!(clean_title(""), "");
    assert_eq!(clean_title("[Only Group]"), "");
    assert_eq!(clean_title("  Spaced   out  "), "Spaced out");
    assert_eq!(clean_title("Open [bracket"), "Open [bracket");
    assert_eq!(clean_title("Clip.MP4"), "Clip");
    assert_eq!(clean_title("Tom e Jerry"), "Tom Jerry");
    assert_eq!(clean_title("Anime Title - 04"), "Anime Title 04");
}

#[test]
fn marker_after_a_digit_counts() {
    assert_eq!(AnimeInfo::from_filename("S2E05").episode, Some(5));
    assert_eq!(AnimeInfo::from_filename("Show.S01E12.mkv").episode, Some(12));
    assert_eq!(AnimeInfo::from_filename("Recipe 5").episode, None);
}

#[test]
fn unicode_whitespace_is_trimmed_and_collapsed() {
    assert_eq!(clean_title("\u{3000}a"), "a");
    assert_eq!(clean_title("a\u{A0}\u{2003}b\u{85}"), "a b");
    assert_eq!(AnimeInfo::from_filename("Show ep\u{3000}4").episode, Some(4));
}
