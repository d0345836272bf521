use panpipe::audio::metadata_parser::{clean_text, format_as_song_artist, is_separator};

#[test]
fn test_text_cleaning() {
    let cleaned = clean_text("Heavy Is the Crown (Official Audio)");
    assert_eq!(cleaned, "Heavy Is the Crown");

    let cleaned = clean_text("  TAKE ME IN  (Official Lyric Video)  ");
    assert_eq!(cleaned, "TAKE ME IN");
}

#[test]
fn test_format_song_artist() {
    let formatted = format_as_song_artist("Heavy Is the Crown", "Linkin Park");
    assert_eq!(formatted, "Heavy Is the Crown - Linkin Park");
}

#[test]
fn song_and_artist_are_trimmed_before_joining() {
    assert_eq!(format_as_song_artist("  Song\t", "\n Band "), "Song - Band");
    assert_eq!(format_as_song_artist("", ""), " - ");
    assert_eq!(format_as_song_artist("a - b", "c"), "a - b - c");
}

#[test]
fn every_upload_marker_is_taken_out() {
    for marker in [
        "(Official Audio)",
        "(Official Video)",
        "(Official Music Video)",
        "(Official Lyric Video)",
        "(Audio)",
        "(Video)",
        "(Lyric Video)",
        "(Music Video)",
        "[Official Audio]",
        "[Official Video]",
        "[Audio]",
        "[Video]",
    ] {
        assert_eq!(clean_text(&format!("Song {} Live", marker)), "Song Live");
        assert_eq!(clean_text(&format!("{}Song{}", marker, marker)), "Song");
    }
    assert_eq!(clean_text("Song (Remix)"), "Song (Remix)");
    assert_eq!(clean_text("Song (official audio)"), "Song (official audio)");
}

#[test]
fn runs_of_spaces_become_one_space() {
    assert_eq!(clean_text("a  b"), "a b");
    assert_eq!(clean_text("a       b   c"), "a b c");
    assert_eq!(clean_text("a \t b"), "a \t b");
    let wide = format!("x{}y", " ".repeat(1000));
    assert_eq!(clean_text(&wide), "x y");
}

#[test]
fn separators_around_the_text_are_removed() {
    assert_eq!(clean_text("- _ Title _ -"), "Title");
    assert_eq!(clean_text("__a-b__"), "a-b");
    assert_eq!(clean_text(" - "), "");
    assert_eq!(clean_text(""), "");
    assert!(is_separator('-'));
    assert!(is_separator('_'));
    assert!(is_separator(' '));
    assert!(is_separator('\u{2003}'));
    assert!(!is_separator('a'));
    assert!(!is_separator('.'));
}

#[test]
fn leading_track_number_is_dropped() {
    assert_eq!(clean_text("01 - Song"), "Song");
    assert_eq!(clean_text("12. Song Title"), "Song Title");
    assert_eq!(clean_text("3-4 .  Song"), "Song");
    // a text without a letter stays as it is
    assert_eq!(clean_text("18"), "18");
    assert_eq!(clean_text("2001"), "2001");
    // something else than a number before the first letter stays
    assert_eq!(clean_text("(1) Song"), "(1) Song");
    assert_eq!(clean_text("#1 Song"), "#1 Song");
    assert_eq!(clean_text("blink-182"), "blink-182");
    assert_eq!(clean_text("\u{0663} \u{00e9}t\u{00e9}"), "\u{00e9}t\u{00e9}");
}
