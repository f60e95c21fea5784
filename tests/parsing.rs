use amscrapper_rs::clock::parse_clock;
use amscrapper_rs::error::ScrapeError;
use amscrapper_rs::song::{
    parse_artist_and_album, song_from_captures, song_from_fields, SongField,
};

fn field(bottom: i32, name: &str) -> SongField {
    SongField { bottom: Some(bottom), name: Some(name.to_string()) }
}

#[test]
fn title_above_artist_line() {
    let fields = vec![field(400, "Starboy"), field(420, "Weeknd \u{2014} Starboy")];
    let song = song_from_fields(&fields).unwrap();
    assert_eq!(song.song, "Starboy");
    assert_eq!(song.artist, "Weeknd");
    assert_eq!(song.album, "Starboy");
}

#[test]
fn title_found_by_position_not_order() {
    let fields = vec![field(420, "Weeknd \u{2014} Starboy"), field(400, "Starboy")];
    let song = song_from_fields(&fields).unwrap();
    assert_eq!(song.song, "Starboy");
    assert_eq!(song.artist, "Weeknd");
    assert_eq!(song.album, "Starboy");
}

#[test]
fn equal_bottoms_keep_list_order() {
    let fields = vec![field(400, "Title"), field(400, "Artist \u{2014} Album")];
    let song = song_from_fields(&fields).unwrap();
    assert_eq!(song.song, "Title");
    assert_eq!(song.artist, "Artist");
    assert_eq!(song.album, "Album");
}

#[test]
fn fewer_than_two_fields_give_nothing() {
    assert!(song_from_fields(&vec![]).is_none());
    assert!(song_from_fields(&vec![field(400, "Title")]).is_none());
}

#[test]
fn unreadable_field_gives_nothing() {
    let no_name = vec![field(400, "Title"), SongField { bottom: Some(420), name: None }];
    assert!(song_from_fields(&no_name).is_none());
    let no_bottom = vec![SongField { bottom: None, name: Some("Title".to_string()) }, field(420, "A")];
    assert!(song_from_fields(&no_bottom).is_none());
}

#[test]
fn composer_line_gives_performer() {
    let song = parse_artist_and_album(
        "Aria",
        "By Johann Sebastian Bach \u{2014} Glenn Gould \u{2014} Goldberg Variations",
        false,
    )
    .unwrap();
    assert_eq!(song.song, "Aria");
    assert_eq!(song.artist, "Glenn Gould");
    assert_eq!(song.album, "Goldberg Variations");
}

#[test]
fn composer_line_gives_composer_when_asked() {
    let song = parse_artist_and_album(
        "Aria",
        "By Johann Sebastian Bach \u{2014} Glenn Gould \u{2014} Goldberg Variations",
        true,
    )
    .unwrap();
    assert_eq!(song.artist, "Johann Sebastian Bach");
    assert_eq!(song.album, "Goldberg Variations");
}

#[test]
fn one_separator_splits_artist_and_album() {
    let song = parse_artist_and_album("Starboy", "Weeknd \u{2014} Starboy", false).unwrap();
    assert_eq!(song.artist, "Weeknd");
    assert_eq!(song.album, "Starboy");
}

#[test]
fn no_separator_gives_whole_line_twice() {
    let song = parse_artist_and_album("Song", "Radio Station", false).unwrap();
    assert_eq!(song.song, "Song");
    assert_eq!(song.artist, "Radio Station");
    assert_eq!(song.album, "Radio Station");
}

#[test]
fn three_parts_without_by_take_first_two() {
    let song = parse_artist_and_album("S", "A \u{2014} B \u{2014} C", false).unwrap();
    assert_eq!(song.artist, "A");
    assert_eq!(song.album, "B");
}

#[test]
fn hyphen_is_no_separator() {
    let song = parse_artist_and_album("S", "Jay-Z - Album", false).unwrap();
    assert_eq!(song.artist, "Jay-Z - Album");
    assert_eq!(song.album, "Jay-Z - Album");
}

#[test]
fn captured_groups_are_used() {
    let captures = Some(("C".to_string(), "P".to_string(), "Al".to_string()));
    let song = song_from_captures("T", "whatever", captures.clone(), false);
    assert_eq!(song.song, "T");
    assert_eq!(song.artist, "P");
    assert_eq!(song.album, "Al");
    let song = song_from_captures("T", "whatever", captures, true);
    assert_eq!(song.artist, "C");
}

#[test]
fn clock_minutes_and_seconds() {
    assert_eq!(parse_clock("3:45"), Ok(225));
    assert_eq!(parse_clock("03:07"), Ok(187));
    assert_eq!(parse_clock("0:00"), Ok(0));
    assert_eq!(parse_clock("61:05"), Ok(3665));
}

#[test]
fn clock_leading_minus_is_dropped() {
    assert_eq!(parse_clock("-1:30"), Ok(90));
    assert_eq!(parse_clock("-0:05"), Ok(5));
}

#[test]
fn clock_malformed_is_parse_error() {
    for text in ["", "3", "3:", ":45", "a:45", "3:4x", "1:2:3", "+1:30", "--1:30", " 3:45", "-"] {
        assert_eq!(parse_clock(text), Err(ScrapeError::ParseError), "{}", text);
    }
}

#[test]
fn clock_largest_value() {
    assert_eq!(parse_clock("35791394:07"), Ok(i32::MAX));
    assert_eq!(parse_clock("35791394:08"), Err(ScrapeError::ParseError));
    assert_eq!(parse_clock("99999999999999999999:00"), Err(ScrapeError::ParseError));
}

#[test]
fn composer_line_found_inside_longer_text() {
    let song = parse_artist_and_album("S", "Live: By Bach \u{2014} Gould \u{2014} Partitas", false).unwrap();
    assert_eq!(song.artist, "Gould");
    assert_eq!(song.album, "Partitas");
}
