use serde_json::Value;
use ymusic::api::{Codec, Container, Format};
use ymusic::download::{album_track_ids, file_name, record_of, TrackInfo, TrackRecord};
use ymusic::error::DownloadError;

const ENTRY: &str = r#"{
    "id": "12345",
    "title": "Song",
    "artists": [{"id": 1, "name": "First"}, {"id": 2, "name": "Second"}],
    "albums": [
        {"title": "Record", "year": 2019, "trackPosition": {"volume": 1, "index": 3}},
        {"title": "Other", "year": 2021, "trackPosition": {"volume": 1, "index": 9}}
    ],
    "coverUri": "avatars.example/get-music-content/1/%%"
}"#;

fn json(text: &str) -> Value {
    serde_json::from_str(text).unwrap()
}

fn record() -> TrackRecord {
    TrackRecord {
        artists: vec!["First".to_string(), "Second".to_string()],
        title: "Song".to_string(),
        album_title: "Record".to_string(),
        track_index: "3".to_string(),
        year: "2019".to_string(),
        cover_uri: "avatars.example/get-music-content/1/%%".to_string(),
    }
}

fn info(position: &str, artist: &str, title: &str) -> TrackInfo {
    let mut info = TrackInfo::new();
    info.track_position = position.to_string();
    info.artist = artist.to_string();
    info.title = title.to_string();
    info
}

fn parse(text: &str) -> TrackInfo {
    let mut info = TrackInfo::new();
    assert_eq!(info.parse_result(&json(text)), Ok(()));
    info
}

#[test]
fn new_track_info_is_empty() {
    let info = TrackInfo::new();
    assert_eq!(info.artist, "");
    assert_eq!(info.title, "");
    assert_eq!(info.album, "");
    assert_eq!(info.track_position, "");
    assert_eq!(info.year, "");
    assert_eq!(info.cover_url, "");
}

#[test]
fn record_holds_each_field_as_plain_text() {
    assert_eq!(record_of(&json(ENTRY)), Some(record()));
}

#[test]
fn record_writes_missing_fields_as_null() {
    assert_eq!(
        record_of(&json(r#"{"artists": []}"#)),
        Some(TrackRecord {
            artists: Vec::new(),
            title: "null".to_string(),
            album_title: "null".to_string(),
            track_index: "null".to_string(),
            year: "null".to_string(),
            cover_uri: "null".to_string(),
        })
    );
}

#[test]
fn record_needs_an_array_of_artists() {
    for text in ["null", "{}", "[]", r#"{"artists": {"name": "A"}}"#, r#"{"artists": "A"}"#] {
        assert_eq!(record_of(&json(text)), None);
    }
}

#[test]
fn record_takes_the_first_album() {
    let read = record_of(&json(ENTRY)).unwrap();
    assert_eq!(read.album_title, "Record");
    assert_eq!(read.year, "2019");
    assert_eq!(read.track_index, "3");
}

#[test]
fn fill_takes_every_field_from_the_record() {
    let mut info = TrackInfo::new();
    info.fill(&record());
    assert_eq!(
        info,
        TrackInfo {
            artist: "First; Second".to_string(),
            title: "Song".to_string(),
            album: "Record".to_string(),
            track_position: "3".to_string(),
            year: "2019".to_string(),
            cover_url: "https://avatars.example/get-music-content/1/%%".to_string(),
        }
    );
}

#[test]
fn fill_changes_no_character_of_a_field() {
    let mut source = record();
    source.artists = vec!["\"Quoted\"".to_string(), " spaced ".to_string()];
    source.title = "\"Heroes\"".to_string();
    source.album_title = "\\".to_string();
    source.track_index = "null".to_string();
    source.year = "\"1999\"".to_string();
    source.cover_uri = "\"x\"".to_string();
    let mut info = TrackInfo::new();
    info.fill(&source);
    assert_eq!(info.artist, "\"Quoted\";  spaced ");
    assert_eq!(info.title, "\"Heroes\"");
    assert_eq!(info.album, "\\");
    assert_eq!(info.track_position, "null");
    assert_eq!(info.year, "\"1999\"");
    assert_eq!(info.cover_url, "https://\"x\"");
}

#[test]
fn parse_result_fills_every_field() {
    assert_eq!(
        parse(ENTRY),
        TrackInfo {
            artist: "First; Second".to_string(),
            title: "Song".to_string(),
            album: "Record".to_string(),
            track_position: "3".to_string(),
            year: "2019".to_string(),
            cover_url: "https://avatars.example/get-music-content/1/%%".to_string(),
        }
    );
}

#[test]
fn parse_result_keeps_artists_in_order() {
    let info = parse(
        r#"{"artists": [{"name": "C"}, {"name": "A"}, {"name": "B"}, {"name": "A"}]}"#,
    );
    assert_eq!(info.artist, "C; A; B; A");
}

#[test]
fn parse_result_with_one_artist_has_no_separator() {
    assert_eq!(parse(r#"{"artists": [{"name": "Solo"}]}"#).artist, "Solo");
}

#[test]
fn parse_result_without_artists() {
    assert_eq!(parse(r#"{"artists": []}"#).artist, "");
}

#[test]
fn parse_result_of_a_bare_record() {
    assert_eq!(
        parse(r#"{"artists": [{}]}"#),
        TrackInfo {
            artist: "null".to_string(),
            title: "null".to_string(),
            album: "null".to_string(),
            track_position: "null".to_string(),
            year: "null".to_string(),
            cover_url: "https://null".to_string(),
        }
    );
}

#[test]
fn parse_result_overwrites_earlier_contents() {
    let mut info = info("9", "Old", "Older");
    info.album = "Oldest".to_string();
    assert_eq!(info.parse_result(&json(ENTRY)), Ok(()));
    assert_eq!(info.artist, "First; Second");
    assert_eq!(info.title, "Song");
    assert_eq!(info.album, "Record");
    assert_eq!(info.track_position, "3");
}

#[test]
fn parse_result_without_an_artist_array_fails_and_changes_nothing() {
    let mut info = info("9", "Old", "Older");
    let before = info.clone();
    assert_eq!(
        info.parse_result(&json(r#"{"title": "Song", "artists": null}"#)),
        Err(DownloadError::MetadataFetchFailed)
    );
    assert_eq!(info, before);
}

#[test]
fn parse_result_keeps_quote_characters_of_a_title() {
    let info = parse(r#"{"artists": [], "title": "Say \"hi\" twice"}"#);
    assert_eq!(info.title, "Say \"hi\" twice");
    let info = parse(r#"{"artists": [], "title": "say \"hi\""}"#);
    assert_eq!(info.title, "say \"hi\"");
    assert_eq!(info.title.chars().count(), 8);
    let info = parse(r#"{"artists": [], "title": "\"Heroes\""}"#);
    assert_eq!(info.title, "\"Heroes\"");
}

#[test]
fn parse_result_takes_strings_out_of_their_json_escapes() {
    let info = parse(
        r#"{"artists": [{"name": "AC\/DC"}, {"name": "Sigur R\u00f3s"}],
            "title": "Back\\slash\ttab",
            "albums": [{"title": "\"A\" side"}],
            "coverUri": "img.example/\"c\""}"#,
    );
    assert_eq!(info.artist, "AC/DC; Sigur Rós");
    assert_eq!(info.title, "Back\\slash\ttab");
    assert_eq!(info.album, "\"A\" side");
    assert_eq!(info.cover_url, "https://img.example/\"c\"");
}

#[test]
fn parse_result_reads_position_and_year_written_as_strings() {
    let info = parse(
        r#"{"artists": [], "albums": [{"year": "1999", "trackPosition": {"index": "7"}}]}"#,
    );
    assert_eq!(info.year, "1999");
    assert_eq!(info.track_position, "7");
}

#[test]
fn parse_result_writes_numbers_without_quotes() {
    let info = parse(
        r#"{"artists": [], "albums": [{"year": 1987, "trackPosition": {"index": 11}}]}"#,
    );
    assert_eq!(info.year, "1987");
    assert_eq!(info.track_position, "11");
}

#[test]
fn album_ids_are_read_as_plain_text_in_order() {
    let listing = json(r#"[{"id": "11"}, {"id": 22, "title": "x"}, {"id": "33:7"}]"#);
    assert_eq!(
        album_track_ids(&listing),
        Some(vec!["11".to_string(), "22".to_string(), "33:7".to_string()])
    );
}

#[test]
fn album_ids_of_an_empty_listing() {
    assert_eq!(album_track_ids(&json("[]")), Some(Vec::new()));
}

#[test]
fn album_ids_need_an_array() {
    for text in ["null", "{}", r#"{"id": "1"}"#, "\"11\"", "5"] {
        assert_eq!(album_track_ids(&json(text)), None);
    }
}

#[test]
fn album_item_without_id_is_written_null() {
    assert_eq!(album_track_ids(&json(r#"[{}, 5]"#)), Some(vec!["null".to_string(); 2]));
}

#[test]
fn file_name_pads_position_to_two_places() {
    let name = file_name(&info("3", "A", "B"), &Format(Container::Flac, Codec::Flac));
    assert_eq!(name, "03. A - B.flac");
}

#[test]
fn file_name_keeps_two_digit_position() {
    let name = file_name(&info("12", "Artist", "Title"), &Format(Container::MP3, Codec::MP3));
    assert_eq!(name, "12. Artist - Title.mp3");
}

#[test]
fn file_name_keeps_longer_position() {
    let name = file_name(&info("104", "A", "B"), &Format(Container::M4A, Codec::Aac));
    assert_eq!(name, "104. A - B.m4a");
}

#[test]
fn file_name_with_joined_artists() {
    let name = file_name(&parse(ENTRY), &Format(Container::M4A, Codec::Flac));
    assert_eq!(name, "03. First; Second - Song.m4a");
}

#[test]
fn file_name_of_empty_info() {
    let name = file_name(&TrackInfo::new(), &Format(Container::MP3, Codec::MP3));
    assert_eq!(name, "00.  - .mp3");
}
