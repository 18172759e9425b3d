use ymusic::api::{get_kind, kind_from_captures, MediaType};
use ymusic::error::DownloadError;

fn resolved(kind: MediaType, id: &str) -> Result<(MediaType, String), DownloadError> {
    Ok((kind, id.to_string()))
}

#[test]
fn album_link() {
    assert_eq!(
        get_kind("https://music.example/album/12345".to_string()),
        resolved(MediaType::Album, "12345")
    );
}

#[test]
fn track_link_with_dash_in_id() {
    assert_eq!(
        get_kind("https://music.example/track/999-abc".to_string()),
        resolved(MediaType::Track, "999-abc")
    );
}

#[test]
fn artist_link() {
    assert_eq!(
        get_kind("https://music.example/artist/41075".to_string()),
        resolved(MediaType::Artist, "41075")
    );
}

#[test]
fn playlist_link_carries_the_plural_word() {
    assert_eq!(
        get_kind("https://music.example/users/someone/playlists/1003".to_string()),
        resolved(MediaType::Playlist, "1003")
    );
}

#[test]
fn singular_playlist_word_is_no_link() {
    assert_eq!(
        get_kind("https://music.example/users/someone/playlist/1003".to_string()),
        Err(DownloadError::InvalidUrl)
    );
}

#[test]
fn track_inside_album_link_is_a_track() {
    assert_eq!(
        get_kind("https://music.example/album/12345/track/678".to_string()),
        resolved(MediaType::Track, "678")
    );
}

#[test]
fn id_may_hold_dots_underscores_and_at_signs() {
    assert_eq!(
        get_kind("https://music.example/track/a.b_c@d-1".to_string()),
        resolved(MediaType::Track, "a.b_c@d-1")
    );
}

#[test]
fn id_with_a_space_is_invalid() {
    assert_eq!(
        get_kind("https://music.example/track/12 34".to_string()),
        Err(DownloadError::InvalidUrl)
    );
}

#[test]
fn id_with_other_disallowed_characters_is_invalid() {
    for link in [
        "https://music.example/track/12?34",
        "https://music.example/track/12#x",
        "https://music.example/album/12345/",
        "https://music.example/album/a+b",
    ] {
        assert_eq!(get_kind(link.to_string()), Err(DownloadError::InvalidUrl));
    }
}

#[test]
fn link_without_kind_or_id_is_invalid() {
    for link in [
        "",
        "https://music.example/",
        "https://music.example/album/",
        "https://music.example/album",
        "https://music.example/song/12345",
        "https://music.example/12345",
    ] {
        assert_eq!(get_kind(link.to_string()), Err(DownloadError::InvalidUrl));
    }
}

#[test]
fn link_must_end_with_the_id() {
    assert_eq!(
        get_kind("https://music.example/track/12345\n".to_string()),
        Err(DownloadError::InvalidUrl)
    );
}

#[test]
fn captured_kind_words() {
    let groups = |word: &str| Some((word.to_string(), "7".to_string()));
    assert_eq!(kind_from_captures(groups("track")), resolved(MediaType::Track, "7"));
    assert_eq!(kind_from_captures(groups("album")), resolved(MediaType::Album, "7"));
    assert_eq!(kind_from_captures(groups("artist")), resolved(MediaType::Artist, "7"));
    assert_eq!(kind_from_captures(groups("playlists")), resolved(MediaType::Playlist, "7"));
}

#[test]
fn unknown_kind_word_does_not_default() {
    for word in ["", "playlist", "Track", "tracks", "song"] {
        assert_eq!(
            kind_from_captures(Some((word.to_string(), "7".to_string()))),
            Err(DownloadError::InvalidUrl)
        );
    }
}

#[test]
fn no_match_is_invalid() {
    assert_eq!(kind_from_captures(None), Err(DownloadError::InvalidUrl));
}
