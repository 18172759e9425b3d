use ymusic::api::{codec2format, Codec, Container, Format};
use ymusic::error::DownloadError;

#[test]
fn codec_table_flac() {
    assert_eq!(codec2format("flac"), Ok(Format(Container::Flac, Codec::Flac)));
}

#[test]
fn codec_table_flac_in_mp4() {
    assert_eq!(codec2format("flac-mp4"), Ok(Format(Container::M4A, Codec::Flac)));
}

#[test]
fn codec_table_mp3() {
    assert_eq!(codec2format("mp3"), Ok(Format(Container::MP3, Codec::MP3)));
}

#[test]
fn codec_table_aac_family() {
    for codec in ["aac", "he-aac", "aac-mp4", "he-aac-mp4"] {
        assert_eq!(codec2format(codec), Ok(Format(Container::M4A, Codec::Aac)));
    }
}

#[test]
fn codec_outside_the_table_is_unsupported() {
    for codec in ["", "ogg", "opus", "flac-mp3", "mp4", "aac ", " aac", "he_aac"] {
        assert_eq!(codec2format(codec), Err(DownloadError::UnsupportedCodec));
    }
}

#[test]
fn codec_table_is_case_sensitive() {
    for codec in ["FLAC", "Flac", "MP3", "AAC", "He-Aac"] {
        assert_eq!(codec2format(codec), Err(DownloadError::UnsupportedCodec));
    }
}

#[test]
fn every_offered_codec_is_in_the_table() {
    let offered = "flac,flac-mp4,mp3,aac,he-aac,aac-mp4,he-aac-mp4";
    for codec in offered.split(',') {
        assert!(codec2format(codec).is_ok());
    }
}

#[test]
fn file_extension_follows_the_container() {
    assert_eq!(Format(Container::Flac, Codec::Flac).file_format(), "flac");
    assert_eq!(Format(Container::MP3, Codec::MP3).file_format(), "mp3");
    assert_eq!(Format(Container::M4A, Codec::Aac).file_format(), "m4a");
    assert_eq!(Format(Container::M4A, Codec::Flac).file_format(), "m4a");
}

#[test]
fn error_messages() {
    assert_eq!(DownloadError::InvalidUrl.message(), "invalid url");
    assert_eq!(DownloadError::UnsupportedCodec.message(), "unsupported codec");
    assert_eq!(DownloadError::DescriptorFetchFailed.message(), "descriptor fetch failed");
    assert_eq!(DownloadError::PayloadFetchFailed.message(), "payload fetch failed");
    assert_eq!(DownloadError::MalformedKey.message(), "malformed key");
    assert_eq!(DownloadError::NotImplemented.message(), "not implemented");
    assert_eq!(DownloadError::MetadataFetchFailed.message(), "metadata fetch failed");
    assert_eq!(DownloadError::WriteFailed.message(), "write failed");
}
