//! The ways a download can fail.

use vstd::prelude::*;

verus! {

/// Why a download stopped.
///
/// Every component reports its failure to its caller at once; nothing is
/// retried and nothing is recovered locally.
#[derive(Clone, Copy, Debug, PartialEq, Eq, Structural)]
pub enum DownloadError {
    /// The link does not have the shape of a track, album, artist or
    /// playlist link.
    InvalidUrl,
    /// The provider named a codec outside the known table.
    UnsupportedCodec,
    /// The descriptor request failed in transport, was answered with a
    /// status outside 2xx, or its answer lacked the descriptor.
    DescriptorFetchFailed,
    /// The encrypted payload could not be fetched.
    PayloadFetchFailed,
    /// The descriptor's key is not 16 bytes of hexadecimal.
    MalformedKey,
    /// Artist and playlist links are recognised but not served.
    NotImplemented,
    /// The track listing or the track metadata could not be obtained.
    MetadataFetchFailed,
    /// The finished file could not be stored.
    WriteFailed,
}

impl DownloadError {
    /// The text of each error, as a spec-level sequence of characters.
    pub open spec fn spec_message(self) -> Seq<char> {
        match self {
            DownloadError::InvalidUrl => "invalid url"@,
            DownloadError::UnsupportedCodec => "unsupported codec"@,
            DownloadError::DescriptorFetchFailed => "descriptor fetch failed"@,
            DownloadError::PayloadFetchFailed => "payload fetch failed"@,
            DownloadError::MalformedKey => "malformed key"@,
            DownloadError::NotImplemented => "not implemented"@,
            DownloadError::MetadataFetchFailed => "metadata fetch failed"@,
            DownloadError::WriteFailed => "write failed"@,
        }
    }

    /// A short description fit for showing to the user.
    pub fn message(&self) -> (text: String)
        ensures
            text@ == self.spec_message(),
    {
        let text: &str = match self {
            DownloadError::InvalidUrl => "invalid url",
            DownloadError::UnsupportedCodec => "unsupported codec",
            DownloadError::DescriptorFetchFailed => "descriptor fetch failed",
            DownloadError::PayloadFetchFailed => "payload fetch failed",
            DownloadError::MalformedKey => "malformed key",
            DownloadError::NotImplemented => "not implemented",
            DownloadError::MetadataFetchFailed => "metadata fetch failed",
            DownloadError::WriteFailed => "write failed",
        };
        text.to_owned()
    }
}

} // verus!
