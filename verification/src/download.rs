//! Track metadata and file names, and the sequencing of a download: which
//! request comes next, and what each answer leads to.

use crate::api::{
    answered_descriptor, decode_track, descriptor_of_answer, descriptor_request, download_info,
    metadata_request, track_payload, tracks_info, ApiRequest, ApiRequestView, DescriptorView,
    DownloadDescriptor, Format, MediaType,
};
use crate::error::DownloadError;
use crate::primitives::{
    bytes_contents, json_as_str, json_at, json_get, json_item, json_len, json_length,
    json_member, json_string, json_text, json_to_string,
};
use crate::text::{join, join_strings, zero_pad, zero_pad_string};
use serde_json::Value;
use vstd::prelude::*;

verus! {

/// What a JSON value says, as plain text: the characters of a string, and
/// the JSON text of anything else, so a number as its digits and a missing
/// value as `null`.
pub open spec fn plain_text(document: Seq<char>) -> Seq<char> {
    match json_string(document) {
        Some(characters) => characters,
        None => document,
    }
}

/// Reads a JSON value as plain text.
pub fn value_text(value: &Value) -> (text: String)
    ensures
        text@ == plain_text(json_text(*value)),
{
    match json_as_str(value) {
        Some(characters) => characters,
        None => json_to_string(value),
    }
}

/// One track as the provider's metadata answer describes it, each field as
/// plain text: the names of the track's artists in order, the track's title,
/// the title of its first album, its position in that album, the album's
/// year, and the address of the cover without a scheme.
#[derive(Clone, Debug, PartialEq, Eq)]
pub struct TrackRecord {
    pub artists: Vec<String>,
    pub title: String,
    pub album_title: String,
    pub track_index: String,
    pub year: String,
    pub cover_uri: String,
}

/// What a [`TrackRecord`] holds, as sequences of characters.
pub ghost struct TrackRecordView {
    pub artists: Seq<Seq<char>>,
    pub title: Seq<char>,
    pub album_title: Seq<char>,
    pub track_index: Seq<char>,
    pub year: Seq<char>,
    pub cover_uri: Seq<char>,
}

impl View for TrackRecord {
    type V = TrackRecordView;

    open spec fn view(&self) -> TrackRecordView {
        TrackRecordView {
            artists: self.artists.deep_view(),
            title: self.title@,
            album_title: self.album_title@,
            track_index: self.track_index@,
            year: self.year@,
            cover_uri: self.cover_uri@,
        }
    }
}

/// What files are named and tagged from.
#[derive(Clone, Debug, PartialEq, Eq)]
pub struct TrackInfo {
    pub artist: String,
    pub title: String,
    pub album: String,
    pub track_position: String,
    pub year: String,
    pub cover_url: String,
}

/// What a [`TrackInfo`] holds, as sequences of characters.
pub ghost struct TrackInfoView {
    pub artist: Seq<char>,
    pub title: Seq<char>,
    pub album: Seq<char>,
    pub track_position: Seq<char>,
    pub year: Seq<char>,
    pub cover_url: Seq<char>,
}

impl View for TrackInfo {
    type V = TrackInfoView;

    open spec fn view(&self) -> TrackInfoView {
        TrackInfoView {
            artist: self.artist@,
            title: self.title@,
            album: self.album@,
            track_position: self.track_position@,
            year: self.year@,
            cover_url: self.cover_url@,
        }
    }
}

/// The track information with every field empty.
pub open spec fn empty_info() -> TrackInfoView {
    TrackInfoView {
        artist: Seq::empty(),
        title: Seq::empty(),
        album: Seq::empty(),
        track_position: Seq::empty(),
        year: Seq::empty(),
        cover_url: Seq::empty(),
    }
}

/// The track information that a record gives: all the artists in their
/// order, joined by `"; "`; title, album title, position and year as they
/// are; the cover's address under `https`.
pub open spec fn parsed(record: TrackRecordView) -> TrackInfoView {
    TrackInfoView {
        artist: join(record.artists, "; "@),
        title: record.title,
        album: record.album_title,
        track_position: record.track_index,
        year: record.year,
        cover_url: "https://"@ + record.cover_uri,
    }
}

/// The name of a track's file: the position padded with zeros to two
/// places, a dot and a space, the artist, a dash between spaces, the title,
/// a dot and the extension.
pub open spec fn file_name_of(info: TrackInfoView, extension: Seq<char>) -> Seq<char> {
    zero_pad(info.track_position, 2) + ". "@ + info.artist + " - "@ + info.title + "."@
        + extension
}

impl TrackInfo {
    /// Track information with every field empty.
    pub fn new() -> (info: Self)
        ensures
            info@ == empty_info(),
    {
        Self {
            artist: String::new(),
            title: String::new(),
            album: String::new(),
            track_position: String::new(),
            year: String::new(),
            cover_url: String::new(),
        }
    }

    /// Fills every field from a track record.
    pub fn fill(&mut self, record: &TrackRecord)
        ensures
            final(self)@ == parsed(record@),
    {
        self.artist = join_strings(&record.artists, "; ");
        self.title = record.title.clone();
        self.album = record.album_title.clone();
        self.track_position = record.track_index.clone();
        self.year = record.year.clone();
        let mut cover = "https://".to_owned();
        cover.append(record.cover_uri.as_str());
        self.cover_url = cover;
    }

    /// Fills every field from one record of the provider's metadata
    /// answer.
    ///
    /// Fails with `MetadataFetchFailed`, leaving the fields as they were,
    /// when the record's `artists` is not an array.
    pub fn parse_result(&mut self, result: &Value) -> (outcome: Result<(), DownloadError>)
        ensures
            match read_record(json_text(*result)) {
                Some(record) => outcome is Ok && final(self)@ == parsed(record),
                None => outcome == Err::<(), DownloadError>(DownloadError::MetadataFetchFailed)
                    && *final(self) == *old(self),
            },
    {
        match record_of(result) {
            Some(record) => {
                self.fill(&record);
                Ok(())
            },
            None => Err(DownloadError::MetadataFetchFailed),
        }
    }
}

/// The track record that the JSON text `result` writes: each artist's
/// `name`, the `title`, the first album's `title`, `trackPosition.index`
/// and `year`, and the `coverUri`, each read as plain text. There is none
/// when `artists` is not an array.
pub open spec fn read_record(result: Seq<char>) -> Option<TrackRecordView> {
    let artists = json_member(result, "artists"@);
    let album = json_item(json_member(result, "albums"@), 0);
    match json_length(artists) {
        None => None,
        Some(count) => Some(
            TrackRecordView {
                artists: Seq::new(
                    count,
                    |i: int| plain_text(json_member(json_item(artists, i as nat), "name"@)),
                ),
                title: plain_text(json_member(result, "title"@)),
                album_title: plain_text(json_member(album, "title"@)),
                track_index: plain_text(
                    json_member(json_member(album, "trackPosition"@), "index"@),
                ),
                year: plain_text(json_member(album, "year"@)),
                cover_uri: plain_text(json_member(result, "coverUri"@)),
            },
        ),
    }
}

/// Reads a track record out of one entry of the provider's metadata
/// answer.
pub fn record_of(result: &Value) -> (record: Option<TrackRecord>)
    ensures
        match record {
            Some(r) => read_record(json_text(*result)) == Some(r@),
            None => read_record(json_text(*result)) is None,
        },
{
    let listed = json_get(result, "artists");
    let count = match json_len(listed) {
        Some(count) => count,
        None => { return None; },
    };
    let mut artists: Vec<String> = Vec::new();
    let mut i: usize = 0;
    while i < count
        invariant
            i <= count,
            artists.len() == i,
            forall|j: int|
                0 <= j < i ==> (#[trigger] artists@[j])@ == plain_text(
                    json_member(json_item(json_text(*listed), j as nat), "name"@),
                ),
        decreases count - i,
    {
        artists.push(value_text(json_get(json_at(listed, i), "name")));
        i = i + 1;
    }
    let album = json_at(json_get(result, "albums"), 0);
    let record = TrackRecord {
        artists,
        title: value_text(json_get(result, "title")),
        album_title: value_text(json_get(album, "title")),
        track_index: value_text(json_get(json_get(album, "trackPosition"), "index")),
        year: value_text(json_get(album, "year")),
        cover_uri: value_text(json_get(result, "coverUri")),
    };
    assert(record@.artists =~= read_record(json_text(*result))->0.artists);
    Some(record)
}

/// Names the file that a track of the given format is stored under.
pub fn file_name(info: &TrackInfo, format: &Format) -> (name: String)
    ensures
        name@ == file_name_of(info@, format.spec_file_format()),
{
    let mut name = zero_pad_string(info.track_position.as_str(), 2);
    name.append(". ");
    name.append(info.artist.as_str());
    name.append(" - ");
    name.append(info.title.as_str());
    name.append(".");
    name.append(format.file_format().as_str());
    name
}

/// What a download is waiting for.
#[derive(Clone, Debug, PartialEq, Eq)]
pub enum Stage {
    /// The list of an album's tracks.
    AwaitAlbum,
    /// The download descriptor of a track.
    AwaitDescriptor { track_id: String },
    /// The encrypted payload that the descriptor points at.
    AwaitPayload { track_id: String, descriptor: DownloadDescriptor },
    /// The metadata of the track whose audio is ready.
    AwaitMetadata { audio: Vec<u8>, format: Format },
    /// The word that the file has been stored.
    AwaitWrite,
    /// Every track has been stored.
    Finished,
    /// The download has stopped.
    Failed(DownloadError),
}

/// A download in progress: the token that requests carry, the tracks still
/// to come after the one in hand, and what is being waited for.
#[derive(Clone, Debug, PartialEq, Eq)]
pub struct Download {
    pub token: String,
    pub pending: Vec<String>,
    pub stage: Stage,
}

/// What came back from the step that the download asked for.
#[derive(Debug, PartialEq)]
pub enum Event {
    /// The tracks of an album in album order: a JSON array whose items
    /// carry the track's `id`.
    AlbumListed(Value),
    /// The answer to a descriptor request: its status and its body.
    DescriptorAnswered { status: u16, body: Value },
    /// The whole body of the payload.
    PayloadFetched(bytes::Bytes),
    /// The body of the answer to a metadata request.
    MetadataFetched(Value),
    /// The file is stored.
    FileWritten,
    /// The step could not be carried out.
    Failed,
}

/// What the caller is to do next.
#[derive(Clone, Debug, PartialEq, Eq)]
pub enum Action {
    /// List the tracks of an album and answer with `AlbumListed`.
    ListAlbum { album_id: String, token: String },
    /// Send the descriptor request and answer with `DescriptorAnswered`.
    FetchDescriptor(ApiRequest),
    /// Fetch the whole body at `url`, with no header of the provider's,
    /// and answer with `PayloadFetched`.
    FetchPayload { url: String },
    /// Send the metadata request and answer with `MetadataFetched`.
    FetchMetadata(ApiRequest),
    /// Store `data` under `name` and answer with `FileWritten`.
    WriteFile { name: String, data: Vec<u8> },
    /// Nothing is left to do.
    Finish,
    /// Stop and report the error.
    Fail(DownloadError),
}

/// A [`Stage`] over sequences.
pub ghost enum StageView {
    AwaitAlbum,
    AwaitDescriptor { track_id: Seq<char> },
    AwaitPayload { track_id: Seq<char>, descriptor: DescriptorView },
    AwaitMetadata { audio: Seq<u8>, format: Format },
    AwaitWrite,
    Finished,
    Failed(DownloadError),
}

/// A [`Download`] over sequences.
pub ghost struct DownloadView {
    pub token: Seq<char>,
    pub pending: Seq<Seq<char>>,
    pub stage: StageView,
}

/// An [`Event`] over sequences.
pub ghost enum EventView {
    AlbumListed(Seq<char>),
    DescriptorAnswered { status: u16, body: Seq<char> },
    PayloadFetched(Seq<u8>),
    MetadataFetched(Seq<char>),
    FileWritten,
    Failed,
}

/// An [`Action`] over sequences.
pub ghost enum ActionView {
    ListAlbum { album_id: Seq<char>, token: Seq<char> },
    FetchDescriptor(ApiRequestView),
    FetchPayload { url: Seq<char> },
    FetchMetadata(ApiRequestView),
    WriteFile { name: Seq<char>, data: Seq<u8> },
    Finish,
    Fail(DownloadError),
}

impl View for Stage {
    type V = StageView;

    open spec fn view(&self) -> StageView {
        match self {
            Stage::AwaitAlbum => StageView::AwaitAlbum,
            Stage::AwaitDescriptor { track_id } => StageView::AwaitDescriptor {
                track_id: track_id@,
            },
            Stage::AwaitPayload { track_id, descriptor } => StageView::AwaitPayload {
                track_id: track_id@,
                descriptor: descriptor@,
            },
            Stage::AwaitMetadata { audio, format } => StageView::AwaitMetadata {
                audio: audio@,
                format: *format,
            },
            Stage::AwaitWrite => StageView::AwaitWrite,
            Stage::Finished => StageView::Finished,
            Stage::Failed(e) => StageView::Failed(*e),
        }
    }
}

impl View for Download {
    type V = DownloadView;

    open spec fn view(&self) -> DownloadView {
        DownloadView {
            token: self.token@,
            pending: self.pending.deep_view(),
            stage: self.stage@,
        }
    }
}

impl View for Event {
    type V = EventView;

    open spec fn view(&self) -> EventView {
        match self {
            Event::AlbumListed(listing) => EventView::AlbumListed(json_text(*listing)),
            Event::DescriptorAnswered { status, body } => EventView::DescriptorAnswered {
                status: *status,
                body: json_text(*body),
            },
            Event::PayloadFetched(data) => EventView::PayloadFetched(bytes_contents(*data)),
            Event::MetadataFetched(body) => EventView::MetadataFetched(json_text(*body)),
            Event::FileWritten => EventView::FileWritten,
            Event::Failed => EventView::Failed,
        }
    }
}

impl View for Action {
    type V = ActionView;

    open spec fn view(&self) -> ActionView {
        match self {
            Action::ListAlbum { album_id, token } => ActionView::ListAlbum {
                album_id: album_id@,
                token: token@,
            },
            Action::FetchDescriptor(request) => ActionView::FetchDescriptor(request@),
            Action::FetchPayload { url } => ActionView::FetchPayload { url: url@ },
            Action::FetchMetadata(request) => ActionView::FetchMetadata(request@),
            Action::WriteFile { name, data } => ActionView::WriteFile { name: name@, data: data@ },
            Action::Finish => ActionView::Finish,
            Action::Fail(e) => ActionView::Fail(*e),
        }
    }
}

/// The ids of the tracks that an album listing names: each item's `id`,
/// read as plain text, in the listing's order. There are none to be had
/// when the listing is not an array.
pub open spec fn album_ids(listing: Seq<char>) -> Option<Seq<Seq<char>>> {
    match json_length(listing) {
        None => None,
        Some(count) => Some(
            Seq::new(
                count,
                |i: int| plain_text(json_member(json_item(listing, i as nat), "id"@)),
            ),
        ),
    }
}

/// Stops the download with `error`.
pub open spec fn stopped(state: DownloadView, error: DownloadError) -> (DownloadView, ActionView) {
    (DownloadView { stage: StageView::Failed(error), ..state }, ActionView::Fail(error))
}

/// Takes up the first of `tracks`: asks for its descriptor, signed for
/// `now`, and keeps the rest for later. With no track left the download is
/// finished.
pub open spec fn take_up(token: Seq<char>, tracks: Seq<Seq<char>>, now: u64) -> (
    DownloadView,
    ActionView,
) {
    if tracks.len() == 0 {
        (
            DownloadView { token, pending: tracks, stage: StageView::Finished },
            ActionView::Finish,
        )
    } else {
        let state = DownloadView {
            token,
            pending: tracks.skip(1),
            stage: StageView::AwaitDescriptor { track_id: tracks[0] },
        };
        match descriptor_request(tracks[0], token, now) {
            Ok(request) => (state, ActionView::FetchDescriptor(request)),
            Err(e) => stopped(state, e),
        }
    }
}

/// How a download begins. A track is taken up at once; an album is listed
/// first; artists and playlists are not served.
pub open spec fn begun(id: Seq<char>, kind: MediaType, token: Seq<char>, now: u64) -> (
    DownloadView,
    ActionView,
) {
    match kind {
        MediaType::Track => take_up(token, seq![id], now),
        MediaType::Album => (
            DownloadView { token, pending: Seq::empty(), stage: StageView::AwaitAlbum },
            ActionView::ListAlbum { album_id: id, token },
        ),
        MediaType::Artist | MediaType::Playlist => stopped(
            DownloadView { token, pending: Seq::empty(), stage: StageView::AwaitAlbum },
            DownloadError::NotImplemented,
        ),
    }
}

/// One step of a download: what the state becomes on an event, and what is
/// to be done next.
///
/// Each stage waits for one kind of event; any other event, `Failed` among
/// them, stops the download with the error of the step that was waited for.
/// A download that has stopped stays stopped and a finished one stays
/// finished, whatever comes.
pub open spec fn step(state: DownloadView, event: EventView, now: u64) -> (
    DownloadView,
    ActionView,
) {
    match state.stage {
        StageView::Failed(e) => (state, ActionView::Fail(e)),
        StageView::Finished => (state, ActionView::Finish),
        StageView::AwaitAlbum => match event {
            EventView::AlbumListed(listing) => match album_ids(listing) {
                Some(tracks) => take_up(state.token, tracks, now),
                None => stopped(state, DownloadError::MetadataFetchFailed),
            },
            _ => stopped(state, DownloadError::MetadataFetchFailed),
        },
        StageView::AwaitDescriptor { track_id } => match event {
            EventView::DescriptorAnswered { status, body } => match answered_descriptor(
                status,
                body,
            ) {
                Ok(descriptor) => (
                    DownloadView {
                        stage: StageView::AwaitPayload { track_id, descriptor },
                        ..state
                    },
                    ActionView::FetchPayload { url: descriptor.urls[0] },
                ),
                Err(e) => stopped(state, e),
            },
            _ => stopped(state, DownloadError::DescriptorFetchFailed),
        },
        StageView::AwaitPayload { track_id, descriptor } => match event {
            EventView::PayloadFetched(data) => match track_payload(descriptor, data) {
                Ok((audio, format)) => match metadata_request(seq![track_id], state.token) {
                    Ok(request) => (
                        DownloadView { stage: StageView::AwaitMetadata { audio, format }, ..state },
                        ActionView::FetchMetadata(request),
                    ),
                    Err(e) => stopped(state, e),
                },
                Err(e) => stopped(state, e),
            },
            _ => stopped(state, DownloadError::PayloadFetchFailed),
        },
        StageView::AwaitMetadata { audio, format } => match event {
            EventView::MetadataFetched(body) => match read_record(
                json_item(json_member(body, "result"@), 0),
            ) {
                Some(record) => (
                    DownloadView { stage: StageView::AwaitWrite, ..state },
                    ActionView::WriteFile {
                        name: file_name_of(parsed(record), format.spec_file_format()),
                        data: audio,
                    },
                ),
                None => stopped(state, DownloadError::MetadataFetchFailed),
            },
            _ => stopped(state, DownloadError::MetadataFetchFailed),
        },
        StageView::AwaitWrite => match event {
            EventView::FileWritten => take_up(state.token, state.pending, now),
            _ => stopped(state, DownloadError::WriteFailed),
        },
    }
}

fn stop(token: String, pending: Vec<String>, error: DownloadError) -> (next: (Download, Action))
    ensures
        next.0@ == (DownloadView {
            token: token@,
            pending: pending.deep_view(),
            stage: StageView::Failed(error),
        }),
        next.1@ == ActionView::Fail(error),
{
    (Download { token, pending, stage: Stage::Failed(error) }, Action::Fail(error))
}

fn take_up_next(token: String, tracks: Vec<String>, now: u64) -> (next: (Download, Action))
    ensures
        (next.0@, next.1@) == take_up(token@, tracks.deep_view(), now),
{
    let mut tracks = tracks;
    let ghost before = tracks.deep_view();
    if tracks.len() == 0 {
        (Download { token, pending: tracks, stage: Stage::Finished }, Action::Finish)
    } else {
        let track_id = tracks.remove(0);
        assert(tracks.deep_view() =~= before.skip(1));
        match download_info(track_id.as_str(), &token, now) {
            Ok(request) => (
                Download { token, pending: tracks, stage: Stage::AwaitDescriptor { track_id } },
                Action::FetchDescriptor(request),
            ),
            Err(e) => stop(token, tracks, e),
        }
    }
}

/// Reads the ids of an album's tracks out of its listing.
pub fn album_track_ids(listing: &Value) -> (tracks: Option<Vec<String>>)
    ensures
        match tracks {
            Some(ids) => album_ids(json_text(*listing)) == Some(ids.deep_view()),
            None => album_ids(json_text(*listing)) is None,
        },
{
    let count = match json_len(listing) {
        Some(count) => count,
        None => { return None; },
    };
    let mut tracks: Vec<String> = Vec::new();
    let mut i: usize = 0;
    while i < count
        invariant
            i <= count,
            tracks.len() == i,
            forall|j: int|
                0 <= j < i ==> (#[trigger] tracks@[j])@ == plain_text(
                    json_member(json_item(json_text(*listing), j as nat), "id"@),
                ),
        decreases count - i,
    {
        tracks.push(value_text(json_get(json_at(listing, i), "id")));
        i = i + 1;
    }
    assert(tracks.deep_view() =~= album_ids(json_text(*listing))->0);
    Some(tracks)
}

/// Begins the download of the media that a link resolved to.
///
/// `now` is the current Unix time in whole seconds; it dates the signature
/// of the first descriptor request. The caller carries out the action that
/// comes back and reports what happened to [`advance`], until the action is
/// `Finish` or `Fail`.
pub fn download_media(id: String, kind: MediaType, token: String, now: u64) -> (next: (
    Download,
    Action,
))
    ensures
        (next.0@, next.1@) == begun(id@, kind, token@, now),
{
    match kind {
        MediaType::Track => {
            let mut tracks: Vec<String> = Vec::new();
            tracks.push(id);
            assert(tracks.deep_view() =~= seq![id@]);
            take_up_next(token, tracks, now)
        },
        MediaType::Album => {
            let album_token = token.clone();
            let pending: Vec<String> = Vec::new();
            assert(pending.deep_view() =~= Seq::<Seq<char>>::empty());
            (
                Download { token, pending, stage: Stage::AwaitAlbum },
                Action::ListAlbum { album_id: id, token: album_token },
            )
        },
        MediaType::Artist | MediaType::Playlist => {
            let pending: Vec<String> = Vec::new();
            assert(pending.deep_view() =~= Seq::<Seq<char>>::empty());
            stop(token, pending, DownloadError::NotImplemented)
        },
    }
}

/// Takes a download one step on.
///
/// `event` is what came of the action last handed out; `now` is the current
/// Unix time in whole seconds, which dates the signature if the next action
/// is a descriptor request.
pub fn advance(state: Download, event: Event, now: u64) -> (next: (Download, Action))
    ensures
        (next.0@, next.1@) == step(state@, event@, now),
{
    let Download { token, pending, stage } = state;
    match stage {
        Stage::Failed(e) => (
            Download { token, pending, stage: Stage::Failed(e) },
            Action::Fail(e),
        ),
        Stage::Finished => (Download { token, pending, stage: Stage::Finished }, Action::Finish),
        Stage::AwaitAlbum => match event {
            Event::AlbumListed(listing) => match album_track_ids(&listing) {
                Some(tracks) => take_up_next(token, tracks, now),
                None => stop(token, pending, DownloadError::MetadataFetchFailed),
            },
            _ => stop(token, pending, DownloadError::MetadataFetchFailed),
        },
        Stage::AwaitDescriptor { track_id } => match event {
            Event::DescriptorAnswered { status, body } => match descriptor_of_answer(
                status,
                &body,
            ) {
                Ok(descriptor) => {
                    let url = descriptor.urls[0].clone();
                    (
                        Download {
                            token,
                            pending,
                            stage: Stage::AwaitPayload { track_id, descriptor },
                        },
                        Action::FetchPayload { url },
                    )
                },
                Err(e) => stop(token, pending, e),
            },
            _ => stop(token, pending, DownloadError::DescriptorFetchFailed),
        },
        Stage::AwaitPayload { track_id, descriptor } => match event {
            Event::PayloadFetched(data) => match decode_track(&descriptor, data) {
                Ok((audio, format)) => {
                    let mut ids: Vec<String> = Vec::new();
                    ids.push(track_id);
                    assert(ids.deep_view() =~= seq![track_id@]);
                    match tracks_info(ids, &token) {
                        Ok(request) => (
                            Download {
                                token,
                                pending,
                                stage: Stage::AwaitMetadata { audio, format },
                            },
                            Action::FetchMetadata(request),
                        ),
                        Err(e) => stop(token, pending, e),
                    }
                },
                Err(e) => stop(token, pending, e),
            },
            _ => stop(token, pending, DownloadError::PayloadFetchFailed),
        },
        Stage::AwaitMetadata { audio, format } => match event {
            Event::MetadataFetched(body) => match record_of(
                json_at(json_get(&body, "result"), 0),
            ) {
                Some(record) => {
                    let mut info = TrackInfo::new();
                    info.fill(&record);
                    let name = file_name(&info, &format);
                    (
                        Download { token, pending, stage: Stage::AwaitWrite },
                        Action::WriteFile { name, data: audio },
                    )
                },
                None => stop(token, pending, DownloadError::MetadataFetchFailed),
            },
            _ => stop(token, pending, DownloadError::MetadataFetchFailed),
        },
        Stage::AwaitWrite => match event {
            Event::FileWritten => take_up_next(token, pending, now),
            _ => stop(token, pending, DownloadError::WriteFailed),
        },
    }
}

/// The state of a download after a run of events, each with the time at
/// which it was reported.
pub open spec fn state_after(state: DownloadView, events: Seq<(EventView, u64)>) -> DownloadView
    decreases events.len(),
{
    if events.len() == 0 {
        state
    } else {
        step(state_after(state, events.drop_last()), events.last().0, events.last().1).0
    }
}

/// The action that the event at place `i` of a run is answered with.
pub open spec fn action_at(
    state: DownloadView,
    events: Seq<(EventView, u64)>,
    i: int,
) -> ActionView {
    step(state_after(state, events.take(i)), events[i].0, events[i].1).1
}

/// A download that has stopped stays as it is, and answers every event with
/// the error it stopped on.
pub proof fn failure_is_final(state: DownloadView, event: EventView, now: u64)
    requires
        state.stage is Failed,
    ensures
        step(state, event, now) == (state, ActionView::Fail(state.stage->Failed_0)),
{
}

/// A step that stops a download says so in its action: the state is
/// `Failed` exactly when the action is `Fail`, and with the same error.
pub proof fn failure_is_reported(state: DownloadView, event: EventView, now: u64)
    ensures
        step(state, event, now).0.stage is Failed <==> step(state, event, now).1 is Fail,
        step(state, event, now).1 matches ActionView::Fail(e) ==> step(
            state,
            event,
            now,
        ).0.stage == StageView::Failed(e),
{
}

/// Once a download has stopped nothing more is written: if the state after
/// the first `k` events of a run is a failure, every later event of the run
/// is answered with that failure, so no later action stores a file. When one
/// track of an album fails, the tracks after it leave no file.
pub proof fn no_write_after_failure(
    state: DownloadView,
    events: Seq<(EventView, u64)>,
    k: int,
    j: int,
)
    requires
        0 <= k <= j < events.len(),
        state_after(state, events.take(k)).stage is Failed,
    ensures
        action_at(state, events, j) == ActionView::Fail(
            state_after(state, events.take(k)).stage->Failed_0,
        ),
        !(action_at(state, events, j) is WriteFile),
        state_after(state, events.take(j + 1)) == state_after(state, events.take(k)),
    decreases j - k,
{
    if k < j {
        no_write_after_failure(state, events, k, j - 1);
    }
    assert(events.take(j + 1).drop_last() =~= events.take(j));
    assert(events.take(j + 1).last() == events[j]);
}

} // verus!
