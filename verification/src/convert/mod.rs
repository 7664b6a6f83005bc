//! The conversion of one video, step by step.
//!
//! The library decides, the caller acts: each step takes the state of the
//! conversion and what the caller's last action brought, and returns the next
//! state and the next thing to do. Nothing here touches a network or a disk.

use vstd::prelude::*;
use vstd::string::*;
use crate::bitrate::BitRate;
use crate::error::{result_view, Error, ErrorKind, ErrorView};
use crate::text::{i64_to_string, signed_decimal};
use crate::youtube_url::{
    acceptable, lemma_new_accepts, new_spec, UrlParts, UrlPartsView, YouTubeURL,
};
use crate::convert::schema::{
    PayloadCheckDatabase, PayloadCheckDatabaseView, PayloadDownloadVideo,
    PayloadDownloadVideoView, PayloadGetVideoData, PayloadGetVideoDataView,
    PayloadInsertToDatabase, PayloadInsertToDatabaseView, ResponseCheckDatabase,
    ResponseDownloadVideo, ResponseGetVideoData, ResponseInsertToDatabase,
};

pub mod flagged;
pub mod schema;

verus! {

/// Where the service is asked whether it holds the audio of a video.
pub const CHECK_DATABASE_URL: &'static str = "https://cnvmp3.com/check_database.php";

/// Where the service is asked for the title of a video.
pub const GET_VIDEO_DATA_URL: &'static str = "https://cnvmp3.com/get_video_data.php";

/// Where the service is asked to convert a video.
pub const DOWNLOAD_VIDEO_URL: &'static str = "https://cnvmp3.com/download_video.php";

/// Where the service is told of a new entry.
pub const INSERT_TO_DATABASE_URL: &'static str = "https://cnvmp3.com/insert_to_database.php";

/// The referer that the service expects when a file is fetched.
pub const REFERER: &'static str = "https://cnvmp3.com";

/// The formats that the service converts to.
#[derive(Clone, Copy, Debug, PartialEq, Eq, Structural)]
pub enum DLFormat {
    MP4,
    MP3,
}

impl DLFormat {
    /// The number by which the conversion service knows the format.
    pub open spec fn spec_code(self) -> usize {
        match self {
            DLFormat::MP4 => 0,
            DLFormat::MP3 => 1,
        }
    }

    /// The number by which the conversion service knows the format.
    #[verifier::when_used_as_spec(spec_code)]
    pub fn code(self) -> (c: usize)
        ensures
            c == self.spec_code(),
    {
        match self {
            DLFormat::MP4 => 0,
            DLFormat::MP3 => 1,
        }
    }
}

/// Whether `buf` begins as an MP3 file does: with an ID3v2 tag, or with one
/// of three MPEG frame headers.
pub open spec fn looks_like_mp3(buf: Seq<u8>) -> bool {
    buf.len() > 2 && ((buf[0] == 0x49 && buf[1] == 0x44 && buf[2] == 0x33) || (buf[0] == 0xFF
        && buf[1] == 0xFB) || (buf[0] == 0xFF && buf[1] == 0xF3) || (buf[0] == 0xFF && buf[1]
        == 0xF2))
}

/// Calls `infer::audio::is_mp3`. The contract restates the test that its
/// source makes on the first three bytes of the buffer.
#[verifier::external_body]
fn is_mp3(buf: &[u8]) -> (r: bool)
    ensures
        r == looks_like_mp3(buf@),
{
    infer::audio::is_mp3(buf)
}

/// The file in which the audio of the video `youtube_id` is kept.
pub open spec fn local_path_spec(youtube_id: Seq<char>) -> Seq<char> {
    "mp3/"@ + youtube_id + ".mp3"@
}

/// The file in which the audio of the video `youtube_id` is kept.
pub fn local_path(youtube_id: &str) -> (r: String)
    ensures
        r@ == local_path_spec(youtube_id@),
{
    let mut r = String::from_str("mp3/");
    r.append(youtube_id);
    r.append(".mp3");
    r
}

/// Why the service gave no answer: the text is that of the error met.
#[derive(Debug, PartialEq)]
pub enum Failure {
    /// The request could not be sent, or was answered with an error.
    Send(String),
    /// The body of the answer could not be read.
    Body(String),
    /// The body of the answer had none of the expected shapes.
    Decode(String),
}

impl Failure {
    /// The error that reports the failure.
    pub open spec fn error_view(self) -> ErrorView {
        match self {
            Failure::Send(text) => ErrorView {
                kind: ErrorKind::ReqwestError,
                value: "HTTP request failed: "@ + text@,
            },
            Failure::Body(text) => ErrorView {
                kind: ErrorKind::ReqwestError,
                value: "Failed to read response as bytes: "@ + text@,
            },
            Failure::Decode(text) => ErrorView::serde(text@),
        }
    }

    /// The error that reports the failure.
    pub fn into_error(self) -> (r: Error)
        ensures
            r@ == self.error_view(),
    {
        match self {
            Failure::Send(text) => {
                let mut value = String::from_str("HTTP request failed: ");
                value.append(text.as_str());
                Error { kind: ErrorKind::ReqwestError, value }
            },
            Failure::Body(text) => {
                let mut value = String::from_str("Failed to read response as bytes: ");
                value.append(text.as_str());
                Error { kind: ErrorKind::ReqwestError, value }
            },
            Failure::Decode(text) => Error::serde(text.as_str()),
        }
    }
}

/// What the caller is to do next.
#[derive(Debug, PartialEq)]
pub enum Request {
    /// Find out whether the file `path` exists.
    ProbeLocal { path: String },
    /// Post the payload to `CHECK_DATABASE_URL`.
    CheckDatabase(PayloadCheckDatabase),
    /// Post the payload to `GET_VIDEO_DATA_URL`.
    GetVideoData(PayloadGetVideoData),
    /// Post the payload to `DOWNLOAD_VIDEO_URL`.
    DownloadVideo(PayloadDownloadVideo),
    /// Post the payload to `INSERT_TO_DATABASE_URL`.
    InsertToDatabase(PayloadInsertToDatabase),
    /// Get the bytes that lie at `server_path`.
    Fetch { server_path: String },
    /// Write `content` to the file `path`.
    Store { path: String, content: Vec<u8> },
    /// Stop: the conversion has ended, well or badly.
    Finish(Result<(), Error>),
}

/// `Request` as the contracts see it.
pub enum RequestView {
    ProbeLocal { path: Seq<char> },
    CheckDatabase(PayloadCheckDatabaseView),
    GetVideoData(PayloadGetVideoDataView),
    DownloadVideo(PayloadDownloadVideoView),
    InsertToDatabase(PayloadInsertToDatabaseView),
    Fetch { server_path: Seq<char> },
    Store { path: Seq<char>, content: Seq<u8> },
    Finish(Result<(), ErrorView>),
}

impl View for Request {
    type V = RequestView;

    open spec fn view(&self) -> RequestView {
        match *self {
            Request::ProbeLocal { path } => RequestView::ProbeLocal { path: path@ },
            Request::CheckDatabase(p) => RequestView::CheckDatabase(p@),
            Request::GetVideoData(p) => RequestView::GetVideoData(p@),
            Request::DownloadVideo(p) => RequestView::DownloadVideo(p@),
            Request::InsertToDatabase(p) => RequestView::InsertToDatabase(p@),
            Request::Fetch { server_path } => RequestView::Fetch { server_path: server_path@ },
            Request::Store { path, content } => RequestView::Store {
                path: path@,
                content: content@,
            },
            Request::Finish(Ok(())) => RequestView::Finish(Ok(())),
            Request::Finish(Err(e)) => RequestView::Finish(Err(e@)),
        }
    }
}

/// What the caller's last action brought.
#[derive(Debug, PartialEq)]
pub enum Event {
    /// Whether the file exists.
    LocalFile(bool),
    /// The answer from `CHECK_DATABASE_URL`.
    CheckDatabase(Result<ResponseCheckDatabase, Failure>),
    /// The answer from `GET_VIDEO_DATA_URL`.
    GetVideoData(Result<ResponseGetVideoData, Failure>),
    /// The answer from `DOWNLOAD_VIDEO_URL`.
    DownloadVideo(Result<ResponseDownloadVideo, Failure>),
    /// The answer from `INSERT_TO_DATABASE_URL`.
    InsertToDatabase(Result<ResponseInsertToDatabase, Failure>),
    /// The bytes fetched, or the text of the error that kept them.
    Fetched(Result<Vec<u8>, String>),
    /// Whether the file was written; if not, the text of the error.
    Stored(Result<(), String>),
}

/// How far a conversion has come: what it waits for.
#[derive(Debug, PartialEq)]
pub enum Stage {
    /// Waits to hear whether the audio is already on disk.
    LocalProbe,
    /// Waits to hear whether the service holds the audio.
    CheckDatabase,
    /// Waits for the title of the video.
    GetVideoData,
    /// Waits for the service to convert the video called `title`.
    DownloadVideo { title: String },
    /// Waits for the service to take the entry for `download_link`.
    InsertToDatabase { download_link: String },
    /// Waits for the bytes of the audio.
    Fetch,
    /// Waits for the audio to be written to disk.
    Store,
    /// Has ended.
    Done,
}

/// `Stage` as the contracts see it.
pub enum StageView {
    LocalProbe,
    CheckDatabase,
    GetVideoData,
    DownloadVideo { title: Seq<char> },
    InsertToDatabase { download_link: Seq<char> },
    Fetch,
    Store,
    Done,
}

impl StageView {
    /// Whether a conversion at this stage waits for what `request` brings.
    pub open spec fn awaits(self, request: RequestView) -> bool {
        match (self, request) {
            (StageView::LocalProbe, RequestView::ProbeLocal { .. }) => true,
            (StageView::CheckDatabase, RequestView::CheckDatabase(_)) => true,
            (StageView::GetVideoData, RequestView::GetVideoData(_)) => true,
            (StageView::DownloadVideo { title }, RequestView::DownloadVideo(payload)) => title
                == payload.title,
            (
                StageView::InsertToDatabase { download_link },
                RequestView::InsertToDatabase(payload),
            ) => download_link == payload.server_path,
            (StageView::Fetch, RequestView::Fetch { .. }) => true,
            (StageView::Store, RequestView::Store { .. }) => true,
            (StageView::Done, RequestView::Finish(_)) => true,
            _ => false,
        }
    }

    /// The number of steps that a conversion at this stage can still take.
    pub open spec fn rank(self) -> nat {
        match self {
            StageView::LocalProbe => 7,
            StageView::CheckDatabase => 6,
            StageView::GetVideoData => 5,
            StageView::DownloadVideo { .. } => 4,
            StageView::InsertToDatabase { .. } => 3,
            StageView::Fetch => 2,
            StageView::Store => 1,
            StageView::Done => 0,
        }
    }
}

impl View for Stage {
    type V = StageView;

    open spec fn view(&self) -> StageView {
        match *self {
            Stage::LocalProbe => StageView::LocalProbe,
            Stage::CheckDatabase => StageView::CheckDatabase,
            Stage::GetVideoData => StageView::GetVideoData,
            Stage::DownloadVideo { title } => StageView::DownloadVideo { title: title@ },
            Stage::InsertToDatabase { download_link } => StageView::InsertToDatabase {
                download_link: download_link@,
            },
            Stage::Fetch => StageView::Fetch,
            Stage::Store => StageView::Store,
            Stage::Done => StageView::Done,
        }
    }
}

impl Clone for Stage {
    fn clone(&self) -> (r: Stage)
        ensures
            r@ == self@,
    {
        match self {
            Stage::LocalProbe => Stage::LocalProbe,
            Stage::CheckDatabase => Stage::CheckDatabase,
            Stage::GetVideoData => Stage::GetVideoData,
            Stage::DownloadVideo { title } => Stage::DownloadVideo { title: title.clone() },
            Stage::InsertToDatabase { download_link } => Stage::InsertToDatabase {
                download_link: download_link.clone(),
            },
            Stage::Fetch => Stage::Fetch,
            Stage::Store => Stage::Store,
            Stage::Done => Stage::Done,
        }
    }
}

/// The conversion of one video at one quality.
#[derive(Debug, PartialEq)]
pub struct Conversion {
    /// The link to the video, in full.
    pub url: String,
    /// The identifier of the video.
    pub youtube_id: String,
    /// The quality asked for.
    pub quality: BitRate,
    /// How far the conversion has come.
    pub stage: Stage,
}

/// `Conversion` as the contracts see it.
pub struct ConversionView {
    pub url: Seq<char>,
    pub youtube_id: Seq<char>,
    pub quality: BitRate,
    pub stage: StageView,
}

impl View for Conversion {
    type V = ConversionView;

    open spec fn view(&self) -> ConversionView {
        ConversionView {
            url: self.url@,
            youtube_id: self.youtube_id@,
            quality: self.quality,
            stage: self.stage@,
        }
    }
}

/// A line for the user, by the stream that it is to be written to.
#[derive(Debug, PartialEq)]
pub enum Note {
    /// A line for standard output.
    Stdout(String),
    /// A line for standard error.
    Stderr(String),
}

/// `Note` as the contracts see it.
pub enum NoteView {
    Stdout(Seq<char>),
    Stderr(Seq<char>),
}

impl View for Note {
    type V = NoteView;

    open spec fn view(&self) -> NoteView {
        match *self {
            Note::Stdout(text) => NoteView::Stdout(text@),
            Note::Stderr(text) => NoteView::Stderr(text@),
        }
    }
}

/// The view of an optional note.
pub open spec fn note_view(note: Option<Note>) -> Option<NoteView> {
    match note {
        Some(n) => Some(n@),
        None => None,
    }
}

/// One step of a conversion: the new state, a line for the user where there
/// is something to tell, and what to do next.
#[derive(Debug, PartialEq)]
pub struct Step {
    pub state: Conversion,
    pub note: Option<Note>,
    pub request: Request,
}

/// `Step` as the contracts see it.
pub struct StepView {
    pub state: ConversionView,
    pub note: Option<NoteView>,
    pub request: RequestView,
}

impl View for Step {
    type V = StepView;

    open spec fn view(&self) -> StepView {
        StepView {
            state: self.state@,
            note: note_view(self.note),
            request: self.request@,
        }
    }
}

impl ConversionView {
    /// The conversion goes on to `stage` and asks for `request`.
    pub open spec fn proceed(self, stage: StageView, note: Option<NoteView>, request: RequestView)
        -> StepView {
        StepView {
            state: ConversionView {
                url: self.url,
                youtube_id: self.youtube_id,
                quality: self.quality,
                stage,
            },
            note,
            request,
        }
    }

    /// The conversion ends with `result`.
    pub open spec fn finish(self, note: Option<NoteView>, result: Result<(), ErrorView>)
        -> StepView {
        self.proceed(StageView::Done, note, RequestView::Finish(result))
    }

    /// The conversion ends with an error of the kind `kind`.
    pub open spec fn fail(self, kind: ErrorKind, value: Seq<char>) -> StepView {
        self.finish(None, Err(ErrorView { kind, value }))
    }
}

/// The payload that asks whether the service holds the audio of a video.
pub fn check_database(youtube_id: String, quality: BitRate) -> (r: PayloadCheckDatabase)
    ensures
        r@ == (PayloadCheckDatabaseView {
            format_value: DLFormat::MP3.code(),
            quality,
            youtube_id: youtube_id@,
        }),
{
    PayloadCheckDatabase { format_value: DLFormat::MP3.code(), quality, youtube_id }
}

/// The payload that asks for the title of the video at `url`.
pub fn cdn_fetch(url: String) -> (r: PayloadGetVideoData)
    ensures
        r@ == (PayloadGetVideoDataView { url: url@ }),
{
    PayloadGetVideoData { url }
}

/// The payload that asks the service to convert the video at `url`.
pub fn srv_download(url: String, title: String, quality: BitRate) -> (r: PayloadDownloadVideo)
    ensures
        r@ == (PayloadDownloadVideoView {
            format_value: DLFormat::MP3.code(),
            quality,
            title: title@,
            url: url@,
        }),
{
    PayloadDownloadVideo { format_value: DLFormat::MP3.code(), quality, title, url }
}

/// The payload that tells the service where the audio of a video lies.
pub fn cdn_insert(server_path: String, title: String, youtube_id: String, quality: BitRate) -> (r:
    PayloadInsertToDatabase)
    ensures
        r@ == (PayloadInsertToDatabaseView {
            format_value: DLFormat::MP3.code(),
            quality,
            server_path: server_path@,
            title: title@,
            youtube_id: youtube_id@,
        }),
{
    PayloadInsertToDatabase {
        format_value: DLFormat::MP3.code(),
        quality,
        server_path,
        title,
        youtube_id,
    }
}

/// What becomes of fetched bytes: they are stored under the video's
/// identifier if they look like MP3 data, and refused if not.
pub open spec fn cdn_download_spec(content: Seq<u8>, youtube_id: Seq<char>) -> Result<
    RequestView,
    Seq<char>,
> {
    if looks_like_mp3(content) {
        Ok(RequestView::Store { path: local_path_spec(youtube_id), content })
    } else {
        Err("downloaded content is not an mp3 file"@)
    }
}

/// Judges the bytes fetched for the video `youtube_id`: the request to store
/// them, or the reason why they are refused.
pub fn cdn_download(content: Vec<u8>, youtube_id: &str) -> (r: Result<Request, String>)
    ensures
        result_view(r) == cdn_download_spec(content@, youtube_id@),
{
    if is_mp3(content.as_slice()) {
        Ok(Request::Store { path: local_path(youtube_id), content })
    } else {
        Err(String::from_str("downloaded content is not an mp3 file"))
    }
}

/// The line that tells the user which quality is asked for.
pub fn bitrate_note(quality: BitRate) -> (r: Note)
    ensures
        r@ == NoteView::Stderr("info: using bitrate = "@ + quality.debug_text()),
{
    let name = quality.to_debug_string();
    Note::Stderr(prefixed("info: using bitrate = ", name.as_str()))
}

/// The first step of a conversion: it asks whether the audio is on disk.
pub open spec fn begin_spec(url: Seq<char>, youtube_id: Seq<char>, quality: BitRate) -> StepView {
    StepView {
        state: ConversionView { url, youtube_id, quality, stage: StageView::LocalProbe },
        note: None,
        request: RequestView::ProbeLocal { path: local_path_spec(youtube_id) },
    }
}

/// How the conversion of the video behind `url` starts: as that of the link
/// that `url` is, or not at all where `url` is refused as a link.
pub open spec fn start_spec(url: UrlPartsView, quality: BitRate) -> Result<StepView, ErrorView> {
    match new_spec(url) {
        Ok(link) => Ok(begin_spec(link.url.href, link.id, quality)),
        Err(e) => Err(e),
    }
}

/// A conversion starts for acceptable links and for no others.
pub proof fn lemma_start_needs_an_acceptable_link(url: UrlPartsView, quality: BitRate)
    ensures
        start_spec(url, quality) is Ok <==> acceptable(url),
{
    lemma_new_accepts(url);
}

/// What a conversion in the state `st` does when `ev` arrives.
///
/// A file already on disk ends the conversion at once. Audio that the service
/// holds is fetched from where the service says; otherwise the service is
/// asked for the title, then to convert, then to take the new entry, and the
/// audio is fetched from where the conversion put it. Fetched bytes are
/// stored only if they look like MP3 data. Any failure ends the conversion
/// with its error, and so does an event that does not answer the last
/// request.
pub open spec fn y2mp3_spec(st: ConversionView, ev: Event) -> StepView {
    match (st.stage, ev) {
        (StageView::LocalProbe, Event::LocalFile(exists)) => if exists {
            st.finish(
                Some(
                    NoteView::Stdout(
                        "info: the requested video has already been saved locally as mp3"@,
                    ),
                ),
                Ok(()),
            )
        } else {
            st.proceed(
                StageView::CheckDatabase,
                None,
                RequestView::CheckDatabase(
                    PayloadCheckDatabaseView {
                        format_value: DLFormat::MP3.code(),
                        quality: st.quality,
                        youtube_id: st.youtube_id,
                    },
                ),
            )
        },
        (StageView::CheckDatabase, Event::CheckDatabase(Ok(ResponseCheckDatabase::Exist(found)))) =>
            st.proceed(
            StageView::Fetch,
            None,
            RequestView::Fetch { server_path: found.data.server_path@ },
        ),
        (
            StageView::CheckDatabase,
            Event::CheckDatabase(Ok(ResponseCheckDatabase::NoExist(missing))),
        ) => st.proceed(
            StageView::GetVideoData,
            Some(NoteView::Stderr("info: "@ + missing.error@)),
            RequestView::GetVideoData(PayloadGetVideoDataView { url: st.url }),
        ),
        (StageView::CheckDatabase, Event::CheckDatabase(Err(failure))) => st.finish(
            None,
            Err(failure.error_view()),
        ),
        (StageView::GetVideoData, Event::GetVideoData(Ok(ResponseGetVideoData::Success(data)))) =>
            st.proceed(
            StageView::DownloadVideo { title: data.title@ },
            None,
            RequestView::DownloadVideo(
                PayloadDownloadVideoView {
                    format_value: DLFormat::MP3.code(),
                    quality: st.quality,
                    title: data.title@,
                    url: st.url,
                },
            ),
        ),
        (StageView::GetVideoData, Event::GetVideoData(Ok(ResponseGetVideoData::Fail(fail)))) =>
            st.fail(ErrorKind::CNVResponseError, "get_video_data.php failed: "@ + fail.error@),
        (StageView::GetVideoData, Event::GetVideoData(Err(failure))) => st.finish(
            None,
            Err(failure.error_view()),
        ),
        (
            StageView::DownloadVideo { title },
            Event::DownloadVideo(Ok(ResponseDownloadVideo::Success(data))),
        ) => st.proceed(
            StageView::InsertToDatabase { download_link: data.download_link@ },
            None,
            RequestView::InsertToDatabase(
                PayloadInsertToDatabaseView {
                    format_value: DLFormat::MP3.code(),
                    quality: st.quality,
                    server_path: data.download_link@,
                    title,
                    youtube_id: st.youtube_id,
                },
            ),
        ),
        (
            StageView::DownloadVideo { .. },
            Event::DownloadVideo(Ok(ResponseDownloadVideo::Fail(fail))),
        ) => st.fail(
            ErrorKind::CNVResponseError,
            "download_video.php failed: "@ + signed_decimal(fail.error_type as int) + " "@
                + fail.error@,
        ),
        (StageView::DownloadVideo { .. }, Event::DownloadVideo(Err(failure))) => st.finish(
            None,
            Err(failure.error_view()),
        ),
        (
            StageView::InsertToDatabase { download_link },
            Event::InsertToDatabase(Ok(ResponseInsertToDatabase::Success(data))),
        ) => st.proceed(
            StageView::Fetch,
            Some(NoteView::Stderr("info: "@ + data.message@)),
            RequestView::Fetch { server_path: download_link },
        ),
        (
            StageView::InsertToDatabase { .. },
            Event::InsertToDatabase(Ok(ResponseInsertToDatabase::Fail(fail))),
        ) => st.fail(
            ErrorKind::CNVResponseError,
            "insert_to_database.php failed: "@ + fail.error@,
        ),
        (StageView::InsertToDatabase { .. }, Event::InsertToDatabase(Err(failure))) => st.finish(
            None,
            Err(failure.error_view()),
        ),
        (StageView::Fetch, Event::Fetched(Ok(content))) => match cdn_download_spec(
            content@,
            st.youtube_id,
        ) {
            Ok(request) => st.proceed(StageView::Store, None, request),
            Err(reason) => st.fail(ErrorKind::Error, "error: "@ + reason),
        },
        (StageView::Fetch, Event::Fetched(Err(text))) => st.fail(
            ErrorKind::Error,
            "error: "@ + text@,
        ),
        (StageView::Store, Event::Stored(Ok(()))) => st.finish(None, Ok(())),
        (StageView::Store, Event::Stored(Err(text))) => st.fail(
            ErrorKind::Error,
            "error: "@ + text@,
        ),
        _ => st.fail(ErrorKind::Error, "the event does not answer the last request"@),
    }
}

/// `prefix` followed by `text`.
pub(crate) fn prefixed(prefix: &str, text: &str) -> (r: String)
    ensures
        r@ == prefix@ + text@,
{
    let mut r = String::from_str(prefix);
    r.append(text);
    r
}

impl Conversion {
    /// Reads `url` as a link to a video and starts its conversion at the
    /// quality `quality`; a link that is refused starts nothing.
    pub fn start(url: UrlParts, quality: BitRate) -> (r: Result<Step, Error>)
        ensures
            result_view(r) == start_spec(url@, quality),
    {
        match YouTubeURL::new(url) {
            Ok(link) => Ok(Conversion::begin(link, quality)),
            Err(e) => Err(e),
        }
    }

    /// Starts the conversion of the video behind `link` at the quality
    /// `quality`.
    pub fn begin(link: YouTubeURL, quality: BitRate) -> (r: Step)
        ensures
            r@ == begin_spec(link@.url.href, link@.id, quality),
    {
        let path = local_path(link.id.as_str());
        Step {
            state: Conversion {
                url: link.url.href,
                youtube_id: link.id,
                quality,
                stage: Stage::LocalProbe,
            },
            note: None,
            request: Request::ProbeLocal { path },
        }
    }

    pub(crate) fn proceed(self, stage: Stage, note: Option<Note>, request: Request) -> (r: Step)
        ensures
            r@ == self@.proceed(stage@, note_view(note), request@),
    {
        Step {
            state: Conversion {
                url: self.url,
                youtube_id: self.youtube_id,
                quality: self.quality,
                stage,
            },
            note,
            request,
        }
    }

    pub(crate) fn fail(self, kind: ErrorKind, value: String) -> (r: Step)
        ensures
            r@ == self@.fail(kind, value@),
    {
        self.proceed(Stage::Done, None, Request::Finish(Err(Error { kind, value })))
    }

    fn give_up(self, failure: Failure) -> (r: Step)
        ensures
            r@ == self@.finish(None, Err(failure.error_view())),
    {
        self.proceed(Stage::Done, None, Request::Finish(Err(failure.into_error())))
    }

    pub(crate) fn out_of_turn(self) -> (r: Step)
        ensures
            r@ == self@.fail(ErrorKind::Error, "the event does not answer the last request"@),
    {
        self.fail(ErrorKind::Error, String::from_str("the event does not answer the last request"))
    }
}

/// Takes a conversion one step on: `state` is where it stood, `event` what
/// the last request brought.
pub fn y2mp3(state: Conversion, event: Event) -> (r: Step)
    ensures
        r@ == y2mp3_spec(state@, event),
{
    match (&state.stage, event) {
        (Stage::LocalProbe, Event::LocalFile(exists)) => {
            if exists {
                let note = Note::Stdout(
                    String::from_str(
                        "info: the requested video has already been saved locally as mp3",
                    ),
                );
                state.proceed(Stage::Done, Some(note), Request::Finish(Ok(())))
            } else {
                let payload = check_database(state.youtube_id.clone(), state.quality);
                state.proceed(Stage::CheckDatabase, None, Request::CheckDatabase(payload))
            }
        },
        (Stage::CheckDatabase, Event::CheckDatabase(Ok(ResponseCheckDatabase::Exist(found)))) => {
            let server_path = found.data.server_path;
            state.proceed(Stage::Fetch, None, Request::Fetch { server_path })
        },
        (Stage::CheckDatabase, Event::CheckDatabase(Ok(ResponseCheckDatabase::NoExist(missing)))) => {
            let note = Note::Stderr(prefixed("info: ", missing.error.as_str()));
            let payload = cdn_fetch(state.url.clone());
            state.proceed(Stage::GetVideoData, Some(note), Request::GetVideoData(payload))
        },
        (Stage::CheckDatabase, Event::CheckDatabase(Err(failure))) => state.give_up(failure),
        (Stage::GetVideoData, Event::GetVideoData(Ok(ResponseGetVideoData::Success(data)))) => {
            let title = data.title;
            let payload = srv_download(state.url.clone(), title.clone(), state.quality);
            state.proceed(Stage::DownloadVideo { title }, None, Request::DownloadVideo(payload))
        },
        (Stage::GetVideoData, Event::GetVideoData(Ok(ResponseGetVideoData::Fail(fail)))) => {
            let value = prefixed("get_video_data.php failed: ", fail.error.as_str());
            state.fail(ErrorKind::CNVResponseError, value)
        },
        (Stage::GetVideoData, Event::GetVideoData(Err(failure))) => state.give_up(failure),
        (
            Stage::DownloadVideo { title },
            Event::DownloadVideo(Ok(ResponseDownloadVideo::Success(data))),
        ) => {
            let download_link = data.download_link;
            let payload = cdn_insert(
                download_link.clone(),
                title.clone(),
                state.youtube_id.clone(),
                state.quality,
            );
            state.proceed(
                Stage::InsertToDatabase { download_link },
                None,
                Request::InsertToDatabase(payload),
            )
        },
        (
            Stage::DownloadVideo { .. },
            Event::DownloadVideo(Ok(ResponseDownloadVideo::Fail(fail))),
        ) => {
            let number = i64_to_string(fail.error_type);
            let mut value = prefixed("download_video.php failed: ", number.as_str());
            value.append(" ");
            value.append(fail.error.as_str());
            state.fail(ErrorKind::CNVResponseError, value)
        },
        (Stage::DownloadVideo { .. }, Event::DownloadVideo(Err(failure))) => state.give_up(failure),
        (
            Stage::InsertToDatabase { download_link },
            Event::InsertToDatabase(Ok(ResponseInsertToDatabase::Success(data))),
        ) => {
            let note = Note::Stderr(prefixed("info: ", data.message.as_str()));
            let server_path = download_link.clone();
            state.proceed(Stage::Fetch, Some(note), Request::Fetch { server_path })
        },
        (
            Stage::InsertToDatabase { .. },
            Event::InsertToDatabase(Ok(ResponseInsertToDatabase::Fail(fail))),
        ) => {
            let value = prefixed("insert_to_database.php failed: ", fail.error.as_str());
            state.fail(ErrorKind::CNVResponseError, value)
        },
        (Stage::InsertToDatabase { .. }, Event::InsertToDatabase(Err(failure))) => state.give_up(
            failure,
        ),
        (Stage::Fetch, Event::Fetched(Ok(content))) => {
            match cdn_download(content, state.youtube_id.as_str()) {
                Ok(request) => state.proceed(Stage::Store, None, request),
                Err(reason) => {
                    let value = prefixed("error: ", reason.as_str());
                    state.fail(ErrorKind::Error, value)
                },
            }
        },
        (Stage::Fetch, Event::Fetched(Err(text))) => {
            let value = prefixed("error: ", text.as_str());
            state.fail(ErrorKind::Error, value)
        },
        (Stage::Store, Event::Stored(Ok(()))) => state.proceed(
            Stage::Done,
            None,
            Request::Finish(Ok(())),
        ),
        (Stage::Store, Event::Stored(Err(text))) => {
            let value = prefixed("error: ", text.as_str());
            state.fail(ErrorKind::Error, value)
        },
        _ => state.out_of_turn(),
    }
}

/// Where a conversion stands after the events `events`, taken in turn.
pub open spec fn y2mp3_after(st: ConversionView, events: Seq<Event>) -> ConversionView
    decreases events.len(),
{
    if events.len() == 0 {
        st
    } else {
        y2mp3_spec(y2mp3_after(st, events.drop_last()), events.last()).state
    }
}

/// Every step brings a conversion nearer to its end: the rank of its stage
/// falls, and a conversion that has ended stays so.
pub proof fn lemma_y2mp3_progress(st: ConversionView, ev: Event)
    ensures
        st.stage is Done || y2mp3_spec(st, ev).state.stage.rank() < st.stage.rank(),
        st.stage is Done ==> y2mp3_spec(st, ev).state.stage is Done,
{
}

/// A conversion has ended after as many events as the rank of its stage,
/// whatever they are: at most seven from the start.
pub proof fn lemma_y2mp3_ends(st: ConversionView, events: Seq<Event>)
    ensures
        y2mp3_after(st, events).stage.rank() + events.len() <= st.stage.rank() || y2mp3_after(
            st,
            events,
        ).stage is Done,
        events.len() >= st.stage.rank() ==> y2mp3_after(st, events).stage is Done,
    decreases events.len(),
{
    if events.len() > 0 {
        lemma_y2mp3_ends(st, events.drop_last());
        lemma_y2mp3_progress(y2mp3_after(st, events.drop_last()), events.last());
    }
}

/// After every step, and at the start, the conversion waits for what the
/// request just made brings: so it asks to finish exactly when it has ended.
pub proof fn lemma_y2mp3_awaits_its_request(st: ConversionView, ev: Event)
    ensures
        y2mp3_spec(st, ev).state.stage.awaits(y2mp3_spec(st, ev).request),
        y2mp3_spec(st, ev).request is Finish <==> y2mp3_spec(st, ev).state.stage is Done,
        begin_spec(st.url, st.youtube_id, st.quality).state.stage.awaits(
            begin_spec(st.url, st.youtube_id, st.quality).request,
        ),
{
}

/// What is sent to the service speaks of the video that is converted, asks
/// for MP3 at the quality of the conversion, and names the link in full.
pub proof fn lemma_y2mp3_payloads(st: ConversionView, ev: Event)
    ensures
        (y2mp3_spec(st, ev).request matches RequestView::CheckDatabase(p) ==> {
            &&& p.youtube_id == st.youtube_id
            &&& p.quality == st.quality
            &&& p.format_value == DLFormat::MP3.code()
        }),
        (y2mp3_spec(st, ev).request matches RequestView::GetVideoData(p) ==> p.url == st.url),
        (y2mp3_spec(st, ev).request matches RequestView::DownloadVideo(p) ==> {
            &&& p.url == st.url
            &&& p.quality == st.quality
            &&& p.format_value == DLFormat::MP3.code()
        }),
        (y2mp3_spec(st, ev).request matches RequestView::InsertToDatabase(p) ==> {
            &&& p.youtube_id == st.youtube_id
            &&& p.quality == st.quality
            &&& p.format_value == DLFormat::MP3.code()
        }),
{
}

/// A step changes the stage of a conversion and nothing else: the link, the
/// identifier and the quality stay.
pub proof fn lemma_y2mp3_keeps_subject(st: ConversionView, ev: Event)
    ensures
        y2mp3_spec(st, ev).state.url == st.url,
        y2mp3_spec(st, ev).state.youtube_id == st.youtube_id,
        y2mp3_spec(st, ev).state.quality == st.quality,
{
}

/// Nothing is stored but bytes that were fetched and look like MP3 data, and
/// only in the file of the video that is converted.
pub proof fn lemma_y2mp3_stores_mp3_only(st: ConversionView, ev: Event)
    ensures
        (y2mp3_spec(st, ev).request matches RequestView::Store { path, content } ==> {
            &&& st.stage is Fetch
            &&& ev matches Event::Fetched(Ok(fetched))
            &&& content == fetched@
            &&& looks_like_mp3(content)
            &&& path == local_path_spec(st.youtube_id)
        }),
{
}

/// A file already on disk ends the conversion at once and without error: no
/// request goes to the service.
pub proof fn lemma_y2mp3_skips_when_on_disk(st: ConversionView)
    requires
        st.stage is LocalProbe,
    ensures
        y2mp3_spec(st, Event::LocalFile(true)).request == RequestView::Finish(Ok(())),
        y2mp3_spec(st, Event::LocalFile(true)).state.stage is Done,
{
}

/// The service is asked to convert only what it said it does not hold, and
/// audio that it holds is fetched from where it said.
pub proof fn lemma_y2mp3_converts_only_what_is_missing(st: ConversionView, ev: Event)
    ensures
        (y2mp3_spec(st, ev).request is GetVideoData ==> {
            &&& st.stage is CheckDatabase
            &&& ev matches Event::CheckDatabase(Ok(ResponseCheckDatabase::NoExist(_)))
        }),
        (ev matches Event::CheckDatabase(Ok(ResponseCheckDatabase::Exist(found))) ==> {
            st.stage is CheckDatabase ==> y2mp3_spec(st, ev).request == (RequestView::Fetch {
                server_path: found.data.server_path@,
            })
        }),
{
}

/// Fetched bytes that do not look like MP3 data are refused: the conversion
/// ends with an error, and nothing is stored.
pub proof fn lemma_y2mp3_refuses_other_bytes(st: ConversionView, content: Vec<u8>)
    requires
        st.stage is Fetch,
        !looks_like_mp3(content@),
    ensures
        y2mp3_spec(st, Event::Fetched(Ok(content))).request is Finish,
        y2mp3_spec(st, Event::Fetched(Ok(content))).request->Finish_0 is Err,
{
}

} // verus!
