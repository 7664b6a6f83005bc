//! The conversion of one video where the service's replies are taken as
//! loose JSON and judged by their `success` flag.
//!
//! This is the plain form of the conversion: always at 96 kb/s, for links
//! to one host, with the identifier read from the parameter `v` of the
//! link's query as the URL parser decodes it.

use vstd::prelude::*;
use vstd::string::*;
use crate::bitrate::BitRate;
use crate::error::{result_view, Error, ErrorKind, ErrorView};
use crate::youtube_url::{opt_view, UrlParts, UrlPartsView};
use crate::convert::{
    begin_spec, cdn_download, cdn_download_spec, cdn_fetch, cdn_insert, check_database,
    local_path, local_path_spec, looks_like_mp3, prefixed, srv_download, Conversion,
    ConversionView, DLFormat, Failure, Note, NoteView, Request, RequestView, Stage, StageView,
    Step, StepView,
};
use crate::convert::schema::{
    PayloadCheckDatabaseView, PayloadDownloadVideoView, PayloadGetVideoDataView,
    PayloadInsertToDatabaseView, ResponseCheckDatabase, ResponseDownloadVideo,
    ResponseGetVideoData, ResponseInsertToDatabase,
};

verus! {

/// The only host whose links this form of the conversion takes.
pub const HOST: &'static str = "www.youtube.com";

/// The parameter of a link's query that holds the identifier of the video.
pub const ID_PARAMETER: &'static str = "v";

/// The field of a reply that says whether the service did what was asked.
pub const FLAG: &'static str = "success";

/// The pairs of name and value that a query holds when it is read as
/// `application/x-www-form-urlencoded`, decoded and in their order.
pub uninterp spec fn query_pairs(query: Seq<char>) -> Seq<(Seq<char>, Seq<char>)>;

/// Walks the iterator that `url::form_urlencoded::parse` makes of the bytes
/// of `query`, which is how `Url::query_pairs` reads a link's query, and
/// hands out every pair that it yields, name and value as owned strings. The
/// pairs come decoded, by rules that are not restated here: the contract
/// only gives them their name, `query_pairs`.
#[verifier::external_body]
fn decoded_pairs(query: &str) -> (r: Vec<(String, String)>)
    ensures
        r.deep_view() == query_pairs(query@),
{
    let mut pairs = Vec::new();
    for (name, value) in url::form_urlencoded::parse(query.as_bytes()) {
        pairs.push((name.into_owned(), value.into_owned()));
    }
    pairs
}

/// The value of the first of `pairs` whose name is `name`.
pub open spec fn first_value(pairs: Seq<(Seq<char>, Seq<char>)>, name: Seq<char>) -> Option<
    Seq<char>,
>
    decreases pairs.len(),
{
    if pairs.len() == 0 {
        None
    } else if pairs[0].0 == name {
        Some(pairs[0].1)
    } else {
        first_value(pairs.skip(1), name)
    }
}

/// The value of the first of `pairs` whose name is `name`.
pub fn value_named(pairs: &Vec<(String, String)>, name: &str) -> (r: Option<String>)
    ensures
        opt_view(r) == first_value(pairs.deep_view(), name@),
{
    let wanted = String::from_str(name);
    let ghost all = pairs.deep_view();
    let mut i: usize = 0;
    assert(all.skip(0) =~= all);
    while i < pairs.len()
        invariant
            i <= pairs.len(),
            all == pairs.deep_view(),
            wanted@ == name@,
            first_value(all, name@) == first_value(all.skip(i as int), name@),
        decreases pairs.len() - i,
    {
        let ghost rest = all.skip(i as int);
        assert(rest[0] == all[i as int]);
        assert(all[i as int] == (pairs@[i as int].0@, pairs@[i as int].1@));
        assert(rest.skip(1) =~= all.skip(i + 1));
        if pairs[i].0 == wanted {
            return Some(pairs[i].1.clone());
        }
        i = i + 1;
    }
    None
}

/// What the JSON document `body` holds in its field `key`: the boolean, or
/// `None` where it has no such field or the field is no boolean; where
/// `body` is no JSON document, the message of the reader that refused it.
pub uninterp spec fn json_bool_field(body: Seq<u8>, key: Seq<char>) -> Result<
    Option<bool>,
    Seq<char>,
>;

/// Reads `body` with `serde_json::from_slice` as a `serde_json::Value`,
/// looks up the field `key` with `Value::get` and takes its boolean with
/// `Value::as_bool`; an error of the reader is handed on as the text that it
/// displays. All of this depends on `body` and `key` alone, and the contract
/// gives it a name, `json_bool_field`, without restating the grammar of
/// JSON.
#[verifier::external_body]
fn read_bool_field(body: &[u8], key: &str) -> (r: Result<Option<bool>, String>)
    ensures
        result_view(r) == json_bool_field(body@, key@),
{
    match serde_json::from_slice::<serde_json::Value>(body) {
        Ok(value) => Ok(
            match value.get(key) {
                Some(flag) => flag.as_bool(),
                None => None,
            },
        ),
        Err(e) => Err(e.to_string()),
    }
}

/// How a reply of the service is to be read.
#[derive(Debug, PartialEq)]
pub enum Shape {
    /// It is no JSON document; the text says why.
    NoJson(String),
    /// It holds no boolean `success`.
    Unflagged,
    /// Its `success` is true: it holds what was asked for.
    Success,
    /// Its `success` is false: it holds the reason.
    Refusal,
}

/// `Shape` as the contracts see it.
pub enum ShapeView {
    NoJson(Seq<char>),
    Unflagged,
    Success,
    Refusal,
}

impl View for Shape {
    type V = ShapeView;

    open spec fn view(&self) -> ShapeView {
        match *self {
            Shape::NoJson(text) => ShapeView::NoJson(text@),
            Shape::Unflagged => ShapeView::Unflagged,
            Shape::Success => ShapeView::Success,
            Shape::Refusal => ShapeView::Refusal,
        }
    }
}

/// How a reply is to be read, given what its field `FLAG` holds.
pub open spec fn shape_from_flag_spec(flag: Result<Option<bool>, Seq<char>>) -> ShapeView {
    match flag {
        Err(text) => ShapeView::NoJson(text),
        Ok(None) => ShapeView::Unflagged,
        Ok(Some(true)) => ShapeView::Success,
        Ok(Some(false)) => ShapeView::Refusal,
    }
}

/// How a reply is to be read, given what its field `FLAG` holds.
pub fn shape_from_flag(flag: Result<Option<bool>, String>) -> (r: Shape)
    ensures
        r@ == shape_from_flag_spec(result_view(flag)),
{
    match flag {
        Err(text) => Shape::NoJson(text),
        Ok(None) => Shape::Unflagged,
        Ok(Some(true)) => Shape::Success,
        Ok(Some(false)) => Shape::Refusal,
    }
}

/// How the reply `body` is to be read: by what its field `FLAG` holds.
pub fn shape_of(body: &[u8]) -> (r: Shape)
    ensures
        r@ == shape_from_flag_spec(json_bool_field(body@, FLAG@)),
{
    shape_from_flag(read_bool_field(body, FLAG))
}

/// The conversion cannot start: the program is to end with `code` after
/// telling the user `message` on standard error.
#[derive(Debug, PartialEq)]
pub struct Exit {
    pub code: i32,
    pub message: String,
}

/// `Exit` as the contracts see it.
pub struct ExitView {
    pub code: i32,
    pub message: Seq<char>,
}

impl View for Exit {
    type V = ExitView;

    open spec fn view(&self) -> ExitView {
        ExitView { code: self.code, message: self.message@ }
    }
}

/// What the caller's last action brought. Of a reply of the service, `None`
/// says that it held no boolean field `success`, `Some` holds what it held
/// in the shape that the field announced, and a reply that was no JSON
/// document is a failure to decode.
#[derive(Debug, PartialEq)]
pub enum FlaggedEvent {
    /// Whether the file exists.
    LocalFile(bool),
    /// The answer from `CHECK_DATABASE_URL`.
    CheckDatabase(Result<Option<ResponseCheckDatabase>, Failure>),
    /// The answer from `GET_VIDEO_DATA_URL`.
    GetVideoData(Result<Option<ResponseGetVideoData>, Failure>),
    /// The answer from `DOWNLOAD_VIDEO_URL`.
    DownloadVideo(Result<Option<ResponseDownloadVideo>, Failure>),
    /// The answer from `INSERT_TO_DATABASE_URL`.
    InsertToDatabase(Result<Option<ResponseInsertToDatabase>, Failure>),
    /// The bytes fetched, or the text of the error that kept them.
    Fetched(Result<Vec<u8>, String>),
    /// Whether the file was written; if not, the text of the error.
    Stored(Result<(), String>),
}

impl Failure {
    /// The error that reports the failure in the words of the error met.
    pub open spec fn plain_error_view(self) -> ErrorView {
        match self {
            Failure::Send(text) => ErrorView { kind: ErrorKind::ReqwestError, value: text@ },
            Failure::Body(text) => ErrorView { kind: ErrorKind::ReqwestError, value: text@ },
            Failure::Decode(text) => ErrorView { kind: ErrorKind::SerdeError, value: text@ },
        }
    }

    /// The error that reports the failure in the words of the error met.
    pub fn into_plain_error(self) -> (r: Error)
        ensures
            r@ == self.plain_error_view(),
    {
        match self {
            Failure::Send(text) => Error { kind: ErrorKind::ReqwestError, value: text },
            Failure::Body(text) => Error { kind: ErrorKind::ReqwestError, value: text },
            Failure::Decode(text) => Error { kind: ErrorKind::SerdeError, value: text },
        }
    }
}

/// The error that reports a reply of `endpoint` without a boolean `success`.
pub open spec fn unflagged(endpoint: Seq<char>) -> Seq<char> {
    "Unable to reference field `success` in /"@ + endpoint + " response"@
}

/// The error that reports that `endpoint` answered with `success` false.
pub open spec fn refused(endpoint: Seq<char>, error: Seq<char>) -> Seq<char> {
    "/"@ + endpoint + " failed.. "@ + error
}

/// How a conversion starts, when `pairs` are the parameters of the link's
/// query: with the value of the first parameter called `ID_PARAMETER` as
/// identifier, at 96 kb/s, by asking whether the audio is on disk; or not at
/// all, where no parameter is called so.
pub open spec fn download_from_spec(url: UrlPartsView, pairs: Seq<(Seq<char>, Seq<char>)>)
    -> Result<StepView, ExitView> {
    match first_value(pairs, ID_PARAMETER@) {
        Some(youtube_id) => Ok(begin_spec(url.href, youtube_id, BitRate::Kbps96)),
        None => Err(
            ExitView {
                code: 1,
                message: "error: youtube url is not valid (doesn't include youtube id in query string)"@,
            },
        ),
    }
}

/// How a conversion starts: with the identifier that the parameter called
/// `ID_PARAMETER` gives in the link's query.
pub open spec fn download_begin_spec(url: UrlPartsView) -> Result<StepView, ExitView> {
    let query = match url.query {
        Some(q) => q,
        None => Seq::empty(),
    };
    download_from_spec(url, query_pairs(query))
}

/// Whether `url` is a link to the host `HOST`, as a conversion of this form
/// needs it.
pub fn hosted(url: &UrlParts) -> (r: bool)
    ensures
        r == (url@.host == Some(HOST@)),
{
    match &url.host {
        Some(host) => {
            let wanted = String::from_str(HOST);
            *host == wanted
        },
        None => false,
    }
}

/// Starts the conversion of the video behind `url`, which must be a link to
/// the host `HOST`.
pub fn download_begin(url: UrlParts) -> (r: Result<Step, Exit>)
    requires
        url@.host == Some(HOST@),
    ensures
        result_view(r) == download_begin_spec(url@),
{
    let pairs = match &url.query {
        Some(query) => decoded_pairs(query.as_str()),
        None => decoded_pairs(""),
    };
    proof {
        reveal_strlit("");
        assert(""@ =~= Seq::<char>::empty());
    }
    download_from(url, pairs)
}

/// Starts the conversion of the video behind `url`, which must be a link to
/// the host `HOST`, when `pairs` are the parameters of its query.
pub fn download_from(url: UrlParts, pairs: Vec<(String, String)>) -> (r: Result<Step, Exit>)
    requires
        url@.host == Some(HOST@),
    ensures
        result_view(r) == download_from_spec(url@, pairs.deep_view()),
{
    match value_named(&pairs, ID_PARAMETER) {
        Some(youtube_id) => {
            let path = local_path(youtube_id.as_str());
            Ok(
                Step {
                    state: Conversion {
                        url: url.href,
                        youtube_id,
                        quality: BitRate::Kbps96,
                        stage: Stage::LocalProbe,
                    },
                    note: None,
                    request: Request::ProbeLocal { path },
                },
            )
        },
        None => Err(
            Exit {
                code: 1,
                message: String::from_str(
                    "error: youtube url is not valid (doesn't include youtube id in query string)",
                ),
            },
        ),
    }
}

/// What a conversion in the state `st` does when `ev` arrives.
///
/// The steps are those of a conversion with typed replies. What differs: a
/// reply without a boolean `success` ends the conversion with an error, as
/// does a reply whose `success` is false, but for the first, which only says
/// that the service does not hold the audio; and an error of the transport,
/// the refusal of bytes that are no MP3 data and the failure to write the
/// audio are passed on in their own words.
pub open spec fn download_spec(st: ConversionView, ev: FlaggedEvent) -> StepView {
    match (st.stage, ev) {
        (StageView::LocalProbe, FlaggedEvent::LocalFile(exists)) => if exists {
            st.finish(
                Some(
                    NoteView::Stdout(
                        "info: the requested video has already been saved locally as mp3"@,
                    ),
                ),
                Ok(()),
            )
        } else {
            st.proceed(
                StageView::CheckDatabase,
                None,
                RequestView::CheckDatabase(
                    PayloadCheckDatabaseView {
                        format_value: DLFormat::MP3.code(),
                        quality: st.quality,
                        youtube_id: st.youtube_id,
                    },
                ),
            )
        },
        (StageView::CheckDatabase, FlaggedEvent::CheckDatabase(Ok(None))) => st.fail(
            ErrorKind::Error,
            unflagged("check_database.php"@),
        ),
        (
            StageView::CheckDatabase,
            FlaggedEvent::CheckDatabase(Ok(Some(ResponseCheckDatabase::Exist(found)))),
        ) => st.proceed(
            StageView::Fetch,
            None,
            RequestView::Fetch { server_path: found.data.server_path@ },
        ),
        (
            StageView::CheckDatabase,
            FlaggedEvent::CheckDatabase(Ok(Some(ResponseCheckDatabase::NoExist(missing)))),
        ) => st.proceed(
            StageView::GetVideoData,
            Some(NoteView::Stderr("info: "@ + missing.error@)),
            RequestView::GetVideoData(PayloadGetVideoDataView { url: st.url }),
        ),
        (StageView::CheckDatabase, FlaggedEvent::CheckDatabase(Err(failure))) => st.finish(
            None,
            Err(failure.plain_error_view()),
        ),
        (StageView::GetVideoData, FlaggedEvent::GetVideoData(Ok(None))) => st.fail(
            ErrorKind::Error,
            unflagged("get_video_data.php"@),
        ),
        (
            StageView::GetVideoData,
            FlaggedEvent::GetVideoData(Ok(Some(ResponseGetVideoData::Success(data)))),
        ) => st.proceed(
            StageView::DownloadVideo { title: data.title@ },
            None,
            RequestView::DownloadVideo(
                PayloadDownloadVideoView {
                    format_value: DLFormat::MP3.code(),
                    quality: st.quality,
                    title: data.title@,
                    url: st.url,
                },
            ),
        ),
        (
            StageView::GetVideoData,
            FlaggedEvent::GetVideoData(Ok(Some(ResponseGetVideoData::Fail(fail)))),
        ) => st.fail(ErrorKind::Error, refused("get_video_data.php"@, fail.error@)),
        (StageView::GetVideoData, FlaggedEvent::GetVideoData(Err(failure))) => st.finish(
            None,
            Err(failure.plain_error_view()),
        ),
        (StageView::DownloadVideo { .. }, FlaggedEvent::DownloadVideo(Ok(None))) => st.fail(
            ErrorKind::Error,
            unflagged("download_video.php"@),
        ),
        (
            StageView::DownloadVideo { title },
            FlaggedEvent::DownloadVideo(Ok(Some(ResponseDownloadVideo::Success(data)))),
        ) => st.proceed(
            StageView::InsertToDatabase { download_link: data.download_link@ },
            None,
            RequestView::InsertToDatabase(
                PayloadInsertToDatabaseView {
                    format_value: DLFormat::MP3.code(),
                    quality: st.quality,
                    server_path: data.download_link@,
                    title,
                    youtube_id: st.youtube_id,
                },
            ),
        ),
        (
            StageView::DownloadVideo { .. },
            FlaggedEvent::DownloadVideo(Ok(Some(ResponseDownloadVideo::Fail(fail)))),
        ) => st.fail(ErrorKind::Error, refused("download_video.php"@, fail.error@)),
        (StageView::DownloadVideo { .. }, FlaggedEvent::DownloadVideo(Err(failure))) => st.finish(
            None,
            Err(failure.plain_error_view()),
        ),
        (StageView::InsertToDatabase { .. }, FlaggedEvent::InsertToDatabase(Ok(None))) => st.fail(
            ErrorKind::Error,
            unflagged("insert_to_database.php"@),
        ),
        (
            StageView::InsertToDatabase { download_link },
            FlaggedEvent::InsertToDatabase(Ok(Some(ResponseInsertToDatabase::Success(data)))),
        ) => st.proceed(
            StageView::Fetch,
            Some(NoteView::Stderr("info: "@ + data.message@)),
            RequestView::Fetch { server_path: download_link },
        ),
        (
            StageView::InsertToDatabase { .. },
            FlaggedEvent::InsertToDatabase(Ok(Some(ResponseInsertToDatabase::Fail(fail)))),
        ) => st.fail(ErrorKind::Error, refused("insert_to_database.php"@, fail.error@)),
        (StageView::InsertToDatabase { .. }, FlaggedEvent::InsertToDatabase(Err(failure))) =>
            st.finish(None, Err(failure.plain_error_view())),
        (StageView::Fetch, FlaggedEvent::Fetched(Ok(content))) => match cdn_download_spec(
            content@,
            st.youtube_id,
        ) {
            Ok(request) => st.proceed(StageView::Store, None, request),
            Err(reason) => st.fail(ErrorKind::Error, reason),
        },
        (StageView::Fetch, FlaggedEvent::Fetched(Err(text))) => st.fail(
            ErrorKind::ReqwestError,
            text@,
        ),
        (StageView::Store, FlaggedEvent::Stored(Ok(()))) => st.finish(None, Ok(())),
        (StageView::Store, FlaggedEvent::Stored(Err(text))) => st.fail(ErrorKind::Error, text@),
        _ => st.fail(ErrorKind::Error, "the event does not answer the last request"@),
    }
}

fn unflagged_text(endpoint: &str) -> (r: String)
    ensures
        r@ == unflagged(endpoint@),
{
    let mut r = prefixed("Unable to reference field `success` in /", endpoint);
    r.append(" response");
    r
}

fn refused_text(endpoint: &str, error: &str) -> (r: String)
    ensures
        r@ == refused(endpoint@, error@),
{
    let mut r = prefixed("/", endpoint);
    r.append(" failed.. ");
    r.append(error);
    r
}

impl Conversion {
    fn pass_on(self, failure: Failure) -> (r: Step)
        ensures
            r@ == self@.finish(None, Err(failure.plain_error_view())),
    {
        self.proceed(Stage::Done, None, Request::Finish(Err(failure.into_plain_error())))
    }
}

/// Takes a conversion one step on: `state` is where it stood, `event` what
/// the last request brought.
pub fn download(state: Conversion, event: FlaggedEvent) -> (r: Step)
    ensures
        r@ == download_spec(state@, event),
{
    match (&state.stage, event) {
        (Stage::LocalProbe, FlaggedEvent::LocalFile(exists)) => {
            if exists {
                let note = Note::Stdout(
                    String::from_str(
                        "info: the requested video has already been saved locally as mp3",
                    ),
                );
                state.proceed(Stage::Done, Some(note), Request::Finish(Ok(())))
            } else {
                let payload = check_database(state.youtube_id.clone(), state.quality);
                state.proceed(Stage::CheckDatabase, None, Request::CheckDatabase(payload))
            }
        },
        (Stage::CheckDatabase, FlaggedEvent::CheckDatabase(Ok(None))) => {
            let value = unflagged_text("check_database.php");
            state.fail(ErrorKind::Error, value)
        },
        (
            Stage::CheckDatabase,
            FlaggedEvent::CheckDatabase(Ok(Some(ResponseCheckDatabase::Exist(found)))),
        ) => {
            let server_path = found.data.server_path;
            state.proceed(Stage::Fetch, None, Request::Fetch { server_path })
        },
        (
            Stage::CheckDatabase,
            FlaggedEvent::CheckDatabase(Ok(Some(ResponseCheckDatabase::NoExist(missing)))),
        ) => {
            let note = Note::Stderr(prefixed("info: ", missing.error.as_str()));
            let payload = cdn_fetch(state.url.clone());
            state.proceed(Stage::GetVideoData, Some(note), Request::GetVideoData(payload))
        },
        (Stage::CheckDatabase, FlaggedEvent::CheckDatabase(Err(failure))) => state.pass_on(
            failure,
        ),
        (Stage::GetVideoData, FlaggedEvent::GetVideoData(Ok(None))) => {
            let value = unflagged_text("get_video_data.php");
            state.fail(ErrorKind::Error, value)
        },
        (
            Stage::GetVideoData,
            FlaggedEvent::GetVideoData(Ok(Some(ResponseGetVideoData::Success(data)))),
        ) => {
            let title = data.title;
            let payload = srv_download(state.url.clone(), title.clone(), state.quality);
            state.proceed(Stage::DownloadVideo { title }, None, Request::DownloadVideo(payload))
        },
        (
            Stage::GetVideoData,
            FlaggedEvent::GetVideoData(Ok(Some(ResponseGetVideoData::Fail(fail)))),
        ) => {
            let value = refused_text("get_video_data.php", fail.error.as_str());
            state.fail(ErrorKind::Error, value)
        },
        (Stage::GetVideoData, FlaggedEvent::GetVideoData(Err(failure))) => state.pass_on(failure),
        (Stage::DownloadVideo { .. }, FlaggedEvent::DownloadVideo(Ok(None))) => {
            let value = unflagged_text("download_video.php");
            state.fail(ErrorKind::Error, value)
        },
        (
            Stage::DownloadVideo { title },
            FlaggedEvent::DownloadVideo(Ok(Some(ResponseDownloadVideo::Success(data)))),
        ) => {
            let download_link = data.download_link;
            let payload = cdn_insert(
                download_link.clone(),
                title.clone(),
                state.youtube_id.clone(),
                state.quality,
            );
            state.proceed(
                Stage::InsertToDatabase { download_link },
                None,
                Request::InsertToDatabase(payload),
            )
        },
        (
            Stage::DownloadVideo { .. },
            FlaggedEvent::DownloadVideo(Ok(Some(ResponseDownloadVideo::Fail(fail)))),
        ) => {
            let value = refused_text("download_video.php", fail.error.as_str());
            state.fail(ErrorKind::Error, value)
        },
        (Stage::DownloadVideo { .. }, FlaggedEvent::DownloadVideo(Err(failure))) => state.pass_on(
            failure,
        ),
        (Stage::InsertToDatabase { .. }, FlaggedEvent::InsertToDatabase(Ok(None))) => {
            let value = unflagged_text("insert_to_database.php");
            state.fail(ErrorKind::Error, value)
        },
        (
            Stage::InsertToDatabase { download_link },
            FlaggedEvent::InsertToDatabase(Ok(Some(ResponseInsertToDatabase::Success(data)))),
        ) => {
            let note = Note::Stderr(prefixed("info: ", data.message.as_str()));
            let server_path = download_link.clone();
            state.proceed(Stage::Fetch, Some(note), Request::Fetch { server_path })
        },
        (
            Stage::InsertToDatabase { .. },
            FlaggedEvent::InsertToDatabase(Ok(Some(ResponseInsertToDatabase::Fail(fail)))),
        ) => {
            let value = refused_text("insert_to_database.php", fail.error.as_str());
            state.fail(ErrorKind::Error, value)
        },
        (Stage::InsertToDatabase { .. }, FlaggedEvent::InsertToDatabase(Err(failure))) =>
            state.pass_on(failure),
        (Stage::Fetch, FlaggedEvent::Fetched(Ok(content))) => {
            match cdn_download(content, state.youtube_id.as_str()) {
                Ok(request) => state.proceed(Stage::Store, None, request),
                Err(reason) => state.fail(ErrorKind::Error, reason),
            }
        },
        (Stage::Fetch, FlaggedEvent::Fetched(Err(text))) => state.fail(
            ErrorKind::ReqwestError,
            text,
        ),
        (Stage::Store, FlaggedEvent::Stored(Ok(()))) => state.proceed(
            Stage::Done,
            None,
            Request::Finish(Ok(())),
        ),
        (Stage::Store, FlaggedEvent::Stored(Err(text))) => state.fail(ErrorKind::Error, text),
        _ => state.out_of_turn(),
    }
}

/// Where a conversion stands after the events `events`, taken in turn.
pub open spec fn download_after(st: ConversionView, events: Seq<FlaggedEvent>) -> ConversionView
    decreases events.len(),
{
    if events.len() == 0 {
        st
    } else {
        download_spec(download_after(st, events.drop_last()), events.last()).state
    }
}

/// Every step brings a conversion nearer to its end: the rank of its stage
/// falls, and a conversion that has ended stays so.
pub proof fn lemma_download_progress(st: ConversionView, ev: FlaggedEvent)
    ensures
        st.stage is Done || download_spec(st, ev).state.stage.rank() < st.stage.rank(),
        st.stage is Done ==> download_spec(st, ev).state.stage is Done,
{
}

/// A conversion has ended after as many events as the rank of its stage,
/// whatever they are: at most seven from the start.
pub proof fn lemma_download_ends(st: ConversionView, events: Seq<FlaggedEvent>)
    ensures
        download_after(st, events).stage.rank() + events.len() <= st.stage.rank()
            || download_after(st, events).stage is Done,
        events.len() >= st.stage.rank() ==> download_after(st, events).stage is Done,
    decreases events.len(),
{
    if events.len() > 0 {
        lemma_download_ends(st, events.drop_last());
        lemma_download_progress(download_after(st, events.drop_last()), events.last());
    }
}

/// After every step the conversion waits for what the request just made
/// brings: so it asks to finish exactly when it has ended.
pub proof fn lemma_download_awaits_its_request(st: ConversionView, ev: FlaggedEvent)
    ensures
        download_spec(st, ev).state.stage.awaits(download_spec(st, ev).request),
        download_spec(st, ev).request is Finish <==> download_spec(st, ev).state.stage is Done,
{
}

/// A step changes the stage of a conversion and nothing else: the link, the
/// identifier and the quality stay.
pub proof fn lemma_download_keeps_subject(st: ConversionView, ev: FlaggedEvent)
    ensures
        download_spec(st, ev).state.url == st.url,
        download_spec(st, ev).state.youtube_id == st.youtube_id,
        download_spec(st, ev).state.quality == st.quality,
{
}

/// Nothing is stored but bytes that were fetched and look like MP3 data, and
/// only in the file of the video that is converted.
pub proof fn lemma_download_stores_mp3_only(st: ConversionView, ev: FlaggedEvent)
    ensures
        (download_spec(st, ev).request matches RequestView::Store { path, content } ==> {
            &&& st.stage is Fetch
            &&& ev matches FlaggedEvent::Fetched(Ok(fetched))
            &&& content == fetched@
            &&& looks_like_mp3(content)
            &&& path == local_path_spec(st.youtube_id)
        }),
{
}

/// Fetched bytes that do not look like MP3 data are refused: the conversion
/// ends with an error, and nothing is stored.
pub proof fn lemma_download_refuses_other_bytes(st: ConversionView, content: Vec<u8>)
    requires
        st.stage is Fetch,
        !looks_like_mp3(content@),
    ensures
        download_spec(st, FlaggedEvent::Fetched(Ok(content))).request is Finish,
        download_spec(st, FlaggedEvent::Fetched(Ok(content))).request->Finish_0 is Err,
{
}

} // verus!
