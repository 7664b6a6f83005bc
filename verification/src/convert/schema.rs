//! What is sent to the conversion service and what it answers, one pair of
//! types for each of its four endpoints.

use vstd::prelude::*;
use crate::bitrate::BitRate;

verus! {

/// Asks whether the service already holds the audio of a video.
#[derive(Debug, PartialEq)]
pub struct PayloadCheckDatabase {
    pub format_value: usize,
    pub quality: BitRate,
    pub youtube_id: String,
}

/// What the service holds of a video that it has converted before.
#[derive(Debug, PartialEq)]
pub struct VideoData {
    pub _id: i64,
    pub _quality: String,
    pub server_path: String,
    pub _title: String,
    pub _youtube_id: String,
}

/// The service holds the audio.
#[derive(Debug, PartialEq)]
pub struct CheckDatabaseSuccess {
    pub _success: bool,
    pub data: VideoData,
}

/// The service does not hold the audio; `error` says why.
#[derive(Debug, PartialEq)]
pub struct CheckDatabaseFail {
    pub _success: bool,
    pub error: String,
}

/// The answer to `PayloadCheckDatabase`.
#[derive(Debug, PartialEq)]
pub enum ResponseCheckDatabase {
    Exist(CheckDatabaseSuccess),
    NoExist(CheckDatabaseFail),
}

/// Asks for the title of a video.
#[derive(Debug, PartialEq)]
pub struct PayloadGetVideoData {
    pub url: String,
}

/// The title of the video.
#[derive(Debug, PartialEq)]
pub struct GetVideoDataSuccess {
    pub _success: bool,
    pub title: String,
}

/// The service could not tell the title.
#[derive(Debug, PartialEq)]
pub struct GetVideoDataFail {
    pub _success: bool,
    pub error: String,
}

/// The answer to `PayloadGetVideoData`.
#[derive(Debug, PartialEq)]
pub enum ResponseGetVideoData {
    Success(GetVideoDataSuccess),
    Fail(GetVideoDataFail),
}

/// Asks the service to convert a video.
#[derive(Debug, PartialEq)]
pub struct PayloadDownloadVideo {
    pub format_value: usize,
    pub quality: BitRate,
    pub title: String,
    pub url: String,
}

/// Where the converted audio can be fetched.
#[derive(Debug, PartialEq)]
pub struct DownloadVideoSuccess {
    pub download_link: String,
    pub _success: bool,
}

/// The service could not convert the video.
#[derive(Debug, PartialEq)]
pub struct DownloadVideoFail {
    pub error: String,
    pub error_type: i64,
    pub _success: bool,
}

/// The answer to `PayloadDownloadVideo`.
#[derive(Debug, PartialEq)]
pub enum ResponseDownloadVideo {
    Success(DownloadVideoSuccess),
    Fail(DownloadVideoFail),
}

/// Tells the service where the audio of a video now lies.
#[derive(Debug, PartialEq)]
pub struct PayloadInsertToDatabase {
    pub format_value: usize,
    pub quality: BitRate,
    pub server_path: String,
    pub title: String,
    pub youtube_id: String,
}

/// The service took the entry.
#[derive(Debug, PartialEq)]
pub struct InsertToDatabaseSuccess {
    pub _success: bool,
    pub message: String,
}

/// The service refused the entry.
#[derive(Debug, PartialEq)]
pub struct InsertToDatabaseFail {
    pub _success: bool,
    pub error: String,
}

/// The answer to `PayloadInsertToDatabase`.
#[derive(Debug, PartialEq)]
pub enum ResponseInsertToDatabase {
    Success(InsertToDatabaseSuccess),
    Fail(InsertToDatabaseFail),
}

/// `PayloadCheckDatabase` as the contracts see it.
pub struct PayloadCheckDatabaseView {
    pub format_value: usize,
    pub quality: BitRate,
    pub youtube_id: Seq<char>,
}

impl View for PayloadCheckDatabase {
    type V = PayloadCheckDatabaseView;

    open spec fn view(&self) -> PayloadCheckDatabaseView {
        PayloadCheckDatabaseView {
            format_value: self.format_value,
            quality: self.quality,
            youtube_id: self.youtube_id@,
        }
    }
}

/// `PayloadGetVideoData` as the contracts see it.
pub struct PayloadGetVideoDataView {
    pub url: Seq<char>,
}

impl View for PayloadGetVideoData {
    type V = PayloadGetVideoDataView;

    open spec fn view(&self) -> PayloadGetVideoDataView {
        PayloadGetVideoDataView { url: self.url@ }
    }
}

/// `PayloadDownloadVideo` as the contracts see it.
pub struct PayloadDownloadVideoView {
    pub format_value: usize,
    pub quality: BitRate,
    pub title: Seq<char>,
    pub url: Seq<char>,
}

impl View for PayloadDownloadVideo {
    type V = PayloadDownloadVideoView;

    open spec fn view(&self) -> PayloadDownloadVideoView {
        PayloadDownloadVideoView {
            format_value: self.format_value,
            quality: self.quality,
            title: self.title@,
            url: self.url@,
        }
    }
}

/// `PayloadInsertToDatabase` as the contracts see it.
pub struct PayloadInsertToDatabaseView {
    pub format_value: usize,
    pub quality: BitRate,
    pub server_path: Seq<char>,
    pub title: Seq<char>,
    pub youtube_id: Seq<char>,
}

impl View for PayloadInsertToDatabase {
    type V = PayloadInsertToDatabaseView;

    open spec fn view(&self) -> PayloadInsertToDatabaseView {
        PayloadInsertToDatabaseView {
            format_value: self.format_value,
            quality: self.quality,
            server_path: self.server_path@,
            title: self.title@,
            youtube_id: self.youtube_id@,
        }
    }
}

} // verus!
