//! The reply to the question whether the service holds the audio of a video,
//! sorted by its shape.

use vstd::prelude::*;

verus! {

/// A JSON value of the `serde_json` crate. The library carries such a value
/// and never looks inside.
#[verifier::external_type_specification]
#[verifier::external_body]
pub struct ExValue(serde_json::Value);

/// What the service holds of a video that it has converted before.
#[derive(Debug, PartialEq)]
pub struct ResponseCheckDatabaseData {
    pub id: i64,
    pub quality: String,
    pub server_path: String,
    pub title: String,
    pub youtube_id: String,
}

/// The service holds the audio.
#[derive(Debug, PartialEq)]
pub struct ResponseCheckDatabaseExist {
    pub data: ResponseCheckDatabaseData,
    pub success: bool,
}

/// The service does not hold the audio; `error` says why.
#[derive(Debug, PartialEq)]
pub struct ResponseCheckDatabaseNoExist {
    pub error: String,
    pub success: bool,
}

/// A reply by its shape; one of no known shape is kept as it came.
#[derive(Debug, PartialEq)]
pub enum ResponseCheckDatabase {
    Exist(ResponseCheckDatabaseExist),
    NoExist(ResponseCheckDatabaseNoExist),
    Unknown(serde_json::Value),
}

/// The reply `value`, of which `exist` and `no_exist` are the readings in
/// the two known shapes, where it has them: the first shape is preferred, and
/// `value` itself is kept where it has neither.
pub open spec fn match_response_spec(
    exist: Option<ResponseCheckDatabaseExist>,
    no_exist: Option<ResponseCheckDatabaseNoExist>,
    value: serde_json::Value,
) -> ResponseCheckDatabase {
    match exist {
        Some(data) => ResponseCheckDatabase::Exist(data),
        None => match no_exist {
            Some(error) => ResponseCheckDatabase::NoExist(error),
            None => ResponseCheckDatabase::Unknown(value),
        },
    }
}

/// Sorts the reply `value` by its shape, given its readings in the two known
/// shapes.
pub fn match_response(
    exist: Option<ResponseCheckDatabaseExist>,
    no_exist: Option<ResponseCheckDatabaseNoExist>,
    value: serde_json::Value,
) -> (r: ResponseCheckDatabase)
    ensures
        r == match_response_spec(exist, no_exist, value),
{
    if let Some(data) = exist {
        return ResponseCheckDatabase::Exist(data);
    }
    if let Some(error) = no_exist {
        return ResponseCheckDatabase::NoExist(error);
    }
    ResponseCheckDatabase::Unknown(value)
}

} // verus!
