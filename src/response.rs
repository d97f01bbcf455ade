use vstd::prelude::*;

use crate::model::{CompleteFile, PartialFile};

verus! {

/// The closed set of answers a handler gives.
#[derive(Clone, Debug)]
pub enum Response {
    /// 200 with the listing as body.
    OkFiles(Vec<PartialFile>),
    /// 200 with one complete record as body.
    OkFile(CompleteFile),
    /// 200 with no body.
    OkEmpty,
    /// 201 with no body.
    Created,
    /// 404 with no body.
    NotFound,
    /// 500, with the store's error text as body when there is one.
    ServerError(Option<String>),
}

impl Response {
    pub open spec fn spec_status(&self) -> u16 {
        match self {
            Response::OkFiles(_) => 200,
            Response::OkFile(_) => 200,
            Response::OkEmpty => 200,
            Response::Created => 201,
            Response::NotFound => 404,
            Response::ServerError(_) => 500,
        }
    }

    /// The HTTP status code of this answer.
    pub fn status(&self) -> (r: u16)
        ensures
            r == self.spec_status(),
    {
        match self {
            Response::OkFiles(_) => 200,
            Response::OkFile(_) => 200,
            Response::OkEmpty => 200,
            Response::Created => 201,
            Response::NotFound => 404,
            Response::ServerError(_) => 500,
        }
    }
}

/// The answer to a listing query: the rows, or the store's error.
pub fn list_response(outcome: Result<Vec<PartialFile>, String>) -> (r: Response)
    ensures
        match outcome {
            Ok(files) => r == Response::OkFiles(files),
            Err(message) => r == Response::ServerError(Some(message)),
        },
{
    match outcome {
        Ok(files) => Response::OkFiles(files),
        Err(message) => Response::ServerError(Some(message)),
    }
}

/// The answer to a single-record query: the record, 404 when no row
/// matched, or the store's error.
pub fn lookup_response(outcome: Result<Option<CompleteFile>, String>) -> (r: Response)
    ensures
        match outcome {
            Ok(Some(file)) => r == Response::OkFile(file),
            Ok(None) => r == Response::NotFound,
            Err(message) => r == Response::ServerError(Some(message)),
        },
{
    match outcome {
        Ok(Some(file)) => Response::OkFile(file),
        Ok(None) => Response::NotFound,
        Err(message) => Response::ServerError(Some(message)),
    }
}

/// The answer to an insert given the number of rows it stored: 201, or
/// 500 when it stored none or the store failed.
pub fn insert_response(outcome: Result<usize, String>) -> (r: Response)
    ensures
        match outcome {
            Ok(count) => r == if count == 0 {
                Response::ServerError(None)
            } else {
                Response::Created
            },
            Err(message) => r == Response::ServerError(Some(message)),
        },
{
    match outcome {
        Ok(count) => {
            if count == 0 {
                Response::ServerError(None)
            } else {
                Response::Created
            }
        },
        Err(message) => Response::ServerError(Some(message)),
    }
}

/// The answer to an update or delete given the number of rows it touched:
/// 404 when none matched, 200 otherwise, or the store's error.
pub fn change_response(outcome: Result<usize, String>) -> (r: Response)
    ensures
        match outcome {
            Ok(count) => r == if count == 0 {
                Response::NotFound
            } else {
                Response::OkEmpty
            },
            Err(message) => r == Response::ServerError(Some(message)),
        },
{
    match outcome {
        Ok(count) => {
            if count == 0 {
                Response::NotFound
            } else {
                Response::OkEmpty
            }
        },
        Err(message) => Response::ServerError(Some(message)),
    }
}

} // verus!
