use vstd::prelude::*;

verus! {

/// The closed set of failures that every operation of the service reports.
#[derive(Debug, Clone, Copy, PartialEq, Eq, Structural)]
pub enum Error {
    FileTooLarge { max_size: usize },
    FileTypeNotAllowed,
    InvalidData,
    MissingData,
    DatabaseError,
    UnknownStore,
    UnknownError,
    NotFound,
    ProcessingError,
    StorageError,
    MetaParseFailed,
    MissingContentType,
    CannotProxy,
    InternalRequestFailed,
    RequestFailed,
    ValidationFailed,
}

pub const STATUS_BAD_REQUEST: u16 = 400;

pub const STATUS_NOT_FOUND: u16 = 404;

pub const STATUS_PAYLOAD_TOO_LARGE: u16 = 413;

pub const STATUS_INTERNAL_SERVER_ERROR: u16 = 500;

/// The transport status that reports each kind of failure.
pub open spec fn status_of(e: Error) -> u16 {
    match e {
        Error::FileTooLarge { .. } => STATUS_PAYLOAD_TOO_LARGE,
        Error::NotFound => STATUS_NOT_FOUND,
        Error::DatabaseError | Error::UnknownError | Error::ProcessingError | Error::StorageError
        | Error::MetaParseFailed | Error::InternalRequestFailed => STATUS_INTERNAL_SERVER_ERROR,
        _ => STATUS_BAD_REQUEST,
    }
}

impl Error {
    pub fn status_code(&self) -> (r: u16)
        ensures
            r == status_of(*self),
    {
        match self {
            Error::FileTooLarge { .. } => STATUS_PAYLOAD_TOO_LARGE,
            Error::FileTypeNotAllowed => STATUS_BAD_REQUEST,
            Error::InvalidData => STATUS_BAD_REQUEST,
            Error::MissingData => STATUS_BAD_REQUEST,
            Error::DatabaseError => STATUS_INTERNAL_SERVER_ERROR,
            Error::UnknownStore => STATUS_BAD_REQUEST,
            Error::UnknownError => STATUS_INTERNAL_SERVER_ERROR,
            Error::NotFound => STATUS_NOT_FOUND,
            Error::ProcessingError => STATUS_INTERNAL_SERVER_ERROR,
            Error::StorageError => STATUS_INTERNAL_SERVER_ERROR,
            Error::MetaParseFailed => STATUS_INTERNAL_SERVER_ERROR,
            Error::MissingContentType => STATUS_BAD_REQUEST,
            Error::CannotProxy => STATUS_BAD_REQUEST,
            Error::InternalRequestFailed => STATUS_INTERNAL_SERVER_ERROR,
            Error::RequestFailed => STATUS_BAD_REQUEST,
            Error::ValidationFailed => STATUS_BAD_REQUEST,
        }
    }
}

} // verus!
