//! Replies sent to the client and the kinds of failure behind them.
use vstd::prelude::*;

verus! {

/// A reply to the client: an HTTP status code and a text body.
#[derive(Debug, Clone, PartialEq, Eq)]
pub struct ApiResponse {
    pub status_code: u16,
    pub body: String,
}

/// The mathematical content of an [`ApiResponse`].
pub struct ApiResponseView {
    pub status_code: u16,
    pub body: Seq<char>,
}

impl View for ApiResponse {
    type V = ApiResponseView;

    open spec fn view(&self) -> ApiResponseView {
        ApiResponseView { status_code: self.status_code, body: self.body@ }
    }
}

/// Status codes that HTTP can carry: three decimal digits, the first not zero.
pub open spec fn is_status_code(code: u16) -> bool {
    100 <= code < 1000
}

impl ApiResponse {
    /// A response is well formed when its status code can be put on the wire.
    pub open spec fn well_formed(&self) -> bool {
        is_status_code(self.status_code)
    }

    /// Builds a response from a status code and a body.
    pub fn new(status_code: u16, body: String) -> (response: Self)
        requires
            is_status_code(status_code),
        ensures
            response.status_code == status_code,
            response.body == body,
            response.well_formed(),
    {
        ApiResponse { status_code, body }
    }
}

/// Why a request was turned down.
///
/// The two storage variants carry the collaborator's message for the operator;
/// the client never sees it.
#[derive(Debug, Clone, PartialEq, Eq)]
pub enum ErrorKind {
    /// The credential is missing, malformed, forged or expired.
    Unauthorized,
    /// The upload's name does not end in an accepted extension.
    InvalidFileType,
    /// The upload is empty.
    InvalidFileSize,
    /// The upload is larger than the configured maximum.
    FileTooLarge,
    /// The blob could not be copied to its permanent place.
    StorageWriteError(String),
    /// The datastore refused to open, write or commit.
    PersistenceError(String),
    /// No record matches.
    NotFound,
}

/// The mathematical content of an [`ErrorKind`].
pub enum ErrorKindView {
    Unauthorized,
    InvalidFileType,
    InvalidFileSize,
    FileTooLarge,
    StorageWriteError(Seq<char>),
    PersistenceError(Seq<char>),
    NotFound,
}

impl View for ErrorKind {
    type V = ErrorKindView;

    open spec fn view(&self) -> ErrorKindView {
        match self {
            ErrorKind::Unauthorized => ErrorKindView::Unauthorized,
            ErrorKind::InvalidFileType => ErrorKindView::InvalidFileType,
            ErrorKind::InvalidFileSize => ErrorKindView::InvalidFileSize,
            ErrorKind::FileTooLarge => ErrorKindView::FileTooLarge,
            ErrorKind::StorageWriteError(detail) => ErrorKindView::StorageWriteError(detail@),
            ErrorKind::PersistenceError(detail) => ErrorKindView::PersistenceError(detail@),
            ErrorKind::NotFound => ErrorKindView::NotFound,
        }
    }
}

impl ErrorKindView {
    /// The status code that reports this kind of failure.
    pub open spec fn status(self) -> u16 {
        match self {
            ErrorKindView::Unauthorized => 401,
            ErrorKindView::InvalidFileType => 400,
            ErrorKindView::InvalidFileSize => 400,
            ErrorKindView::FileTooLarge => 400,
            ErrorKindView::StorageWriteError(_) => 500,
            ErrorKindView::PersistenceError(_) => 500,
            ErrorKindView::NotFound => 404,
        }
    }

    /// The text shown to the client. Failures of the collaborators all read the
    /// same, whatever their detail.
    pub open spec fn message(self) -> Seq<char> {
        match self {
            ErrorKindView::Unauthorized => "Unathorized"@,
            ErrorKindView::InvalidFileType => "Invalid file type"@,
            ErrorKindView::InvalidFileSize => "Invalid file size"@,
            ErrorKindView::FileTooLarge => "File too big"@,
            ErrorKindView::StorageWriteError(_) => "Internal Server Error"@,
            ErrorKindView::PersistenceError(_) => "Internal Server Error"@,
            ErrorKindView::NotFound => "No post found "@,
        }
    }
}

impl ErrorKind {
    /// The response that reports this failure to the client.
    pub fn response(&self) -> (response: ApiResponse)
        ensures
            response@.status_code == self@.status(),
            response@.body == self@.message(),
            response.well_formed(),
    {
        match self {
            ErrorKind::Unauthorized => ApiResponse::new(401, "Unathorized".to_owned()),
            ErrorKind::InvalidFileType => ApiResponse::new(400, "Invalid file type".to_owned()),
            ErrorKind::InvalidFileSize => ApiResponse::new(400, "Invalid file size".to_owned()),
            ErrorKind::FileTooLarge => ApiResponse::new(400, "File too big".to_owned()),
            ErrorKind::StorageWriteError(_) => ApiResponse::new(
                500,
                "Internal Server Error".to_owned(),
            ),
            ErrorKind::PersistenceError(_) => ApiResponse::new(
                500,
                "Internal Server Error".to_owned(),
            ),
            ErrorKind::NotFound => ApiResponse::new(404, "No post found ".to_owned()),
        }
    }

    /// A copy of this error.
    pub fn duplicate(&self) -> (copy: ErrorKind)
        ensures
            copy@ == self@,
    {
        match self {
            ErrorKind::Unauthorized => ErrorKind::Unauthorized,
            ErrorKind::InvalidFileType => ErrorKind::InvalidFileType,
            ErrorKind::InvalidFileSize => ErrorKind::InvalidFileSize,
            ErrorKind::FileTooLarge => ErrorKind::FileTooLarge,
            ErrorKind::StorageWriteError(detail) => ErrorKind::StorageWriteError(detail.clone()),
            ErrorKind::PersistenceError(detail) => ErrorKind::PersistenceError(detail.clone()),
            ErrorKind::NotFound => ErrorKind::NotFound,
        }
    }
}

} // verus!
