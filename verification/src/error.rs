//! The one error type of the application.

use vstd::prelude::*;

verus! {

/// Everything that can go wrong, by kind. Variants that report on a
/// value carry it as text.
#[derive(Debug, PartialEq, Eq)]
pub enum Error {
    AppFail,
    Configuration(String),
    XValueNotOfType(String),
    XPropertyNotFound(String),
    FailedToGetContext,
    FailedToGetToken,
    FailedtoGetCalendarList,
    FailedToAddCalendar,
    FailedToCheckToken,
    FailedToGetKey,
    StoreFailToCreate(String),
    StoreFailToRead(String),
    InvalidType,
    StoreFailedToDelete(String),
    StoreFailedToInit(String),
    StoreFailedToLogin(String),
    FailedToSetArgsentNS(String),
    JwtNotAuthorized,
    MissingConfig,
    UserNotFound,
    InvalidPassword,
    InvalidToken,
    ExpiredToken,
    UnknownDatabaseType,
    EmptyHeader,
    InvalidEmail,
    CreatingConfig,
    NotAuthorized,
    Unauthorized,
    TokenCouldNotBeRead,
    WrongUsernameOrPassword,
    JsonSerde(String),
    ModqlOperatorNotSupported(String),
    IO(String),
    FailedToGetCalendar,
    FailedToCreateToken(String),
    FailedToFindToken(String),
    BadRequest(String),
    NotFound,
    Conflict,
    Exists,
    InvalidConfigFile,
    MissingValue,
    InvalidLogLevel,
    DeserializingConfig,
    Unknown(String),
    DatabaseConfig(String),
    SurrealDB(String),
    Cursor,
    InvalidKeyEvent(String),
    LoadingConfigFile,
    InvalidAppDataPath,
    FailedRequest,
    ActionSender(String),
}

/// An error as it is reported to a client: an optional kind and
/// description, and the message.
#[derive(Debug, PartialEq, Eq)]
pub struct ErrorMessage {
    pub error: Option<String>,
    pub error_description: Option<String>,
    pub message: String,
}

impl ErrorMessage {
    /// The report of an input or output failure of the given `kind`,
    /// whose text serves as description and as message.
    pub fn from_io(kind: String, text: String) -> (report: ErrorMessage)
        ensures
            report.error == Some(kind),
            report.error_description == Some(text),
            report.message == text,
    {
        let message = text.clone();
        ErrorMessage { error: Some(kind), error_description: Some(text), message }
    }
}

} // verus!
