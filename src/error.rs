//! The closed error taxonomy of the client and its user-facing text.

use vstd::prelude::*;
use vstd::string::*;
use crate::text::{decimal_of, decimal_string};

verus! {

/// Every way an operation of the client can fail.
#[derive(Debug)]
pub enum MusicUploaderClientError {
    /// The server answered with a non-success status: the status and the body.
    UnhappyResponse(u16, String),
    /// The request never got an answer (connection, TLS, timeout).
    ErrorFromServer(String),
    /// The client has no valid settings.
    BadConfig(String),
    /// A local file could not be read: its path and the reason.
    FileReadError(String, String),
    /// Attempts exhausted, an album with a failed file, or a file too large to declare.
    AlbumUploadFailure(String),
    /// A response body did not have the expected shape.
    ParseServerResponseFailure(String),
    /// A file would need this many parts, more than a part index can name.
    TooManyParts(u32),
    /// The part with this index would hold no bytes.
    EmptyPart(u8),
}

/// The text of an error, as shown to the user.
pub open spec fn error_text(e: MusicUploaderClientError) -> Seq<char> {
    match e {
        MusicUploaderClientError::UnhappyResponse(status, body) =>
            "unhappy response: ("@ + decimal_of(status as nat) + ") "@ + body@,
        MusicUploaderClientError::ErrorFromServer(s) => "Recieved an error from the server: "@ + s@,
        MusicUploaderClientError::BadConfig(s) => "Local settings is misconfigured: "@ + s@,
        MusicUploaderClientError::FileReadError(path, reason) =>
            "Failed to read the file "@ + path@ + " because: "@ + reason@,
        MusicUploaderClientError::AlbumUploadFailure(s) => "Failed to upload album: "@ + s@,
        MusicUploaderClientError::ParseServerResponseFailure(s) =>
            "Failed to parse server response: "@ + s@,
        MusicUploaderClientError::TooManyParts(n) =>
            "Cannot upload a file with this many parts: "@ + decimal_of(n as nat),
        MusicUploaderClientError::EmptyPart(i) =>
            "Tried to upload a zero size part for index: "@ + decimal_of(i as nat),
    }
}

impl MusicUploaderClientError {
    /// The text of this error, as shown to the user.
    pub fn to_string(&self) -> (r: String)
        ensures
            r@ == error_text(*self),
    {
        match self {
            MusicUploaderClientError::UnhappyResponse(status, body) => {
                let mut r = String::from_str("unhappy response: (");
                let code = decimal_string(*status as u64);
                r.append(code.as_str());
                r.append(") ");
                r.append(body.as_str());
                r
            },
            MusicUploaderClientError::ErrorFromServer(s) => {
                String::from_str("Recieved an error from the server: ").concat(s.as_str())
            },
            MusicUploaderClientError::BadConfig(s) => {
                String::from_str("Local settings is misconfigured: ").concat(s.as_str())
            },
            MusicUploaderClientError::FileReadError(path, reason) => {
                let mut r = String::from_str("Failed to read the file ");
                r.append(path.as_str());
                r.append(" because: ");
                r.append(reason.as_str());
                r
            },
            MusicUploaderClientError::AlbumUploadFailure(s) => {
                String::from_str("Failed to upload album: ").concat(s.as_str())
            },
            MusicUploaderClientError::ParseServerResponseFailure(s) => {
                String::from_str("Failed to parse server response: ").concat(s.as_str())
            },
            MusicUploaderClientError::TooManyParts(n) => {
                let count = decimal_string(*n as u64);
                String::from_str("Cannot upload a file with this many parts: ").concat(count.as_str())
            },
            MusicUploaderClientError::EmptyPart(i) => {
                let index = decimal_string(*i as u64);
                String::from_str("Tried to upload a zero size part for index: ").concat(index.as_str())
            },
        }
    }
}

/// The one-line result of a top-level operation: "Success: " or "Failure: "
/// followed by the message or the error's text.
pub open spec fn result_text(result: Result<String, MusicUploaderClientError>) -> Result<Seq<char>, Seq<char>> {
    match result {
        Ok(x) => Ok("Success: "@ + x@),
        Err(e) => Err("Failure: "@ + error_text(e)),
    }
}

/// Turns an operation's result into the text handed to the user interface.
pub fn result_to_string(result: Result<String, MusicUploaderClientError>) -> (r: Result<String, String>)
    ensures
        match (r, result_text(result)) {
            (Ok(a), Ok(b)) => a@ == b,
            (Err(a), Err(b)) => a@ == b,
            _ => false,
        },
{
    match result {
        Ok(x) => Ok(String::from_str("Success: ").concat(x.as_str())),
        Err(e) => {
            let text = e.to_string();
            Err(String::from_str("Failure: ").concat(text.as_str()))
        },
    }
}

} // verus!
