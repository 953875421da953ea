//! What can go wrong while handling an upload request.

use vstd::prelude::*;
use vstd::string::*;

verus! {

/// Status code of a client request error.
pub const BAD_REQUEST: u16 = 400;

/// Status code of every failure that is not the client's doing.
pub const INTERNAL_SERVER_ERROR: u16 = 500;

/// A failed upload. Every failure is terminal for its request.
#[derive(Debug, Clone, PartialEq, Eq)]
pub enum UploadError {
    /// The request's content type is not `multipart/form-data`.
    NotMultipart,
    /// The content type carries no `boundary` parameter.
    MissingBoundary,
    /// No part of the body is the upload field.
    NoFileField,
    /// The upload field was saved, but not to a file.
    NotAFile,
    /// Only a part of the file reached the disk.
    PartialWrite,
    /// Reading the body or writing the file failed; the text is the
    /// underlying error's.
    Storage(String),
    /// The stored file's path has no file-name component.
    MissingFileName,
    /// The stored file's path is not valid Unicode.
    NonUnicodeFileName,
}

impl UploadError {
    /// The request was at fault, rather than the service.
    pub open spec fn is_client_error(&self) -> bool {
        self is NotMultipart || self is MissingBoundary
    }

    /// The HTTP status that reports this failure.
    pub open spec fn spec_status(&self) -> u16 {
        if self.is_client_error() {
            BAD_REQUEST
        } else {
            INTERNAL_SERVER_ERROR
        }
    }

    /// The text that reports this failure.
    pub open spec fn spec_message(&self) -> Seq<char> {
        match self {
            UploadError::NotMultipart => "Content-Type not multipart/form-data"@,
            UploadError::MissingBoundary =>
                "`Content-Type: multipart/form-data` boundary param not provided"@,
            UploadError::NoFileField => "no fileToUpload field found"@,
            UploadError::NotAFile => "No file found"@,
            UploadError::PartialWrite => "found partial"@,
            UploadError::Storage(text) => text@,
            UploadError::MissingFileName => "no valid filename for stored file found!"@,
            UploadError::NonUnicodeFileName => "filename not valid UTF-8"@,
        }
    }

    /// The HTTP status that reports this failure: 400 for a request that is
    /// not multipart or names no boundary, 500 for everything else.
    pub fn status(&self) -> (code: u16)
        ensures
            code == self.spec_status(),
            code == 400 <==> self.is_client_error(),
            code == 500 <==> !self.is_client_error(),
    {
        match self {
            UploadError::NotMultipart | UploadError::MissingBoundary => BAD_REQUEST,
            _ => INTERNAL_SERVER_ERROR,
        }
    }

    /// The text sent to the client.
    pub fn message(&self) -> (text: String)
        ensures
            text@ == self.spec_message(),
    {
        match self {
            UploadError::NotMultipart => String::from_str("Content-Type not multipart/form-data"),
            UploadError::MissingBoundary => String::from_str(
                "`Content-Type: multipart/form-data` boundary param not provided",
            ),
            UploadError::NoFileField => String::from_str("no fileToUpload field found"),
            UploadError::NotAFile => String::from_str("No file found"),
            UploadError::PartialWrite => String::from_str("found partial"),
            UploadError::Storage(text) => text.clone(),
            UploadError::MissingFileName => String::from_str(
                "no valid filename for stored file found!",
            ),
            UploadError::NonUnicodeFileName => String::from_str("filename not valid UTF-8"),
        }
    }
}

} // verus!
