//! The values that callers hand to the client and get back from it.

use vstd::prelude::*;
use vstd::string::*;
use crate::text::{decimal, decimal_text};

verus! {

/// The key under which the store files a package: its name and the digest of
/// its bytes in standard base64.
#[derive(Debug, Clone, PartialEq, Eq)]
pub struct FileKey {
    pub name: String,
    pub hash: String,
}

/// What a `FileKey` holds, as plain text.
pub struct FileKeyView {
    pub name: Seq<char>,
    pub hash: Seq<char>,
}

impl View for FileKey {
    type V = FileKeyView;

    open spec fn view(&self) -> FileKeyView {
        FileKeyView { name: self.name@, hash: self.hash@ }
    }
}

/// Where a package lives in the store, and whether it was there before the
/// call.
#[derive(Debug, Clone, PartialEq, Eq)]
pub struct UploadResult {
    pub uri: String,
    pub already_existed: bool,
}

/// What an `UploadResult` holds, as plain text.
pub struct UploadResultView {
    pub uri: Seq<char>,
    pub already_existed: bool,
}

impl View for UploadResult {
    type V = UploadResultView;

    open spec fn view(&self) -> UploadResultView {
        UploadResultView { uri: self.uri@, already_existed: self.already_existed }
    }
}

/// Why an operation failed.
#[derive(Debug, Clone, PartialEq, Eq)]
pub enum ContentServiceError {
    /// A local file could not be opened or read.
    IoError(String),
    /// A request could not be sent, or its answer could not be received.
    NetworkError(String),
    /// A digest could not be computed.
    HashError(String),
    /// The store answered with a status that is no success: its body and the
    /// status code.
    UploadFailed(String, u16),
    /// The store does not hold the package.
    PackageNotFound,
}

/// What a `ContentServiceError` holds, as plain text.
pub enum ErrorView {
    IoError(Seq<char>),
    NetworkError(Seq<char>),
    HashError(Seq<char>),
    UploadFailed(Seq<char>, u16),
    PackageNotFound,
}

impl View for ContentServiceError {
    type V = ErrorView;

    open spec fn view(&self) -> ErrorView {
        match self {
            ContentServiceError::IoError(m) => ErrorView::IoError(m@),
            ContentServiceError::NetworkError(m) => ErrorView::NetworkError(m@),
            ContentServiceError::HashError(m) => ErrorView::HashError(m@),
            ContentServiceError::UploadFailed(m, status) => ErrorView::UploadFailed(m@, *status),
            ContentServiceError::PackageNotFound => ErrorView::PackageNotFound,
        }
    }
}

/// The sentence that describes a failure: its kind, the status code where
/// there is one, and the detail.
pub open spec fn message_text(failure: ErrorView) -> Seq<char> {
    match failure {
        ErrorView::IoError(detail) => "IO error: "@ + detail,
        ErrorView::NetworkError(detail) => "Network error: "@ + detail,
        ErrorView::HashError(detail) => "Hash error: "@ + detail,
        ErrorView::UploadFailed(detail, status) => "Upload failed ("@ + decimal_text(status as nat) + "): "@
            + detail,
        ErrorView::PackageNotFound => "Package not found"@,
    }
}

impl ContentServiceError {
    /// Describes the failure in one sentence.
    pub fn message(&self) -> (text: String)
        ensures
            text@ == message_text(self@),
    {
        match self {
            ContentServiceError::IoError(detail) => String::from_str("IO error: ").concat(detail.as_str()),
            ContentServiceError::NetworkError(detail) => String::from_str("Network error: ").concat(
                detail.as_str(),
            ),
            ContentServiceError::HashError(detail) => String::from_str("Hash error: ").concat(detail.as_str()),
            ContentServiceError::UploadFailed(detail, status) => {
                let mut text = String::from_str("Upload failed (");
                text.append(decimal(*status).as_str());
                text.append("): ");
                text.append(detail.as_str());
                text
            },
            ContentServiceError::PackageNotFound => String::from_str("Package not found"),
        }
    }
}

} // verus!
