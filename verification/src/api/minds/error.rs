//! What can go wrong with Minds.
use vstd::prelude::*;

use crate::api::http::Fault;
use crate::api::http::Phase;

verus! {

/// Minds's errors.
#[derive(Debug, Clone, Copy, PartialEq, Eq, Structural)]
pub enum MindsError {
    /// Signing in failed.
    LoginFailed,
    /// The request to upload an image could not be sent.
    ImageUploadSendError,
    /// The server rejected the upload of an image.
    ImageUploadServerReject,
    /// The server's answer to an upload does not hold an identifier.
    ImageUploadInvalidResponse,
    /// The request to post could not be sent.
    PostUploadSendError,
    /// The server rejected the post.
    PostUploadServerReject,
    /// The server's answer to a post does not hold an identifier.
    PostUploadInvalidResponse,
}

impl MindsError {
    /// The error in words.
    pub open spec fn text(self) -> Seq<char> {
        match self {
            MindsError::LoginFailed => "Login has failed"@,
            MindsError::ImageUploadSendError => "Failed to send request to upload image"@,
            MindsError::ImageUploadServerReject => "Server rejected upload of image"@,
            MindsError::ImageUploadInvalidResponse => "Server sent invalid response. Doesn't contain field id"@,
            MindsError::PostUploadSendError => "Failed to send request to perform text post"@,
            MindsError::PostUploadServerReject => "Server rejected posting"@,
            MindsError::PostUploadInvalidResponse => "Server sent invalid response. Doesn't contain field id"@,
        }
    }

    /// The error in words.
    pub fn description(&self) -> (words: &'static str)
        ensures
            words@ == self.text(),
    {
        match self {
            MindsError::LoginFailed => "Login has failed",
            MindsError::ImageUploadSendError => "Failed to send request to upload image",
            MindsError::ImageUploadServerReject => "Server rejected upload of image",
            MindsError::ImageUploadInvalidResponse => "Server sent invalid response. Doesn't contain field id",
            MindsError::PostUploadSendError => "Failed to send request to perform text post",
            MindsError::PostUploadServerReject => "Server rejected posting",
            MindsError::PostUploadInvalidResponse => "Server sent invalid response. Doesn't contain field id",
        }
    }

    /// The error that stands for a fault of an exchange in a phase.
    pub open spec fn of(phase: Phase, fault: Fault) -> MindsError {
        match (phase, fault) {
            (Phase::Upload, Fault::Send) => MindsError::ImageUploadSendError,
            (Phase::Upload, Fault::Reject) => MindsError::ImageUploadServerReject,
            (Phase::Upload, Fault::Invalid) => MindsError::ImageUploadInvalidResponse,
            (Phase::Publish, Fault::Send) => MindsError::PostUploadSendError,
            (Phase::Publish, Fault::Reject) => MindsError::PostUploadServerReject,
            (Phase::Publish, Fault::Invalid) => MindsError::PostUploadInvalidResponse,
        }
    }

    /// The error that stands for a fault of an exchange in a phase.
    pub fn from_fault(phase: Phase, fault: Fault) -> (error: MindsError)
        ensures
            error == MindsError::of(phase, fault),
    {
        match (phase, fault) {
            (Phase::Upload, Fault::Send) => MindsError::ImageUploadSendError,
            (Phase::Upload, Fault::Reject) => MindsError::ImageUploadServerReject,
            (Phase::Upload, Fault::Invalid) => MindsError::ImageUploadInvalidResponse,
            (Phase::Publish, Fault::Send) => MindsError::PostUploadSendError,
            (Phase::Publish, Fault::Reject) => MindsError::PostUploadServerReject,
            (Phase::Publish, Fault::Invalid) => MindsError::PostUploadInvalidResponse,
        }
    }
}

} // verus!
