//! What can go wrong with Gab.
use vstd::prelude::*;

use crate::api::http::Fault;
use crate::api::http::Phase;

verus! {

/// Gab's errors.
#[derive(Debug, Clone, Copy, PartialEq, Eq, Structural)]
pub enum GabError {
    /// Signing in failed.
    LoginFailed,
    /// The request to upload an image could not be sent.
    ImageUploadSendError,
    /// The server rejected the upload of an image.
    ImageUploadServerReject,
    /// The server's answer to an upload does not hold an identifier.
    ImageUploadInvalidResponse,
    /// The request to post could not be sent.
    PostUploadSendError,
    /// The server rejected the post.
    PostUploadServerReject,
    /// The server's answer to a post does not hold an identifier.
    PostUploadInvalidResponse,
}

impl GabError {
    /// The error in words.
    pub open spec fn text(self) -> Seq<char> {
        match self {
            GabError::LoginFailed => "Login has failed"@,
            GabError::ImageUploadSendError => "Failed to send request to upload image"@,
            GabError::ImageUploadServerReject => "Server rejected upload of image"@,
            GabError::ImageUploadInvalidResponse => "Server sent invalid response. Doesn't contain field id"@,
            GabError::PostUploadSendError => "Failed to send request to perform text post"@,
            GabError::PostUploadServerReject => "Server rejected posting"@,
            GabError::PostUploadInvalidResponse => "Server sent invalid response. Doesn't contain field id"@,
        }
    }

    /// The error in words.
    pub fn description(&self) -> (words: &'static str)
        ensures
            words@ == self.text(),
    {
        match self {
            GabError::LoginFailed => "Login has failed",
            GabError::ImageUploadSendError => "Failed to send request to upload image",
            GabError::ImageUploadServerReject => "Server rejected upload of image",
            GabError::ImageUploadInvalidResponse => "Server sent invalid response. Doesn't contain field id",
            GabError::PostUploadSendError => "Failed to send request to perform text post",
            GabError::PostUploadServerReject => "Server rejected posting",
            GabError::PostUploadInvalidResponse => "Server sent invalid response. Doesn't contain field id",
        }
    }

    /// The error that stands for a fault of an exchange in a phase.
    pub open spec fn of(phase: Phase, fault: Fault) -> GabError {
        match (phase, fault) {
            (Phase::Upload, Fault::Send) => GabError::ImageUploadSendError,
            (Phase::Upload, Fault::Reject) => GabError::ImageUploadServerReject,
            (Phase::Upload, Fault::Invalid) => GabError::ImageUploadInvalidResponse,
            (Phase::Publish, Fault::Send) => GabError::PostUploadSendError,
            (Phase::Publish, Fault::Reject) => GabError::PostUploadServerReject,
            (Phase::Publish, Fault::Invalid) => GabError::PostUploadInvalidResponse,
        }
    }

    /// The error that stands for a fault of an exchange in a phase.
    pub fn from_fault(phase: Phase, fault: Fault) -> (error: GabError)
        ensures
            error == GabError::of(phase, fault),
    {
        match (phase, fault) {
            (Phase::Upload, Fault::Send) => GabError::ImageUploadSendError,
            (Phase::Upload, Fault::Reject) => GabError::ImageUploadServerReject,
            (Phase::Upload, Fault::Invalid) => GabError::ImageUploadInvalidResponse,
            (Phase::Publish, Fault::Send) => GabError::PostUploadSendError,
            (Phase::Publish, Fault::Reject) => GabError::PostUploadServerReject,
            (Phase::Publish, Fault::Invalid) => GabError::PostUploadInvalidResponse,
        }
    }
}

} // verus!
