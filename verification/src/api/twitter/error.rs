//! What can go wrong with Twitter.
use vstd::prelude::*;

use crate::api::http::Fault;
use crate::api::http::Phase;

verus! {

/// Twitter's errors.
#[derive(Debug, Clone, Copy, PartialEq, Eq, Structural)]
pub enum TwitterError {
    /// The consumer or access token is not usable: a part of it is empty.
    InvalidAuthData,
    /// The request to upload an image could not be sent.
    ImageUploadSendError,
    /// The server rejected the upload of an image.
    ImageUploadServerReject,
    /// The server's answer to an upload does not hold an identifier.
    ImageUploadInvalidResponse,
    /// The request to post could not be sent.
    PostUploadSendError,
    /// The server rejected the post.
    PostUploadServerReject,
    /// The server's answer to a post does not hold an identifier.
    PostUploadInvalidResponse,
}

impl TwitterError {
    /// The error in words.
    pub open spec fn text(self) -> Seq<char> {
        match self {
            TwitterError::InvalidAuthData => "Provided consume and/or access tokens are invalid"@,
            TwitterError::ImageUploadSendError => "Failed to send request to upload image"@,
            TwitterError::ImageUploadServerReject => "Server rejected upload of image"@,
            TwitterError::ImageUploadInvalidResponse => "Server sent invalid response. Doesn't contain field id"@,
            TwitterError::PostUploadSendError => "Failed to send request to perform text post"@,
            TwitterError::PostUploadServerReject => "Server rejected posting"@,
            TwitterError::PostUploadInvalidResponse => "Server sent invalid response. Doesn't contain field id"@,
        }
    }

    /// The error in words.
    pub fn description(&self) -> (words: &'static str)
        ensures
            words@ == self.text(),
    {
        match self {
            TwitterError::InvalidAuthData => "Provided consume and/or access tokens are invalid",
            TwitterError::ImageUploadSendError => "Failed to send request to upload image",
            TwitterError::ImageUploadServerReject => "Server rejected upload of image",
            TwitterError::ImageUploadInvalidResponse => "Server sent invalid response. Doesn't contain field id",
            TwitterError::PostUploadSendError => "Failed to send request to perform text post",
            TwitterError::PostUploadServerReject => "Server rejected posting",
            TwitterError::PostUploadInvalidResponse => "Server sent invalid response. Doesn't contain field id",
        }
    }

    /// The error that stands for a fault of an exchange in a phase.
    pub open spec fn of(phase: Phase, fault: Fault) -> TwitterError {
        match (phase, fault) {
            (Phase::Upload, Fault::Send) => TwitterError::ImageUploadSendError,
            (Phase::Upload, Fault::Reject) => TwitterError::ImageUploadServerReject,
            (Phase::Upload, Fault::Invalid) => TwitterError::ImageUploadInvalidResponse,
            (Phase::Publish, Fault::Send) => TwitterError::PostUploadSendError,
            (Phase::Publish, Fault::Reject) => TwitterError::PostUploadServerReject,
            (Phase::Publish, Fault::Invalid) => TwitterError::PostUploadInvalidResponse,
        }
    }

    /// The error that stands for a fault of an exchange in a phase.
    pub fn from_fault(phase: Phase, fault: Fault) -> (error: TwitterError)
        ensures
            error == TwitterError::of(phase, fault),
    {
        match (phase, fault) {
            (Phase::Upload, Fault::Send) => TwitterError::ImageUploadSendError,
            (Phase::Upload, Fault::Reject) => TwitterError::ImageUploadServerReject,
            (Phase::Upload, Fault::Invalid) => TwitterError::ImageUploadInvalidResponse,
            (Phase::Publish, Fault::Send) => TwitterError::PostUploadSendError,
            (Phase::Publish, Fault::Reject) => TwitterError::PostUploadServerReject,
            (Phase::Publish, Fault::Invalid) => TwitterError::PostUploadInvalidResponse,
        }
    }
}

} // verus!
