//! What can go wrong with Mastodon.
use vstd::prelude::*;

use crate::api::http::Fault;
use crate::api::http::Phase;

verus! {

/// Mastodon's errors.
#[derive(Debug, Clone, Copy, PartialEq, Eq, Structural)]
pub enum MastodonError {
    /// The configured host is not a valid address.
    InvalidHostUri,
    /// The access token is not usable: it is empty.
    InvalidToken,
    /// The request to upload an image could not be sent.
    ImageUploadSendError,
    /// The server rejected the upload of an image.
    ImageUploadServerReject,
    /// The server's answer to an upload does not hold an identifier.
    ImageUploadInvalidResponse,
    /// The request to post could not be sent.
    PostUploadSendError,
    /// The server rejected the post.
    PostUploadServerReject,
    /// The server's answer to a post does not hold an identifier.
    PostUploadInvalidResponse,
}

impl MastodonError {
    /// The error in words.
    pub open spec fn text(self) -> Seq<char> {
        match self {
            MastodonError::InvalidHostUri => "Provided Host URI is not valid URI"@,
            MastodonError::InvalidToken => "Token is not valid(empty)"@,
            MastodonError::ImageUploadSendError => "Failed to send request to upload image"@,
            MastodonError::ImageUploadServerReject => "Server rejected upload of image"@,
            MastodonError::ImageUploadInvalidResponse => "Server sent invalid response. Doesn't contain field id"@,
            MastodonError::PostUploadSendError => "Failed to send request to perform text post"@,
            MastodonError::PostUploadServerReject => "Server rejected posting"@,
            MastodonError::PostUploadInvalidResponse => "Server sent invalid response. Doesn't contain field id"@,
        }
    }

    /// The error in words.
    pub fn description(&self) -> (words: &'static str)
        ensures
            words@ == self.text(),
    {
        match self {
            MastodonError::InvalidHostUri => "Provided Host URI is not valid URI",
            MastodonError::InvalidToken => "Token is not valid(empty)",
            MastodonError::ImageUploadSendError => "Failed to send request to upload image",
            MastodonError::ImageUploadServerReject => "Server rejected upload of image",
            MastodonError::ImageUploadInvalidResponse => "Server sent invalid response. Doesn't contain field id",
            MastodonError::PostUploadSendError => "Failed to send request to perform text post",
            MastodonError::PostUploadServerReject => "Server rejected posting",
            MastodonError::PostUploadInvalidResponse => "Server sent invalid response. Doesn't contain field id",
        }
    }

    /// The error that stands for a fault of an exchange in a phase.
    pub open spec fn of(phase: Phase, fault: Fault) -> MastodonError {
        match (phase, fault) {
            (Phase::Upload, Fault::Send) => MastodonError::ImageUploadSendError,
            (Phase::Upload, Fault::Reject) => MastodonError::ImageUploadServerReject,
            (Phase::Upload, Fault::Invalid) => MastodonError::ImageUploadInvalidResponse,
            (Phase::Publish, Fault::Send) => MastodonError::PostUploadSendError,
            (Phase::Publish, Fault::Reject) => MastodonError::PostUploadServerReject,
            (Phase::Publish, Fault::Invalid) => MastodonError::PostUploadInvalidResponse,
        }
    }

    /// The error that stands for a fault of an exchange in a phase.
    pub fn from_fault(phase: Phase, fault: Fault) -> (error: MastodonError)
        ensures
            error == MastodonError::of(phase, fault),
    {
        match (phase, fault) {
            (Phase::Upload, Fault::Send) => MastodonError::ImageUploadSendError,
            (Phase::Upload, Fault::Reject) => MastodonError::ImageUploadServerReject,
            (Phase::Upload, Fault::Invalid) => MastodonError::ImageUploadInvalidResponse,
            (Phase::Publish, Fault::Send) => MastodonError::PostUploadSendError,
            (Phase::Publish, Fault::Reject) => MastodonError::PostUploadServerReject,
            (Phase::Publish, Fault::Invalid) => MastodonError::PostUploadInvalidResponse,
        }
    }
}

} // verus!
