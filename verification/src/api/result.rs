//! What sending a post gives: one result per network.
use vstd::prelude::*;
use vstd::string::StringExecFns;

use crate::api::gab::GabError;
use crate::api::http::Fault;
use crate::api::http::Phase;
use crate::api::mastodon::MastodonError;
use crate::api::minds::MindsError;
use crate::api::twitter::TwitterError;
use crate::data::PostId;

verus! {

/// The networks, in the order of their results.
#[derive(Debug, Clone, Copy, PartialEq, Eq, Structural)]
pub enum Backend {
    /// Twitter.
    Twitter,
    /// Gab.
    Gab,
    /// Mastodon.
    Mastodon,
    /// Minds.
    Minds,
}

impl Backend {
    /// The network's name.
    pub open spec fn text(self) -> Seq<char> {
        match self {
            Backend::Twitter => "Twitter"@,
            Backend::Gab => "Gab"@,
            Backend::Mastodon => "Mastodon"@,
            Backend::Minds => "Minds"@,
        }
    }

    /// The network's name.
    pub fn name(&self) -> (name: &'static str)
        ensures
            name@ == self.text(),
    {
        match self {
            Backend::Twitter => "Twitter",
            Backend::Gab => "Gab",
            Backend::Mastodon => "Mastodon",
            Backend::Minds => "Minds",
        }
    }
}

/// What can go wrong.
#[derive(Debug)]
pub enum ApiError {
    /// An image could not be read: its path and why.
    CannotLoadImage(String, String),
    /// Twitter's error.
    Twitter(TwitterError),
    /// Gab's error.
    Gab(GabError),
    /// Mastodon's error.
    Mastodon(MastodonError),
    /// Minds's error.
    Minds(MindsError),
}

impl ApiError {
    /// The error in words.
    pub open spec fn text(self) -> Seq<char> {
        match self {
            ApiError::CannotLoadImage(name, error) => "Error opening image '"@ + name@
                + "'. Error: "@ + error@,
            ApiError::Twitter(error) => "Twitter API Error: "@ + error.text(),
            ApiError::Gab(error) => "Gab API Error: "@ + error.text(),
            ApiError::Mastodon(error) => "Mastodon API Error: "@ + error.text(),
            ApiError::Minds(error) => "MindsError API Error: "@ + error.text(),
        }
    }

    /// The error in words.
    pub fn message(&self) -> (words: String)
        ensures
            words@ == self.text(),
    {
        match self {
            ApiError::CannotLoadImage(name, error) => {
                let mut words = String::from_str("Error opening image '");
                words.append(name.as_str());
                words.append("'. Error: ");
                words.append(error.as_str());
                words
            },
            ApiError::Twitter(error) => {
                let mut words = String::from_str("Twitter API Error: ");
                words.append(error.description());
                words
            },
            ApiError::Gab(error) => {
                let mut words = String::from_str("Gab API Error: ");
                words.append(error.description());
                words
            },
            ApiError::Mastodon(error) => {
                let mut words = String::from_str("Mastodon API Error: ");
                words.append(error.description());
                words
            },
            ApiError::Minds(error) => {
                let mut words = String::from_str("MindsError API Error: ");
                words.append(error.description());
                words
            },
        }
    }

    /// The error of `backend` that stands for a fault of an exchange in a
    /// phase.
    pub open spec fn of(backend: Backend, phase: Phase, fault: Fault) -> ApiError {
        match backend {
            Backend::Twitter => ApiError::Twitter(TwitterError::of(phase, fault)),
            Backend::Gab => ApiError::Gab(GabError::of(phase, fault)),
            Backend::Mastodon => ApiError::Mastodon(MastodonError::of(phase, fault)),
            Backend::Minds => ApiError::Minds(MindsError::of(phase, fault)),
        }
    }

    /// The error of `backend` that stands for a fault of an exchange in a
    /// phase.
    pub fn from_fault(backend: Backend, phase: Phase, fault: Fault) -> (error: ApiError)
        ensures
            error == ApiError::of(backend, phase, fault),
    {
        match backend {
            Backend::Twitter => ApiError::Twitter(TwitterError::from_fault(phase, fault)),
            Backend::Gab => ApiError::Gab(GabError::from_fault(phase, fault)),
            Backend::Mastodon => ApiError::Mastodon(MastodonError::from_fault(phase, fault)),
            Backend::Minds => ApiError::Minds(MindsError::from_fault(phase, fault)),
        }
    }

    /// Whether the error is one of `backend`.
    pub open spec fn belongs_to(self, backend: Backend) -> bool {
        match (self, backend) {
            (ApiError::Twitter(_), Backend::Twitter) => true,
            (ApiError::Gab(_), Backend::Gab) => true,
            (ApiError::Mastodon(_), Backend::Mastodon) => true,
            (ApiError::Minds(_), Backend::Minds) => true,
            _ => false,
        }
    }
}

impl From<TwitterError> for ApiError {
    fn from(error: TwitterError) -> (r: ApiError) {
        ApiError::Twitter(error)
    }
}

impl vstd::std_specs::convert::FromSpecImpl<TwitterError> for ApiError {
    open spec fn obeys_from_spec() -> bool {
        true
    }

    open spec fn from_spec(error: TwitterError) -> ApiError {
        ApiError::Twitter(error)
    }
}

impl From<GabError> for ApiError {
    fn from(error: GabError) -> (r: ApiError) {
        ApiError::Gab(error)
    }
}

impl vstd::std_specs::convert::FromSpecImpl<GabError> for ApiError {
    open spec fn obeys_from_spec() -> bool {
        true
    }

    open spec fn from_spec(error: GabError) -> ApiError {
        ApiError::Gab(error)
    }
}

impl From<MastodonError> for ApiError {
    fn from(error: MastodonError) -> (r: ApiError) {
        ApiError::Mastodon(error)
    }
}

impl vstd::std_specs::convert::FromSpecImpl<MastodonError> for ApiError {
    open spec fn obeys_from_spec() -> bool {
        true
    }

    open spec fn from_spec(error: MastodonError) -> ApiError {
        ApiError::Mastodon(error)
    }
}

impl From<MindsError> for ApiError {
    fn from(error: MindsError) -> (r: ApiError) {
        ApiError::Minds(error)
    }
}

impl vstd::std_specs::convert::FromSpecImpl<MindsError> for ApiError {
    open spec fn obeys_from_spec() -> bool {
        true
    }

    open spec fn from_spec(error: MindsError) -> ApiError {
        ApiError::Minds(error)
    }
}

/// What is told of a network's result: the line, and whether it tells of an
/// error.
#[derive(Debug)]
pub struct Report {
    /// The line to print.
    pub line: String,
    /// Whether the line tells of an error.
    pub failed: bool,
}

/// The line that tells of a post's identifier on a network.
pub open spec fn success_text(backend: Backend, id: PostId) -> Seq<char> {
    backend.text() + "(Id="@ + id.text() + ")"@
}

/// What is told of a network's result: the network with the identifier of
/// the post, or the error in words.
pub fn report(backend: Backend, result: &Result<PostId, ApiError>) -> (told: Report)
    ensures
        match *result {
            Ok(id) => !told.failed && told.line@ == success_text(backend, id),
            Err(error) => told.failed && told.line@ == error.text(),
        },
{
    match result {
        Ok(id) => {
            let mut line = String::from_str(backend.name());
            line.append("(Id=");
            let id = id.to_text();
            line.append(id.as_str());
            line.append(")");
            Report { line, failed: false }
        },
        Err(error) => Report { line: error.message(), failed: true },
    }
}

/// What became of a post on one network: nothing where the network is not
/// used, else the post's identifier or the error.
pub type Slot = Option<Result<PostId, ApiError>>;

/// What became of a post, network by network. Each result is handed out once.
pub struct PostResult {
    inner: (Slot, Slot, Slot, Slot),
}

impl PostResult {
    /// The results that are still there, in the order Twitter, Gab,
    /// Mastodon, Minds.
    pub closed spec fn parts(self) -> (Slot, Slot, Slot, Slot) {
        self.inner
    }

    /// The result of `backend`, where it is still there.
    pub open spec fn slot(self, backend: Backend) -> Slot {
        match backend {
            Backend::Twitter => self.parts().0,
            Backend::Gab => self.parts().1,
            Backend::Mastodon => self.parts().2,
            Backend::Minds => self.parts().3,
        }
    }

    /// The results in the order Twitter, Gab, Mastodon, Minds.
    pub fn from_parts(twitter: Slot, gab: Slot, mastodon: Slot, minds: Slot) -> (result: PostResult)
        ensures
            result.parts() == (twitter, gab, mastodon, minds),
    {
        PostResult { inner: (twitter, gab, mastodon, minds) }
    }

    /// Hands out Twitter's result; it is gone afterwards.
    pub fn twitter(&mut self) -> (slot: Slot)
        ensures
            slot == old(self).parts().0,
            final(self).parts() == (None::<Result<PostId, ApiError>>, old(self).parts().1, old(
                self,
            ).parts().2, old(self).parts().3),
    {
        self.inner.0.take()
    }

    /// Hands out Gab's result; it is gone afterwards.
    pub fn gab(&mut self) -> (slot: Slot)
        ensures
            slot == old(self).parts().1,
            final(self).parts() == (old(self).parts().0, None::<Result<PostId, ApiError>>, old(
                self,
            ).parts().2, old(self).parts().3),
    {
        self.inner.1.take()
    }

    /// Hands out Mastodon's result; it is gone afterwards.
    pub fn mastodon(&mut self) -> (slot: Slot)
        ensures
            slot == old(self).parts().2,
            final(self).parts() == (old(self).parts().0, old(self).parts().1, None::<
                Result<PostId, ApiError>,
            >, old(self).parts().3),
    {
        self.inner.2.take()
    }

    /// Hands out Minds's result; it is gone afterwards.
    pub fn minds(&mut self) -> (slot: Slot)
        ensures
            slot == old(self).parts().3,
            final(self).parts() == (old(self).parts().0, old(self).parts().1, old(
                self,
            ).parts().2, None::<Result<PostId, ApiError>>),
    {
        self.inner.3.take()
    }

    /// All results that are still there, in the order Twitter, Gab,
    /// Mastodon, Minds.
    pub fn into_parts(self) -> (parts: (Slot, Slot, Slot, Slot))
        ensures
            parts == self.parts(),
    {
        self.inner
    }
}

} // verus!
