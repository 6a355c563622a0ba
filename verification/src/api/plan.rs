//! What is asked of a network next, for a post on its way.
use vstd::prelude::*;

use crate::api::http::Phase;
use crate::api::job::Job;
use crate::api::job::Stage;
use crate::api::request::Request;
use crate::api::result::Backend;
use crate::api::send::Action;
use crate::api::send::Sending;
use crate::api::twitter::clock::unix_seconds;
use crate::api::twitter::data::Oauth;
use crate::api::twitter::data::NONCE_LEN;
use crate::api::twitter::sign::is_nonce;
use crate::api::API;
use crate::data::Image;
use crate::data::PostFlags;

verus! {

/// The one attachment that Minds takes: the first that was uploaded.
pub open spec fn first_of(guids: Seq<String>) -> Option<String> {
    if guids.len() > 0 {
        Some(guids[0])
    } else {
        None
    }
}

impl API {
    /// Whether `action` is what uploads `image` for the work `job`, made at
    /// `timestamp` with `nonce`: the request of the network's client, with
    /// the time that the try may take; or that the request cannot be made,
    /// where the client is missing or cannot sign it.
    pub open spec fn plans_upload(
        self,
        action: Action,
        job: Job,
        image: Image,
        nonce: Seq<char>,
        timestamp: u64,
    ) -> bool {
        let timely = action matches Action::Send { timeout, phase, .. } && phase == Phase::Upload
            && timeout == self.conf.allowed(job.attempt);
        let unsendable = action == Action::Unsendable(Phase::Upload);
        match job.backend {
            Backend::Twitter => match self.twitter {
                Some(client) => match action {
                    Action::Send { request, .. } => timely && client.uploads(
                        Some(request),
                        image.bytes@,
                        nonce,
                        timestamp,
                    ),
                    _ => unsendable && client.uploads(None, image.bytes@, nonce, timestamp),
                },
                None => unsendable,
            },
            Backend::Gab => match self.gab {
                Some(client) => timely && client.uploads(
                    action->Send_request,
                    image.name@,
                    image.mime@,
                    image.bytes@,
                ),
                None => unsendable,
            },
            Backend::Mastodon => match self.mastodon {
                Some(client) => timely && client.uploads(
                    action->Send_request,
                    image.name@,
                    image.mime@,
                    image.bytes@,
                ),
                None => unsendable,
            },
            Backend::Minds => match self.minds {
                Some(client) => timely && client.uploads(
                    action->Send_request,
                    image.name@,
                    image.mime@,
                    image.bytes@,
                ),
                None => unsendable,
            },
        }
    }

    /// Whether `action` is what publishes the text with the flags for the
    /// work `job`, made at `timestamp` with `nonce`: the request of the
    /// network's client with all that the uploads gave, for Minds with the
    /// first of it, and with the time that the try may take; or that the
    /// request cannot be made, where the client is missing or cannot sign
    /// it.
    pub open spec fn plans_post(
        self,
        action: Action,
        job: Job,
        text: Seq<char>,
        flags: PostFlags,
        nonce: Seq<char>,
        timestamp: u64,
    ) -> bool {
        let timely = action matches Action::Send { timeout, phase, .. } && phase == Phase::Publish
            && timeout == self.conf.allowed(job.attempt);
        let unsendable = action == Action::Unsendable(Phase::Publish);
        match job.backend {
            Backend::Twitter => match self.twitter {
                Some(client) => match action {
                    Action::Send { request, .. } => timely && client.publishes(
                        Some(request),
                        text,
                        job.ids@,
                        flags.nsfw,
                        nonce,
                        timestamp,
                    ),
                    _ => unsendable && client.publishes(
                        None,
                        text,
                        job.ids@,
                        flags.nsfw,
                        nonce,
                        timestamp,
                    ),
                },
                None => unsendable,
            },
            Backend::Gab => match self.gab {
                Some(client) => timely && client.publishes(
                    action->Send_request,
                    text,
                    job.guids@,
                    flags.nsfw,
                ),
                None => unsendable,
            },
            Backend::Mastodon => match self.mastodon {
                Some(client) => timely && client.publishes(
                    action->Send_request,
                    text,
                    job.guids@,
                    flags.nsfw,
                ),
                None => unsendable,
            },
            Backend::Minds => match self.minds {
                Some(client) => timely && client.publishes(
                    action->Send_request,
                    text,
                    first_of(job.guids@),
                    flags.nsfw,
                ),
                None => unsendable,
            },
        }
    }

    /// Whether `action` is what is due for the work `job` on a post with the
    /// given text, flags and images: nothing after the work's end; the upload
    /// of the image that follows those that are uploaded; or the post.
    pub open spec fn plans_job(
        self,
        action: Action,
        job: Job,
        text: Seq<char>,
        flags: PostFlags,
        images: Seq<Image>,
        nonce: Seq<char>,
        timestamp: u64,
    ) -> bool {
        match job.stage {
            Stage::Finished(_) => action is Done,
            Stage::Uploading => if job@.done() < images.len() {
                self.plans_upload(action, job, images[job@.done() as int], nonce, timestamp)
            } else {
                action == Action::Unsendable(Phase::Upload)
            },
            Stage::Posting => self.plans_post(action, job, text, flags, nonce, timestamp),
        }
    }

    /// Whether `action` is what is due for `backend`: nothing without work,
    /// else what is due for its work.
    pub open spec fn plans(
        self,
        action: Action,
        sending: Sending,
        backend: Backend,
        nonce: Seq<char>,
        timestamp: u64,
    ) -> bool {
        match sending.job_of(backend) {
            None => action is Idle,
            Some(job) => self.plans_job(
                action,
                job,
                sending.text@,
                sending.flags,
                sending.images@,
                nonce,
                timestamp,
            ),
        }
    }

    /// The request of an upload, where it can be made.
    fn upload_request(&self, job: &Job, image: &Image, nonce: &str, timestamp: u64) -> (action:
        Action)
        ensures
            self.plans_upload(action, *job, *image, nonce@, timestamp),
    {
        let timeout = self.conf.timeout_for(job.attempt);
        let request: Option<Request> = match job.backend {
            Backend::Twitter => match &self.twitter {
                Some(client) => client.upload_image_at(
                    image.name.as_str(),
                    image.mime.as_str(),
                    image.bytes.as_slice(),
                    nonce,
                    timestamp,
                ),
                None => None,
            },
            Backend::Gab => match &self.gab {
                Some(client) => Some(
                    client.upload_image(
                        image.name.as_str(),
                        image.mime.as_str(),
                        image.bytes.as_slice(),
                    ),
                ),
                None => None,
            },
            Backend::Mastodon => match &self.mastodon {
                Some(client) => Some(
                    client.upload_image(
                        image.name.as_str(),
                        image.mime.as_str(),
                        image.bytes.as_slice(),
                    ),
                ),
                None => None,
            },
            Backend::Minds => match &self.minds {
                Some(client) => Some(
                    client.upload_image(
                        image.name.as_str(),
                        image.mime.as_str(),
                        image.bytes.as_slice(),
                    ),
                ),
                None => None,
            },
        };
        match request {
            Some(request) => Action::Send { request, timeout, phase: Phase::Upload },
            None => Action::Unsendable(Phase::Upload),
        }
    }

    /// The request of the post, where it can be made.
    fn post_request(&self, job: &Job, text: &str, flags: &PostFlags, nonce: &str, timestamp: u64)
        -> (action: Action)
        ensures
            self.plans_post(action, *job, text@, *flags, nonce@, timestamp),
    {
        let timeout = self.conf.timeout_for(job.attempt);
        let request: Option<Request> = match job.backend {
            Backend::Twitter => match &self.twitter {
                Some(client) => client.post_at(text, job.ids.as_slice(), flags, nonce, timestamp),
                None => None,
            },
            Backend::Gab => match &self.gab {
                Some(client) => Some(client.post(text, &job.guids, flags)),
                None => None,
            },
            Backend::Mastodon => match &self.mastodon {
                Some(client) => Some(client.post(text, &job.guids, flags)),
                None => None,
            },
            Backend::Minds => match &self.minds {
                Some(client) => {
                    let attachment = if job.guids.len() > 0 {
                        Some(job.guids[0].clone())
                    } else {
                        None
                    };
                    Some(client.post(text, attachment, flags))
                },
                None => None,
            },
        };
        match request {
            Some(request) => Action::Send { request, timeout, phase: Phase::Publish },
            None => Action::Unsendable(Phase::Publish),
        }
    }

    /// What is due for the work `job` on a post with the given text, flags
    /// and images, made at `timestamp` with `nonce`.
    pub fn job_action_at(
        &self,
        job: &Job,
        text: &str,
        flags: &PostFlags,
        images: &Vec<Image>,
        nonce: &str,
        timestamp: u64,
    ) -> (action: Action)
        ensures
            self.plans_job(action, *job, text@, *flags, images@, nonce@, timestamp),
    {
        match &job.stage {
            Stage::Finished(_) => Action::Done,
            Stage::Uploading => {
                let next = job.done();
                if next < images.len() {
                    self.upload_request(job, &images[next], nonce, timestamp)
                } else {
                    Action::Unsendable(Phase::Upload)
                }
            },
            Stage::Posting => self.post_request(job, text, flags, nonce, timestamp),
        }
    }

    /// What is due for the work `job` now, with a fresh nonce.
    pub fn job_action(&self, job: &Job, text: &str, flags: &PostFlags, images: &Vec<Image>) -> (action:
        Action)
        ensures
            exists|nonce: Seq<char>, timestamp: u64|
                is_nonce(nonce, NONCE_LEN as nat) && #[trigger] self.plans_job(
                    action,
                    *job,
                    text@,
                    *flags,
                    images@,
                    nonce,
                    timestamp,
                ),
    {
        let nonce = Oauth::nonce();
        let timestamp = unix_seconds();
        let action = self.job_action_at(job, text, flags, images, nonce.as_str(), timestamp);
        assert(self.plans_job(action, *job, text@, *flags, images@, nonce@, timestamp));
        action
    }

    /// What is due for `backend`, made at `timestamp` with `nonce`.
    pub fn action_at(&self, sending: &Sending, backend: Backend, nonce: &str, timestamp: u64) -> (action:
        Action)
        ensures
            self.plans(action, *sending, backend, nonce@, timestamp),
    {
        let job = match backend {
            Backend::Twitter => &sending.twitter,
            Backend::Gab => &sending.gab,
            Backend::Mastodon => &sending.mastodon,
            Backend::Minds => &sending.minds,
        };
        match job {
            Some(job) => self.job_action_at(
                job,
                sending.text.as_str(),
                &sending.flags,
                &sending.images,
                nonce,
                timestamp,
            ),
            None => Action::Idle,
        }
    }

    /// What is due for `backend` now, with a fresh nonce.
    pub fn action(&self, sending: &Sending, backend: Backend) -> (action: Action)
        ensures
            exists|nonce: Seq<char>, timestamp: u64|
                is_nonce(nonce, NONCE_LEN as nat) && #[trigger] self.plans(
                    action,
                    *sending,
                    backend,
                    nonce,
                    timestamp,
                ),
    {
        let nonce = Oauth::nonce();
        let timestamp = unix_seconds();
        let action = self.action_at(sending, backend, nonce.as_str(), timestamp);
        assert(self.plans(action, *sending, backend, nonce@, timestamp));
        action
    }
}

} // verus!
