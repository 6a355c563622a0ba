//! Sending one post to every network that is in use. Each network has its
//! own work, and no network's work touches another's.
use vstd::prelude::*;

use crate::api::http::Delivery;
use crate::api::http::Phase;
use crate::api::job::needed;
use crate::api::job::images_needed;
use crate::api::job::lemma_begun_in_order;
use crate::api::job::lemma_post_keeps_order;
use crate::api::job::lemma_upload_keeps_order;
use crate::api::job::Job;
use crate::api::job::JobView;
use crate::api::messages::ResultImage;
use crate::api::request::Request;
use crate::api::result::ApiError;
use crate::api::result::Backend;
use crate::api::result::PostResult;
use crate::api::result::Slot;
use crate::api::API;
use crate::data::Image;
use crate::data::Post;
use crate::data::PostFlags;
use crate::data::PostId;
use crate::data::Unreadable;

verus! {

/// A post on its way: the text, the flags, the images, and the work of each
/// network that is in use.
#[derive(Debug)]
pub struct Sending {
    /// The text that is sent.
    pub text: String,
    /// The flags.
    pub flags: PostFlags,
    /// The images, read once for all networks.
    pub images: Vec<Image>,
    /// Twitter's work.
    pub twitter: Option<Job>,
    /// Gab's work.
    pub gab: Option<Job>,
    /// Mastodon's work.
    pub mastodon: Option<Job>,
    /// Minds's work.
    pub minds: Option<Job>,
}

/// What the caller is to do next for one network.
#[derive(Debug)]
pub enum Action {
    /// Nothing: the network is not in use.
    Idle,
    /// Make the request, wait no longer than `timeout` seconds, and hand the
    /// delivery to the work, as an upload's or as the post's.
    Send {
        /// The request.
        request: Request,
        /// The seconds to wait.
        timeout: u64,
        /// What the request is for.
        phase: Phase,
    },
    /// The request that is due cannot be made: tell the work that nothing
    /// came back.
    Unsendable(Phase),
    /// Nothing: the work is over.
    Done,
}

/// What happens to a post on its way.
pub enum Event {
    /// The delivery of an upload for a network.
    Uploaded(Backend, Delivery<ResultImage>),
    /// The delivery of the post for a network.
    Posted(Backend, Delivery<PostId>),
}

impl Event {
    /// The network that the event is about.
    pub open spec fn backend(self) -> Backend {
        match self {
            Event::Uploaded(backend, _) => backend,
            Event::Posted(backend, _) => backend,
        }
    }
}

/// The work of one network after an event of its own.
pub open spec fn job_after(job: JobView, event: Event, images: nat) -> JobView {
    match event {
        Event::Uploaded(_, delivery) => job.after_upload(delivery, images),
        Event::Posted(_, delivery) => job.after_post(delivery),
    }
}

/// The work of one network after events of its own, one after another.
pub open spec fn job_run(job: JobView, events: Seq<Event>, images: nat) -> JobView
    decreases events.len(),
{
    if events.len() == 0 {
        job
    } else {
        job_after(job_run(job, events.drop_last(), images), events.last(), images)
    }
}

/// Those of the events that are about `backend`, in their order.
pub open spec fn own(events: Seq<Event>, backend: Backend) -> Seq<Event>
    decreases events.len(),
{
    if events.len() == 0 {
        Seq::empty()
    } else if events.last().backend() == backend {
        own(events.drop_last(), backend).push(events.last())
    } else {
        own(events.drop_last(), backend)
    }
}

/// The work of every network, as values of mathematics.
pub struct SendingView {
    /// The number of images.
    pub images: nat,
    /// Twitter's work.
    pub twitter: Option<JobView>,
    /// Gab's work.
    pub gab: Option<JobView>,
    /// Mastodon's work.
    pub mastodon: Option<JobView>,
    /// Minds's work.
    pub minds: Option<JobView>,
}

/// The view of work that may be missing.
pub open spec fn job_view(job: Option<Job>) -> Option<JobView> {
    match job {
        Some(job) => Some(job@),
        None => None,
    }
}

/// Work that may be missing, after an event of its own.
pub open spec fn stepped(job: Option<JobView>, event: Event, images: nat) -> Option<JobView> {
    match job {
        Some(job) => Some(job_after(job, event, images)),
        None => None,
    }
}

/// What work that may be missing gave.
pub open spec fn slot_of(job: Option<JobView>) -> Slot {
    match job {
        Some(job) => Some(job.result()),
        None => None,
    }
}

impl SendingView {
    /// The work at its start: each network in use has its own.
    pub open spec fn begun(
        images: nat,
        twitter: bool,
        gab: bool,
        mastodon: bool,
        minds: bool,
    ) -> SendingView {
        SendingView {
            images,
            twitter: if twitter {
                Some(JobView::begun(Backend::Twitter, images))
            } else {
                None
            },
            gab: if gab {
                Some(JobView::begun(Backend::Gab, images))
            } else {
                None
            },
            mastodon: if mastodon {
                Some(JobView::begun(Backend::Mastodon, images))
            } else {
                None
            },
            minds: if minds {
                Some(JobView::begun(Backend::Minds, images))
            } else {
                None
            },
        }
    }

    /// The work of `backend`.
    pub open spec fn job(self, backend: Backend) -> Option<JobView> {
        match backend {
            Backend::Twitter => self.twitter,
            Backend::Gab => self.gab,
            Backend::Mastodon => self.mastodon,
            Backend::Minds => self.minds,
        }
    }

    /// The work after an event: the network that the event is about goes on,
    /// the others stay as they are.
    pub open spec fn after(self, event: Event) -> SendingView {
        match event.backend() {
            Backend::Twitter => SendingView {
                twitter: stepped(self.twitter, event, self.images),
                ..self
            },
            Backend::Gab => SendingView { gab: stepped(self.gab, event, self.images), ..self },
            Backend::Mastodon => SendingView {
                mastodon: stepped(self.mastodon, event, self.images),
                ..self
            },
            Backend::Minds => SendingView {
                minds: stepped(self.minds, event, self.images),
                ..self
            },
        }
    }

    /// The work after events, one after another.
    pub open spec fn run(self, events: Seq<Event>) -> SendingView
        decreases events.len(),
    {
        if events.len() == 0 {
            self
        } else {
            self.run(events.drop_last()).after(events.last())
        }
    }

    /// What the work gave, in the order Twitter, Gab, Mastodon, Minds.
    pub open spec fn results(self) -> (Slot, Slot, Slot, Slot) {
        (slot_of(self.twitter), slot_of(self.gab), slot_of(self.mastodon), slot_of(self.minds))
    }
}

impl View for Sending {
    type V = SendingView;

    open spec fn view(&self) -> SendingView {
        SendingView {
            images: self.images@.len(),
            twitter: job_view(self.twitter),
            gab: job_view(self.gab),
            mastodon: job_view(self.mastodon),
            minds: job_view(self.minds),
        }
    }
}

impl Sending {
    /// The work of `backend`.
    pub open spec fn job_of(self, backend: Backend) -> Option<Job> {
        match backend {
            Backend::Twitter => self.twitter,
            Backend::Gab => self.gab,
            Backend::Mastodon => self.mastodon,
            Backend::Minds => self.minds,
        }
    }

    /// Whether text, flags and images are those of `other`.
    pub open spec fn same_post(self, other: Sending) -> bool {
        self.text == other.text && self.flags == other.flags && self.images == other.images
    }

    /// Hands the delivery of an upload to the work of `backend`.
    pub fn uploaded(&mut self, backend: Backend, delivery: Delivery<ResultImage>)
        ensures
            final(self).same_post(*old(self)),
            final(self)@ == old(self)@.after(Event::Uploaded(backend, delivery)),
    {
        let images = self.images.len();
        match backend {
            Backend::Twitter => match &mut self.twitter {
                Some(job) => {
                    job.uploaded(delivery, images);
                },
                None => {},
            },
            Backend::Gab => match &mut self.gab {
                Some(job) => {
                    job.uploaded(delivery, images);
                },
                None => {},
            },
            Backend::Mastodon => match &mut self.mastodon {
                Some(job) => {
                    job.uploaded(delivery, images);
                },
                None => {},
            },
            Backend::Minds => match &mut self.minds {
                Some(job) => {
                    job.uploaded(delivery, images);
                },
                None => {},
            },
        }
    }

    /// Hands the delivery of the post to the work of `backend`.
    pub fn posted(&mut self, backend: Backend, delivery: Delivery<PostId>)
        ensures
            final(self).same_post(*old(self)),
            final(self)@ == old(self)@.after(Event::Posted(backend, delivery)),
    {
        match backend {
            Backend::Twitter => match &mut self.twitter {
                Some(job) => {
                    job.posted(delivery);
                },
                None => {},
            },
            Backend::Gab => match &mut self.gab {
                Some(job) => {
                    job.posted(delivery);
                },
                None => {},
            },
            Backend::Mastodon => match &mut self.mastodon {
                Some(job) => {
                    job.posted(delivery);
                },
                None => {},
            },
            Backend::Minds => match &mut self.minds {
                Some(job) => {
                    job.posted(delivery);
                },
                None => {},
            },
        }
    }

    /// Whether the work of `backend` is over, or there is none.
    pub fn settled(&self, backend: Backend) -> (r: bool)
        ensures
            r == match self.job_of(backend) {
                Some(job) => job.stage is Finished,
                None => true,
            },
    {
        let job = match backend {
            Backend::Twitter => &self.twitter,
            Backend::Gab => &self.gab,
            Backend::Mastodon => &self.mastodon,
            Backend::Minds => &self.minds,
        };
        match job {
            Some(job) => job.finished(),
            None => true,
        }
    }

    /// How many of the images the network in use leaves out: Minds takes one
    /// image, so with more the rest is left out, which is worth a warning
    /// and no error.
    pub fn skipped(&self, backend: Backend) -> (n: usize)
        ensures
            n == match self.job_of(backend) {
                Some(_) => self.images@.len() - needed(backend, self.images@.len()),
                None => 0,
            },
    {
        if self.settled_or_absent(backend) {
            0
        } else {
            self.images.len() - images_needed(backend, self.images.len())
        }
    }

    /// Whether `backend` has no work.
    fn settled_or_absent(&self, backend: Backend) -> (r: bool)
        ensures
            r == (self.job_of(backend) is None),
    {
        match backend {
            Backend::Twitter => self.twitter.is_none(),
            Backend::Gab => self.gab.is_none(),
            Backend::Mastodon => self.mastodon.is_none(),
            Backend::Minds => self.minds.is_none(),
        }
    }

    /// What the work gave: one result for each network in use, none for the
    /// others.
    pub fn finish(self) -> (result: PostResult)
        ensures
            result.parts() == self@.results(),
    {
        let twitter = match self.twitter {
            Some(job) => Some(job.into_result()),
            None => None,
        };
        let gab = match self.gab {
            Some(job) => Some(job.into_result()),
            None => None,
        };
        let mastodon = match self.mastodon {
            Some(job) => Some(job.into_result()),
            None => None,
        };
        let minds = match self.minds {
            Some(job) => Some(job.into_result()),
            None => None,
        };
        PostResult::from_parts(twitter, gab, mastodon, minds)
    }
}

impl API {
    /// Begins to send a post whose images were read. An image that could not
    /// be read ends the sending before anything is asked of a network; else
    /// each network in use gets its work.
    pub fn send(&self, post: Post, images: Result<Vec<Image>, Unreadable>) -> (sending: Result<
        Sending,
        ApiError,
    >)
        ensures
            match images {
                Err(unreadable) => sending == Err::<Sending, ApiError>(
                    ApiError::CannotLoadImage(unreadable.path, unreadable.reason),
                ),
                Ok(images) => sending matches Ok(sending) && sending.text@ == post.text()
                    && sending.flags == post.flags && sending.images == images && sending@
                    == SendingView::begun(
                    images@.len(),
                    self.has(Backend::Twitter),
                    self.has(Backend::Gab),
                    self.has(Backend::Mastodon),
                    self.has(Backend::Minds),
                ),
            },
    {
        let images = match images {
            Ok(images) => images,
            Err(unreadable) => {
                return Err(ApiError::CannotLoadImage(unreadable.path, unreadable.reason));
            },
        };
        let count = images.len();
        let text = post.compose();
        Ok(
            Sending {
                text,
                flags: post.flags,
                images,
                twitter: if self.twitter.is_some() {
                    Some(Job::begin(Backend::Twitter, count))
                } else {
                    None
                },
                gab: if self.gab.is_some() {
                    Some(Job::begin(Backend::Gab, count))
                } else {
                    None
                },
                mastodon: if self.mastodon.is_some() {
                    Some(Job::begin(Backend::Mastodon, count))
                } else {
                    None
                },
                minds: if self.minds.is_some() {
                    Some(Job::begin(Backend::Minds, count))
                } else {
                    None
                },
            },
        )
    }
}

/// An event changes the work of the network that it is about, and of no
/// other.
pub proof fn lemma_event_touches_one(sending: SendingView, event: Event, backend: Backend)
    ensures
        sending.after(event).images == sending.images,
        event.backend() != backend ==> sending.after(event).job(backend) == sending.job(backend),
        event.backend() == backend ==> sending.after(event).job(backend) == stepped(
            sending.job(backend),
            event,
            sending.images,
        ),
{
}

/// Whatever happens to the other networks, in whatever order: the work of a
/// network is what its own events make of it. No failure and no success
/// elsewhere changes it.
pub proof fn lemma_networks_are_isolated(sending: SendingView, events: Seq<Event>, backend: Backend)
    ensures
        sending.run(events).images == sending.images,
        sending.run(events).job(backend) == match sending.job(backend) {
            Some(job) => Some(job_run(job, own(events, backend), sending.images)),
            None => None,
        },
    decreases events.len(),
{
    if events.len() > 0 {
        let before = events.drop_last();
        let last = events.last();
        lemma_networks_are_isolated(sending, before, backend);
        lemma_event_touches_one(sending.run(before), last, backend);
        if last.backend() == backend {
            assert(own(events, backend).drop_last() =~= own(before, backend));
        }
    }
}

/// The work of a network stays in order whatever happens to it.
pub proof fn lemma_job_run_in_order(job: JobView, events: Seq<Event>, images: nat)
    requires
        job.in_order(images),
    ensures
        job_run(job, events, images).in_order(images),
    decreases events.len(),
{
    if events.len() > 0 {
        lemma_job_run_in_order(job, events.drop_last(), images);
        let before = job_run(job, events.drop_last(), images);
        match events.last() {
            Event::Uploaded(_, delivery) => lemma_upload_keeps_order(before, delivery, images),
            Event::Posted(_, delivery) => lemma_post_keeps_order(before, delivery, images),
        }
    }
}

/// Whatever happens on the way: within a network the uploads come before
/// the post. While a network uploads, an image that it takes is still to be
/// sent, and its post is due only once it has every image that it takes.
pub proof fn lemma_uploads_come_before_the_post(
    images: nat,
    twitter: bool,
    gab: bool,
    mastodon: bool,
    minds: bool,
    events: Seq<Event>,
    backend: Backend,
)
    ensures
        SendingView::begun(images, twitter, gab, mastodon, minds).run(events).job(
            backend,
        ) matches Some(job) ==> job.in_order(images),
{
    let start = SendingView::begun(images, twitter, gab, mastodon, minds);
    lemma_networks_are_isolated(start, events, backend);
    if start.job(backend) is Some {
        lemma_begun_in_order(backend, images);
        lemma_job_run_in_order(start.job(backend)->Some_0, own(events, backend), images);
    }
}

/// Two courses of events that agree on what happens to one network give that
/// network the same result, however they differ for the others.
pub proof fn lemma_result_depends_on_own_events(
    sending: SendingView,
    one: Seq<Event>,
    other: Seq<Event>,
    backend: Backend,
)
    requires
        own(one, backend) == own(other, backend),
    ensures
        slot_of(sending.run(one).job(backend)) == slot_of(sending.run(other).job(backend)),
{
    lemma_networks_are_isolated(sending, one, backend);
    lemma_networks_are_isolated(sending, other, backend);
}

/// Whatever happens on the way, a network has a result exactly if it was in
/// use when the sending began, be the result an identifier or an error.
pub proof fn lemma_results_match_networks_in_use(
    images: nat,
    twitter: bool,
    gab: bool,
    mastodon: bool,
    minds: bool,
    events: Seq<Event>,
)
    ensures
        ({
            let results = SendingView::begun(images, twitter, gab, mastodon, minds).run(
                events,
            ).results();
            &&& results.0 is Some <==> twitter
            &&& results.1 is Some <==> gab
            &&& results.2 is Some <==> mastodon
            &&& results.3 is Some <==> minds
        }),
{
    let start = SendingView::begun(images, twitter, gab, mastodon, minds);
    lemma_networks_are_isolated(start, events, Backend::Twitter);
    lemma_networks_are_isolated(start, events, Backend::Gab);
    lemma_networks_are_isolated(start, events, Backend::Mastodon);
    lemma_networks_are_isolated(start, events, Backend::Minds);
}

/// Minds takes the first image alone: with any number of images from one on,
/// one upload that succeeds brings the work to the post, with the name of
/// that one upload to attach.
pub proof fn lemma_minds_takes_first_image(images: nat, status: u16, guid: String)
    requires
        images >= 1,
        crate::api::http::is_success(status),
    ensures
        JobView::begun(Backend::Minds, images).stage is Uploading,
        JobView::begun(Backend::Minds, images).done() == 0,
        ({
            let after = JobView::begun(Backend::Minds, images).after_upload(
                Delivery::Answered { status, body: Some(ResultImage::Guid(guid)) },
                images,
            );
            after.stage is Posting && after.guids == seq![guid]
        }),
{
    let after = JobView::begun(Backend::Minds, images).after_upload(
        Delivery::Answered { status, body: Some(ResultImage::Guid(guid)) },
        images,
    );
    assert(after.guids =~= seq![guid]);
}

} // verus!
