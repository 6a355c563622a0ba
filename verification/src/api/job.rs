//! The work that sending one post asks of one network: the images are
//! uploaded one after another, then the post is published with what the
//! uploads gave. The first failure ends the work.
use vstd::prelude::*;

use crate::api::http::judge;
use crate::api::http::verdict;
use crate::api::http::Attempt;
use crate::api::http::Delivery;
use crate::api::http::Fault;
use crate::api::http::Phase;
use crate::api::http::Verdict;
use crate::api::messages::ResultImage;
use crate::api::result::ApiError;
use crate::api::result::Backend;
use crate::data::PostId;

verus! {

/// How far the work has come.
#[derive(Debug)]
pub enum Stage {
    /// Images are still to be uploaded.
    Uploading,
    /// The images are uploaded and the post is to be published.
    Posting,
    /// The work is over.
    Finished(Result<PostId, ApiError>),
}

/// The work for one network.
#[derive(Debug)]
pub struct Job {
    /// The network.
    pub backend: Backend,
    /// What the uploads gave, where the network names images by numbers.
    pub ids: Vec<u64>,
    /// What the uploads gave, where the network names images by strings.
    pub guids: Vec<String>,
    /// Whether the request at hand is made for the first time.
    pub attempt: Attempt,
    /// How far the work has come.
    pub stage: Stage,
}

/// The work for one network, as a value of mathematics.
pub struct JobView {
    /// The network.
    pub backend: Backend,
    /// The numbers that uploads gave.
    pub ids: Seq<u64>,
    /// The strings that uploads gave.
    pub guids: Seq<String>,
    /// Whether the request at hand is made for the first time.
    pub attempt: Attempt,
    /// How far the work has come.
    pub stage: Stage,
}

impl View for Job {
    type V = JobView;

    open spec fn view(&self) -> JobView {
        JobView {
            backend: self.backend,
            ids: self.ids@,
            guids: self.guids@,
            attempt: self.attempt,
            stage: self.stage,
        }
    }
}

/// How many of `images` images a network takes: Minds takes one, the others
/// take all.
pub open spec fn needed(backend: Backend, images: nat) -> nat {
    if backend == Backend::Minds && images > 1 {
        1
    } else {
        images
    }
}

/// How many of `images` images a network takes.
pub fn images_needed(backend: Backend, images: usize) -> (n: usize)
    ensures
        n == needed(backend, images as nat),
{
    match backend {
        Backend::Minds => if images > 1 {
            1
        } else {
            images
        },
        _ => images,
    }
}

impl JobView {
    /// The work at its start: with images to upload it begins with them, and
    /// without it begins with the post.
    pub open spec fn begun(backend: Backend, images: nat) -> JobView {
        JobView {
            backend,
            ids: Seq::empty(),
            guids: Seq::empty(),
            attempt: Attempt::First,
            stage: if needed(backend, images) == 0 {
                Stage::Posting
            } else {
                Stage::Uploading
            },
        }
    }

    /// How many uploads are done.
    pub open spec fn done(self) -> nat {
        if self.backend == Backend::Twitter {
            self.ids.len()
        } else {
            self.guids.len()
        }
    }

    /// The work after it failed.
    pub open spec fn failed(self, phase: Phase, fault: Fault) -> JobView {
        JobView {
            backend: self.backend,
            ids: self.ids,
            guids: self.guids,
            attempt: self.attempt,
            stage: Stage::Finished(Err(ApiError::of(self.backend, phase, fault))),
        }
    }

    /// The work before the second try of the request at hand.
    pub open spec fn retried(self) -> JobView {
        JobView {
            backend: self.backend,
            ids: self.ids,
            guids: self.guids,
            attempt: Attempt::Second,
            stage: self.stage,
        }
    }

    /// The work after an upload gave a name of the kind that the network
    /// uses: the next request is a first try, and it is the post once the
    /// network has all the images that it takes.
    pub open spec fn kept(self, ids: Seq<u64>, guids: Seq<String>, images: nat) -> JobView {
        let held = if self.backend == Backend::Twitter {
            ids.len()
        } else {
            guids.len()
        };
        JobView {
            backend: self.backend,
            ids,
            guids,
            attempt: Attempt::First,
            stage: if held >= needed(self.backend, images) {
                Stage::Posting
            } else {
                Stage::Uploading
            },
        }
    }

    /// The work after the delivery of an upload, of `images` images in all.
    /// Outside the uploads nothing changes. A first try that brought nothing
    /// back is made again; a failure ends the work with the network's error
    /// for it, and so does a name that is not of the network's kind.
    pub open spec fn after_upload(self, delivery: Delivery<ResultImage>, images: nat) -> JobView {
        if !(self.stage is Uploading) {
            self
        } else {
            match verdict(self.attempt, delivery) {
                Verdict::Retry => self.retried(),
                Verdict::Done(Err(fault)) => self.failed(Phase::Upload, fault),
                Verdict::Done(Ok(ResultImage::Id(id))) => if self.backend == Backend::Twitter {
                    self.kept(self.ids.push(id), self.guids, images)
                } else {
                    self.failed(Phase::Upload, Fault::Invalid)
                },
                Verdict::Done(Ok(ResultImage::Guid(guid))) => if self.backend == Backend::Twitter {
                    self.failed(Phase::Upload, Fault::Invalid)
                } else {
                    self.kept(self.ids, self.guids.push(guid), images)
                },
            }
        }
    }

    /// The work after the delivery of the post. Before the post is due and
    /// after the work is over nothing changes. A first try that brought
    /// nothing back is made again; else the work ends, with the post's
    /// identifier or the network's error.
    pub open spec fn after_post(self, delivery: Delivery<PostId>) -> JobView {
        if !(self.stage is Posting) {
            self
        } else {
            match verdict(self.attempt, delivery) {
                Verdict::Retry => self.retried(),
                Verdict::Done(Err(fault)) => self.failed(Phase::Publish, fault),
                Verdict::Done(Ok(id)) => JobView {
                    backend: self.backend,
                    ids: self.ids,
                    guids: self.guids,
                    attempt: self.attempt,
                    stage: Stage::Finished(Ok(id)),
                },
            }
        }
    }

    /// Whether the work is in order for a post with `images` images: what
    /// the uploads gave is of the network's kind; while images are uploaded,
    /// one that the network takes is still to come; and the post is due
    /// exactly when the network has all the images that it takes.
    pub open spec fn in_order(self, images: nat) -> bool {
        &&& self.backend == Backend::Twitter ==> self.guids.len() == 0
        &&& self.backend != Backend::Twitter ==> self.ids.len() == 0
        &&& self.stage is Uploading ==> self.done() < needed(self.backend, images)
        &&& self.stage is Posting ==> self.done() == needed(self.backend, images)
        &&& needed(self.backend, images) <= images
    }

    /// How many deliveries the work can still take at most before it is
    /// over: two for each request that is still to be made, one less once
    /// the request at hand is tried again.
    pub open spec fn left(self, images: nat) -> nat {
        let tried: nat = if self.attempt == Attempt::Second {
            1
        } else {
            0
        };
        match self.stage {
            Stage::Finished(_) => 0,
            Stage::Posting => (2 - tried) as nat,
            Stage::Uploading => (2 * (needed(self.backend, images) - self.done()) + 2 - tried) as nat,
        }
    }

    /// What the work gave. Work that was left before its end counts as a
    /// request that could not be sent.
    pub open spec fn result(self) -> Result<PostId, ApiError> {
        match self.stage {
            Stage::Finished(result) => result,
            Stage::Uploading => Err(ApiError::of(self.backend, Phase::Upload, Fault::Send)),
            Stage::Posting => Err(ApiError::of(self.backend, Phase::Publish, Fault::Send)),
        }
    }
}

/// The work at its start is in order.
pub proof fn lemma_begun_in_order(backend: Backend, images: nat)
    ensures
        JobView::begun(backend, images).in_order(images),
{
}

/// A delivery of an upload leaves work in order.
pub proof fn lemma_upload_keeps_order(job: JobView, delivery: Delivery<ResultImage>, images: nat)
    requires
        job.in_order(images),
    ensures
        job.after_upload(delivery, images).in_order(images),
{
}

/// A delivery of the post leaves work in order.
pub proof fn lemma_post_keeps_order(job: JobView, delivery: Delivery<PostId>, images: nat)
    requires
        job.in_order(images),
    ensures
        job.after_post(delivery).in_order(images),
{
}

/// Every delivery that is due brings the end of the work nearer, so the work
/// is over after two deliveries for each of its requests at most.
pub proof fn lemma_deliveries_end_the_work(
    job: JobView,
    upload: Delivery<ResultImage>,
    post: Delivery<PostId>,
    images: nat,
)
    requires
        job.in_order(images),
    ensures
        job.stage is Finished <==> job.left(images) == 0,
        job.stage is Uploading ==> job.after_upload(upload, images).left(images) < job.left(images),
        job.stage is Posting ==> job.after_post(post).left(images) < job.left(images),
        JobView::begun(job.backend, images).left(images) == 2 * needed(job.backend, images) + 2,
{
}

impl Job {
    /// The work at its start, with `images` images to send.
    pub fn begin(backend: Backend, images: usize) -> (job: Job)
        ensures
            job@ == JobView::begun(backend, images as nat),
    {
        let stage = if images_needed(backend, images) == 0 {
            Stage::Posting
        } else {
            Stage::Uploading
        };
        Job { backend, ids: Vec::new(), guids: Vec::new(), attempt: Attempt::First, stage }
    }

    /// How many uploads are done.
    pub fn done(&self) -> (n: usize)
        ensures
            n == self@.done(),
    {
        match self.backend {
            Backend::Twitter => self.ids.len(),
            _ => self.guids.len(),
        }
    }

    /// Whether the work is over.
    pub fn finished(&self) -> (r: bool)
        ensures
            r == (self.stage is Finished),
    {
        match &self.stage {
            Stage::Finished(_) => true,
            _ => false,
        }
    }

    /// Ends the work with the network's error for a fault.
    fn fail(&mut self, phase: Phase, fault: Fault)
        ensures
            final(self)@ == old(self)@.failed(phase, fault),
    {
        self.stage = Stage::Finished(Err(ApiError::from_fault(self.backend, phase, fault)));
    }

    /// Goes on after an upload gave a name of the network's kind.
    fn keep(&mut self, images: usize)
        ensures
            final(self)@ == old(self)@.kept(old(self).ids@, old(self).guids@, images as nat),
    {
        self.attempt = Attempt::First;
        self.stage = if self.done() >= images_needed(self.backend, images) {
            Stage::Posting
        } else {
            Stage::Uploading
        };
    }

    /// Takes the delivery of an upload, of `images` images in all.
    pub fn uploaded(&mut self, delivery: Delivery<ResultImage>, images: usize)
        ensures
            final(self)@ == old(self)@.after_upload(delivery, images as nat),
    {
        match &self.stage {
            Stage::Uploading => {},
            _ => {
                return ;
            },
        }
        match judge(self.attempt, delivery) {
            Verdict::Retry => {
                self.attempt = Attempt::Second;
            },
            Verdict::Done(Err(fault)) => {
                self.fail(Phase::Upload, fault);
            },
            Verdict::Done(Ok(ResultImage::Id(id))) => match self.backend {
                Backend::Twitter => {
                    self.ids.push(id);
                    self.keep(images);
                },
                _ => {
                    self.fail(Phase::Upload, Fault::Invalid);
                },
            },
            Verdict::Done(Ok(ResultImage::Guid(guid))) => match self.backend {
                Backend::Twitter => {
                    self.fail(Phase::Upload, Fault::Invalid);
                },
                _ => {
                    self.guids.push(guid);
                    self.keep(images);
                },
            },
        }
    }

    /// Takes the delivery of the post.
    pub fn posted(&mut self, delivery: Delivery<PostId>)
        ensures
            final(self)@ == old(self)@.after_post(delivery),
    {
        match &self.stage {
            Stage::Posting => {},
            _ => {
                return ;
            },
        }
        match judge(self.attempt, delivery) {
            Verdict::Retry => {
                self.attempt = Attempt::Second;
            },
            Verdict::Done(Err(fault)) => {
                self.fail(Phase::Publish, fault);
            },
            Verdict::Done(Ok(id)) => {
                self.stage = Stage::Finished(Ok(id));
            },
        }
    }

    /// What the work gave.
    pub fn into_result(self) -> (result: Result<PostId, ApiError>)
        ensures
            result == self@.result(),
    {
        match self.stage {
            Stage::Finished(result) => result,
            Stage::Uploading => Err(
                ApiError::from_fault(self.backend, Phase::Upload, Fault::Send),
            ),
            Stage::Posting => Err(ApiError::from_fault(self.backend, Phase::Publish, Fault::Send)),
        }
    }
}

} // verus!
