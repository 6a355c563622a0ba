//! What is asked of the network and what comes back, as plain values.
use vstd::prelude::*;

use crate::config::Settings;

verus! {

/// The method of a request.
#[derive(Debug, Clone, Copy, PartialEq, Eq, Structural)]
pub enum Method {
    /// `GET`
    Get,
    /// `POST`
    Post,
}

impl Method {
    /// The method's name.
    pub open spec fn text(self) -> Seq<char> {
        match self {
            Method::Get => "GET"@,
            Method::Post => "POST"@,
        }
    }

    /// The method's name.
    pub fn as_str(&self) -> (name: &'static str)
        ensures
            name@ == self.text(),
    {
        match self {
            Method::Get => "GET",
            Method::Post => "POST",
        }
    }
}

/// The two phases of sending a post to a network.
#[derive(Debug, Clone, Copy, PartialEq, Eq, Structural)]
pub enum Phase {
    /// An image is uploaded.
    Upload,
    /// The post itself is published.
    Publish,
}

/// What can go wrong with one exchange.
#[derive(Debug, Clone, Copy, PartialEq, Eq, Structural)]
pub enum Fault {
    /// Nothing came back, at the second try too.
    Send,
    /// The server answered with a status that is no success.
    Reject,
    /// The server's answer could not be read.
    Invalid,
}

/// Whether a request is made for the first time or again.
#[derive(Debug, Clone, Copy, PartialEq, Eq, Structural)]
pub enum Attempt {
    /// The first try.
    First,
    /// The one try after a first that brought nothing back.
    Second,
}

/// What came of sending a request once.
#[derive(Debug)]
pub enum Delivery<T> {
    /// Nothing came back: the request could not be sent, or no answer
    /// arrived in time.
    Lost,
    /// The server answered.
    Answered {
        /// The status of the answer.
        status: u16,
        /// What the answer holds, where it could be read.
        body: Option<T>,
    },
}

/// What follows from a delivery.
#[derive(Debug)]
pub enum Verdict<T> {
    /// The request is made once more, with more time.
    Retry,
    /// The exchange is over.
    Done(Result<T, Fault>),
}

/// Whether a status stands for success.
pub open spec fn is_success(status: u16) -> bool {
    200 <= status < 300
}

/// Whether a status stands for a redirection.
pub open spec fn is_redirect(status: u16) -> bool {
    300 <= status < 400
}

/// Whether a status stands for success.
pub fn success(status: u16) -> (r: bool)
    ensures
        r == is_success(status),
{
    200 <= status && status < 300
}

/// Whether a status stands for a redirection.
pub fn redirect(status: u16) -> (r: bool)
    ensures
        r == is_redirect(status),
{
    300 <= status && status < 400
}

/// What follows from a delivery: a first try that brought nothing back is
/// made again, a second one is given up; an answer is never asked for again,
/// whatever its status.
pub open spec fn verdict<T>(attempt: Attempt, delivery: Delivery<T>) -> Verdict<T> {
    match delivery {
        Delivery::Lost => match attempt {
            Attempt::First => Verdict::Retry,
            Attempt::Second => Verdict::Done(Err(Fault::Send)),
        },
        Delivery::Answered { status, body } => if !is_success(status) {
            Verdict::Done(Err(Fault::Reject))
        } else {
            match body {
                Some(body) => Verdict::Done(Ok(body)),
                None => Verdict::Done(Err(Fault::Invalid)),
            }
        },
    }
}

/// What follows from a delivery.
pub fn judge<T>(attempt: Attempt, delivery: Delivery<T>) -> (r: Verdict<T>)
    ensures
        r == verdict(attempt, delivery),
{
    match delivery {
        Delivery::Lost => match attempt {
            Attempt::First => Verdict::Retry,
            Attempt::Second => Verdict::Done(Err(Fault::Send)),
        },
        Delivery::Answered { status, body } => if !success(status) {
            Verdict::Done(Err(Fault::Reject))
        } else {
            match body {
                Some(body) => Verdict::Done(Ok(body)),
                None => Verdict::Done(Err(Fault::Invalid)),
            }
        },
    }
}

/// Twice the seconds, or as many as fit.
pub open spec fn doubled(secs: u64) -> u64 {
    if secs <= u64::MAX / 2 {
        (2 * secs) as u64
    } else {
        u64::MAX
    }
}

/// How long requests may take.
#[derive(Debug, Clone, Copy)]
pub struct Conf {
    /// The seconds that a first try may take.
    pub timeout: u64,
}

impl Conf {
    /// The configuration that the settings ask for.
    pub fn new(settings: &Settings) -> (conf: Conf)
        ensures
            conf.timeout == settings.timeout,
    {
        Conf { timeout: settings.timeout }
    }

    /// Takes the time that the settings give.
    pub fn set_timeout(&mut self, settings: &Settings)
        ensures
            final(self).timeout == settings.timeout,
    {
        self.timeout = settings.timeout;
    }

    /// The seconds that a first try may take.
    pub fn get_timeout(&self) -> (secs: u64)
        ensures
            secs == self.timeout,
    {
        self.timeout
    }

    /// The seconds that a try may take: a second try has twice the time of a
    /// first.
    pub open spec fn allowed(self, attempt: Attempt) -> u64 {
        match attempt {
            Attempt::First => self.timeout,
            Attempt::Second => doubled(self.timeout),
        }
    }

    /// The seconds that a try may take.
    pub fn timeout_for(&self, attempt: Attempt) -> (secs: u64)
        ensures
            secs == self.allowed(attempt),
    {
        match attempt {
            Attempt::First => self.timeout,
            Attempt::Second => if self.timeout <= u64::MAX / 2 {
                2 * self.timeout
            } else {
                u64::MAX
            },
        }
    }
}

} // verus!
