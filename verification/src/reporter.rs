//! Delivery of the status text to the monitoring endpoint.
//!
//! The reporter does not send anything itself. Before each request the
//! caller reads its clock and asks [`Reporter::next_attempt`]; it waits for
//! the back-off that the answer names, sends the GET request to the URL
//! that the answer holds, and hands what came of it, an [`Exchange`], to
//! [`judge`]. The verdict either ends the run or sends the caller round
//! again.

use crate::config::MonitorConfig;
use crate::urls::{url_with_params, url_with_two_params, MAX_TEXT_LEN};
use vstd::pervasive::unreached;
use vstd::prelude::*;

verus! {

/// The time, in seconds from the start of a run, after which no further
/// request is begun.
pub const DEADLINE_SECS: u64 = 30;

/// The body of an answer of the monitoring endpoint: a JSON object whose
/// one field of interest, `error`, may hold the reason of a rejection, may
/// be null, or may be absent.
#[derive(Debug, Clone, PartialEq, Eq)]
pub struct Response {
    pub error: Option<String>,
}

/// The body of an answer, as far as the caller got with it.
#[derive(Debug, Clone, PartialEq, Eq)]
pub enum Body {
    /// The body could not be read to its end.
    Unreadable,
    /// The body was read, but it is not the JSON of a [`Response`].
    Malformed,
    /// The body was read and parsed.
    Parsed(Response),
}

/// What one GET request came to.
#[derive(Debug, Clone, PartialEq, Eq)]
pub enum Exchange {
    /// The request could not be sent, or no answer arrived.
    SendFailed,
    /// An answer arrived: its HTTP status code, and its body.
    Answered { status_code: u16, body: Body },
}

/// How a run of the reporter ended.
#[derive(Debug, Clone, PartialEq, Eq)]
pub enum ReportOutcome {
    /// The server took the report.
    Delivered,
    /// The server understood the report and refused it, for this reason.
    RejectedByServer(String),
    /// The deadline passed before any request was settled.
    DeadlineExceeded,
}

/// The mathematical picture of a [`ReportOutcome`].
pub enum Outcome {
    Delivered,
    RejectedByServer(Seq<char>),
    DeadlineExceeded,
}

impl View for ReportOutcome {
    type V = Outcome;

    open spec fn view(&self) -> Outcome {
        match self {
            ReportOutcome::Delivered => Outcome::Delivered,
            ReportOutcome::RejectedByServer(reason) => Outcome::RejectedByServer(reason@),
            ReportOutcome::DeadlineExceeded => Outcome::DeadlineExceeded,
        }
    }
}

impl Outcome {
    /// What the operator is told of an outcome that is a failure: the
    /// server's reason after a rejection, and that the deadline passed.
    /// Delivery is no failure and has no such text.
    pub open spec fn failure_text(self) -> Option<Seq<char>> {
        match self {
            Outcome::Delivered => None,
            Outcome::RejectedByServer(reason) => Some("Error from server: "@ + reason),
            Outcome::DeadlineExceeded => Some("deadline exceeded"@),
        }
    }
}

impl ReportOutcome {
    /// The message of a failed run, or `None` after a delivery. A run has
    /// failed unless the report was delivered, whatever the report said of
    /// the services.
    pub fn failure(&self) -> (message: Option<String>)
        ensures
            match message {
                Some(text) => self@.failure_text() == Some(text@),
                None => self@.failure_text() is None,
            },
    {
        match self {
            ReportOutcome::Delivered => None,
            ReportOutcome::RejectedByServer(reason) => {
                let mut text = String::from_str("Error from server: ");
                text.append(reason.as_str());
                Some(text)
            },
            ReportOutcome::DeadlineExceeded => Some(String::from_str("deadline exceeded")),
        }
    }
}

/// Why a request settled nothing and will be tried again.
#[derive(Debug, Clone, Copy, PartialEq, Eq)]
pub enum Transient {
    /// The request could not be sent, or no answer arrived.
    Transport,
    /// The body of the answer could not be read.
    BodyRead,
    /// The answer's status code, given here, is not one of success.
    HttpStatus(u16),
    /// The body of the answer is not the JSON that is expected.
    MalformedBody,
}

/// What a request means for the run.
#[derive(Debug, Clone, PartialEq, Eq)]
pub enum Verdict {
    /// Nothing is settled: the run goes on with the next attempt.
    Retry(Transient),
    /// The run is over, with this outcome.
    Settled(ReportOutcome),
}

/// The mathematical picture of a [`Verdict`].
pub enum Judgement {
    Retry(Transient),
    Settled(Outcome),
}

impl View for Verdict {
    type V = Judgement;

    open spec fn view(&self) -> Judgement {
        match self {
            Verdict::Retry(why) => Judgement::Retry(*why),
            Verdict::Settled(outcome) => Judgement::Settled(outcome@),
        }
    }
}

/// Whether an HTTP status code is one of success: 200 to 299.
pub open spec fn is_success(status_code: u16) -> bool {
    200 <= status_code < 300
}

/// What an exchange means for the run. An answer is looked at in three
/// steps, and the first that fails decides: its status code must be one of
/// success, its body must have been read, and the body must have parsed.
/// Only an answer that passes all three settles anything: a rejection where
/// the body names an error, delivery where it names none. Everything else
/// is tried again.
pub open spec fn judged(exchange: Exchange) -> Judgement {
    match exchange {
        Exchange::SendFailed => Judgement::Retry(Transient::Transport),
        Exchange::Answered { status_code, body } => if !is_success(status_code) {
            Judgement::Retry(Transient::HttpStatus(status_code))
        } else {
            match body {
                Body::Unreadable => Judgement::Retry(Transient::BodyRead),
                Body::Malformed => Judgement::Retry(Transient::MalformedBody),
                Body::Parsed(Response { error: Some(reason) }) => Judgement::Settled(
                    Outcome::RejectedByServer(reason@),
                ),
                Body::Parsed(Response { error: None }) => Judgement::Settled(Outcome::Delivered),
            }
        },
    }
}

/// Whether the clock has reached the deadline.
pub open spec fn deadline_reached(elapsed_secs: u64) -> bool {
    elapsed_secs >= DEADLINE_SECS
}

/// The back-off, in seconds, that comes before a request when `attempts`
/// requests went before it: none before the first, then one second more
/// each time.
pub open spec fn backoff_secs(attempts: nat) -> nat {
    attempts
}

/// Decides what one exchange means for the run.
pub fn judge(exchange: Exchange) -> (verdict: Verdict)
    ensures
        verdict@ == judged(exchange),
{
    match exchange {
        Exchange::SendFailed => Verdict::Retry(Transient::Transport),
        Exchange::Answered { status_code, body } => {
            if status_code < 200 || status_code >= 300 {
                Verdict::Retry(Transient::HttpStatus(status_code))
            } else {
                match body {
                    Body::Unreadable => Verdict::Retry(Transient::BodyRead),
                    Body::Malformed => Verdict::Retry(Transient::MalformedBody),
                    Body::Parsed(Response { error: Some(reason) }) => Verdict::Settled(
                        ReportOutcome::RejectedByServer(reason),
                    ),
                    Body::Parsed(Response { error: None }) => Verdict::Settled(
                        ReportOutcome::Delivered,
                    ),
                }
            }
        },
    }
}

/// One request that the caller is to make: after waiting `backoff_secs`
/// seconds, a GET request to `url`.
#[derive(Debug, Clone, PartialEq, Eq)]
pub struct Attempt {
    pub backoff_secs: u64,
    pub url: String,
}

/// What the caller is to do next.
#[derive(Debug, Clone, PartialEq, Eq)]
pub enum Step {
    /// Make this request, and judge what comes of it.
    Send(Attempt),
    /// Stop: the run has ended with this outcome.
    Stop(ReportOutcome),
}

/// The state of one delivery: where the requests go, and how many have
/// been begun.
#[derive(Debug)]
pub struct Reporter {
    target: String,
    attempts: u64,
}

impl Reporter {
    /// The URL that every request of this delivery goes to.
    pub closed spec fn target(&self) -> Seq<char> {
        self.target@
    }

    /// The number of requests begun so far.
    pub closed spec fn attempts(&self) -> nat {
        self.attempts as nat
    }

    /// A delivery whose requests go to `target`, with no request begun.
    pub fn for_target(target: String) -> (reporter: Reporter)
        ensures
            reporter.target() == target@,
            reporter.attempts() == 0,
    {
        Reporter { target, attempts: 0 }
    }

    /// Prepares the delivery of `status` for the host `hostname`. The
    /// requests will go to the configured URL, with `status` and `hostname`
    /// added to its query as the parameters of those names. The URL of a
    /// validated configuration parses, so the request URL can always be
    /// built; the three texts must be within [`MAX_TEXT_LEN`], the length
    /// up to which the URL builder is known not to overflow.
    pub fn new(config: &MonitorConfig, status: &str, hostname: &str) -> (reporter: Reporter)
        requires
            config.url_text().len() <= MAX_TEXT_LEN,
            status@.len() <= MAX_TEXT_LEN,
            hostname@.len() <= MAX_TEXT_LEN,
        ensures
            url_with_params(config.url_text(), "status"@, status@, "hostname"@, hostname@) == Some(
                reporter.target(),
            ),
            reporter.attempts() == 0,
    {
        proof {
            reveal_strlit("status");
            reveal_strlit("hostname");
        }
        match url_with_two_params(config.monitor_url(), "status", status, "hostname", hostname) {
            Ok(target) => Reporter::for_target(target),
            Err(_) => unreached(),
        }
    }

    /// Prepares a delivery as [`Reporter::new`] does, where the three texts
    /// are within the length that it asks for, and returns `None` where one
    /// of them is not.
    pub fn try_new(
        config: &MonitorConfig,
        status: &str,
        hostname: &str,
    ) -> (made: Option<Reporter>)
        ensures
            made is Some <==> config.url_text().len() <= MAX_TEXT_LEN && status@.len()
                <= MAX_TEXT_LEN && hostname@.len() <= MAX_TEXT_LEN,
            made matches Some(reporter) ==> {
                &&& url_with_params(
                    config.url_text(),
                    "status"@,
                    status@,
                    "hostname"@,
                    hostname@,
                ) == Some(reporter.target())
                &&& reporter.attempts() == 0
            },
    {
        if config.monitor_url().unicode_len() <= MAX_TEXT_LEN && status.unicode_len()
            <= MAX_TEXT_LEN && hostname.unicode_len() <= MAX_TEXT_LEN {
            Some(Reporter::new(config, status, hostname))
        } else {
            None
        }
    }

    /// The URL that every request of this delivery goes to.
    pub fn target_url(&self) -> (url: &str)
        ensures
            url@ == self.target(),
    {
        self.target.as_str()
    }

    /// The number of requests begun so far.
    pub fn requests_sent(&self) -> (sent: u64)
        ensures
            sent == self.attempts(),
    {
        self.attempts
    }

    /// Decides, at the clock reading `elapsed_secs`, whether another
    /// request is begun. Once the deadline is reached the run stops with
    /// `DeadlineExceeded`, and the reporter stays as it is. Before the
    /// deadline the next request is due: it goes to the target URL, after
    /// a back-off of as many seconds as requests went before it, and it is
    /// counted. The count must have room for one more request.
    pub fn next_attempt(&mut self, elapsed_secs: u64) -> (step: Step)
        requires
            old(self).attempts() < u64::MAX,
        ensures
            final(self).target() == old(self).target(),
            deadline_reached(elapsed_secs) ==> {
                &&& step matches Step::Stop(outcome)
                &&& outcome@ == Outcome::DeadlineExceeded
                &&& final(self).attempts() == old(self).attempts()
            },
            !deadline_reached(elapsed_secs) ==> {
                &&& step matches Step::Send(attempt)
                &&& attempt.backoff_secs == backoff_secs(old(self).attempts())
                &&& attempt.url@ == old(self).target()
                &&& final(self).attempts() == old(self).attempts() + 1
            },
    {
        if elapsed_secs >= DEADLINE_SECS {
            Step::Stop(ReportOutcome::DeadlineExceeded)
        } else {
            let attempt = Attempt { backoff_secs: self.attempts, url: self.target.clone() };
            self.attempts = self.attempts + 1;
            Step::Send(attempt)
        }
    }
}

} // verus!
