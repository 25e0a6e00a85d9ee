//! The upload retry controller: what to do after each attempt to send the
//! payload, and what a whole series of attempts amounts to.
//!
//! At most three attempts are made. A failed attempt is repeated only while
//! attempts remain and the failure was on the server's side; the pause
//! between attempts is always ten seconds.

use crate::request::{is_server_error, is_success, server_error, success, Response};
use crate::text::{decimal, push_decimal};
use vstd::string::StringExecFns;
use vstd::prelude::*;

verus! {

/// Why an upload was given up: the last answer of the service, the number
/// of attempts made, and whether the attempts ran out (as opposed to a
/// failure that is not worth repeating).
#[derive(Debug)]
pub struct UploadError {
    pub status: u16,
    pub body: String,
    pub attempts: u32,
    pub exhausted: bool,
}

/// What to do after an attempt.
#[derive(Debug)]
pub enum UploadDecision {
    /// The payload was accepted.
    Complete,
    /// Pause for `seconds`, then make attempt number `next_attempt`.
    RetryAfter { seconds: u64, next_attempt: u32 },
    /// Give up.
    Abort(UploadError),
}

/// What a series of attempts amounted to.
#[derive(Debug)]
pub struct UploadReport {
    pub attempts: u32,
    pub backoff_seconds: u64,
    pub outcome: Result<(), UploadError>,
}

/// The number of attempts that may be made in all.
pub const MAX_UPLOAD_ATTEMPTS: u32 = 3;

/// The pause between two attempts, in seconds.
pub const UPLOAD_BACKOFF_SECONDS: u64 = 10;

/// The name of the one part of the multipart body that carries the payload.
pub const UPLOAD_PART_NAME: &'static str = "file";

/// The content type under which the payload is sent.
pub const UPLOAD_CONTENT_TYPE: &'static str = "application/octet-stream";

/// The number of attempts that may be made in all.
pub open spec fn max_attempts() -> u32 {
    3
}

/// The pause between two attempts, in seconds.
pub open spec fn backoff_seconds() -> u64 {
    10
}

/// Whether attempt number `attempt` is repeated after the answer `status`.
pub open spec fn retried(attempt: int, status: u16) -> bool {
    !success(status) && attempt < max_attempts() && server_error(status)
}

/// The number of the attempt, at or after `attempt`, at which the
/// controller stops when the service answers attempt `k` with
/// `statuses[k - 1]`; none when the answers run out first.
pub open spec fn last_attempt(statuses: Seq<u16>, attempt: int) -> Option<int>
    decreases statuses.len() + 1 - attempt,
{
    if attempt < 1 || attempt > statuses.len() {
        None
    } else if retried(attempt, statuses[attempt - 1]) {
        last_attempt(statuses, attempt + 1)
    } else {
        Some(attempt)
    }
}

/// The statuses of a list of answers.
pub open spec fn statuses(responses: Seq<Response>) -> Seq<u16> {
    Seq::new(responses.len(), |i: int| responses[i].status)
}

/// Decides what follows attempt number `attempt`, counted from 1, which the
/// service answered with `response`.
pub fn decide_upload(attempt: u32, response: &Response) -> (d: UploadDecision)
    ensures
        success(response.status) ==> d is Complete,
        retried(attempt as int, response.status) ==> d == (UploadDecision::RetryAfter {
            seconds: backoff_seconds(),
            next_attempt: (attempt + 1) as u32,
        }),
        !success(response.status) && !retried(attempt as int, response.status) ==> (match d {
            UploadDecision::Abort(e) => e.status == response.status && e.body@ == response.body@
                && e.attempts == attempt && e.exhausted == server_error(response.status),
            _ => false,
        }),
{
    if is_success(response.status) {
        UploadDecision::Complete
    } else if attempt < MAX_UPLOAD_ATTEMPTS && is_server_error(response.status) {
        UploadDecision::RetryAfter { seconds: UPLOAD_BACKOFF_SECONDS, next_attempt: attempt + 1 }
    } else {
        UploadDecision::Abort(
            UploadError {
                status: response.status,
                body: response.body.clone(),
                attempts: attempt,
                exhausted: is_server_error(response.status),
            },
        )
    }
}

/// Runs the controller against a prepared series of answers, the first
/// attempt being answered by `responses[0]`. The result is absent when the
/// answers run out before the controller stops.
///
/// Never more than three attempts are made, and each attempt but the last is
/// followed by one pause of ten seconds.
pub fn replay_upload(responses: &Vec<Response>) -> (r: Option<UploadReport>)
    ensures
        match r {
            Some(report) => {
                &&& last_attempt(statuses(responses@), 1) == Some(report.attempts as int)
                &&& 1 <= report.attempts <= max_attempts()
                &&& report.backoff_seconds == backoff_seconds() * (report.attempts - 1)
                &&& match report.outcome {
                    Ok(()) => success(responses[report.attempts - 1].status),
                    Err(e) => {
                        &&& !success(responses[report.attempts - 1].status)
                        &&& e.status == responses[report.attempts - 1].status
                        &&& e.body@ == responses[report.attempts - 1].body@
                        &&& e.attempts == report.attempts
                        &&& e.exhausted == server_error(e.status)
                    },
                }
            },
            None => last_attempt(statuses(responses@), 1) is None,
        },
{
    let mut attempt: u32 = 1;
    let mut waited: u64 = 0;
    while (attempt as usize) <= responses.len()
        invariant
            1 <= attempt <= max_attempts(),
            waited == backoff_seconds() * (attempt - 1),
            last_attempt(statuses(responses@), 1) == last_attempt(
                statuses(responses@),
                attempt as int,
            ),
        decreases max_attempts() - attempt,
    {
        let response = &responses[attempt as usize - 1];
        assert(statuses(responses@)[attempt - 1] == response.status);
        match decide_upload(attempt, response) {
            UploadDecision::Complete => {
                return Some(
                    UploadReport { attempts: attempt, backoff_seconds: waited, outcome: Ok(()) },
                );
            },
            UploadDecision::RetryAfter { seconds, next_attempt } => {
                waited = waited + seconds;
                attempt = next_attempt;
            },
            UploadDecision::Abort(e) => {
                return Some(
                    UploadReport { attempts: attempt, backoff_seconds: waited, outcome: Err(e) },
                );
            },
        }
    }
    None
}

impl UploadError {
    /// The message of this error.
    pub open spec fn message_spec(self) -> Seq<char> {
        "Failed to upload package (HTTP "@ + decimal(self.status as nat) + "): "@ + self.body@
    }

    /// One line that names the status and the body of the last answer.
    pub fn message(&self) -> (m: String)
        ensures
            m@ == self.message_spec(),
    {
        let mut m = String::from_str("Failed to upload package (HTTP ");
        push_decimal(&mut m, self.status as u64);
        m.append("): ");
        m.append(self.body.as_str());
        m
    }
}

} // verus!
