//! The digest convergence poller: after an upload the service reprocesses
//! the payload on its own time, and the only evidence of that is the digest
//! it reports. The poller looks at most twelve times, five seconds apart.
//!
//! For a package that existed before, convergence means that the digest
//! differs from the one read before the upload. For a package that was just
//! created, it means that the digest carries a checksum at all.

use crate::digest::{text_view, DigestView, PackageDigestSnapshot};
use crate::text::{decimal, eq_ignore_ascii_case, eq_ignoring_ascii_case, push_decimal};
use vstd::string::StringExecFns;
use vstd::prelude::*;

verus! {

/// What the poller waits for.
#[derive(Debug)]
pub enum PollMode {
    /// A digest that differs from this one, read before the upload.
    Change(PackageDigestSnapshot),
    /// A digest that carries a checksum.
    Availability,
}

/// What to do after a look at the digest.
#[derive(Debug)]
pub enum PollDecision {
    /// The digest shows the upload; this is it.
    Converged(PackageDigestSnapshot),
    /// Pause for `seconds`, then look again, for the time `next_attempt`.
    Wait { seconds: u64, next_attempt: u32, latest: Option<PackageDigestSnapshot> },
    /// The looks ran out; `latest` is the last digest that was seen.
    Exhausted { latest: Option<PackageDigestSnapshot> },
}

/// What a series of looks amounted to.
#[derive(Debug)]
pub struct PollReport {
    pub attempts: u32,
    pub waited_seconds: u64,
    pub outcome: Result<PackageDigestSnapshot, Option<PackageDigestSnapshot>>,
}

/// The number of looks that may be taken in all.
pub const DIGEST_POLL_ATTEMPTS: u32 = 12;

/// The pause between two looks, in seconds.
pub const DIGEST_POLL_INTERVAL_SECONDS: u64 = 5;

/// The time after which the poller gives up, in seconds.
pub const DIGEST_POLL_BUDGET_SECONDS: u64 = 60;

/// The number of looks that may be taken in all.
pub open spec fn poll_attempts() -> u32 {
    12
}

/// The pause between two looks, in seconds.
pub open spec fn poll_interval_seconds() -> u64 {
    5
}

/// The longest time the poller waits in all, in seconds.
pub open spec fn poll_budget_seconds() -> u64 {
    60
}

/// The content of an optional snapshot.
pub open spec fn snapshot_view(s: Option<PackageDigestSnapshot>) -> Option<DigestView> {
    match s {
        Some(d) => Some(d@),
        None => None,
    }
}

impl PollMode {
    /// Whether the digest `current` is what this mode waits for.
    pub open spec fn accepts(self, current: Option<DigestView>) -> bool {
        match current {
            Some(c) => match self {
                PollMode::Change(previous) => c.differs_from(previous@),
                PollMode::Availability => c.has_verifiable_content(),
            },
            None => false,
        }
    }
}

/// The last digest seen, after a look that gave `current`.
pub open spec fn latest_after(latest: Option<DigestView>, current: Option<DigestView>) -> Option<
    DigestView,
> {
    if current is Some {
        current
    } else {
        latest
    }
}

/// The total budget is the number of looks times the pause, and the
/// constants are what the contracts say.
pub proof fn lemma_poll_budget()
    ensures
        poll_budget_seconds() == poll_attempts() * poll_interval_seconds(),
        DIGEST_POLL_ATTEMPTS == poll_attempts(),
        DIGEST_POLL_INTERVAL_SECONDS == poll_interval_seconds(),
        DIGEST_POLL_BUDGET_SECONDS == poll_budget_seconds(),
{
}

/// Decides what follows look number `attempt`, counted from 1, which gave
/// the digest `current` (absent when the service reported none); `latest` is
/// the last digest seen before.
pub fn decide_poll(
    mode: &PollMode,
    attempt: u32,
    latest: Option<PackageDigestSnapshot>,
    current: Option<PackageDigestSnapshot>,
) -> (d: PollDecision)
    ensures
        match d {
            PollDecision::Converged(s) => mode.accepts(snapshot_view(current)) && Some(s)
                == current,
            PollDecision::Wait { seconds, next_attempt, latest: seen } => {
                &&& !mode.accepts(snapshot_view(current))
                &&& attempt < poll_attempts()
                &&& seconds == poll_interval_seconds()
                &&& next_attempt == attempt + 1
                &&& snapshot_view(seen) == latest_after(
                    snapshot_view(latest),
                    snapshot_view(current),
                )
            },
            PollDecision::Exhausted { latest: seen } => {
                &&& !mode.accepts(snapshot_view(current))
                &&& attempt >= poll_attempts()
                &&& snapshot_view(seen) == latest_after(
                    snapshot_view(latest),
                    snapshot_view(current),
                )
            },
        },
{
    let seen = match current {
        Some(c) => {
            let accepted = match mode {
                PollMode::Change(previous) => c.content_updated_from(previous),
                PollMode::Availability => c.has_verifiable_content(),
            };
            if accepted {
                return PollDecision::Converged(c);
            }
            Some(c)
        },
        None => latest,
    };
    if attempt < DIGEST_POLL_ATTEMPTS {
        PollDecision::Wait {
            seconds: DIGEST_POLL_INTERVAL_SECONDS,
            next_attempt: attempt + 1,
            latest: seen,
        }
    } else {
        PollDecision::Exhausted { latest: seen }
    }
}

/// The contents of a series of looks.
pub open spec fn poll_views(polls: Seq<Option<PackageDigestSnapshot>>) -> Seq<Option<DigestView>> {
    Seq::new(polls.len(), |i: int| snapshot_view(polls[i]))
}

/// The number of the look, at or after `attempt`, at which the poller
/// stops when look `k` gives `polls[k - 1]`: the first that shows what the
/// mode waits for, or the twelfth; none when the series ends first.
pub open spec fn stops_at(mode: PollMode, polls: Seq<Option<DigestView>>, attempt: int) -> Option<
    int,
>
    decreases polls.len() + 1 - attempt,
{
    if attempt < 1 || attempt > polls.len() {
        None
    } else if mode.accepts(polls[attempt - 1]) || attempt >= poll_attempts() {
        Some(attempt)
    } else {
        stops_at(mode, polls, attempt + 1)
    }
}

/// The last digest among the first `n` looks.
pub open spec fn latest_seen(polls: Seq<Option<DigestView>>, n: int) -> Option<DigestView>
    decreases n,
{
    if n <= 0 {
        None
    } else {
        latest_after(latest_seen(polls, n - 1), polls[n - 1])
    }
}

/// Runs the poller against a prepared series of looks, the first look
/// giving `polls[0]`. The result is absent when the series ends before the
/// poller stops.
///
/// Never more than twelve looks are taken, and each look but the last is
/// followed by one pause of five seconds.
pub fn replay_poll(mode: &PollMode, polls: Vec<Option<PackageDigestSnapshot>>) -> (r: Option<
    PollReport,
>)
    ensures
        match r {
            Some(report) => {
                &&& stops_at(*mode, poll_views(polls@), 1) == Some(report.attempts as int)
                &&& 1 <= report.attempts <= poll_attempts()
                &&& report.waited_seconds == poll_interval_seconds() * (report.attempts - 1)
                &&& match report.outcome {
                    Ok(s) => mode.accepts(Some(s@)) && polls[report.attempts - 1] == Some(s),
                    Err(latest) => {
                        &&& report.attempts == poll_attempts()
                        &&& !mode.accepts(poll_views(polls@)[report.attempts - 1])
                        &&& snapshot_view(latest) == latest_seen(
                            poll_views(polls@),
                            report.attempts as int,
                        )
                    },
                }
            },
            None => stops_at(*mode, poll_views(polls@), 1) is None,
        },
{
    let ghost views = poll_views(polls@);
    let mut rest = polls;
    let mut attempt: u32 = 1;
    let mut waited: u64 = 0;
    let mut latest: Option<PackageDigestSnapshot> = None;
    assert(rest@ =~= polls@.skip(0));
    while rest.len() > 0
        invariant
            1 <= attempt <= poll_attempts(),
            attempt - 1 <= polls.len(),
            views == poll_views(polls@),
            waited == poll_interval_seconds() * (attempt - 1),
            rest@ == polls@.skip(attempt - 1),
            snapshot_view(latest) == latest_seen(views, attempt - 1),
            stops_at(*mode, views, 1) == stops_at(*mode, views, attempt as int),
        decreases rest.len(),
    {
        let ghost before = rest@;
        let current = rest.remove(0);
        assert(current == polls@[attempt - 1]);
        assert(views[attempt - 1] == snapshot_view(current));
        assert(rest@ =~= polls@.skip(attempt as int));
        match decide_poll(mode, attempt, latest, current) {
            PollDecision::Converged(s) => {
                return Some(
                    PollReport { attempts: attempt, waited_seconds: waited, outcome: Ok(s) },
                );
            },
            PollDecision::Wait { seconds, next_attempt, latest: seen } => {
                waited = waited + seconds;
                attempt = next_attempt;
                latest = seen;
            },
            PollDecision::Exhausted { latest: seen } => {
                return Some(
                    PollReport { attempts: attempt, waited_seconds: waited, outcome: Err(seen) },
                );
            },
        }
    }
    None
}

/// The digest never came to carry a checksum within the budget.
#[derive(Debug)]
pub struct ConvergenceTimeout {
    pub seconds: u64,
    pub latest: Option<PackageDigestSnapshot>,
}

/// The digest never changed within the budget, and the checksum that the
/// service holds is not that of the local file.
#[derive(Debug)]
pub struct ContentMismatch {
    pub seconds: u64,
    pub previous: PackageDigestSnapshot,
    pub latest: Option<PackageDigestSnapshot>,
    pub local_md5: String,
    pub remote_md5: Option<String>,
}

/// The MD5 hash of the last digest seen, if it has one.
pub open spec fn remote_md5(latest: Option<DigestView>) -> Option<Seq<char>> {
    match latest {
        Some(d) => d.md5_hash,
        None => None,
    }
}

/// Whether the service holds the payload whose MD5 hash is `local_md5`: the
/// hashes are compared without regard to the case of their letters.
pub open spec fn same_payload(remote: Option<Seq<char>>, local_md5: Seq<char>) -> bool {
    match remote {
        Some(r) => eq_ignoring_ascii_case(r, local_md5),
        None => false,
    }
}

/// The line of an optional digest, `unavailable` standing for none.
pub open spec fn line_or_unavailable(d: Option<DigestView>) -> Seq<char> {
    match d {
        Some(v) => v.display_line(),
        None => "unavailable"@,
    }
}

/// The text of an optional hash, `unavailable` standing for none.
pub open spec fn hash_or_unavailable(h: Option<Seq<char>>) -> Seq<char> {
    match h {
        Some(v) => v,
        None => "unavailable"@,
    }
}

/// Whether the service holds the payload whose MD5 hash is `local_md5`,
/// going by the MD5 hash `remote` that it reports.
pub fn payload_matches(remote: &Option<String>, local_md5: &str) -> (r: bool)
    ensures
        r == same_payload(text_view(*remote), local_md5@),
{
    match remote {
        Some(h) => eq_ignore_ascii_case(h.as_str(), local_md5),
        None => false,
    }
}

/// Concludes change-detection polling that ran out: the upload still counts
/// as applied when the last digest seen carries the MD5 hash of the local
/// file, since a rebuilt but identical payload keeps its digest. Otherwise
/// the error names both digests, both hashes and the time waited.
pub fn conclude_change(
    previous: PackageDigestSnapshot,
    latest: Option<PackageDigestSnapshot>,
    local_md5: String,
) -> (r: Result<(), ContentMismatch>)
    ensures
        r is Ok <==> same_payload(remote_md5(snapshot_view(latest)), local_md5@),
        match r {
            Ok(()) => true,
            Err(e) => {
                &&& e.seconds == poll_budget_seconds()
                &&& e.previous == previous
                &&& e.latest == latest
                &&& e.local_md5 == local_md5
                &&& text_view(e.remote_md5) == remote_md5(snapshot_view(latest))
            },
        },
{
    let remote: Option<String> = match &latest {
        Some(d) => match &d.md5_hash {
            Some(h) => Some(h.clone()),
            None => None,
        },
        None => None,
    };
    if payload_matches(&remote, local_md5.as_str()) {
        Ok(())
    } else {
        Err(
            ContentMismatch {
                seconds: DIGEST_POLL_BUDGET_SECONDS,
                previous,
                latest,
                local_md5,
                remote_md5: remote,
            },
        )
    }
}

/// Concludes availability polling that ran out, naming the last digest seen.
pub fn conclude_availability(latest: Option<PackageDigestSnapshot>) -> (e: ConvergenceTimeout)
    ensures
        e.seconds == poll_budget_seconds(),
        e.latest == latest,
{
    ConvergenceTimeout { seconds: DIGEST_POLL_BUDGET_SECONDS, latest }
}

impl ConvergenceTimeout {
    /// The message of this error.
    pub open spec fn message_spec(self) -> Seq<char> {
        match self.latest {
            Some(d) => "Upload completed but Jamf digest fields remained incomplete after "@
                + decimal(self.seconds as nat) + " seconds. Latest digest: "@ + d@.display_line()
                + "."@,
            None => "Upload completed but Jamf digest metadata remained unavailable after "@
                + decimal(self.seconds as nat) + " seconds."@,
        }
    }

    /// One line that says what was waited for, how long, and what was last
    /// seen.
    pub fn message(&self) -> (m: String)
        ensures
            m@ == self.message_spec(),
    {
        match &self.latest {
            Some(d) => {
                let mut m = String::from_str(
                    "Upload completed but Jamf digest fields remained incomplete after ",
                );
                push_decimal(&mut m, self.seconds);
                m.append(" seconds. Latest digest: ");
                let line = d.display_line();
                m.append(line.as_str());
                m.append(".");
                m
            },
            None => {
                let mut m = String::from_str(
                    "Upload completed but Jamf digest metadata remained unavailable after ",
                );
                push_decimal(&mut m, self.seconds);
                m.append(" seconds.");
                m
            },
        }
    }
}

impl ContentMismatch {
    /// The message of this error.
    pub open spec fn message_spec(self) -> Seq<char> {
        "Upload completed but Jamf digest metadata did not update after "@ + decimal(
            self.seconds as nat,
        ) + " seconds and the remote MD5 ("@ + hash_or_unavailable(text_view(self.remote_md5))
            + ") does not match the local file MD5 ("@ + self.local_md5@ + "). Previous digest: "@
            + self.previous@.display_line() + ". Latest digest: "@ + line_or_unavailable(
            snapshot_view(self.latest),
        ) + "."@
    }

    /// One line that names the time waited, both hashes and both digests.
    pub fn message(&self) -> (m: String)
        ensures
            m@ == self.message_spec(),
    {
        let mut m = String::from_str(
            "Upload completed but Jamf digest metadata did not update after ",
        );
        push_decimal(&mut m, self.seconds);
        m.append(" seconds and the remote MD5 (");
        match &self.remote_md5 {
            Some(h) => m.append(h.as_str()),
            None => m.append("unavailable"),
        }
        m.append(") does not match the local file MD5 (");
        m.append(self.local_md5.as_str());
        m.append("). Previous digest: ");
        let previous = self.previous.display_line();
        m.append(previous.as_str());
        m.append(". Latest digest: ");
        match &self.latest {
            Some(d) => {
                let line = d.display_line();
                m.append(line.as_str());
            },
            None => m.append("unavailable"),
        }
        m.append(".");
        m
    }
}

} // verus!
