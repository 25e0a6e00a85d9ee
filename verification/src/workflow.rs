//! The update workflow: a strict pipeline from the validation of the local
//! file to the final report, with one early exit.
//!
//! The workflow itself performs nothing. It names the step to perform next;
//! whoever drives it performs the step and reports what came of it as an
//! event. A step that fails ends the run: there is no event for failure and
//! no way back to an earlier step.

use crate::digest::{text_view, PackageDigestSnapshot};
use crate::poll::{payload_matches, same_payload};
use vstd::prelude::*;
use vstd::string::StringExecFns;

verus! {

/// The steps of the workflow, in the order of the pipeline.
#[derive(Debug, Clone, Copy, PartialEq, Eq, Structural)]
pub enum Step {
    LoadCredentials,
    Authenticate,
    FindPackage,
    CreatePackage,
    ReadDigest,
    HashLocalFile,
    ScanPolicies,
    UpdateMetadata,
    UploadFile,
    TriggerReindex,
    AwaitChange,
    AwaitAvailability,
    ReportUpToDate,
    ReportUpdated,
    ReportCreated,
}

/// What performing a step came to.
#[derive(Debug)]
pub enum Event {
    /// The step succeeded and has nothing to report.
    Completed,
    /// The search found a record of the package.
    PackageFound,
    /// The search found no record of the package.
    PackageAbsent,
    /// The digest that the service reports, if it reports one.
    DigestRead(Option<PackageDigestSnapshot>),
    /// The MD5 hash of the local file.
    LocalHash(String),
}

/// Why a file is not uploaded at all.
#[derive(Debug)]
pub enum ValidationError {
    /// The extension, given in lower case, is not that of a package format.
    UnsupportedExtension(String),
    /// There is no file at the path.
    FileNotFound,
}

/// Where a run stands: the step to perform next, whether the package was
/// created in this run, and the digest read before the upload.
#[derive(Debug)]
pub struct Workflow {
    pub step: Step,
    pub is_new: bool,
    pub previous: Option<PackageDigestSnapshot>,
}

/// The lower-case form of a text, as `str::to_lowercase` gives it.
pub uninterp spec fn lowercase_of(s: Seq<char>) -> Seq<char>;

/// `str::to_lowercase` returns the lower-case equivalent of its argument as
/// a new string; the result depends on the argument alone. The contract
/// gives that result its name and claims nothing else.
#[verifier::external_body]
fn lowercase(s: &str) -> (r: String)
    ensures
        r@ == lowercase_of(s@),
{
    s.to_lowercase()
}

/// The extensions of the two package formats, in lower case.
pub open spec fn allowed_extension(lowered: Seq<char>) -> bool {
    lowered == "pkg"@ || lowered == "dmg"@
}

/// The place of a step in the pipeline.
pub open spec fn rank(step: Step) -> nat {
    match step {
        Step::LoadCredentials => 0,
        Step::Authenticate => 1,
        Step::FindPackage => 2,
        Step::CreatePackage => 3,
        Step::ReadDigest => 3,
        Step::HashLocalFile => 4,
        Step::ScanPolicies => 5,
        Step::UpdateMetadata => 6,
        Step::UploadFile => 7,
        Step::TriggerReindex => 8,
        Step::AwaitChange => 9,
        Step::AwaitAvailability => 9,
        Step::ReportUpToDate => 10,
        Step::ReportUpdated => 10,
        Step::ReportCreated => 10,
    }
}

/// Whether a step ends the run.
pub open spec fn terminal(step: Step) -> bool {
    step == Step::ReportUpToDate || step == Step::ReportUpdated || step == Step::ReportCreated
}

/// The MD5 hash of an optional snapshot.
pub open spec fn reported_md5(previous: Option<PackageDigestSnapshot>) -> Option<Seq<char>> {
    match previous {
        Some(d) => text_view(d.md5_hash),
        None => None,
    }
}

/// The report that ends a run in which the payload was uploaded.
pub open spec fn report_for(is_new: bool) -> Step {
    if is_new {
        Step::ReportCreated
    } else {
        Step::ReportUpdated
    }
}

impl Workflow {
    /// What the fields of a workflow owe each other: only an existing
    /// package has a digest from before the upload and passes through the
    /// steps that deal with what the service already holds.
    pub open spec fn wf(self) -> bool {
        &&& self.is_new ==> self.previous is None
        &&& self.step == Step::CreatePackage ==> self.is_new
        &&& rank(self.step) <= rank(Step::FindPackage) ==> !self.is_new && self.previous is None
        &&& (self.step == Step::ReadDigest || self.step == Step::HashLocalFile || self.step
            == Step::ScanPolicies || self.step == Step::UpdateMetadata || self.step
            == Step::ReportUpToDate) ==> !self.is_new
        &&& self.step == Step::ReadDigest ==> self.previous is None
        &&& (self.step == Step::HashLocalFile || self.step == Step::ReportUpToDate) ==> reported_md5(
            self.previous,
        ) is Some
        &&& self.step == Step::AwaitChange ==> self.previous is Some
        &&& self.step == Step::AwaitAvailability ==> self.previous is None
        &&& self.step == Step::ReportCreated ==> self.is_new
        &&& self.step == Step::ReportUpdated ==> !self.is_new
    }

    /// The workflow after `event`, where `event` is one that the current
    /// step can come to; nothing otherwise.
    pub open spec fn next(self, event: Event) -> Option<Workflow> {
        match (self.step, event) {
            (Step::LoadCredentials, Event::Completed) => Some(
                Workflow { step: Step::Authenticate, ..self },
            ),
            (Step::Authenticate, Event::Completed) => Some(
                Workflow { step: Step::FindPackage, ..self },
            ),
            (Step::FindPackage, Event::PackageFound) => Some(
                Workflow { step: Step::ReadDigest, is_new: false, previous: None },
            ),
            (Step::FindPackage, Event::PackageAbsent) => Some(
                Workflow { step: Step::CreatePackage, is_new: true, previous: None },
            ),
            (Step::CreatePackage, Event::Completed) => Some(
                Workflow { step: Step::UploadFile, ..self },
            ),
            (Step::ReadDigest, Event::DigestRead(digest)) => Some(
                Workflow {
                    step: if reported_md5(digest) is Some {
                        Step::HashLocalFile
                    } else {
                        Step::ScanPolicies
                    },
                    is_new: self.is_new,
                    previous: digest,
                },
            ),
            (Step::HashLocalFile, Event::LocalHash(hash)) => Some(
                Workflow {
                    step: if same_payload(reported_md5(self.previous), hash@) {
                        Step::ReportUpToDate
                    } else {
                        Step::ScanPolicies
                    },
                    ..self
                },
            ),
            (Step::ScanPolicies, Event::Completed) => Some(
                Workflow { step: Step::UpdateMetadata, ..self },
            ),
            (Step::UpdateMetadata, Event::Completed) => Some(
                Workflow { step: Step::UploadFile, ..self },
            ),
            (Step::UploadFile, Event::Completed) => Some(
                Workflow { step: Step::TriggerReindex, ..self },
            ),
            (Step::TriggerReindex, Event::Completed) => Some(
                Workflow {
                    step: if self.previous is Some {
                        Step::AwaitChange
                    } else {
                        Step::AwaitAvailability
                    },
                    ..self
                },
            ),
            (Step::AwaitChange, Event::Completed) => Some(
                Workflow { step: report_for(self.is_new), ..self },
            ),
            (Step::AwaitAvailability, Event::Completed) => Some(
                Workflow { step: report_for(self.is_new), ..self },
            ),
            _ => None,
        }
    }

    /// The validation of a file, on an extension already in lower case: the
    /// extension is checked first, then the existence of the file.
    pub open spec fn validated(lowered: Seq<char>, file_exists: bool) -> Result<(), Option<Seq<char>>> {
        if !allowed_extension(lowered) {
            Err(Some(lowered))
        } else if !file_exists {
            Err(None)
        } else {
            Ok(())
        }
    }

    /// Opens a run for a file whose extension, in lower case, is `lowered`.
    /// No step is named unless the extension is `pkg` or `dmg` and the file
    /// exists.
    pub fn begin_lowered(lowered: String, file_exists: bool) -> (r: Result<
        Workflow,
        ValidationError,
    >)
        ensures
            match r {
                Ok(w) => Self::validated(lowered@, file_exists) is Ok && w == (Workflow {
                    step: Step::LoadCredentials,
                    is_new: false,
                    previous: None,
                }) && w.wf(),
                Err(ValidationError::UnsupportedExtension(e)) => Self::validated(lowered@, file_exists)
                    == Err::<(), Option<Seq<char>>>(Some(e@)),
                Err(ValidationError::FileNotFound) => Self::validated(lowered@, file_exists) == Err::<
                    (),
                    Option<Seq<char>>,
                >(None),
            },
    {
        let pkg = String::from_str("pkg");
        let dmg = String::from_str("dmg");
        if !(lowered == pkg || lowered == dmg) {
            Err(ValidationError::UnsupportedExtension(lowered))
        } else if !file_exists {
            Err(ValidationError::FileNotFound)
        } else {
            Ok(Workflow { step: Step::LoadCredentials, is_new: false, previous: None })
        }
    }

    /// Opens a run for a file with the extension `extension`, in whatever
    /// case it is written.
    pub fn begin(extension: &str, file_exists: bool) -> (r: Result<Workflow, ValidationError>)
        ensures
            match r {
                Ok(w) => Self::validated(lowercase_of(extension@), file_exists) is Ok && w == (Workflow {
                    step: Step::LoadCredentials,
                    is_new: false,
                    previous: None,
                }) && w.wf(),
                Err(ValidationError::UnsupportedExtension(e)) => Self::validated(
                    lowercase_of(extension@),
                    file_exists,
                ) == Err::<(), Option<Seq<char>>>(Some(e@)),
                Err(ValidationError::FileNotFound) => Self::validated(
                    lowercase_of(extension@),
                    file_exists,
                ) == Err::<(), Option<Seq<char>>>(None),
            },
    {
        Self::begin_lowered(lowercase(extension), file_exists)
    }

    /// Whether the run is over.
    pub fn is_finished(&self) -> (r: bool)
        ensures
            r == terminal(self.step),
    {
        self.step == Step::ReportUpToDate || self.step == Step::ReportUpdated || self.step
            == Step::ReportCreated
    }

    /// Moves on by one event. The result is absent, and the run is over,
    /// when the event is not one that the current step can come to.
    pub fn advance(self, event: Event) -> (r: Option<Workflow>)
        ensures
            r == self.next(event),
            self.wf() && r is Some ==> r->0.wf(),
    {
        let Workflow { step, is_new, previous } = self;
        match (step, event) {
            (Step::LoadCredentials, Event::Completed) => Some(
                Workflow { step: Step::Authenticate, is_new, previous },
            ),
            (Step::Authenticate, Event::Completed) => Some(
                Workflow { step: Step::FindPackage, is_new, previous },
            ),
            (Step::FindPackage, Event::PackageFound) => Some(
                Workflow { step: Step::ReadDigest, is_new: false, previous: None },
            ),
            (Step::FindPackage, Event::PackageAbsent) => Some(
                Workflow { step: Step::CreatePackage, is_new: true, previous: None },
            ),
            (Step::CreatePackage, Event::Completed) => Some(
                Workflow { step: Step::UploadFile, is_new, previous },
            ),
            (Step::ReadDigest, Event::DigestRead(digest)) => {
                let has_md5 = match &digest {
                    Some(d) => d.md5_hash.is_some(),
                    None => false,
                };
                let step = if has_md5 {
                    Step::HashLocalFile
                } else {
                    Step::ScanPolicies
                };
                Some(Workflow { step, is_new, previous: digest })
            },
            (Step::HashLocalFile, Event::LocalHash(hash)) => {
                let same = match &previous {
                    Some(d) => payload_matches(&d.md5_hash, hash.as_str()),
                    None => false,
                };
                let step = if same {
                    Step::ReportUpToDate
                } else {
                    Step::ScanPolicies
                };
                Some(Workflow { step, is_new, previous })
            },
            (Step::ScanPolicies, Event::Completed) => Some(
                Workflow { step: Step::UpdateMetadata, is_new, previous },
            ),
            (Step::UpdateMetadata, Event::Completed) => Some(
                Workflow { step: Step::UploadFile, is_new, previous },
            ),
            (Step::UploadFile, Event::Completed) => Some(
                Workflow { step: Step::TriggerReindex, is_new, previous },
            ),
            (Step::TriggerReindex, Event::Completed) => {
                let step = if previous.is_some() {
                    Step::AwaitChange
                } else {
                    Step::AwaitAvailability
                };
                Some(Workflow { step, is_new, previous })
            },
            (Step::AwaitChange, Event::Completed) => {
                let step = if is_new {
                    Step::ReportCreated
                } else {
                    Step::ReportUpdated
                };
                Some(Workflow { step, is_new, previous })
            },
            (Step::AwaitAvailability, Event::Completed) => {
                let step = if is_new {
                    Step::ReportCreated
                } else {
                    Step::ReportUpdated
                };
                Some(Workflow { step, is_new, previous })
            },
            _ => None,
        }
    }
}

/// The line that ends a run at `step`, for the package `name` with the
/// identifier `id`; none where `step` does not end a run.
pub open spec fn report_line(step: Step, name: Seq<char>, id: Seq<char>) -> Option<Seq<char>> {
    let subject = "Package '"@ + name + "' (ID: "@ + id + ") "@;
    match step {
        Step::ReportUpToDate => Some(subject + "is already up to date. Skipping update."@),
        Step::ReportUpdated => Some(subject + "updated successfully."@),
        Step::ReportCreated => Some(subject + "created and uploaded successfully."@),
        _ => None,
    }
}

impl Workflow {
    /// The final confirmation of a finished run.
    pub fn report(&self, package_name: &str, id: &str) -> (r: Option<String>)
        ensures
            r is Some <==> terminal(self.step),
            match r {
                Some(line) => report_line(self.step, package_name@, id@) == Some(line@),
                None => report_line(self.step, package_name@, id@) is None,
            },
    {
        let mut line = String::from_str("Package '");
        line.append(package_name);
        line.append("' (ID: ");
        line.append(id);
        line.append(") ");
        match self.step {
            Step::ReportUpToDate => {
                line.append("is already up to date. Skipping update.");
                Some(line)
            },
            Step::ReportUpdated => {
                line.append("updated successfully.");
                Some(line)
            },
            Step::ReportCreated => {
                line.append("created and uploaded successfully.");
                Some(line)
            },
            _ => None,
        }
    }
}

impl ValidationError {
    /// The message of this error for the file at `path`.
    pub open spec fn message_spec(self, path: Seq<char>) -> Seq<char> {
        match self {
            ValidationError::UnsupportedExtension(e) => "File must be a .pkg or .dmg (got ."@ + e@
                + ")"@,
            ValidationError::FileNotFound => "File not found: "@ + path,
        }
    }

    /// One line that says why the file at `path` is not uploaded.
    pub fn message(&self, path: &str) -> (m: String)
        ensures
            m@ == self.message_spec(path@),
    {
        match self {
            ValidationError::UnsupportedExtension(e) => {
                let mut m = String::from_str("File must be a .pkg or .dmg (got .");
                m.append(e.as_str());
                m.append(")");
                m
            },
            ValidationError::FileNotFound => {
                let mut m = String::from_str("File not found: ");
                m.append(path);
                m
            },
        }
    }
}

/// The pipeline never goes back: every event moves the run to a later step,
/// so that no run takes more than ten events.
pub proof fn lemma_no_backward_transition(w: Workflow, event: Event)
    requires
        w.next(event) is Some,
    ensures
        rank(w.next(event)->0.step) > rank(w.step),
        rank(w.next(event)->0.step) <= 10,
{
}

/// A finished run accepts no further event.
pub proof fn lemma_terminal_steps_are_final(w: Workflow, event: Event)
    requires
        terminal(w.step),
    ensures
        w.next(event) is None,
{
}

/// The early exit is taken exactly after hashing the local file of an
/// existing package, when the hash equals the MD5 hash that the service
/// reports, the case of letters aside. It is taken before the policy scan,
/// the metadata update and the upload.
pub proof fn lemma_early_exit(w: Workflow, event: Event)
    requires
        w.wf(),
        w.next(event) is Some,
    ensures
        w.next(event)->0.step == Step::ReportUpToDate <==> (w.step == Step::HashLocalFile && event
            is LocalHash && same_payload(reported_md5(w.previous), event->LocalHash_0@)),
        w.next(event)->0.step == Step::ReportUpToDate ==> !w.is_new && rank(w.step) < rank(
            Step::ScanPolicies,
        ) && rank(w.step) < rank(Step::UploadFile),
{
}

/// A package created in this run skips the digest read, the hash check, the
/// policy scan and the metadata update, and its upload is confirmed by
/// availability, not by change.
pub proof fn lemma_new_package_path(w: Workflow, event: Event)
    requires
        w.wf(),
        w.is_new,
        w.next(event) is Some,
    ensures
        w.next(event)->0.is_new,
        w.step == Step::CreatePackage ==> w.next(event)->0.step == Step::UploadFile,
        w.step == Step::TriggerReindex ==> w.next(event)->0.step == Step::AwaitAvailability,
        w.step == Step::AwaitAvailability ==> w.next(event)->0.step == Step::ReportCreated,
        w.next(event)->0.step != Step::ReadDigest,
        w.next(event)->0.step != Step::HashLocalFile,
        w.next(event)->0.step != Step::ScanPolicies,
        w.next(event)->0.step != Step::UpdateMetadata,
        w.next(event)->0.step != Step::AwaitChange,
{
}

} // verus!
