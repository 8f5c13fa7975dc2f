//! Fetching one artifact: what to do next, given what happened last.

use vstd::prelude::*;
use crate::checksum::checksum_of;

verus! {

/// Where an artifact comes from, and the checksum it must have, if known.
#[derive(Debug)]
pub struct Source {
    pub url: String,
    pub checksum: Option<String>,
}

/// One file to download.
#[derive(Debug)]
pub struct Artifact {
    pub source_url: String,
    /// Where the file goes, relative to the installation's directory.
    pub destination_path: String,
    pub expected_checksum: Option<String>,
}

impl Artifact {
    /// The artifact that brings `source` to `destination_path`.
    pub fn new(source: Source, destination_path: String) -> (res: Artifact)
        ensures
            res.source_url == source.url,
            res.expected_checksum == source.checksum,
            res.destination_path == destination_path,
    {
        Artifact {
            source_url: source.url,
            destination_path,
            expected_checksum: source.checksum,
        }
    }
}

/// Whether `artifact` brings `source` to the file `name`.
pub open spec fn brings(artifact: Artifact, source: Source, name: Seq<char>) -> bool {
    &&& artifact.source_url == source.url
    &&& artifact.expected_checksum == source.checksum
    &&& artifact.destination_path@ == name
}

impl Clone for Source {
    fn clone(&self) -> (res: Self)
        ensures
            res == *self,
    {
        Source {
            url: self.url.clone(),
            checksum: match &self.checksum {
                Some(checksum) => Some(checksum.clone()),
                None => None,
            },
        }
    }
}

/// How many requests a fetch makes for one artifact at most.
pub const MAX_ATTEMPTS: u32 = 3;

/// The delay before the second request, in milliseconds. Each later request
/// waits as much longer again.
pub const BACKOFF_MS: u64 = 500;

/// What happened last in a fetch.
#[derive(Debug)]
pub enum FetchEvent {
    /// The destination was looked at: the checksum of the file that stands
    /// there, as `checksum` computes it, or nothing where there is no file.
    Probed { existing: Option<String> },
    /// The server answered with this status, and the body is staged beside
    /// the destination; the checksum is that of the staged bytes, as
    /// `checksum` computes it.
    Responded { status: u16, checksum: String },
    /// The request got no answer: the connection failed or timed out.
    TransportFailed,
}

/// Why a fetch failed.
#[derive(Debug)]
pub enum FetchError {
    /// The staged bytes do not have the expected checksum.
    Integrity { expected: String, actual: String },
    /// The server refused, or kept failing, with this status.
    Status(u16),
    /// No request got an answer.
    Network,
    /// The installation was cancelled.
    Cancelled,
}

impl Clone for FetchError {
    fn clone(&self) -> (res: Self)
        ensures
            res == *self,
    {
        match self {
            FetchError::Integrity { expected, actual } => FetchError::Integrity {
                expected: expected.clone(),
                actual: actual.clone(),
            },
            FetchError::Status(status) => FetchError::Status(*status),
            FetchError::Network => FetchError::Network,
            FetchError::Cancelled => FetchError::Cancelled,
        }
    }
}

/// What a fetch does next.
#[derive(Debug)]
pub enum FetchStep {
    /// Wait this many milliseconds, then request the artifact and stage the
    /// body beside the destination.
    Request { delay_ms: u64 },
    /// Move the staged file to the destination, creating the directories
    /// above it as needed: the fetch has succeeded.
    Promote,
    /// Leave the destination as it is: the fetch has succeeded.
    Skip,
    /// Remove what is staged, leave the destination as it is, and fail.
    Reject(FetchError),
}

/// Whether a status reports success.
pub open spec fn is_success(status: u16) -> bool {
    200 <= status < 300
}

/// Whether a status reports a failure that may pass: one on the server's
/// side.
pub open spec fn is_transient(status: u16) -> bool {
    500 <= status < 600
}

/// The delay before the next request, after `attempts` requests.
pub open spec fn backoff(attempts: u32) -> int {
    BACKOFF_MS * attempts
}

/// Whether a checksum is the one that the artifact must have. Any checksum
/// will do where none is expected.
pub open spec fn checksum_accepted(expected: Option<String>, actual: Seq<char>) -> bool {
    expected matches Some(wanted) ==> wanted@ == actual
}

/// Whether the file at the destination is known to be the artifact: a
/// checksum is expected, and the file has it.
pub open spec fn already_fetched(expected: Option<String>, existing: Option<String>) -> bool {
    expected matches Some(wanted) && existing matches Some(found) && wanted@ == found@
}

/// The step after a failure that may pass: another request, after a longer
/// delay, while fewer than `MAX_ATTEMPTS` were made; then the failure.
pub open spec fn retry_or(attempts: u32, error: FetchError) -> FetchStep {
    if attempts < MAX_ATTEMPTS {
        FetchStep::Request { delay_ms: backoff(attempts) as u64 }
    } else {
        FetchStep::Reject(error)
    }
}

/// The next step of a fetch, after `attempts` requests.
///
/// A destination that already holds the artifact is left alone. Otherwise
/// the artifact is requested at once. A body that came with success is
/// promoted if its checksum is accepted, and rejected for good if not. A
/// failure on the server's side or in transport is tried again while
/// attempts are left; any other status is final.
pub open spec fn next_step(artifact: &Artifact, attempts: u32, event: FetchEvent) -> FetchStep {
    match event {
        FetchEvent::Probed { existing } => if already_fetched(
            artifact.expected_checksum,
            existing,
        ) {
            FetchStep::Skip
        } else {
            FetchStep::Request { delay_ms: 0 }
        },
        FetchEvent::Responded { status, checksum } => if is_success(status) {
            match artifact.expected_checksum {
                Some(expected) if expected@ != checksum@ => FetchStep::Reject(
                    FetchError::Integrity { expected, actual: checksum },
                ),
                _ => FetchStep::Promote,
            }
        } else if is_transient(status) {
            retry_or(attempts, FetchError::Status(status))
        } else {
            FetchStep::Reject(FetchError::Status(status))
        },
        FetchEvent::TransportFailed => retry_or(attempts, FetchError::Network),
    }
}

fn retry(attempts: u32, error: FetchError) -> (res: FetchStep)
    ensures
        res == retry_or(attempts, error),
{
    if attempts < MAX_ATTEMPTS {
        let delay_ms: u64 = BACKOFF_MS * (attempts as u64);
        FetchStep::Request { delay_ms }
    } else {
        FetchStep::Reject(error)
    }
}

impl Artifact {
    /// Decides the next step of the fetch of this artifact, after
    /// `attempts` requests and the event that came last.
    pub fn step(&self, attempts: u32, event: FetchEvent) -> (res: FetchStep)
        ensures
            res == next_step(self, attempts, event),
    {
        match event {
            FetchEvent::Probed { existing } => {
                let fetched = match (&self.expected_checksum, &existing) {
                    (Some(wanted), Some(found)) => *wanted == *found,
                    _ => false,
                };
                if fetched {
                    FetchStep::Skip
                } else {
                    FetchStep::Request { delay_ms: 0 }
                }
            },
            FetchEvent::Responded { status, checksum } => {
                if 200 <= status && status < 300 {
                    match &self.expected_checksum {
                        Some(expected) => {
                            if *expected == checksum {
                                FetchStep::Promote
                            } else {
                                FetchStep::Reject(
                                    FetchError::Integrity {
                                        expected: expected.clone(),
                                        actual: checksum,
                                    },
                                )
                            }
                        },
                        None => FetchStep::Promote,
                    }
                } else if 500 <= status && status < 600 {
                    retry(attempts, FetchError::Status(status))
                } else {
                    FetchStep::Reject(FetchError::Status(status))
                }
            },
            FetchEvent::TransportFailed => retry(attempts, FetchError::Network),
        }
    }
}

/// The files of a directory, as far as a fetch is concerned: each path that
/// holds a file, with the bytes of the file.
pub type Files = Map<Seq<char>, Seq<u8>>;

/// The files after a step is carried out, `staged` being the staged bytes.
/// Only a promotion changes them, and only at the artifact's destination.
pub open spec fn files_after(
    files: Files,
    artifact: &Artifact,
    step: FetchStep,
    staged: Seq<u8>,
) -> Files {
    match step {
        FetchStep::Promote => files.insert(artifact.destination_path@, staged),
        _ => files,
    }
}

/// A body whose checksum is not the expected one is never promoted. Where
/// it came with success the fetch fails for its integrity, with both
/// checksums; in every case the files stay as they were, so that a
/// destination without a file is still without one.
pub proof fn law_mismatch_is_rejected(
    artifact: &Artifact,
    attempts: u32,
    status: u16,
    body: Seq<u8>,
    checksum: String,
    files: Files,
)
    requires
        checksum@ == checksum_of(body),
        artifact.expected_checksum matches Some(expected) && expected@ != checksum@,
    ensures
        ({
            let step = next_step(artifact, attempts, FetchEvent::Responded { status, checksum });
            &&& !(step is Promote)
            &&& is_success(status) ==> step == FetchStep::Reject(
                FetchError::Integrity {
                    expected: artifact.expected_checksum->Some_0,
                    actual: checksum,
                },
            )
            &&& files_after(files, artifact, step, body) == files
            &&& !files.contains_key(artifact.destination_path@) ==> !files_after(
                files,
                artifact,
                step,
                body,
            ).contains_key(artifact.destination_path@)
        }),
{
}

/// An artifact with a known checksum is fetched once. After the run that
/// promoted it, the destination holds a file with that checksum; a later
/// run that finds the file there skips the artifact, requests nothing and
/// leaves the files as they are.
pub proof fn law_fetched_artifact_is_skipped(
    artifact: &Artifact,
    attempts: u32,
    status: u16,
    body: Seq<u8>,
    checksum: String,
    files: Files,
    found: String,
)
    requires
        artifact.expected_checksum is Some,
        checksum@ == checksum_of(body),
        next_step(artifact, attempts, FetchEvent::Responded { status, checksum }) is Promote,
        found@ == checksum_of(
            files_after(files, artifact, FetchStep::Promote, body)[artifact.destination_path@],
        ),
    ensures
        files_after(files, artifact, FetchStep::Promote, body).contains_key(
            artifact.destination_path@,
        ),
        found@ == artifact.expected_checksum->Some_0@,
        next_step(artifact, 0, FetchEvent::Probed { existing: Some(found) }) == FetchStep::Skip,
        files_after(
            files_after(files, artifact, FetchStep::Promote, body),
            artifact,
            FetchStep::Skip,
            body,
        ) == files_after(files, artifact, FetchStep::Promote, body),
{
}

/// A fetch leaves every file but the artifact's destination as it was,
/// whatever the step.
pub proof fn law_other_files_untouched(
    files: Files,
    artifact: &Artifact,
    step: FetchStep,
    staged: Seq<u8>,
    path: Seq<char>,
)
    requires
        path != artifact.destination_path@,
    ensures
        files_after(files, artifact, step, staged).contains_key(path) == files.contains_key(path),
        files.contains_key(path) ==> files_after(files, artifact, step, staged)[path]
            == files[path],
{
}

/// A fetch makes `MAX_ATTEMPTS` requests at most: after that many, no event
/// leads to another. Each request that follows a failure waits longer than
/// the one before it.
pub proof fn law_retries_are_bounded(artifact: &Artifact, attempts: u32, event: FetchEvent)
    requires
        !(event is Probed),
    ensures
        next_step(artifact, attempts, event) matches FetchStep::Request { delay_ms } ==> attempts
            < MAX_ATTEMPTS && delay_ms == backoff(attempts),
        attempts >= MAX_ATTEMPTS ==> !(next_step(artifact, attempts, event) is Request),
        attempts < u32::MAX ==> backoff(attempts) < backoff((attempts + 1) as u32),
{
}

/// A status on the client's side is final: the fetch fails with it at once,
/// however few requests were made.
pub proof fn law_refusal_is_not_retried(
    artifact: &Artifact,
    attempts: u32,
    status: u16,
    checksum: String,
)
    requires
        400 <= status < 500,
    ensures
        next_step(artifact, attempts, FetchEvent::Responded { status, checksum })
            == FetchStep::Reject(FetchError::Status(status)),
{
}

} // verus!
