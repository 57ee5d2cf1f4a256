//! Error taxonomy of the supervision layer.
//!
//! Every fallible operation of the library reports one of these variants;
//! the unverified shell turns them into the single human-readable string
//! that the command surface hands to the front-end. Each `message` method
//! pins the exact text it produces, so that callers can rely on diagnostic
//! details (such as a worker's captured standard error) being preserved
//! verbatim.

use vstd::prelude::*;

verus! {

/// Errors of the import pipeline: validation, payload handling and the
/// worker subprocess itself.
#[derive(Debug, Clone)]
pub enum ImportError {
    /// The caller supplied no source files or no inline rows.
    EmptyInput,
    /// The inline rows could not be encoded as a payload document.
    Serialization,
    /// The temporary payload file could not be written.
    PayloadWrite { detail: String },
    /// The worker subprocess could not be executed at all.
    WorkerSpawn { detail: String },
    /// The worker subprocess exited with a non-zero status (or none, when
    /// it was killed); `stderr` holds its captured standard-error text
    /// verbatim.
    WorkerExecution { exit_status: Option<i32>, stderr: String },
}

/// Errors of the backend service supervisor.
#[derive(Debug, Clone)]
pub enum SupervisorError {
    /// The opt-out environment flag is set; the service is managed externally.
    Disabled,
    /// No backend directory candidate exists on disk.
    BackendDirNotFound,
    /// The service process could not be spawned.
    ProcessSpawn { detail: String },
    /// The bounded readiness probe exhausted all attempts.
    ReadinessTimeout,
}

/// Errors of the read-only data store access path.
#[derive(Debug, Clone)]
pub enum StoreError {
    /// The store file exists but could not be opened.
    StoreOpen { detail: String },
    /// The query could not be prepared or iterated.
    Query { detail: String },
    /// A row held an absent or malformed required column.
    RowDecoding { detail: String },
}

/// Errors of filesystem-layout preparation.
#[derive(Debug, Clone)]
pub enum PathError {
    /// The application-data root could not be determined or created.
    PathResolution { detail: String },
    /// A worker script could not be materialized to disk.
    ScriptWrite { detail: String },
}

/// The text of an import error's message.
pub open spec fn import_error_text(e: ImportError) -> Seq<char> {
    match e {
        ImportError::EmptyInput => "no input was provided for the import"@,
        ImportError::Serialization => "the inline rows could not be serialized"@,
        ImportError::PayloadWrite { detail } => "the payload file could not be written: "@
            + detail@,
        ImportError::WorkerSpawn { detail } => "the import worker could not be executed: "@
            + detail@,
        ImportError::WorkerExecution { exit_status: _, stderr } => "the import worker failed: "@
            + stderr@,
    }
}

/// The text of a supervisor error's message.
pub open spec fn supervisor_error_text(e: SupervisorError) -> Seq<char> {
    match e {
        SupervisorError::Disabled => "the backend service is disabled by the environment"@,
        SupervisorError::BackendDirNotFound => "no backend directory was found"@,
        SupervisorError::ProcessSpawn { detail } => "the backend service could not be started: "@
            + detail@,
        SupervisorError::ReadinessTimeout => "the backend service did not become ready in time"@,
    }
}

/// The text of a store error's message.
pub open spec fn store_error_text(e: StoreError) -> Seq<char> {
    match e {
        StoreError::StoreOpen { detail } => "the store could not be opened: "@ + detail@,
        StoreError::Query { detail } => "the store query failed: "@ + detail@,
        StoreError::RowDecoding { detail } => "a store row could not be decoded: "@ + detail@,
    }
}

/// The text of a path error's message.
pub open spec fn path_error_text(e: PathError) -> Seq<char> {
    match e {
        PathError::PathResolution { detail } => "the data directory could not be prepared: "@
            + detail@,
        PathError::ScriptWrite { detail } => "a worker script could not be written: "@ + detail@,
    }
}

/// `needle` occurs contiguously inside `hay`.
pub open spec fn has_substring(hay: Seq<char>, needle: Seq<char>) -> bool {
    exists|k: int|
        0 <= k && k + needle.len() <= hay.len() && #[trigger] hay.subrange(
            k,
            k + needle.len() as int,
        ) == needle
}

impl ImportError {
    /// The single human-readable message for this error.
    pub fn message(&self) -> (m: String)
        ensures
            m@ == import_error_text(*self),
    {
        match self {
            ImportError::EmptyInput => String::from_str("no input was provided for the import"),
            ImportError::Serialization => String::from_str(
                "the inline rows could not be serialized",
            ),
            ImportError::PayloadWrite { detail } => {
                let mut m = String::from_str("the payload file could not be written: ");
                m.append(detail.as_str());
                m
            },
            ImportError::WorkerSpawn { detail } => {
                let mut m = String::from_str("the import worker could not be executed: ");
                m.append(detail.as_str());
                m
            },
            ImportError::WorkerExecution { exit_status: _, stderr } => {
                let mut m = String::from_str("the import worker failed: ");
                m.append(stderr.as_str());
                m
            },
        }
    }
}

impl SupervisorError {
    /// The single human-readable message for this error.
    pub fn message(&self) -> (m: String)
        ensures
            m@ == supervisor_error_text(*self),
    {
        match self {
            SupervisorError::Disabled => String::from_str(
                "the backend service is disabled by the environment",
            ),
            SupervisorError::BackendDirNotFound => String::from_str(
                "no backend directory was found",
            ),
            SupervisorError::ProcessSpawn { detail } => {
                let mut m = String::from_str("the backend service could not be started: ");
                m.append(detail.as_str());
                m
            },
            SupervisorError::ReadinessTimeout => String::from_str(
                "the backend service did not become ready in time",
            ),
        }
    }
}

impl StoreError {
    /// The single human-readable message for this error.
    pub fn message(&self) -> (m: String)
        ensures
            m@ == store_error_text(*self),
    {
        match self {
            StoreError::StoreOpen { detail } => {
                let mut m = String::from_str("the store could not be opened: ");
                m.append(detail.as_str());
                m
            },
            StoreError::Query { detail } => {
                let mut m = String::from_str("the store query failed: ");
                m.append(detail.as_str());
                m
            },
            StoreError::RowDecoding { detail } => {
                let mut m = String::from_str("a store row could not be decoded: ");
                m.append(detail.as_str());
                m
            },
        }
    }
}

impl PathError {
    /// The single human-readable message for this error.
    pub fn message(&self) -> (m: String)
        ensures
            m@ == path_error_text(*self),
    {
        match self {
            PathError::PathResolution { detail } => {
                let mut m = String::from_str("the data directory could not be prepared: ");
                m.append(detail.as_str());
                m
            },
            PathError::ScriptWrite { detail } => {
                let mut m = String::from_str("a worker script could not be written: ");
                m.append(detail.as_str());
                m
            },
        }
    }
}

/// A worker failure's message carries the captured standard-error text
/// verbatim: the text always occurs contiguously inside the message.
pub proof fn lemma_worker_failure_message_contains_stderr(e: ImportError)
    requires
        e is WorkerExecution,
    ensures
        has_substring(import_error_text(e), e->WorkerExecution_stderr@),
{
    let prefix = "the import worker failed: "@;
    let stderr = e->WorkerExecution_stderr@;
    let msg = import_error_text(e);
    assert(msg == prefix + stderr);
    assert(msg.subrange(prefix.len() as int, prefix.len() + stderr.len() as int) =~= stderr);
}

} // verus!
