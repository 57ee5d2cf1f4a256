//! Planning and interpretation of worker subprocess invocations.
//!
//! A worker run is planned as a value — program name and exact argument
//! list — executed by the unverified shell, and its exit status is
//! interpreted here. The inline-row path additionally plans a temporary
//! payload file and is driven through a small state machine whose laws
//! guarantee that the payload file's removal is attempted after every
//! worker outcome.

use vstd::prelude::*;
use crate::decimal::decimal_of;
use crate::decimal::u64_decimal;
use crate::errors::ImportError;
use crate::json::JsonRow;
use crate::json::encode_rows;
use crate::json::rows_json;
use crate::json::rows_ok;
use crate::pathset::BackendPaths;
use crate::pathset::PathSetView;
use crate::supervisor::opt_view;

verus! {

/// The fixed head of every worker argument list: script, store path, kind
/// tag, log path.
pub open spec fn worker_args_head(pv: PathSetView, kind: Seq<char>) -> Seq<Seq<char>> {
    seq![pv.importer_path, "--db"@, pv.db_path, "--kind"@, kind, "--log"@, pv.log_path]
}

/// The full worker argument list: the fixed head, then caller-supplied
/// extra flags, then positional file arguments, then the optional
/// payload-file flag.
pub open spec fn worker_args_spec(
    pv: PathSetView,
    kind: Seq<char>,
    extra: Seq<Seq<char>>,
    files: Seq<Seq<char>>,
    payload: Option<Seq<char>>,
) -> Seq<Seq<char>> {
    worker_args_head(pv, kind) + extra + files + (match payload {
        Some(p) => seq!["--payload"@, p],
        None => Seq::<Seq<char>>::empty(),
    })
}

/// Build the argument list of one worker invocation.
pub fn worker_args(
    paths: &BackendPaths,
    kind: &String,
    extra: &Vec<String>,
    files: &Vec<String>,
    payload: &Option<String>,
) -> (r: Vec<String>)
    ensures
        r.deep_view() == worker_args_spec(
            paths@,
            kind@,
            extra.deep_view(),
            files.deep_view(),
            opt_view(*payload),
        ),
{
    let ghost head = worker_args_head(paths@, kind@);
    let mut r: Vec<String> = Vec::new();
    r.push(paths.importer_path.clone());
    r.push(String::from_str("--db"));
    r.push(paths.db_path.clone());
    r.push(String::from_str("--kind"));
    r.push(kind.clone());
    r.push(String::from_str("--log"));
    r.push(paths.log_path.clone());
    proof {
        assert(r.deep_view() =~= head);
        assert(extra.deep_view().take(0) =~= Seq::<Seq<char>>::empty());
        assert(head + extra.deep_view().take(0) =~= head);
    }
    let mut i: usize = 0;
    while i < extra.len()
        invariant
            i <= extra@.len(),
            extra@.len() == extra.deep_view().len(),
            r.deep_view() == head + extra.deep_view().take(i as int),
        decreases extra@.len() - i,
    {
        let ghost prev = r.deep_view();
        r.push(extra[i].clone());
        proof {
            assert(r.deep_view() =~= prev.push(extra@[i as int]@));
            assert(extra.deep_view().take(i + 1) =~= extra.deep_view().take(i as int).push(
                extra@[i as int]@,
            ));
            assert(prev.push(extra@[i as int]@) =~= head + extra.deep_view().take(i + 1));
        }
        i += 1;
    }
    proof {
        assert(extra.deep_view().take(extra@.len() as int) =~= extra.deep_view());
        assert(files.deep_view().take(0) =~= Seq::<Seq<char>>::empty());
        assert((head + extra.deep_view()) + files.deep_view().take(0) =~= head
            + extra.deep_view());
    }
    let mut j: usize = 0;
    while j < files.len()
        invariant
            j <= files@.len(),
            files@.len() == files.deep_view().len(),
            r.deep_view() == (head + extra.deep_view()) + files.deep_view().take(j as int),
        decreases files@.len() - j,
    {
        let ghost prev = r.deep_view();
        r.push(files[j].clone());
        proof {
            assert(r.deep_view() =~= prev.push(files@[j as int]@));
            assert(files.deep_view().take(j + 1) =~= files.deep_view().take(j as int).push(
                files@[j as int]@,
            ));
            assert(prev.push(files@[j as int]@) =~= (head + extra.deep_view())
                + files.deep_view().take(j + 1));
        }
        j += 1;
    }
    proof {
        assert(files.deep_view().take(files@.len() as int) =~= files.deep_view());
    }
    match payload {
        Some(p) => {
            r.push(String::from_str("--payload"));
            r.push(p.clone());
        },
        None => {},
    }
    proof {
        assert(r.deep_view() =~= worker_args_spec(
            paths@,
            kind@,
            extra.deep_view(),
            files.deep_view(),
            opt_view(*payload),
        ));
    }
    r
}

/// One planned worker run: the interpreter to execute and its arguments.
#[derive(Debug, Clone)]
pub struct WorkerInvocation {
    /// The bare interpreter name, resolved via the system search path.
    pub program: String,
    /// The full argument list.
    pub args: Vec<String>,
}

/// Whether an observed exit status means success: exactly exit code zero.
pub open spec fn exit_succeeded(exit_code: Option<i32>) -> bool {
    exit_code == Some(0i32)
}

/// Interpret a finished worker run: exit code zero is success; any other
/// exit — a non-zero code, or none when the process was killed —
/// surfaces the status and the captured standard-error text verbatim.
pub fn interpret_worker_exit(exit_code: Option<i32>, err_text: &String) -> (r: Result<
    (),
    ImportError,
>)
    ensures
        exit_succeeded(exit_code) <==> r is Ok,
        !exit_succeeded(exit_code) ==> r->Err_0 is WorkerExecution
            && r->Err_0->WorkerExecution_exit_status == exit_code
            && r->Err_0->WorkerExecution_stderr@ == err_text@,
{
    let succeeded = match exit_code {
        Some(c) => c == 0,
        None => false,
    };
    if succeeded {
        Ok(())
    } else {
        Err(ImportError::WorkerExecution { exit_status: exit_code, stderr: err_text.clone() })
    }
}

/// Plan a file-based import: fails fast on an empty path list, without
/// planning any subprocess.
pub fn file_import_invocation(paths: &BackendPaths, kind: &String, files: &Vec<String>) -> (r:
    Result<WorkerInvocation, ImportError>)
    ensures
        r is Ok <==> files@.len() > 0,
        r is Err ==> r->Err_0 is EmptyInput,
        r is Ok ==> r->Ok_0.program@ == "python3"@,
        r is Ok ==> r->Ok_0.args.deep_view() == worker_args_spec(
            paths@,
            kind@,
            Seq::<Seq<char>>::empty(),
            files.deep_view(),
            None,
        ),
{
    if files.len() == 0 {
        return Err(ImportError::EmptyInput);
    }
    let extra: Vec<String> = Vec::new();
    let args = worker_args(paths, kind, &extra, files, &None);
    proof {
        assert(extra.deep_view() =~= Seq::<Seq<char>>::empty());
    }
    Ok(WorkerInvocation { program: String::from_str("python3"), args })
}

/// Plan an initialization run: the `--init-only` flag with no files,
/// ensuring the store schema exists without importing data.
pub fn init_invocation(paths: &BackendPaths) -> (r: WorkerInvocation)
    ensures
        r.program@ == "python3"@,
        r.args.deep_view() == worker_args_spec(
            paths@,
            "init"@,
            seq!["--init-only"@],
            Seq::<Seq<char>>::empty(),
            None,
        ),
{
    let mut extra: Vec<String> = Vec::new();
    extra.push(String::from_str("--init-only"));
    let files: Vec<String> = Vec::new();
    let kind = String::from_str("init");
    let args = worker_args(paths, &kind, &extra, &files, &None);
    proof {
        assert(extra.deep_view() =~= seq!["--init-only"@]);
        assert(files.deep_view() =~= Seq::<Seq<char>>::empty());
    }
    WorkerInvocation { program: String::from_str("python3"), args }
}

/// The payload file of one inline import, uniquely named from a
/// millisecond timestamp inside the payloads subdirectory.
pub open spec fn payload_file_of(backend_dir: Seq<char>, timestamp_ms: u64) -> Seq<char> {
    backend_dir + "/payloads"@ + "/transfers-"@ + decimal_of(timestamp_ms as nat) + ".json"@
}

/// A fully planned inline-row import.
#[derive(Debug, Clone)]
pub struct InlineImportPlan {
    /// The payloads subdirectory (created by the shell if absent).
    pub payload_dir: String,
    /// The temporary payload file to write, pass and remove.
    pub payload_path: String,
    /// The serialized payload document.
    pub payload_bytes: Vec<u8>,
    /// The worker run reading the payload file.
    pub invocation: WorkerInvocation,
}

/// Plan an inline-row import: fails fast on an empty row collection and on
/// rows that cannot be serialized; otherwise yields the payload document,
/// its uniquely named temporary file, and the worker invocation carrying
/// the payload-file flag.
pub fn inline_import_plan(paths: &BackendPaths, rows: &Vec<JsonRow>, timestamp_ms: u64) -> (r:
    Result<InlineImportPlan, ImportError>)
    ensures
        r is Ok <==> rows@.len() > 0 && rows_ok(rows@),
        rows@.len() == 0 ==> r->Err_0 is EmptyInput,
        rows@.len() > 0 && !rows_ok(rows@) ==> r->Err_0 is Serialization,
        r is Ok ==> {
            let plan = r->Ok_0;
            &&& plan.payload_dir@ == paths@.backend_dir + "/payloads"@
            &&& plan.payload_path@ == payload_file_of(paths@.backend_dir, timestamp_ms)
            &&& plan.payload_bytes@ == rows_json(rows@)
            &&& plan.invocation.program@ == "python3"@
            &&& plan.invocation.args.deep_view() == worker_args_spec(
                paths@,
                "transfers"@,
                Seq::<Seq<char>>::empty(),
                Seq::<Seq<char>>::empty(),
                Some(payload_file_of(paths@.backend_dir, timestamp_ms)),
            )
        },
{
    if rows.len() == 0 {
        return Err(ImportError::EmptyInput);
    }
    let payload_bytes = match encode_rows(rows) {
        Ok(b) => b,
        Err(e) => { return Err(e) },
    };
    let payload_dir = paths.payload_dir();
    let mut payload_path = payload_dir.clone();
    payload_path.append("/transfers-");
    let ts = u64_decimal(timestamp_ms);
    payload_path.append(ts.as_str());
    payload_path.append(".json");
    proof {
        assert(payload_path@ == payload_file_of(paths@.backend_dir, timestamp_ms));
    }
    let extra: Vec<String> = Vec::new();
    let files: Vec<String> = Vec::new();
    let kind = String::from_str("transfers");
    let args = worker_args(paths, &kind, &extra, &files, &Some(payload_path.clone()));
    proof {
        assert(extra.deep_view() =~= Seq::<Seq<char>>::empty());
        assert(files.deep_view() =~= Seq::<Seq<char>>::empty());
    }
    Ok(
        InlineImportPlan {
            payload_dir,
            payload_path,
            payload_bytes,
            invocation: WorkerInvocation { program: String::from_str("python3"), args },
        },
    )
}

/// What the shell observed while executing one inline import.
#[derive(Debug)]
pub enum InlineEvent {
    /// The payload file was written.
    PayloadWritten,
    /// The payload file could not be written; no worker runs.
    PayloadWriteFailed { detail: String },
    /// The worker ran and exited, with its exit code (absent when it was
    /// killed) and captured standard-error text.
    WorkerExited { exit_code: Option<i32>, stderr: String },
    /// The worker could not be executed at all.
    WorkerSpawnFailed { detail: String },
    /// Removal of the payload file was attempted; `removed` reports
    /// whether it succeeded (ignored: removal is best-effort).
    PayloadRemoved { removed: bool },
}

/// The phases of one inline import.
#[derive(Debug)]
pub enum InlineState {
    /// The payload file is not on disk yet.
    NeedPayload,
    /// The payload file is on disk; the worker has not finished.
    NeedWorker,
    /// The worker finished (either way); the payload file must be removed.
    NeedCleanup { outcome: Result<(), ImportError> },
    /// The import is over; `outcome` is what the caller is told.
    Finished { outcome: Result<(), ImportError> },
}

/// What the shell must do next in a given phase.
#[derive(Clone, Copy, Debug, PartialEq, Eq, Structural)]
pub enum InlineAction {
    /// Create the payloads directory and write the payload file.
    WritePayload,
    /// Execute the planned worker invocation.
    RunWorker,
    /// Attempt to delete the payload file, ignoring failure.
    RemovePayload,
}

/// The transition relation of one inline import.
pub open spec fn inline_step(s: InlineState, ev: InlineEvent) -> InlineState {
    match (s, ev) {
        (InlineState::NeedPayload, InlineEvent::PayloadWritten) => InlineState::NeedWorker,
        (InlineState::NeedPayload, InlineEvent::PayloadWriteFailed { detail }) => (
        InlineState::Finished { outcome: Err(ImportError::PayloadWrite { detail }) }),
        (InlineState::NeedWorker, InlineEvent::WorkerExited { exit_code, stderr }) => (
        InlineState::NeedCleanup {
            outcome: if exit_succeeded(exit_code) {
                Ok(())
            } else {
                Err(ImportError::WorkerExecution { exit_status: exit_code, stderr })
            },
        }),
        (InlineState::NeedWorker, InlineEvent::WorkerSpawnFailed { detail }) => (
        InlineState::NeedCleanup { outcome: Err(ImportError::WorkerSpawn { detail }) }),
        (InlineState::NeedCleanup { outcome }, InlineEvent::PayloadRemoved { .. }) => (
        InlineState::Finished { outcome }),
        (other, _) => other,
    }
}

/// The action owed in each phase.
pub open spec fn inline_action_of(s: InlineState) -> Option<InlineAction> {
    match s {
        InlineState::NeedPayload => Some(InlineAction::WritePayload),
        InlineState::NeedWorker => Some(InlineAction::RunWorker),
        InlineState::NeedCleanup { .. } => Some(InlineAction::RemovePayload),
        InlineState::Finished { .. } => None,
    }
}

/// Advance one inline import by one observed event.
pub fn inline_advance(s: InlineState, ev: InlineEvent) -> (r: InlineState)
    ensures
        r == inline_step(s, ev),
{
    match (s, ev) {
        (InlineState::NeedPayload, InlineEvent::PayloadWritten) => InlineState::NeedWorker,
        (InlineState::NeedPayload, InlineEvent::PayloadWriteFailed { detail }) => (
        InlineState::Finished { outcome: Err(ImportError::PayloadWrite { detail }) }),
        (InlineState::NeedWorker, InlineEvent::WorkerExited { exit_code, stderr }) => (
        InlineState::NeedCleanup {
            outcome: if exit_code == Some(0) {
                Ok(())
            } else {
                Err(ImportError::WorkerExecution { exit_status: exit_code, stderr })
            },
        }),
        (InlineState::NeedWorker, InlineEvent::WorkerSpawnFailed { detail }) => (
        InlineState::NeedCleanup { outcome: Err(ImportError::WorkerSpawn { detail }) }),
        (InlineState::NeedCleanup { outcome }, InlineEvent::PayloadRemoved { .. }) => (
        InlineState::Finished { outcome }),
        (other, _) => other,
    }
}

/// What the shell must do next in a given phase.
pub fn inline_next_action(s: &InlineState) -> (r: Option<InlineAction>)
    ensures
        r == inline_action_of(*s),
{
    match s {
        InlineState::NeedPayload => Some(InlineAction::WritePayload),
        InlineState::NeedWorker => Some(InlineAction::RunWorker),
        InlineState::NeedCleanup { .. } => Some(InlineAction::RemovePayload),
        InlineState::Finished { .. } => None,
    }
}

/// However the worker run ends — clean exit, failed exit, or no exit at
/// all — the next owed action is removing the temporary payload file.
pub proof fn lemma_cleanup_always_follows_worker(ev: InlineEvent)
    requires
        ev is WorkerExited || ev is WorkerSpawnFailed,
    ensures
        inline_step(InlineState::NeedWorker, ev) is NeedCleanup,
        inline_action_of(inline_step(InlineState::NeedWorker, ev)) == Some(
            InlineAction::RemovePayload,
        ),
{
}

/// An inline import finishes only through the removal attempt: from the
/// cleanup phase, only a removal event reaches the finished phase, and it
/// carries the worker's outcome through unchanged whether or not the
/// removal itself succeeded.
pub proof fn lemma_finish_requires_removal(outcome: Result<(), ImportError>, ev: InlineEvent)
    ensures
        inline_step(InlineState::NeedCleanup { outcome }, ev) is Finished ==> ev
            is PayloadRemoved,
        ev is PayloadRemoved ==> inline_step(InlineState::NeedCleanup { outcome }, ev) == (
        InlineState::Finished { outcome }),
{
}

} // verus!
