//! Decision logic of the backend service supervisor.
//!
//! The supervisor locates the backend directory and an interpreter by
//! ordered existence checks, builds the fixed service command line, and
//! drives a bounded readiness probe. All of that is pure: the unverified
//! shell reports which candidate paths exist and whether a TCP connect
//! succeeded, and performs the spawn itself.

use vstd::prelude::*;
use crate::errors::SupervisorError;

verus! {

/// Attempts the readiness probe makes before giving up.
pub const MAX_PROBE_ATTEMPTS: u64 = 40;

/// Milliseconds the shell waits between two probe attempts.
pub const PROBE_INTERVAL_MS: u64 = 250;

/// Name of the environment flag that disables the embedded service.
pub fn no_backend_env_var() -> (r: String)
    ensures
        r@ == "PORTFOLIO_NO_BACKEND"@,
{
    String::from_str("PORTFOLIO_NO_BACKEND")
}

/// Name of the environment override for the backend directory.
pub fn backend_dir_env_var() -> (r: String)
    ensures
        r@ == "PORTFOLIO_BACKEND_DIR"@,
{
    String::from_str("PORTFOLIO_BACKEND_DIR")
}

/// Name of the store-path variable exported to the spawned service.
pub fn db_path_env_var() -> (r: String)
    ensures
        r@ == "PORTFOLIO_DB_PATH"@,
{
    String::from_str("PORTFOLIO_DB_PATH")
}

/// Name of the module-search-path variable exported to the spawned service.
pub fn module_path_env_var() -> (r: String)
    ensures
        r@ == "PYTHONPATH"@,
{
    String::from_str("PYTHONPATH")
}

/// The loopback address the readiness probe connects to.
pub fn readiness_target() -> (r: String)
    ensures
        r@ == "127.0.0.1:8000"@,
{
    String::from_str("127.0.0.1:8000")
}

/// Whether the embedded service may be spawned at all: the opt-out flag
/// moves straight to the failed state with a "disabled" reason.
pub fn spawn_precheck(no_backend_flag_set: bool) -> (r: Result<(), SupervisorError>)
    ensures
        no_backend_flag_set <==> r is Err,
        r is Err ==> r->Err_0 is Disabled,
{
    if no_backend_flag_set {
        Err(SupervisorError::Disabled)
    } else {
        Ok(())
    }
}

/// The working directory's last path component is `src-tauri` (under some
/// parent, with `/` separators).
pub open spec fn src_tauri_component(cwd: Seq<char>) -> bool {
    &&& cwd.len() >= 10
    &&& cwd[cwd.len() - 10] == '/'
    &&& cwd.subrange(cwd.len() - 9, cwd.len() as int) == "src-tauri"@
}

/// Decide whether the working directory already sits inside the known
/// `src-tauri` subdirectory.
pub fn is_src_tauri_dir(cwd: &String) -> (r: bool)
    ensures
        r == src_tauri_component(cwd@),
{
    proof {
        reveal_strlit("src-tauri");
    }
    let n = cwd.as_str().unicode_len();
    if n < 10 {
        return false;
    }
    if cwd.as_str().get_char(n - 10) != '/' {
        return false;
    }
    let pat = "src-tauri";
    let mut i: usize = 0;
    while i < 9
        invariant
            i <= 9,
            n >= 10,
            n == cwd@.len(),
            pat@ == "src-tauri"@,
            pat@.len() == 9,
            forall|j: int| 0 <= j < i ==> cwd@[n - 9 + j] == pat@[j],
        decreases 9 - i,
    {
        if cwd.as_str().get_char(n - 9 + i) != pat.get_char(i) {
            proof {
                assert(cwd@.subrange(n - 9, n as int) == "src-tauri"@ ==> cwd@.subrange(
                    n - 9,
                    n as int,
                )[i as int] == "src-tauri"@[i as int]);
            }
            return false;
        }
        i += 1;
    }
    proof {
        assert(cwd@.subrange(n - 9, n as int) =~= "src-tauri"@);
    }
    true
}

/// The sibling `backend` directory next to a `src-tauri` working
/// directory: the parent of `cwd` joined with `backend`.
pub fn sibling_backend_dir(cwd: &String) -> (r: String)
    requires
        src_tauri_component(cwd@),
    ensures
        r@ == cwd@.subrange(0, cwd@.len() - 10) + "/backend"@,
{
    let n = cwd.as_str().unicode_len();
    let prefix = cwd.as_str().substring_char(0, n - 10);
    let mut r = String::from_str(prefix);
    r.append("/backend");
    r
}

/// The ordered backend-directory candidates: the environment override (if
/// any), then the sibling of a `src-tauri` working directory, then a
/// direct child of the working directory.
pub open spec fn backend_dir_candidates_of(ov: Option<Seq<char>>, cwd: Seq<char>) -> Seq<
    Seq<char>,
> {
    let head: Seq<Seq<char>> = match ov {
        Some(p) => seq![p],
        None => Seq::empty(),
    };
    let mid: Seq<Seq<char>> = if src_tauri_component(cwd) {
        seq![cwd.subrange(0, cwd.len() - 10) + "/backend"@]
    } else {
        Seq::empty()
    };
    head + mid + seq![cwd + "/backend"@]
}

/// The override option's value as a character sequence.
pub open spec fn opt_view(o: Option<String>) -> Option<Seq<char>> {
    match o {
        Some(s) => Some(s@),
        None => None,
    }
}

/// Build the ordered backend-directory candidate list.
pub fn backend_dir_candidates(override_dir: &Option<String>, cwd: &String) -> (r: Vec<String>)
    ensures
        r.deep_view() == backend_dir_candidates_of(opt_view(*override_dir), cwd@),
{
    let mut r: Vec<String> = Vec::new();
    match override_dir {
        Some(p) => r.push(p.clone()),
        None => {},
    }
    if is_src_tauri_dir(cwd) {
        let sib = sibling_backend_dir(cwd);
        r.push(sib);
    }
    let mut fallback = cwd.clone();
    fallback.append("/backend");
    r.push(fallback);
    proof {
        assert(r.deep_view() =~= backend_dir_candidates_of(opt_view(*override_dir), cwd@));
    }
    r
}

/// The index of the first `true` entry at or after `i`, if any.
pub open spec fn first_true_from(s: Seq<bool>, i: int) -> Option<int>
    decreases s.len() - i,
    when 0 <= i <= s.len()
{
    if i >= s.len() {
        None
    } else if s[i] {
        Some(i)
    } else {
        first_true_from(s, i + 1)
    }
}

/// A found index lies in range and marks a `true` entry, with only
/// `false` entries before it.
pub proof fn lemma_first_true_bounds(s: Seq<bool>, i: int)
    requires
        0 <= i <= s.len(),
    ensures
        first_true_from(s, i) is Some ==> {
            let k = first_true_from(s, i)->0;
            i <= k < s.len() && s[k]
        },
    decreases s.len() - i,
{
    if i < s.len() && !s[i] {
        lemma_first_true_bounds(s, i + 1);
    }
}

/// Pick the first candidate that exists on disk; with none, the backend
/// directory cannot be located.
pub fn locate_backend_dir(candidates: &Vec<String>, present: &Vec<bool>) -> (r: Result<
    String,
    SupervisorError,
>)
    requires
        present@.len() == candidates@.len(),
    ensures
        r is Ok <==> first_true_from(present@, 0) is Some,
        r is Ok ==> r->Ok_0@ == candidates@[first_true_from(present@, 0)->0]@,
        r is Err ==> r->Err_0 is BackendDirNotFound,
{
    let mut i: usize = 0;
    while i < candidates.len()
        invariant
            i <= candidates@.len(),
            present@.len() == candidates@.len(),
            first_true_from(present@, 0) == first_true_from(present@, i as int),
        decreases candidates@.len() - i,
    {
        if present[i] {
            return Ok(candidates[i].clone());
        }
        i += 1;
    }
    Err(SupervisorError::BackendDirNotFound)
}

/// Pick the first candidate that exists on disk, falling back to an
/// explicit default when none does.
pub fn first_existing_or(candidates: &Vec<String>, present: &Vec<bool>, fallback: String) -> (r:
    String)
    requires
        present@.len() == candidates@.len(),
    ensures
        first_true_from(present@, 0) is Some ==> r@ == candidates@[first_true_from(
            present@,
            0,
        )->0]@,
        first_true_from(present@, 0) is None ==> r == fallback,
{
    let mut i: usize = 0;
    while i < candidates.len()
        invariant
            i <= candidates@.len(),
            present@.len() == candidates@.len(),
            first_true_from(present@, 0) == first_true_from(present@, i as int),
        decreases candidates@.len() - i,
    {
        if present[i] {
            return candidates[i].clone();
        }
        i += 1;
    }
    fallback
}

/// The ordered interpreter candidates inside a conventional
/// virtual-environment layout: Unix-style first, then Windows-style.
pub open spec fn python_candidates_of(backend_dir: Seq<char>) -> Seq<Seq<char>> {
    seq![
        backend_dir + "/.venv/bin/python"@,
        backend_dir + "/.venv/bin/python3"@,
        backend_dir + "/.venv/Scripts/python.exe"@,
        backend_dir + "/.venv/Scripts/python3.exe"@,
    ]
}

/// Build the ordered interpreter candidate list.
pub fn python_candidates(backend_dir: &String) -> (r: Vec<String>)
    ensures
        r.deep_view() == python_candidates_of(backend_dir@),
{
    let mut r: Vec<String> = Vec::new();
    let mut c0 = backend_dir.clone();
    c0.append("/.venv/bin/python");
    r.push(c0);
    let mut c1 = backend_dir.clone();
    c1.append("/.venv/bin/python3");
    r.push(c1);
    let mut c2 = backend_dir.clone();
    c2.append("/.venv/Scripts/python.exe");
    r.push(c2);
    let mut c3 = backend_dir.clone();
    c3.append("/.venv/Scripts/python3.exe");
    r.push(c3);
    proof {
        assert(r.deep_view() =~= python_candidates_of(backend_dir@));
    }
    r
}

/// Resolve the interpreter: the first existing virtual-environment
/// candidate, else the bare interpreter name resolved via the system
/// search path.
pub fn detect_python(backend_dir: &String, present: &Vec<bool>) -> (r: String)
    requires
        present@.len() == 4,
    ensures
        first_true_from(present@, 0) is Some ==> r@ == python_candidates_of(backend_dir@)[
            first_true_from(present@, 0)->0],
        first_true_from(present@, 0) is None ==> r@ == "python3"@,
{
    let candidates = python_candidates(backend_dir);
    proof {
        assert(candidates.deep_view().len() == 4);
        assert(candidates@.len() == 4);
    }
    let r = first_existing_or(&candidates, present, String::from_str("python3"));
    proof {
        lemma_first_true_bounds(present@, 0);
        if first_true_from(present@, 0) is Some {
            let i = first_true_from(present@, 0)->0;
            assert(candidates.deep_view()[i] == candidates@[i]@);
        }
    }
    r
}

/// The fixed argument list of the backend service process: its entry
/// module, host and port.
pub open spec fn backend_service_args_of() -> Seq<Seq<char>> {
    seq![
        "-m"@,
        "uvicorn"@,
        "backend.api.main:app"@,
        "--host"@,
        "127.0.0.1"@,
        "--port"@,
        "8000"@,
    ]
}

/// Build the fixed backend service argument list.
pub fn backend_service_args() -> (r: Vec<String>)
    ensures
        r.deep_view() == backend_service_args_of(),
{
    let mut r: Vec<String> = Vec::new();
    r.push(String::from_str("-m"));
    r.push(String::from_str("uvicorn"));
    r.push(String::from_str("backend.api.main:app"));
    r.push(String::from_str("--host"));
    r.push(String::from_str("127.0.0.1"));
    r.push(String::from_str("--port"));
    r.push(String::from_str("8000"));
    proof {
        assert(r.deep_view() =~= backend_service_args_of());
    }
    r
}

/// The position of the last `/` in a path, if any.
pub open spec fn last_slash_at(s: Seq<char>) -> Option<int>
    decreases s.len(),
{
    if s.len() == 0 {
        None
    } else if s[s.len() - 1] == '/' {
        Some(s.len() - 1)
    } else {
        last_slash_at(s.drop_last())
    }
}

/// The parent directory of a `/`-separated path: everything before the
/// last separator, or the root itself for a direct child of the root. A
/// path without a separator has no parent.
pub open spec fn parent_dir_of(s: Seq<char>) -> Option<Seq<char>> {
    match last_slash_at(s) {
        None => None,
        Some(k) => if k == 0 {
            Some("/"@)
        } else {
            Some(s.subrange(0, k))
        },
    }
}

/// Compute the parent directory of a `/`-separated path.
pub fn parent_dir(path: &String) -> (r: Option<String>)
    ensures
        r is Some <==> parent_dir_of(path@) is Some,
        r is Some ==> r->0@ == parent_dir_of(path@)->0,
{
    let n = path.as_str().unicode_len();
    proof {
        assert(path@.take(n as int) =~= path@);
    }
    let mut i: usize = n;
    while i > 0
        invariant
            i <= n,
            n == path@.len(),
            last_slash_at(path@) == last_slash_at(path@.take(i as int)),
        decreases i,
    {
        if path.as_str().get_char(i - 1) == '/' {
            proof {
                assert(path@.take(i as int).last() == path@[i - 1]);
                assert(last_slash_at(path@.take(i as int)) == Some(i - 1));
            }
            if i - 1 == 0 {
                return Some(String::from_str("/"));
            }
            let prefix = path.as_str().substring_char(0, i - 1);
            return Some(String::from_str(prefix));
        }
        proof {
            assert(path@.take(i as int).drop_last() =~= path@.take(i - 1));
            assert(path@.take(i as int).last() == path@[i - 1]);
        }
        i -= 1;
    }
    proof {
        assert(path@.take(0) =~= Seq::<char>::empty());
    }
    None
}

/// The directory exported as the service's module search path: the parent
/// of the backend directory, or the backend directory itself when it has
/// no parent.
pub fn module_search_root(backend_dir: &String) -> (r: String)
    ensures
        parent_dir_of(backend_dir@) is Some ==> r@ == parent_dir_of(backend_dir@)->0,
        parent_dir_of(backend_dir@) is None ==> r@ == backend_dir@,
{
    match parent_dir(backend_dir) {
        Some(p) => p,
        None => backend_dir.clone(),
    }
}

/// What the shell must do after one probe attempt.
#[derive(Clone, Copy, Debug, PartialEq, Eq, Structural)]
pub enum ProbeStatus {
    /// The service accepted a connection: the supervisor is ready.
    Ready,
    /// Wait `PROBE_INTERVAL_MS` and try again.
    RetryAfterDelay,
    /// All attempts are exhausted: readiness timed out.
    TimedOut,
}

/// The bounded readiness probe: counts connect attempts, up to
/// `MAX_PROBE_ATTEMPTS`.
#[derive(Clone, Copy, Debug)]
pub struct ReadinessProbe {
    /// Failed connect attempts made so far.
    pub attempts: u64,
}

impl ReadinessProbe {
    /// A fresh probe with no attempts made.
    pub fn new() -> (r: ReadinessProbe)
        ensures
            r.attempts == 0,
    {
        ReadinessProbe { attempts: 0 }
    }

    /// Record the outcome of one connect attempt and decide what follows.
    pub fn step(&mut self, connected: bool) -> (s: ProbeStatus)
        requires
            old(self).attempts < MAX_PROBE_ATTEMPTS,
        ensures
            connected ==> s == ProbeStatus::Ready && final(self).attempts == old(self).attempts,
            !connected ==> final(self).attempts == old(self).attempts + 1,
            !connected && old(self).attempts + 1 == MAX_PROBE_ATTEMPTS ==> s
                == ProbeStatus::TimedOut,
            !connected && old(self).attempts + 1 < MAX_PROBE_ATTEMPTS ==> s
                == ProbeStatus::RetryAfterDelay,
    {
        if connected {
            ProbeStatus::Ready
        } else {
            self.attempts = self.attempts + 1;
            if self.attempts == MAX_PROBE_ATTEMPTS {
                ProbeStatus::TimedOut
            } else {
                ProbeStatus::RetryAfterDelay
            }
        }
    }
}

/// The lifecycle of the supervised backend service.
#[derive(Debug)]
pub enum ServiceLifecycle {
    /// No start was requested yet; no handle exists.
    Unstarted,
    /// The spawn is underway: directory and interpreter resolution, the
    /// spawn itself, and the readiness probe.
    Starting,
    /// The service accepted a connection; the handle is held until
    /// shutdown.
    Ready,
    /// The service is not available; the application continues in
    /// degraded mode. No handle is retained.
    FailedToStart { reason: SupervisorError },
    /// Shutdown took the handle (if any) and requested termination.
    Terminated,
}

/// What the shell observed while starting or stopping the service.
#[derive(Debug)]
pub enum ServiceEvent {
    /// A start was requested; `disabled` is the opt-out environment flag.
    StartRequested { disabled: bool },
    /// Directory resolution, interpreter resolution or the spawn itself
    /// failed.
    SpawnFailed { error: SupervisorError },
    /// The readiness probe finished; `ready` is whether a connect
    /// attempt succeeded within the bounded window. On `false` the
    /// spawned process is left running: it may still become ready later,
    /// but no handle is retained.
    ProbeFinished { ready: bool },
    /// The application is exiting.
    ShutdownRequested,
}

/// The transition relation of the service lifecycle.
pub open spec fn service_step_spec(s: ServiceLifecycle, ev: ServiceEvent) -> ServiceLifecycle {
    match (s, ev) {
        (ServiceLifecycle::Unstarted, ServiceEvent::StartRequested { disabled }) => if disabled {
            ServiceLifecycle::FailedToStart { reason: SupervisorError::Disabled }
        } else {
            ServiceLifecycle::Starting
        },
        (ServiceLifecycle::Starting, ServiceEvent::SpawnFailed { error }) => (
        ServiceLifecycle::FailedToStart { reason: error }),
        (ServiceLifecycle::Starting, ServiceEvent::ProbeFinished { ready }) => if ready {
            ServiceLifecycle::Ready
        } else {
            ServiceLifecycle::FailedToStart { reason: SupervisorError::ReadinessTimeout }
        },
        (_, ServiceEvent::ShutdownRequested) => ServiceLifecycle::Terminated,
        (other, _) => other,
    }
}

/// Advance the service lifecycle by one observed event.
pub fn service_step(s: ServiceLifecycle, ev: ServiceEvent) -> (r: ServiceLifecycle)
    ensures
        r == service_step_spec(s, ev),
{
    match (s, ev) {
        (ServiceLifecycle::Unstarted, ServiceEvent::StartRequested { disabled }) => if disabled {
            ServiceLifecycle::FailedToStart { reason: SupervisorError::Disabled }
        } else {
            ServiceLifecycle::Starting
        },
        (ServiceLifecycle::Starting, ServiceEvent::SpawnFailed { error }) => (
        ServiceLifecycle::FailedToStart { reason: error }),
        (ServiceLifecycle::Starting, ServiceEvent::ProbeFinished { ready }) => if ready {
            ServiceLifecycle::Ready
        } else {
            ServiceLifecycle::FailedToStart { reason: SupervisorError::ReadinessTimeout }
        },
        (_, ServiceEvent::ShutdownRequested) => ServiceLifecycle::Terminated,
        (other, _) => other,
    }
}

/// The opt-out flag skips the start entirely: the lifecycle moves
/// straight to the failed state with the "disabled" reason, and never
/// through `Starting`.
pub proof fn lemma_disabled_skips_starting()
    ensures
        service_step_spec(
            ServiceLifecycle::Unstarted,
            ServiceEvent::StartRequested { disabled: true },
        ) == (ServiceLifecycle::FailedToStart { reason: SupervisorError::Disabled }),
{
}

/// The service becomes ready only through a successful readiness probe
/// while starting.
pub proof fn lemma_ready_only_through_probe(s: ServiceLifecycle, ev: ServiceEvent)
    requires
        !(s is Ready),
        service_step_spec(s, ev) is Ready,
    ensures
        s is Starting,
        ev matches ServiceEvent::ProbeFinished { ready: true },
{
}

/// An exhausted probe degrades the lifecycle with a readiness timeout
/// instead of blocking: the application continues without a handle.
pub proof fn lemma_probe_timeout_degrades()
    ensures
        service_step_spec(
            ServiceLifecycle::Starting,
            ServiceEvent::ProbeFinished { ready: false },
        ) == (ServiceLifecycle::FailedToStart { reason: SupervisorError::ReadinessTimeout }),
{
}

/// Termination is final: no event leaves the terminated state.
pub proof fn lemma_terminated_is_final(ev: ServiceEvent)
    ensures
        service_step_spec(ServiceLifecycle::Terminated, ev) is Terminated,
{
}

/// The probe's outcome over a trace of connect results, polling from
/// attempt `i` up to the fixed bound.
pub open spec fn probe_outcome_from(trace: Seq<bool>, i: int) -> ProbeStatus
    decreases MAX_PROBE_ATTEMPTS as int - i,
    when 0 <= i <= MAX_PROBE_ATTEMPTS as int
{
    if i >= MAX_PROBE_ATTEMPTS as int {
        ProbeStatus::TimedOut
    } else if 0 <= i < trace.len() && trace[i] {
        ProbeStatus::Ready
    } else {
        probe_outcome_from(trace, i + 1)
    }
}

/// If no process accepts a connection within the bounded polling window,
/// the probe reports a timeout: it never polls past the fixed bound.
pub proof fn lemma_probe_times_out(trace: Seq<bool>)
    requires
        forall|i: int| 0 <= i < trace.len() ==> !trace[i],
    ensures
        probe_outcome_from(trace, 0) == ProbeStatus::TimedOut,
{
    lemma_probe_times_out_from(trace, 0);
}

proof fn lemma_probe_times_out_from(trace: Seq<bool>, i: int)
    requires
        0 <= i <= MAX_PROBE_ATTEMPTS as int,
        forall|j: int| 0 <= j < trace.len() ==> !trace[j],
    ensures
        probe_outcome_from(trace, i) == ProbeStatus::TimedOut,
    decreases MAX_PROBE_ATTEMPTS as int - i,
{
    if i < MAX_PROBE_ATTEMPTS as int {
        lemma_probe_times_out_from(trace, i + 1);
    }
}

/// The first successful connect attempt within the window makes the probe
/// ready.
pub proof fn lemma_probe_ready_on_success(trace: Seq<bool>, j: int)
    requires
        0 <= j < MAX_PROBE_ATTEMPTS as int,
        j < trace.len(),
        trace[j],
    ensures
        probe_outcome_from(trace, 0) == ProbeStatus::Ready,
{
    lemma_probe_ready_from(trace, 0);
}

proof fn lemma_probe_ready_from(trace: Seq<bool>, i: int)
    requires
        0 <= i <= MAX_PROBE_ATTEMPTS as int,
        exists|k: int|
            i <= k < MAX_PROBE_ATTEMPTS as int && 0 <= k < trace.len() && #[trigger] trace[k],
    ensures
        probe_outcome_from(trace, i) == ProbeStatus::Ready,
    decreases MAX_PROBE_ATTEMPTS as int - i,
{
    if 0 <= i < trace.len() && trace[i] {
    } else {
        let k = choose|k: int|
            i <= k < MAX_PROBE_ATTEMPTS as int && 0 <= k < trace.len() && #[trigger] trace[k];
        assert(k >= i + 1);
        lemma_probe_ready_from(trace, i + 1);
    }
}

} // verus!
