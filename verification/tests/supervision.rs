use portfolio_backend::decimal::u64_decimal;
use portfolio_backend::errors::ImportError;
use portfolio_backend::errors::PathError;
use portfolio_backend::errors::SupervisorError;
use portfolio_backend::pathset::resolve_paths;
use portfolio_backend::pathset::script_targets;
use portfolio_backend::supervisor::backend_dir_candidates;
use portfolio_backend::supervisor::backend_dir_env_var;
use portfolio_backend::supervisor::backend_service_args;
use portfolio_backend::supervisor::db_path_env_var;
use portfolio_backend::supervisor::detect_python;
use portfolio_backend::supervisor::first_existing_or;
use portfolio_backend::supervisor::is_src_tauri_dir;
use portfolio_backend::supervisor::locate_backend_dir;
use portfolio_backend::supervisor::module_path_env_var;
use portfolio_backend::supervisor::module_search_root;
use portfolio_backend::supervisor::no_backend_env_var;
use portfolio_backend::supervisor::parent_dir;
use portfolio_backend::supervisor::python_candidates;
use portfolio_backend::supervisor::readiness_target;
use portfolio_backend::supervisor::spawn_precheck;
use portfolio_backend::supervisor::service_step;
use portfolio_backend::supervisor::ProbeStatus;
use portfolio_backend::supervisor::ReadinessProbe;
use portfolio_backend::supervisor::ServiceEvent;
use portfolio_backend::supervisor::ServiceLifecycle;
use portfolio_backend::supervisor::MAX_PROBE_ATTEMPTS;
use portfolio_backend::supervisor::PROBE_INTERVAL_MS;

#[test]
fn path_resolution_is_idempotent() {
    let root = String::from("/home/user/.local/share/portfolio");
    let a = resolve_paths(&root);
    let b = resolve_paths(&root);
    assert_eq!(a.data_dir, b.data_dir);
    assert_eq!(a.backend_dir, b.backend_dir);
    assert_eq!(a.importer_path, b.importer_path);
    assert_eq!(a.db_path, b.db_path);
    assert_eq!(a.log_path, b.log_path);
}

#[test]
fn resolved_paths_have_the_fixed_layout() {
    let paths = resolve_paths(&String::from("/data"));
    assert_eq!(paths.data_dir, "/data");
    assert_eq!(paths.backend_dir, "/data/backend");
    assert_eq!(paths.importer_path, "/data/backend/importer.py");
    assert_eq!(paths.db_path, "/data/portfolio.db");
    assert_eq!(paths.log_path, "/data/backend.log");
    assert_eq!(paths.payload_dir(), "/data/backend/payloads");
    assert_eq!(paths.service_log_path(), "/data/backend-fastapi.log");
}

#[test]
fn script_targets_are_the_two_fixed_files() {
    let (db_script, importer_script) = script_targets(&String::from("/data/backend"));
    assert_eq!(db_script, "/data/backend/db.py");
    assert_eq!(importer_script, "/data/backend/importer.py");
}

#[test]
fn probe_times_out_after_the_bounded_window() {
    let mut probe = ReadinessProbe::new();
    let mut status = ProbeStatus::RetryAfterDelay;
    let mut steps: u64 = 0;
    while status == ProbeStatus::RetryAfterDelay {
        status = probe.step(false);
        steps += 1;
    }
    assert_eq!(status, ProbeStatus::TimedOut);
    assert_eq!(steps, MAX_PROBE_ATTEMPTS);
    assert_eq!(MAX_PROBE_ATTEMPTS, 40);
    assert_eq!(PROBE_INTERVAL_MS, 250);
}

#[test]
fn probe_is_ready_on_first_successful_connect() {
    let mut probe = ReadinessProbe::new();
    assert_eq!(probe.step(false), ProbeStatus::RetryAfterDelay);
    assert_eq!(probe.step(true), ProbeStatus::Ready);
}

#[test]
fn disabled_flag_skips_the_spawn() {
    let r = spawn_precheck(true);
    assert!(matches!(r, Err(SupervisorError::Disabled)));
    assert!(spawn_precheck(false).is_ok());
}

#[test]
fn candidate_order_is_override_then_sibling_then_child() {
    let cands = backend_dir_candidates(
        &Some(String::from("/opt/backend")),
        &String::from("/proj/src-tauri"),
    );
    assert_eq!(cands, vec!["/opt/backend", "/proj/backend", "/proj/src-tauri/backend"]);
    let cands = backend_dir_candidates(&None, &String::from("/proj"));
    assert_eq!(cands, vec!["/proj/backend"]);
}

#[test]
fn src_tauri_detection_needs_the_whole_component() {
    assert!(is_src_tauri_dir(&String::from("/proj/src-tauri")));
    assert!(!is_src_tauri_dir(&String::from("/proj/xsrc-tauri")));
    assert!(!is_src_tauri_dir(&String::from("/proj/src-tauri/inner")));
}

#[test]
fn first_existing_candidate_wins() {
    let cands = vec![String::from("a"), String::from("b"), String::from("c")];
    let r = locate_backend_dir(&cands, &vec![false, true, true]).unwrap();
    assert_eq!(r, "b");
    let r = locate_backend_dir(&cands, &vec![false, false, false]);
    assert!(matches!(r, Err(SupervisorError::BackendDirNotFound)));
}

#[test]
fn interpreter_discovery_falls_back_to_the_bare_name() {
    let backend_dir = String::from("/proj/backend");
    let cands = python_candidates(&backend_dir);
    assert_eq!(
        cands,
        vec![
            "/proj/backend/.venv/bin/python",
            "/proj/backend/.venv/bin/python3",
            "/proj/backend/.venv/Scripts/python.exe",
            "/proj/backend/.venv/Scripts/python3.exe",
        ]
    );
    assert_eq!(detect_python(&backend_dir, &vec![false, true, false, false]),
        "/proj/backend/.venv/bin/python3");
    assert_eq!(detect_python(&backend_dir, &vec![false, false, false, false]), "python3");
    let r = first_existing_or(&cands, &vec![false, false, false, false], String::from("py"));
    assert_eq!(r, "py");
}

#[test]
fn service_arguments_select_module_host_and_port() {
    assert_eq!(
        backend_service_args(),
        vec!["-m", "uvicorn", "backend.api.main:app", "--host", "127.0.0.1", "--port", "8000"]
    );
    assert_eq!(readiness_target(), "127.0.0.1:8000");
}

#[test]
fn environment_variable_names_are_fixed() {
    assert_eq!(no_backend_env_var(), "PORTFOLIO_NO_BACKEND");
    assert_eq!(backend_dir_env_var(), "PORTFOLIO_BACKEND_DIR");
    assert_eq!(db_path_env_var(), "PORTFOLIO_DB_PATH");
    assert_eq!(module_path_env_var(), "PYTHONPATH");
}

#[test]
fn parent_directories_follow_the_separator() {
    assert_eq!(parent_dir(&String::from("/proj/backend")).unwrap(), "/proj");
    assert_eq!(parent_dir(&String::from("/backend")).unwrap(), "/");
    assert_eq!(parent_dir(&String::from("backend")), None);
    assert_eq!(module_search_root(&String::from("/proj/backend")), "/proj");
    assert_eq!(module_search_root(&String::from("backend")), "backend");
}

#[test]
fn decimal_rendering_is_exact() {
    assert_eq!(u64_decimal(0), "0");
    assert_eq!(u64_decimal(9), "9");
    assert_eq!(u64_decimal(40), "40");
    assert_eq!(u64_decimal(1699999999999), "1699999999999");
    assert_eq!(u64_decimal(u64::MAX), "18446744073709551615");
}

#[test]
fn lifecycle_reaches_ready_through_the_probe() {
    let mut s = ServiceLifecycle::Unstarted;
    s = service_step(s, ServiceEvent::StartRequested { disabled: false });
    assert!(matches!(s, ServiceLifecycle::Starting));
    s = service_step(s, ServiceEvent::ProbeFinished { ready: true });
    assert!(matches!(s, ServiceLifecycle::Ready));
    s = service_step(s, ServiceEvent::ShutdownRequested);
    assert!(matches!(s, ServiceLifecycle::Terminated));
}

#[test]
fn lifecycle_degrades_on_timeout_and_on_the_disabled_flag() {
    let s = service_step(
        ServiceLifecycle::Starting,
        ServiceEvent::ProbeFinished { ready: false },
    );
    match s {
        ServiceLifecycle::FailedToStart { reason } => {
            assert!(matches!(reason, SupervisorError::ReadinessTimeout))
        }
        _ => panic!("expected a degraded lifecycle"),
    }
    let s = service_step(
        ServiceLifecycle::Unstarted,
        ServiceEvent::StartRequested { disabled: true },
    );
    match s {
        ServiceLifecycle::FailedToStart { reason } => {
            assert!(matches!(reason, SupervisorError::Disabled))
        }
        _ => panic!("expected a degraded lifecycle"),
    }
}

#[test]
fn error_messages_are_fixed_text() {
    assert_eq!(
        SupervisorError::Disabled.message(),
        "the backend service is disabled by the environment"
    );
    assert_eq!(SupervisorError::BackendDirNotFound.message(), "no backend directory was found");
    assert_eq!(
        SupervisorError::ProcessSpawn { detail: String::from("boom") }.message(),
        "the backend service could not be started: boom"
    );
    assert_eq!(
        SupervisorError::ReadinessTimeout.message(),
        "the backend service did not become ready in time"
    );
    assert_eq!(ImportError::EmptyInput.message(), "no input was provided for the import");
    assert_eq!(
        ImportError::Serialization.message(),
        "the inline rows could not be serialized"
    );
    assert_eq!(
        ImportError::PayloadWrite { detail: String::from("disk full") }.message(),
        "the payload file could not be written: disk full"
    );
    assert_eq!(
        ImportError::WorkerSpawn { detail: String::from("no python") }.message(),
        "the import worker could not be executed: no python"
    );
    assert_eq!(
        PathError::PathResolution { detail: String::from("denied") }.message(),
        "the data directory could not be prepared: denied"
    );
    assert_eq!(
        PathError::ScriptWrite { detail: String::from("denied") }.message(),
        "a worker script could not be written: denied"
    );
}
