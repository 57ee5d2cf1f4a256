use portfolio_backend::errors::ImportError;
use portfolio_backend::importer::file_import_invocation;
use portfolio_backend::importer::init_invocation;
use portfolio_backend::importer::inline_import_plan;
use portfolio_backend::importer::interpret_worker_exit;
use portfolio_backend::importer::inline_advance;
use portfolio_backend::importer::inline_next_action;
use portfolio_backend::importer::InlineAction;
use portfolio_backend::importer::InlineEvent;
use portfolio_backend::importer::InlineState;
use portfolio_backend::json::check_json_number;
use portfolio_backend::json::encode_rows;
use portfolio_backend::json::JsonField;
use portfolio_backend::json::JsonRow;
use portfolio_backend::json::JsonScalar;
use portfolio_backend::pathset::resolve_paths;

fn field(key: &str, value: JsonScalar) -> JsonField {
    JsonField { key: key.as_bytes().to_vec(), value }
}

fn sample_row() -> JsonRow {
    JsonRow {
        fields: vec![
            field("transaction_id", JsonScalar::Str(b"t1".to_vec())),
            field("currency", JsonScalar::Str(b"EUR".to_vec())),
            field("amount", JsonScalar::Num(b"10.5".to_vec())),
        ],
    }
}

#[test]
fn empty_file_import_is_rejected_without_invocation() {
    let paths = resolve_paths(&String::from("/data"));
    let r = file_import_invocation(&paths, &String::from("trades"), &vec![]);
    assert!(matches!(r, Err(ImportError::EmptyInput)));
}

#[test]
fn file_import_builds_the_fixed_argument_contract() {
    let paths = resolve_paths(&String::from("/data"));
    let files = vec![String::from("/tmp/a.csv"), String::from("/tmp/b.csv")];
    let inv = file_import_invocation(&paths, &String::from("transfers"), &files).unwrap();
    assert_eq!(inv.program, "python3");
    assert_eq!(
        inv.args,
        vec![
            "/data/backend/importer.py",
            "--db",
            "/data/portfolio.db",
            "--kind",
            "transfers",
            "--log",
            "/data/backend.log",
            "/tmp/a.csv",
            "/tmp/b.csv",
        ]
    );
}

#[test]
fn init_invocation_passes_the_init_only_flag() {
    let paths = resolve_paths(&String::from("/data"));
    let inv = init_invocation(&paths);
    assert_eq!(inv.program, "python3");
    assert_eq!(
        inv.args,
        vec![
            "/data/backend/importer.py",
            "--db",
            "/data/portfolio.db",
            "--kind",
            "init",
            "--log",
            "/data/backend.log",
            "--init-only",
        ]
    );
}

#[test]
fn nonzero_exit_surfaces_status_and_stderr_verbatim() {
    let r = interpret_worker_exit(Some(1), &String::from("bad header"));
    match r {
        Err(ImportError::WorkerExecution { exit_status, ref stderr }) => {
            assert_eq!(exit_status, Some(1));
            assert_eq!(stderr, "bad header");
        }
        _ => panic!("expected a worker execution error"),
    }
    let msg = r.unwrap_err().message();
    assert!(msg.contains("bad header"));
    assert_eq!(msg, "the import worker failed: bad header");
}

#[test]
fn killed_worker_is_a_failure_without_a_status() {
    let r = interpret_worker_exit(None, &String::from("signalled"));
    match r {
        Err(ImportError::WorkerExecution { exit_status, ref stderr }) => {
            assert_eq!(exit_status, None);
            assert_eq!(stderr, "signalled");
        }
        _ => panic!("expected a worker execution error"),
    }
}

#[test]
fn zero_exit_is_success() {
    let r = interpret_worker_exit(Some(0), &String::from("ignored"));
    assert!(r.is_ok());
}

#[test]
fn inline_plan_names_payload_from_timestamp_and_flags_it() {
    let paths = resolve_paths(&String::from("/data"));
    let rows = vec![sample_row()];
    let plan = inline_import_plan(&paths, &rows, 1699999999999).unwrap();
    assert_eq!(plan.payload_dir, "/data/backend/payloads");
    assert_eq!(plan.payload_path, "/data/backend/payloads/transfers-1699999999999.json");
    assert_eq!(
        String::from_utf8(plan.payload_bytes).unwrap(),
        "[{\"transaction_id\":\"t1\",\"currency\":\"EUR\",\"amount\":10.5}]"
    );
    assert_eq!(plan.invocation.program, "python3");
    assert_eq!(
        plan.invocation.args,
        vec![
            "/data/backend/importer.py",
            "--db",
            "/data/portfolio.db",
            "--kind",
            "transfers",
            "--log",
            "/data/backend.log",
            "--payload",
            "/data/backend/payloads/transfers-1699999999999.json",
        ]
    );
}

#[test]
fn inline_plan_rejects_empty_rows() {
    let paths = resolve_paths(&String::from("/data"));
    let r = inline_import_plan(&paths, &vec![], 7);
    assert!(matches!(r, Err(ImportError::EmptyInput)));
}

#[test]
fn inline_plan_rejects_invalid_number_literals() {
    let paths = resolve_paths(&String::from("/data"));
    let rows = vec![JsonRow { fields: vec![field("amount", JsonScalar::Num(b"01".to_vec()))] }];
    let r = inline_import_plan(&paths, &rows, 7);
    assert!(matches!(r, Err(ImportError::Serialization)));
}

#[test]
fn payload_file_is_removed_whether_the_worker_fails_or_succeeds() {
    for succeeded in [false, true] {
        let mut state = InlineState::NeedPayload;
        assert_eq!(inline_next_action(&state), Some(InlineAction::WritePayload));
        state = inline_advance(state, InlineEvent::PayloadWritten);
        assert_eq!(inline_next_action(&state), Some(InlineAction::RunWorker));
        state = inline_advance(
            state,
            InlineEvent::WorkerExited {
                exit_code: if succeeded { Some(0) } else { Some(2) },
                stderr: String::from("bad header"),
            },
        );
        // the removal is owed before the import may finish, either way
        assert_eq!(inline_next_action(&state), Some(InlineAction::RemovePayload));
        state = inline_advance(state, InlineEvent::PayloadRemoved { removed: false });
        assert_eq!(inline_next_action(&state), None);
        match state {
            InlineState::Finished { outcome } => {
                if succeeded {
                    assert!(outcome.is_ok());
                } else {
                    match outcome {
                        Err(ImportError::WorkerExecution { exit_status, ref stderr }) => {
                            assert_eq!(exit_status, Some(2));
                            assert_eq!(stderr, "bad header");
                        },
                        _ => panic!("expected a worker execution outcome"),
                    }
                }
            },
            _ => panic!("expected the import to be finished"),
        }
    }
}

#[test]
fn failed_payload_write_finishes_without_running_the_worker() {
    let state = inline_advance(
        InlineState::NeedPayload,
        InlineEvent::PayloadWriteFailed { detail: String::from("disk full") },
    );
    match state {
        InlineState::Finished { outcome } => match outcome {
            Err(ImportError::PayloadWrite { ref detail }) => assert_eq!(detail, "disk full"),
            _ => panic!("expected a payload write error"),
        },
        _ => panic!("expected the import to be finished"),
    }
}

#[test]
fn spawn_failure_still_goes_through_cleanup() {
    let state = inline_advance(
        InlineState::NeedWorker,
        InlineEvent::WorkerSpawnFailed { detail: String::from("no interpreter") },
    );
    assert_eq!(inline_next_action(&state), Some(InlineAction::RemovePayload));
}

#[test]
fn json_number_grammar_accepts_and_rejects() {
    for good in ["0", "-0", "7", "10.5", "-0.5", "1e9", "1E9", "-2.5e+10", "3e-2", "123456789"] {
        assert!(check_json_number(&good.as_bytes().to_vec()), "{good} should be accepted");
    }
    for bad in ["", "-", "01", "1.", ".5", "1e", "1e+", "+1", "abc", "0x1", "1.2.3", "--1"] {
        assert!(!check_json_number(&bad.as_bytes().to_vec()), "{bad} should be rejected");
    }
}

#[test]
fn json_strings_are_escaped() {
    let rows = vec![JsonRow {
        fields: vec![field(
            "no\"te",
            JsonScalar::Str(vec![b'a', b'"', b'\\', 0x01, b'z']),
        )],
    }];
    let bytes = encode_rows(&rows).unwrap();
    assert_eq!(
        String::from_utf8(bytes).unwrap(),
        "[{\"no\\\"te\":\"a\\\"\\\\\\u0001z\"}]"
    );
}

#[test]
fn json_scalars_cover_null_and_booleans() {
    let rows = vec![JsonRow {
        fields: vec![
            field("a", JsonScalar::Null),
            field("b", JsonScalar::Bool(true)),
            field("c", JsonScalar::Bool(false)),
        ],
    }];
    let bytes = encode_rows(&rows).unwrap();
    assert_eq!(String::from_utf8(bytes).unwrap(), "[{\"a\":null,\"b\":true,\"c\":false}]");
}

#[test]
fn json_document_separates_rows_with_commas() {
    let rows = vec![
        JsonRow { fields: vec![field("n", JsonScalar::Num(b"1".to_vec()))] },
        JsonRow { fields: vec![] },
        JsonRow { fields: vec![field("n", JsonScalar::Num(b"2".to_vec()))] },
    ];
    let bytes = encode_rows(&rows).unwrap();
    assert_eq!(String::from_utf8(bytes).unwrap(), "[{\"n\":1},{},{\"n\":2}]");
}
