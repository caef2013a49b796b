use foro::bulk_format::{
    bulk_roots, bulk_rule, bulk_summary, daemon_bulk_format_execute_with_args, file_outcome,
    ignore_overrides, pool_admits, tally, BulkError, FileOutcome,
};
use foro::config::codec::load_str;
use foro::daemon::client::{
    command_gate, exit_code, not_running_message, ping, render_response, Gate, PingObservation,
};
use foro::daemon::handlers::{
    format_rule, format_verdict, initial_context, pure_format_rule, pure_format_verdict,
    quick_trick_poll, quick_trick_response, Target, VerdictError, WorkerEnd,
};
use foro::daemon::interface::{
    true_, DaemonBulkFormatArgs, DaemonBulkFormatResponse, DaemonCommands, DaemonFormatArgs,
    DaemonFormatResponse, DaemonInfo, DaemonPureFormatResponse, DaemonResponse, DaemonSocketPath,
    OutputPath,
};
use foro::daemon::server::{
    already_running_message, bind_collision, bulk_format_response, format_response, info_path_of,
    pure_format_response, serverside_exec_command, start_daemon, stops_listener, BindCollision,
    Launch, ServerJob,
};
use foro::json::Json;

fn object(members: &[(&str, &str)]) -> Json {
    Json::Object(
        members
            .iter()
            .map(|(k, v)| (k.to_string(), Json::Str(v.to_string())))
            .collect(),
    )
}

fn config() -> foro::config::model::Config {
    load_str(
        r#"{"rules":[
            {"on":".rs","write_cmd":"rustfmt {{ os-target }}"},
            {"on":".py","cmd":"https://example.com/ruff.dllpack"}
        ]}"#,
    )
    .unwrap()
}

#[test]
fn socket_paths_lie_in_the_socket_dir() {
    let paths = DaemonSocketPath::from_socket_dir("/run/user/1000/foro");
    assert_eq!(paths.socket_path, "/run/user/1000/foro/daemon-cmd.sock");
    assert_eq!(paths.info_path, "/run/user/1000/foro/daemon-cmd.sock.info");
    assert_eq!(paths.lock_path, "/run/user/1000/foro/daemon.lock");
    assert_eq!(info_path_of(&paths.socket_path), paths.info_path);
}

#[test]
fn missing_flags_read_as_true() {
    assert!(true_());
}

#[test]
fn format_with_no_rule_is_ignored() {
    let config = config();
    match format_rule(&config, "/w/a.unknown") {
        Err(DaemonFormatResponse::Ignored(reason)) => assert_eq!(reason, "No rule matched"),
        _ => panic!("Expected the file to be ignored"),
    }
    assert!(format_rule(&config, "/w/a.rs").is_ok());
    assert!(format_rule(&config, "/w/a.py").is_ok());
}

#[test]
fn pure_format_tells_no_rule_from_only_a_write_rule() {
    let config = config();
    match pure_format_rule(&config, "/w/a.rs") {
        Err(DaemonPureFormatResponse::Ignored(reason)) => {
            assert_eq!(reason, "No rule matched (but found non-pure rule)")
        }
        _ => panic!("Expected the file to be ignored"),
    }
    match pure_format_rule(&config, "/w/a.unknown") {
        Err(DaemonPureFormatResponse::Ignored(reason)) => assert_eq!(reason, "No rule matched"),
        _ => panic!("Expected the file to be ignored"),
    }
    assert!(pure_format_rule(&config, "/w/x.py").is_ok());
}

#[test]
fn pure_echo_returns_the_formatted_content() {
    let result = object(&[
        ("target-content", "print( 1 )"),
        ("format-status", "success"),
        ("formatted-content", "print(1)"),
    ]);
    match pure_format_verdict(&result) {
        Ok(DaemonPureFormatResponse::Success(formatted)) => assert_eq!(formatted, "print(1)"),
        _ => panic!("Expected success"),
    }
}

#[test]
fn pure_format_verdicts() {
    match pure_format_verdict(&object(&[("format-status", "ignored")])) {
        Ok(DaemonPureFormatResponse::Ignored(reason)) => assert_eq!(reason, "File ignored"),
        _ => panic!("Expected ignored"),
    }
    match pure_format_verdict(&object(&[("format-status", "ignored"), ("ignored-reason", "why")])) {
        Ok(DaemonPureFormatResponse::Ignored(reason)) => assert_eq!(reason, "why"),
        _ => panic!("Expected ignored"),
    }
    match pure_format_verdict(&object(&[("format-status", "error"), ("format-error", "boom")])) {
        Ok(DaemonPureFormatResponse::Error(message)) => assert_eq!(message, "boom"),
        _ => panic!("Expected error"),
    }
    assert_eq!(
        pure_format_verdict(&object(&[("format-status", "error")])).unwrap_err(),
        VerdictError::MissingFormatError
    );
    assert_eq!(
        pure_format_verdict(&object(&[("format-status", "success")])).unwrap_err(),
        VerdictError::MissingFormattedContent
    );
    for result in [object(&[]), object(&[("format-status", "done")]), Json::Null] {
        match pure_format_verdict(&result) {
            Ok(DaemonPureFormatResponse::Error(message)) => {
                assert_eq!(message, "Plugin does not return valid value")
            }
            _ => panic!("Expected an error response"),
        }
    }
    assert_eq!(
        VerdictError::MissingFormatError.message(),
        "Failed to get format error. Did you forget to return `format-error` in your plugin?"
    );
    assert_eq!(
        VerdictError::MissingFormattedContent.message(),
        "Failed to get formatted content. Did you forget to return `formatted-content` in your plugin?"
    );
}

#[test]
fn format_verdicts() {
    assert!(matches!(format_verdict(&object(&[("format-status", "success")])), Ok(None)));
    assert!(matches!(format_verdict(&object(&[])), Ok(None)));
    match format_verdict(&object(&[("format-status", "ignored"), ("ignored-reason", "vendored")])) {
        Ok(Some(DaemonFormatResponse::Ignored(reason))) => assert_eq!(reason, "vendored"),
        _ => panic!("Expected ignored"),
    }
    match format_verdict(&object(&[("format-status", "error"), ("format-error", "bad")])) {
        Ok(Some(DaemonFormatResponse::Error(message))) => assert_eq!(message, "bad"),
        _ => panic!("Expected error"),
    }
    assert_eq!(
        format_verdict(&object(&[("format-status", "error")])).unwrap_err(),
        VerdictError::MissingFormatError
    );
}

#[test]
fn initial_context_holds_both_forms_of_the_target() {
    let context = initial_context(&Target {
        os_current_dir: "C:\\w",
        wasm_current_dir: "/c/w",
        os_target: "C:\\w\\a.rs",
        wasm_target: "/c/w/a.rs",
        raw_target: "./a.rs",
        content: "fn main(){}",
    });
    assert_eq!(context.get_str("os-target"), Some("C:\\w\\a.rs".to_string()));
    assert_eq!(context.get_str("wasm-target"), Some("/c/w/a.rs".to_string()));
    assert_eq!(context.get_str("current-dir"), Some("C:\\w".to_string()));
    assert_eq!(context.get_str("os-current-dir"), Some("C:\\w".to_string()));
    assert_eq!(context.get_str("wasm-current-dir"), Some("/c/w".to_string()));
    assert_eq!(context.get_str("raw-target"), Some("./a.rs".to_string()));
    assert_eq!(context.get_str("target-content"), Some("fn main(){}".to_string()));
    assert_eq!(context.get_str("formatted-content"), None);
}

#[test]
fn quick_trick_returns_on_the_first_sign() {
    assert!(!quick_trick_poll(false, false, false));
    assert!(quick_trick_poll(true, false, false));
    assert!(quick_trick_poll(false, true, false));
    assert!(quick_trick_poll(false, false, true));
    assert!(matches!(
        quick_trick_response(WorkerEnd::StillRunning),
        Ok(DaemonFormatResponse::Success())
    ));
    assert!(matches!(
        quick_trick_response(WorkerEnd::Plain),
        Ok(DaemonFormatResponse::Success())
    ));
    match quick_trick_response(WorkerEnd::Verdict(DaemonFormatResponse::Ignored("r".to_string()))) {
        Ok(DaemonFormatResponse::Ignored(reason)) => assert_eq!(reason, "r"),
        _ => panic!("Expected the worker's verdict"),
    }
    assert_eq!(
        quick_trick_response(WorkerEnd::Failed("io".to_string())).unwrap_err(),
        "io"
    );
}

#[test]
fn bulk_format_without_paths_is_an_error_response() {
    let args = DaemonBulkFormatArgs { paths: vec![], threads: 4 };
    match daemon_bulk_format_execute_with_args(&args, &vec![FileOutcome::Changed]) {
        DaemonBulkFormatResponse::Error(message) => assert_eq!(message, "No path given"),
        _ => panic!("Expected an error"),
    }
    assert_eq!(bulk_roots(&vec![]), Err(BulkError::NoPath));
    let paths = vec!["a".to_string(), "b".to_string()];
    assert_eq!(bulk_roots(&paths), Ok((&paths[0], 1)));
}

#[test]
fn bulk_mixed_reports_two_processed_one_changed() {
    let args = DaemonBulkFormatArgs { paths: vec!["./src".to_string()], threads: 4 };
    let outcomes = vec![FileOutcome::Changed, FileOutcome::Skipped, FileOutcome::Unchanged];
    assert_eq!(tally(&outcomes), (1, 2));
    match daemon_bulk_format_execute_with_args(&args, &outcomes) {
        DaemonBulkFormatResponse::Success(summary) => {
            assert_eq!(summary, "2 files processed. 1 file changed.")
        }
        _ => panic!("Expected a summary"),
    }
}

#[test]
fn bulk_summaries() {
    assert_eq!(bulk_summary(0, 0), "0 files processed. No files changed.");
    assert_eq!(bulk_summary(0, 7), "7 files processed. No files changed.");
    assert_eq!(bulk_summary(1, 1), "1 files processed. 1 file changed.");
    assert_eq!(bulk_summary(12, 42), "42 files processed. 12 files changed.");
}

#[test]
fn bulk_never_uses_a_write_rule() {
    let config = config();
    assert!(bulk_rule(&config, "/w/a.rs").is_none());
    assert!(bulk_rule(&config, "/w/a.txt").is_none());
    assert!(bulk_rule(&config, "/w/a.py").is_some());
}

#[test]
fn file_outcome_compares_formatted_with_read_content() {
    assert_eq!(
        file_outcome("a", &object(&[("formatted-content", "b")])),
        FileOutcome::Changed
    );
    assert_eq!(
        file_outcome("a", &object(&[("formatted-content", "a")])),
        FileOutcome::Unchanged
    );
    assert_eq!(file_outcome("a", &object(&[])), FileOutcome::Unchanged);
}

#[test]
fn ignore_list_becomes_overrides() {
    assert_eq!(
        ignore_overrides("# comment\n\nnode_modules\r\n/target\n#x\nvendor/**"),
        vec!["!node_modules", "!/target", "!vendor/**"]
    );
    assert!(ignore_overrides("").is_empty());
    assert!(ignore_overrides("\n\r\n#only").is_empty());
}

#[test]
fn pool_admits_below_the_limit() {
    assert!(pool_admits(0, 1));
    assert!(!pool_admits(1, 1));
    assert!(!pool_admits(0, 0));
    assert!(pool_admits(3, 4));
}

fn info() -> DaemonInfo {
    DaemonInfo {
        pid: 77,
        start_time: 1234,
        stdout_path: OutputPath::Path("/log/foro-stdout.log".to_string()),
        stderr_path: OutputPath::Path("/log/foro.log".to_string()),
        build_id: "Y".to_string(),
    }
}

#[test]
fn server_answers_stop_and_ping_at_once() {
    assert!(matches!(
        serverside_exec_command(&DaemonCommands::Stop, &info()),
        ServerJob::Reply(DaemonResponse::Stop)
    ));
    match serverside_exec_command(&DaemonCommands::Ping, &info()) {
        ServerJob::Reply(DaemonResponse::Pong(answer)) => {
            assert_eq!(answer.pid, 77);
            assert_eq!(answer.start_time, 1234);
            assert_eq!(answer.build_id, "Y");
            assert_eq!(answer.stderr_path.to_text(), "/log/foro.log");
        }
        _ => panic!("Expected a pong"),
    }
    let format = DaemonCommands::Format(DaemonFormatArgs { path: "./a.rs".to_string() });
    match serverside_exec_command(&format, &info()) {
        ServerJob::Format(args) => assert_eq!(args.path, "./a.rs"),
        _ => panic!("Expected a format job"),
    }
}

#[test]
fn handler_failures_become_error_responses() {
    assert!(matches!(
        format_response(Ok(DaemonFormatResponse::Success())),
        DaemonResponse::Format(DaemonFormatResponse::Success())
    ));
    match format_response(Err("Failed to open file".to_string())) {
        DaemonResponse::Format(DaemonFormatResponse::Error(m)) => {
            assert_eq!(m, "Failed to open file")
        }
        _ => panic!("Expected an error response"),
    }
    match pure_format_response(Err("x".to_string())) {
        DaemonResponse::PureFormat(DaemonPureFormatResponse::Error(m)) => assert_eq!(m, "x"),
        _ => panic!("Expected an error response"),
    }
    match bulk_format_response(Err("y".to_string())) {
        DaemonResponse::BulkFormat(DaemonBulkFormatResponse::Error(m)) => assert_eq!(m, "y"),
        _ => panic!("Expected an error response"),
    }
}

#[test]
fn only_stop_ends_the_listener() {
    assert!(stops_listener(&DaemonResponse::Stop));
    assert!(!stops_listener(&DaemonResponse::Pong(info())));
    assert!(!stops_listener(&DaemonResponse::Format(DaemonFormatResponse::Success())));
}

#[test]
fn stale_socket_is_reclaimed_and_a_live_one_respected() {
    assert_eq!(bind_collision(false), BindCollision::Reclaim);
    assert_eq!(bind_collision(true), BindCollision::AlreadyRunning);
    assert_eq!(already_running_message(), "Daemon is already running");
}

#[test]
fn daemon_describes_itself() {
    let (launch, attached) = start_daemon(true, 5, 6, "id", "/log");
    assert_eq!(launch, Launch::Attached);
    assert_eq!(attached.stdout_path.to_text(), "<attached>");
    assert_eq!(attached.stderr_path.to_text(), "<attached>");
    let (launch, background) = start_daemon(false, 5, 6, "id", "/log");
    assert_eq!(launch, Launch::Background);
    assert_eq!(background.stdout_path.to_text(), "/log/foro-stdout.log");
    assert_eq!(background.stderr_path.to_text(), "/log/foro.log");
    assert_eq!((background.pid, background.start_time), (5, 6));
    assert_eq!(background.build_id, "id");
}

#[test]
fn ping_results() {
    assert_eq!(ping(PingObservation::Pong), Some(true));
    assert_eq!(ping(PingObservation::Refused), Some(false));
    assert_eq!(ping(PingObservation::NotFound), Some(false));
    assert_eq!(ping(PingObservation::OtherResponse), Some(false));
    assert_eq!(ping(PingObservation::TimedOut), Some(false));
    assert_eq!(ping(PingObservation::ConnectFailed), None);
    assert_eq!(ping(PingObservation::Failed), None);
}

#[test]
fn commands_need_a_running_daemon_unless_unchecked() {
    assert_eq!(command_gate(false, false, false), Gate::Proceed);
    assert_eq!(command_gate(true, true, false), Gate::Proceed);
    assert_eq!(command_gate(true, false, true), Gate::PingFirst);
    assert_eq!(command_gate(true, false, false), Gate::Refuse);
    assert_eq!(not_running_message(), "Daemon is not running!");
}

#[test]
fn responses_are_rendered() {
    let r = render_response(&DaemonResponse::Format(DaemonFormatResponse::Success()));
    assert_eq!(r.log.as_deref(), Some("Success to format"));
    assert!(r.stdout.is_empty());
    assert_eq!(exit_code(&r), 0);

    let r = render_response(&DaemonResponse::Format(DaemonFormatResponse::Ignored(
        "No rule matched".to_string(),
    )));
    assert_eq!(r.log.as_deref(), Some("File ignored. reason: No rule matched"));
    assert_eq!(exit_code(&r), 0);

    let r = render_response(&DaemonResponse::Format(DaemonFormatResponse::Error("e".to_string())));
    assert_eq!(r.error.as_deref(), Some("e"));
    assert_ne!(exit_code(&r), 0);

    let r = render_response(&DaemonResponse::PureFormat(DaemonPureFormatResponse::Success(
        "print(1)".to_string(),
    )));
    assert_eq!(r.stdout, vec!["print(1)"]);
    assert_eq!(exit_code(&r), 0);

    let r = render_response(&DaemonResponse::BulkFormat(DaemonBulkFormatResponse::Success(
        "2 files processed. 1 file changed.".to_string(),
    )));
    assert_eq!(
        r.log.as_deref(),
        Some("Success to format: 2 files processed. 1 file changed.")
    );

    let r = render_response(&DaemonResponse::BulkFormat(DaemonBulkFormatResponse::Error(
        "No path given".to_string(),
    )));
    assert_eq!(r.error.as_deref(), Some("No path given"));
    assert_eq!(exit_code(&r), 1);

    let r = render_response(&DaemonResponse::Stop);
    assert_eq!(r.log.as_deref(), Some("Daemon stopped"));

    let r = render_response(&DaemonResponse::Pong(info()));
    assert_eq!(
        r.stdout,
        vec![
            "pong!",
            "daemon pid: 77",
            "daemon start time: 1234",
            "daemon log file: /log/foro.log",
            "daemon build id: Y",
        ]
    );
    assert_eq!(exit_code(&r), 0);
}

#[test]
fn waits_and_intervals() {
    assert_eq!(foro::daemon::handlers::QUICK_TRICK_POLL_MICROS, 10);
    assert_eq!(foro::daemon::handlers::WATCH_POLL_MICROS, 100);
    assert_eq!(foro::daemon::client::PING_TIMEOUT_MILLIS, 1000);
    assert_eq!(foro::daemon::server::READ_RETRY_MICROS, 10);
    assert_eq!(foro::bulk_format::POOL_SPIN_MICROS, 100);
    assert_eq!(foro::bulk_format::ignore_file_name(), ".foro-ignore");
}
