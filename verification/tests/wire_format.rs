use foro::daemon::interface::{
    DaemonBulkFormatArgs, DaemonBulkFormatResponse, DaemonCommandPayload, DaemonCommands,
    DaemonFormatArgs, DaemonFormatResponse, DaemonInfo, DaemonPureFormatArgs,
    DaemonPureFormatResponse, DaemonResponse, GlobalOptions, OutputPath,
};
use foro::daemon::wire::{payload_text, read_payload, read_response, response_text};

fn options() -> GlobalOptions {
    GlobalOptions {
        config_file: Some("/w/foro.json".to_string()),
        cache_dir: None,
        socket_dir: Some("/run/foro".to_string()),
        no_cache: false,
        no_long_log: true,
        ignore_build_id_mismatch: false,
    }
}

fn payload(command: DaemonCommands) -> DaemonCommandPayload {
    DaemonCommandPayload { command, current_dir: "/w".to_string(), global_options: options() }
}

const OPTIONS: &str = r#"{"cache_dir":null,"config_file":"/w/foro.json","ignore_build_id_mismatch":false,"no_cache":false,"no_long_log":true,"socket_dir":"/run/foro"}"#;

#[test]
fn request_texts() {
    let text = payload_text(&payload(DaemonCommands::Format(DaemonFormatArgs {
        path: "./a.rs".to_string(),
    })));
    assert_eq!(
        text,
        format!(r#"{{"command":{{"Format":{{"path":"./a.rs"}}}},"current_dir":"/w","global_options":{OPTIONS}}}"#)
    );
    let text = payload_text(&payload(DaemonCommands::PureFormat(DaemonPureFormatArgs {
        path: "x.py".to_string(),
        content: "print( 1 )".to_string(),
    })));
    assert_eq!(
        text,
        format!(r#"{{"command":{{"PureFormat":{{"content":"print( 1 )","path":"x.py"}}}},"current_dir":"/w","global_options":{OPTIONS}}}"#)
    );
    let text = payload_text(&payload(DaemonCommands::BulkFormat(DaemonBulkFormatArgs {
        paths: vec!["./src".to_string(), "b".to_string()],
        threads: 8,
    })));
    assert_eq!(
        text,
        format!(r#"{{"command":{{"BulkFormat":{{"paths":["./src","b"],"threads":8}}}},"current_dir":"/w","global_options":{OPTIONS}}}"#)
    );
    assert_eq!(
        payload_text(&payload(DaemonCommands::Stop)),
        format!(r#"{{"command":"Stop","current_dir":"/w","global_options":{OPTIONS}}}"#)
    );
    assert_eq!(
        payload_text(&payload(DaemonCommands::Ping)),
        format!(r#"{{"command":"Ping","current_dir":"/w","global_options":{OPTIONS}}}"#)
    );
}

#[test]
fn requests_are_read_back() {
    for command in [
        DaemonCommands::Format(DaemonFormatArgs { path: "./a.rs".to_string() }),
        DaemonCommands::PureFormat(DaemonPureFormatArgs {
            path: "x \"y\".py".to_string(),
            content: "line\nline\t\u{3bc}".to_string(),
        }),
        DaemonCommands::BulkFormat(DaemonBulkFormatArgs { paths: vec![], threads: 0 }),
        DaemonCommands::BulkFormat(DaemonBulkFormatArgs {
            paths: vec!["a".to_string(), "b c".to_string()],
            threads: usize::MAX,
        }),
        DaemonCommands::Stop,
        DaemonCommands::Ping,
    ] {
        let sent = payload(command);
        let text = payload_text(&sent);
        let read = read_payload(&text).unwrap();
        assert_eq!(payload_text(&read), text);
        assert_eq!(read.current_dir, "/w");
        assert_eq!(read.global_options.config_file.as_deref(), Some("/w/foro.json"));
        assert_eq!(read.global_options.cache_dir, None);
        assert!(read.global_options.no_long_log);
        assert!(!read.global_options.no_cache);
    }
}

#[test]
fn missing_options_read_as_absent_paths_and_set_flags() {
    let read = read_payload(r#"{"command":"Ping","current_dir":"/","global_options":{}}"#).unwrap();
    assert!(matches!(read.command, DaemonCommands::Ping));
    assert_eq!(read.global_options.config_file, None);
    assert_eq!(read.global_options.socket_dir, None);
    assert!(read.global_options.no_cache);
    assert!(read.global_options.no_long_log);
    assert!(read.global_options.ignore_build_id_mismatch);
    let read = read_payload(
        r#"{"extra":1,"global_options":{"no_cache":false,"other":[]},"current_dir":"/","command":"Stop"}"#,
    )
    .unwrap();
    assert!(matches!(read.command, DaemonCommands::Stop));
    assert!(!read.global_options.no_cache);
}

#[test]
fn malformed_requests_are_refused() {
    for text in [
        "",
        "{",
        "[]",
        r#"{"command":"Ping","current_dir":"/"}"#,
        r#"{"command":"Ping","global_options":{}}"#,
        r#"{"current_dir":"/","global_options":{}}"#,
        r#"{"command":"Start","current_dir":"/","global_options":{}}"#,
        r#"{"command":{"Format":{}},"current_dir":"/","global_options":{}}"#,
        r#"{"command":{"Format":{"path":1}},"current_dir":"/","global_options":{}}"#,
        r#"{"command":{"Format":{"path":"a"},"Ping":{}},"current_dir":"/","global_options":{}}"#,
        r#"{"command":{"BulkFormat":{"paths":["a"]}},"current_dir":"/","global_options":{}}"#,
        r#"{"command":{"BulkFormat":{"paths":["a",1],"threads":1}},"current_dir":"/","global_options":{}}"#,
        r#"{"command":{"BulkFormat":{"paths":["a"],"threads":-1}},"current_dir":"/","global_options":{}}"#,
        r#"{"command":{"BulkFormat":{"paths":["a"],"threads":1.5}},"current_dir":"/","global_options":{}}"#,
        r#"{"command":{"BulkFormat":{"paths":["a"],"threads":"2"}},"current_dir":"/","global_options":{}}"#,
        r#"{"command":"Ping","current_dir":"/","global_options":{"no_cache":"yes"}}"#,
        r#"{"command":"Ping","current_dir":"/","global_options":{"cache_dir":3}}"#,
        r#"{"command":"Ping","current_dir":7,"global_options":{}}"#,
    ] {
        assert!(read_payload(text).is_none(), "{}", text);
    }
}

fn info() -> DaemonInfo {
    DaemonInfo {
        pid: 4242,
        start_time: 1_700_000_000,
        stdout_path: OutputPath::Path("/log/foro-stdout.log".to_string()),
        stderr_path: OutputPath::Attached,
        build_id: "Y".to_string(),
    }
}

#[test]
fn response_texts() {
    let text = |r: DaemonResponse| response_text(&r);
    assert_eq!(
        text(DaemonResponse::Format(DaemonFormatResponse::Success())),
        r#"{"Format":{"Success":[]}}"#
    );
    assert_eq!(
        text(DaemonResponse::Format(DaemonFormatResponse::Ignored("No rule matched".to_string()))),
        r#"{"Format":{"Ignored":"No rule matched"}}"#
    );
    assert_eq!(
        text(DaemonResponse::Format(DaemonFormatResponse::Error("e".to_string()))),
        r#"{"Format":{"Error":"e"}}"#
    );
    assert_eq!(
        text(DaemonResponse::PureFormat(DaemonPureFormatResponse::Success("print(1)".to_string()))),
        r#"{"PureFormat":{"Success":"print(1)"}}"#
    );
    assert_eq!(
        text(DaemonResponse::BulkFormat(DaemonBulkFormatResponse::Error("No path given".to_string()))),
        r#"{"BulkFormat":{"Error":"No path given"}}"#
    );
    assert_eq!(text(DaemonResponse::Stop), r#""Stop""#);
    assert_eq!(
        text(DaemonResponse::Pong(info())),
        r#"{"Pong":{"build_id":"Y","pid":4242,"start_time":1700000000,"stderr_path":"Attached","stdout_path":{"Path":"/log/foro-stdout.log"}}}"#
    );
}

#[test]
fn responses_are_read_back() {
    for response in [
        DaemonResponse::Format(DaemonFormatResponse::Success()),
        DaemonResponse::Format(DaemonFormatResponse::Ignored("r".to_string())),
        DaemonResponse::Format(DaemonFormatResponse::Error("e".to_string())),
        DaemonResponse::PureFormat(DaemonPureFormatResponse::Success("s".to_string())),
        DaemonResponse::PureFormat(DaemonPureFormatResponse::Ignored("r".to_string())),
        DaemonResponse::PureFormat(DaemonPureFormatResponse::Error("e".to_string())),
        DaemonResponse::BulkFormat(DaemonBulkFormatResponse::Success("s".to_string())),
        DaemonResponse::BulkFormat(DaemonBulkFormatResponse::Error("e".to_string())),
        DaemonResponse::Stop,
        DaemonResponse::Pong(info()),
    ] {
        let text = response_text(&response);
        let read = read_response(&text).unwrap();
        assert_eq!(response_text(&read), text);
    }
    match read_response(&response_text(&DaemonResponse::Pong(info()))).unwrap() {
        DaemonResponse::Pong(read) => {
            assert_eq!(read.pid, 4242);
            assert_eq!(read.start_time, 1_700_000_000);
            assert!(matches!(read.stderr_path, OutputPath::Attached));
            assert_eq!(read.stdout_path.to_text(), "/log/foro-stdout.log");
            assert_eq!(read.build_id, "Y");
        }
        _ => panic!("Expected a pong"),
    }
}

#[test]
fn malformed_responses_are_refused() {
    for text in [
        "",
        r#""Ping""#,
        r#"{"Format":"Success"}"#,
        r#"{"Format":{"Success":[1]}}"#,
        r#"{"Format":{"Success":"x"}}"#,
        r#"{"Format":{"Ignored":[]}}"#,
        r#"{"PureFormat":{"Success":[]}}"#,
        r#"{"BulkFormat":{"Ignored":"x"}}"#,
        r#"{"Pong":{"pid":1,"start_time":2,"stdout_path":"Attached","stderr_path":"Attached"}}"#,
        r#"{"Pong":{"pid":4294967296,"start_time":2,"stdout_path":"Attached","stderr_path":"Attached","build_id":"b"}}"#,
        r#"{"Pong":{"pid":1,"start_time":2,"stdout_path":"Detached","stderr_path":"Attached","build_id":"b"}}"#,
        r#"{"Pong":{"pid":1,"start_time":2,"stdout_path":{"File":"x"},"stderr_path":"Attached","build_id":"b"}}"#,
        r#"{"Format":{"Success":[]},"Stop":null}"#,
    ] {
        assert!(read_response(text).is_none(), "{}", text);
    }
}
