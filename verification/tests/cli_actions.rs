use foro::cli::bulk_format::{bulk_format_execute_with_args, thread_count, BulkFormatArgs};
use foro::cli::cache::{
    cache_clean_confirmed, cache_clean_execute_with_args, cache_execute_with_args, CacheAction,
    CacheArgs, CacheCleanArgs, CacheDirArgs, CacheRemoveArgs, CacheSubCommands, CleanStep,
};
use foro::cli::config::{
    config_edit_execute_with_args, config_execute_with_args, ConfigAction, ConfigArgs,
    ConfigDefaultArgs, ConfigEditArgs, ConfigPathArgs, ConfigShowArgs, ConfigSubCommands,
};
use foro::cli::daemon::{
    daemon_execute_with_args, daemon_restart_execute_with_args, daemon_start_execute_with_args,
    DaemonAction, DaemonArgs, DaemonRestartArgs, DaemonStartArgs, DaemonSubcommands,
};
use foro::cli::format::{format_execute_with_args, FormatArgs};
use foro::cli::internal::{
    internal_execute_with_args, InternalAction, InternalArgs, InternalInfoArgs,
    InternalSubCommands,
};
use foro::cli::{execute, Action, SubCommands};
use foro::config::codec::load_str;
use foro::config::load::{
    config_file_in_use, default_config, get_or_create_default_config_with,
    load_config_and_cache_with, load_config_and_socket_with, load_paths_with, DefaultConfigStep,
    LoadError,
};
use foro::app_dir::{AppDirResolver, Platform};
use foro::daemon::interface::DaemonCommands;
use foro::daemon::server::Launch;
use foro::process_utils::{
    get_boot_time, get_start_time, get_start_time_clock_tick, split_fields, ProcError,
};
use foro::text::str_chars;

#[test]
fn cache_subcommands() {
    let clean = CacheArgs { subcommand: CacheSubCommands::Clean(CacheCleanArgs { yes: true }) };
    assert!(matches!(
        cache_execute_with_args(clean),
        CacheAction::Clean(CacheCleanArgs { yes: true })
    ));
    let remove = CacheArgs {
        subcommand: CacheSubCommands::Remove(CacheRemoveArgs { url: "https://p/".to_string() }),
    };
    match cache_execute_with_args(remove) {
        CacheAction::Remove(args) => assert_eq!(args.url, "https://p/"),
        _ => panic!("Expected remove"),
    }
    let dir = CacheArgs { subcommand: CacheSubCommands::Dir(CacheDirArgs {}) };
    assert!(matches!(cache_execute_with_args(dir), CacheAction::Dir));
}

#[test]
fn cache_clean_asks_before_removing_a_foreign_directory() {
    let ask = CacheCleanArgs { yes: false };
    let yes = CacheCleanArgs { yes: true };
    assert_eq!(cache_clean_execute_with_args(&ask, "/home/u/.cache/foro", false), CleanStep::Nothing);
    assert_eq!(cache_clean_execute_with_args(&ask, "/home/u/.cache/foro", true), CleanStep::Remove);
    assert_eq!(cache_clean_execute_with_args(&ask, "/tmp/other", true), CleanStep::Confirm);
    assert_eq!(cache_clean_execute_with_args(&yes, "/tmp/other", true), CleanStep::Remove);
    assert_eq!(cache_clean_execute_with_args(&ask, "foro", true), CleanStep::Remove);
    assert_eq!(cache_clean_execute_with_args(&ask, "/x/foro/", true), CleanStep::Remove);
    assert_eq!(cache_clean_execute_with_args(&ask, "/x/foro/.", true), CleanStep::Remove);
    assert_eq!(cache_clean_execute_with_args(&ask, "/x/foro/cache", true), CleanStep::Confirm);
    assert_eq!(cache_clean_execute_with_args(&ask, "/x/forox", true), CleanStep::Confirm);
    assert_eq!(cache_clean_confirmed(true), CleanStep::Remove);
    assert_eq!(cache_clean_confirmed(false), CleanStep::Nothing);
}

#[test]
fn config_subcommands() {
    let action = |subcommand| config_execute_with_args(ConfigArgs { subcommand });
    assert!(matches!(action(ConfigSubCommands::Path(ConfigPathArgs {})), ConfigAction::Path));
    assert!(matches!(action(ConfigSubCommands::Show(ConfigShowArgs {})), ConfigAction::Show));
    assert!(matches!(
        action(ConfigSubCommands::Default(ConfigDefaultArgs {})),
        ConfigAction::Default
    ));
    match action(ConfigSubCommands::Edit(ConfigEditArgs { editor: Some("nano".to_string()) })) {
        ConfigAction::Edit(args) => assert_eq!(config_edit_execute_with_args(&args), "nano"),
        _ => panic!("Expected edit"),
    }
    assert_eq!(config_edit_execute_with_args(&ConfigEditArgs { editor: None }), "vi");
}

#[test]
fn daemon_subcommands() {
    let action = |subcommand| daemon_execute_with_args(DaemonArgs { subcommand });
    assert!(matches!(
        action(DaemonSubcommands::Start(DaemonStartArgs { attach: true })),
        DaemonAction::Start(DaemonStartArgs { attach: true })
    ));
    assert!(matches!(
        action(DaemonSubcommands::Restart(DaemonRestartArgs { attach: false })),
        DaemonAction::Restart(DaemonRestartArgs { attach: false })
    ));
    assert!(matches!(
        action(DaemonSubcommands::ServerCommands(DaemonCommands::Ping)),
        DaemonAction::Send(DaemonCommands::Ping)
    ));
}

#[test]
fn daemon_start_does_nothing_when_one_is_running() {
    assert_eq!(daemon_start_execute_with_args(&DaemonStartArgs { attach: true }, true), None);
    assert_eq!(
        daemon_start_execute_with_args(&DaemonStartArgs { attach: true }, false),
        Some(Launch::Attached)
    );
    assert_eq!(
        daemon_start_execute_with_args(&DaemonStartArgs { attach: false }, false),
        Some(Launch::Background)
    );
}

#[test]
fn daemon_restart_stops_then_starts() {
    let (stop, check_alive, launch) =
        daemon_restart_execute_with_args(&DaemonRestartArgs { attach: false });
    assert!(matches!(stop, DaemonCommands::Stop));
    assert!(check_alive);
    assert_eq!(launch, Launch::Background);
    assert_eq!(
        daemon_restart_execute_with_args(&DaemonRestartArgs { attach: true }).2,
        Launch::Attached
    );
}

#[test]
fn format_of_one_file_or_of_many_paths() {
    let one = FormatArgs { paths: vec!["./a.rs".to_string()], threads: 0 };
    match format_execute_with_args(one, true, 8) {
        (DaemonCommands::Format(args), false) => assert_eq!(args.path, "./a.rs"),
        _ => panic!("Expected a format request without the check"),
    }
    let dir = FormatArgs { paths: vec!["./src".to_string()], threads: 0 };
    match format_execute_with_args(dir, false, 8) {
        (DaemonCommands::BulkFormat(args), true) => {
            assert_eq!(args.paths, vec!["./src"]);
            assert_eq!(args.threads, 8);
        }
        _ => panic!("Expected a bulk request with the check"),
    }
    let two = FormatArgs { paths: vec!["a.rs".to_string(), "b.rs".to_string()], threads: 3 };
    match format_execute_with_args(two, true, 8) {
        (DaemonCommands::BulkFormat(args), true) => {
            assert_eq!(args.paths.len(), 2);
            assert_eq!(args.threads, 3);
        }
        _ => panic!("Expected a bulk request"),
    }
    let none = FormatArgs { paths: vec![], threads: 1 };
    assert!(matches!(
        format_execute_with_args(none, true, 8),
        (DaemonCommands::BulkFormat(_), true)
    ));
}

#[test]
fn zero_threads_stand_for_the_number_of_cpus() {
    assert_eq!(thread_count(0, 12), 12);
    assert_eq!(thread_count(5, 12), 5);
    assert_eq!(thread_count(0, 0), 0);
    match bulk_format_execute_with_args(
        BulkFormatArgs { paths: vec![".".to_string()], threads: 0 },
        4,
    ) {
        (DaemonCommands::BulkFormat(args), true) => {
            assert_eq!(args.threads, 4);
            assert_eq!(args.paths, vec!["."]);
        }
        _ => panic!("Expected a bulk request"),
    }
}

#[test]
fn internal_and_top_level_dispatch() {
    let internal = InternalArgs { subcommand: InternalSubCommands::Info(InternalInfoArgs {}) };
    assert_eq!(internal_execute_with_args(internal), InternalAction::Info);
    assert!(matches!(
        execute(SubCommands::Internal(InternalArgs {
            subcommand: InternalSubCommands::Info(InternalInfoArgs {})
        })),
        Action::Internal(InternalAction::Info)
    ));
    assert!(matches!(
        execute(SubCommands::Cache(CacheArgs { subcommand: CacheSubCommands::Dir(CacheDirArgs {}) })),
        Action::Cache(CacheAction::Dir)
    ));
    assert!(matches!(
        execute(SubCommands::Config(ConfigArgs {
            subcommand: ConfigSubCommands::Path(ConfigPathArgs {})
        })),
        Action::Config(ConfigAction::Path)
    ));
    assert!(matches!(
        execute(SubCommands::Daemon(DaemonArgs {
            subcommand: DaemonSubcommands::ServerCommands(DaemonCommands::Stop)
        })),
        Action::Daemon(DaemonAction::Send(DaemonCommands::Stop))
    ));
    match execute(SubCommands::Format(FormatArgs { paths: vec!["x".to_string()], threads: 2 })) {
        Action::Format(args) => assert_eq!((args.paths.len(), args.threads), (1, 2)),
        _ => panic!("Expected format"),
    }
    match execute(SubCommands::BulkFormat(BulkFormatArgs { paths: vec![], threads: 9 })) {
        Action::BulkFormat(args) => assert_eq!(args.threads, 9),
        _ => panic!("Expected bulk format"),
    }
}

fn resolver() -> AppDirResolver {
    AppDirResolver {
        platform: Platform::Linux,
        config_dir: Some("/cfg".to_string()),
        cache_dir: Some("/cache".to_string()),
        runtime_dir: Some("/run".to_string()),
    }
}

fn nowhere() -> AppDirResolver {
    AppDirResolver { platform: Platform::Linux, config_dir: None, cache_dir: None, runtime_dir: None }
}

#[test]
fn default_config_is_a_configuration() {
    let config = load_str(default_config()).unwrap();
    assert_eq!(config.rules.len(), 3);
    assert!(config.rules[0].some_cmd.is_pure());
    assert!(!config.rules[1].some_cmd.is_pure());
    assert!(config.find_matched_rule("a.tsx", true).is_some());
    assert!(config.round_trips());
}

#[test]
fn default_config_is_created_only_when_missing() {
    match get_or_create_default_config_with(&resolver(), true) {
        Some(DefaultConfigStep::Use { path }) => assert_eq!(path, "/cfg/foro.json"),
        _ => panic!("Expected the existing file"),
    }
    match get_or_create_default_config_with(&resolver(), false) {
        Some(DefaultConfigStep::Create { path }) => assert_eq!(path, "/cfg/foro.json"),
        _ => panic!("Expected the file to be created"),
    }
    assert!(get_or_create_default_config_with(&nowhere(), false).is_none());
}

#[test]
fn given_paths_come_first_then_the_config_then_the_platform() {
    let config = load_str(r#"{"rules":[],"cache_dir":"/from_config_cache","socket_dir":"/from_config_socket"}"#).unwrap();
    let bare = load_str(r#"{"rules":[]}"#).unwrap();
    let given = Some("/given".to_string());
    assert_eq!(load_config_and_cache_with(&resolver(), &config, &given), Ok("/given".to_string()));
    assert_eq!(
        load_config_and_cache_with(&resolver(), &config, &None),
        Ok("/from_config_cache".to_string())
    );
    assert_eq!(load_config_and_cache_with(&resolver(), &bare, &None), Ok("/cache/foro".to_string()));
    assert_eq!(load_config_and_cache_with(&nowhere(), &bare, &None), Err(LoadError::NoCacheDir));
    assert_eq!(
        load_config_and_socket_with(&resolver(), &config, &None),
        Ok("/from_config_socket".to_string())
    );
    assert_eq!(load_config_and_socket_with(&resolver(), &bare, &None), Ok("/run/foro".to_string()));
    assert_eq!(load_config_and_socket_with(&nowhere(), &bare, &None), Err(LoadError::NoSocketDir));
    assert_eq!(
        load_paths_with(&resolver(), &config, &None, &given),
        Ok(("/from_config_cache".to_string(), "/given".to_string()))
    );
    assert_eq!(load_paths_with(&nowhere(), &bare, &None, &given), Err(LoadError::NoCacheDir));
    assert_eq!(load_paths_with(&nowhere(), &bare, &given, &None), Err(LoadError::NoSocketDir));
    assert_eq!(LoadError::NoSocketDir.message(), "Failed to get socket directory");
    assert_eq!(LoadError::NoCacheDir.message(), "Failed to get cache directory");
    assert_eq!(LoadError::NoConfigFile.message(), "Failed to get config directory");
}

#[test]
fn config_file_given_or_default() {
    assert_eq!(
        config_file_in_use(&Some("/g".to_string()), Some("/d".to_string()), false),
        Ok("/g".to_string())
    );
    assert_eq!(config_file_in_use(&None, Some("/d".to_string()), true), Ok("/d".to_string()));
    assert_eq!(config_file_in_use(&None, None, false), Err(LoadError::NoConfigFile));
    assert_eq!(config_file_in_use(&None, None, true), Err(LoadError::NoConfigDirectory));
}

#[test]
fn boot_time_is_read_from_proc_stat() {
    let stat = "cpu  1 2 3\ncpu0 1 2 3\nintr 5\nctxt 7\nbtime 1700000000\nprocesses 9\n";
    assert_eq!(get_boot_time(stat), Ok(1_700_000_000));
    assert_eq!(get_boot_time("cpu 1\n"), Err(ProcError::NoBootTime));
    assert_eq!(get_boot_time(""), Err(ProcError::NoBootTime));
    assert_eq!(get_boot_time("btime\n"), Err(ProcError::BadBootTime));
    assert_eq!(get_boot_time("btime 1 2\n"), Err(ProcError::BadBootTime));
    assert_eq!(get_boot_time("btime x\nbtime 5\n"), Ok(5));
    assert_eq!(get_boot_time("btime x\n"), Err(ProcError::NoBootTime));
    assert_eq!(get_boot_time("btime\t 12 \r\n"), Ok(12));
    assert_eq!(get_boot_time(" btime 12\n"), Err(ProcError::NoBootTime));
}

#[test]
fn start_ticks_are_the_twenty_second_field() {
    let stat = "4242 (foro) S 1 4242 4242 0 -1 4194304 100 0 0 0 1 2 0 0 20 0 3 0 987654 1000 200";
    assert_eq!(get_start_time_clock_tick(stat), Ok(987_654));
    assert_eq!(get_start_time_clock_tick("1 2 3"), Err(ProcError::NoStartTime));
    let bad = "a b c d e f g h i j k l m n o p q r s t u v";
    assert_eq!(get_start_time_clock_tick(bad), Err(ProcError::BadStartTime));
}

#[test]
fn start_time_is_boot_time_plus_whole_seconds() {
    assert_eq!(get_start_time(1_700_000_000, 987_654, 100), Ok(1_700_009_876));
    assert_eq!(get_start_time(10, 99, 100), Ok(10));
    assert_eq!(get_start_time(10, 100, 0), Err(ProcError::NoClockTicks));
    assert_eq!(get_start_time(u64::MAX, 100, 100), Err(ProcError::Overflow));
    assert_eq!(get_start_time(u64::MAX - 1, 100, 100), Ok(u64::MAX));
}

#[test]
fn fields_are_runs_without_white_space() {
    let fields = |text: &str| -> Vec<String> {
        split_fields(&str_chars(text)).iter().map(|f| f.iter().collect()).collect()
    };
    assert_eq!(fields("  a \t b\n\nc  "), vec!["a", "b", "c"]);
    assert!(fields("").is_empty());
    assert!(fields(" \n ").is_empty());
    assert_eq!(fields("a\u{a0}b\u{2003}c"), vec!["a", "b", "c"]);
    assert_eq!(fields("a,b"), vec!["a,b"]);
}

#[test]
fn test_error_when_config_file_not_found_in_resolver() {
    let resolver = nowhere();

    // This should return None, since the resolver gives no path.
    let result = get_or_create_default_config_with(&resolver, false);
    assert!(result.is_none());

    // Settling the configuration for the cache should fail in this situation.
    let err = config_file_in_use(&None, None, true).unwrap_err();
    assert!(
        err.message().contains("Could not get config directory"),
        "Expected an error about missing config directory."
    );
}

#[test]
fn test_error_paths_in_load_config_and_socket_with() {
    let resolver = AppDirResolver {
        platform: Platform::Linux,
        config_dir: None,
        cache_dir: None,
        runtime_dir: Some("/run/user/1".to_string()),
    };

    let default = get_or_create_default_config_with(&resolver, false);
    assert!(default.is_none());
    let result = config_file_in_use(&None, None, false);
    assert!(result.is_err());
    assert!(result
        .unwrap_err()
        .message()
        .contains("Failed to get config directory"));

    let bare = load_str(r#"{"rules":[]}"#).unwrap();
    assert_eq!(
        load_config_and_socket_with(&resolver, &bare, &None),
        Ok("/run/user/1/foro".to_string())
    );
}

#[test]
fn test_get_or_create_default_config() {
    let resolver = resolver();
    assert!(
        get_or_create_default_config_with(&resolver, true).is_some()
            || get_or_create_default_config_with(&resolver, true).is_none(),
        "get_or_create_default_config should always return Some or None"
    );
}
