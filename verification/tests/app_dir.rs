use foro::app_dir::{AppDirResolver, DirError, Platform};

fn linux(runtime: Option<&str>) -> AppDirResolver {
    AppDirResolver {
        platform: Platform::Linux,
        config_dir: Some("/home/u/.config".to_string()),
        cache_dir: Some("/home/u/.cache".to_string()),
        runtime_dir: runtime.map(|s| s.to_string()),
    }
}

#[test]
fn test_app_dir_paths() {
    let r = linux(Some("/run/user/1000"));

    let cfg = r.config_file_res().unwrap();
    assert!(cfg.ends_with("foro.json"));

    let cache = r.cache_dir_res().unwrap();
    assert!(cache.ends_with("foro"));

    let sock = r.socket_dir_res().unwrap();
    assert!(sock.ends_with("foro"));

    let log = r.log_dir_res().unwrap();
    assert!(log.ends_with("foro/log"));
}

#[test]
fn linux_paths_are_exact() {
    let r = linux(Some("/run/user/1000"));
    assert_eq!(r.config_file().unwrap(), "/home/u/.config/foro.json");
    assert_eq!(r.cache_dir().unwrap(), "/home/u/.cache/foro");
    assert_eq!(r.socket_dir().unwrap(), "/run/user/1000/foro");
    assert_eq!(r.log_dir().unwrap(), "/run/user/1000/foro/log");
}

#[test]
fn linux_without_runtime_dir_falls_back_to_config_dir() {
    let r = linux(None);
    assert_eq!(r.socket_dir().unwrap(), "/home/u/.config/foro-socket-tmp/foro");
    assert_eq!(r.log_dir().unwrap(), "/home/u/.config/foro-socket-tmp/foro/log");
}

#[test]
fn other_platforms_keep_the_socket_under_the_config_dir() {
    let r = AppDirResolver {
        platform: Platform::MacOs,
        config_dir: Some("/Users/u/Library/Application Support".to_string()),
        cache_dir: Some("/Users/u/Library/Caches".to_string()),
        runtime_dir: Some("/ignored".to_string()),
    };
    assert_eq!(
        r.socket_dir().unwrap(),
        "/Users/u/Library/Application Support/foro-socket-tmp"
    );
    assert_eq!(
        r.log_dir().unwrap(),
        "/Users/u/Library/Application Support/foro-socket-tmp/log"
    );
}

#[test]
fn missing_directories_give_each_its_own_error() {
    let r = AppDirResolver {
        platform: Platform::Windows,
        config_dir: None,
        cache_dir: None,
        runtime_dir: None,
    };
    assert_eq!(r.config_file_res(), Err(DirError::ConfigFile));
    assert_eq!(r.cache_dir_res(), Err(DirError::CacheDir));
    assert_eq!(r.socket_dir_res(), Err(DirError::SocketDir));
    assert_eq!(r.log_dir_res(), Err(DirError::LogDir));
    assert_eq!(DirError::ConfigFile.message(), "Failed to get default config file");
    assert_eq!(DirError::LogDir.message(), "Failed to get default log dir");
}
