use foro::config::model::{path_extension, OnRule};
use foro::path_utils::{
    convert_windows_path, join_path, normalize_path, rule_path, strip_windows_path, to_wasm_path,
    PathError, PathStyle,
};

#[test]
fn test_strip_windows_path() {
    assert_eq!(
        strip_windows_path(r"\\?\C:\Users\test").unwrap(),
        r"C:\Users\test"
    );
}

#[test]
fn test_convert_windows_path() {
    assert_eq!(
        convert_windows_path(r"\\?\C:\Users\test").unwrap(),
        r"/c/Users/test"
    );
}

#[test]
fn test_normalize_path_windows() {
    assert_eq!(
        normalize_path(PathStyle::Windows, r"\\?\C:\Users\test").unwrap(),
        r"C:\Users\test"
    );
}

#[test]
fn test_to_wasm_path_windows() {
    assert_eq!(
        to_wasm_path(PathStyle::Windows, r"\\?\C:\Users\test").unwrap(),
        r"/c/Users/test"
    );
}

#[test]
fn test_normalize_path_unix() {
    assert_eq!(
        normalize_path(PathStyle::Posix, "/home/user/project").unwrap(),
        "/home/user/project"
    );
}

#[test]
fn test_to_wasm_path_unix() {
    assert_eq!(
        to_wasm_path(PathStyle::Posix, "/home/user/project").unwrap(),
        "/home/user/project"
    );
}

#[test]
fn windows_paths_that_are_too_short_are_refused() {
    assert_eq!(strip_windows_path("abc"), Err(PathError::NoPrefix));
    assert_eq!(convert_windows_path(r"\\?"), Err(PathError::NoPrefix));
    assert_eq!(convert_windows_path(r"\\?\"), Err(PathError::NoDrive));
    assert_eq!(convert_windows_path(r"\\?\C"), Err(PathError::NoRoot));
    assert_eq!(convert_windows_path(r"\\?\C:").unwrap(), "/c");
}

#[test]
fn drive_letter_is_lowered_and_only_the_drive_letter() {
    assert_eq!(convert_windows_path(r"\\?\D:\A\B").unwrap(), "/d/A/B");
    assert_eq!(convert_windows_path(r"\\?\e:\x").unwrap(), "/e/x");
}

#[test]
fn join_puts_one_separator_between() {
    assert_eq!(join_path("/run/user/1", "foro"), "/run/user/1/foro");
    assert_eq!(join_path("/run/user/1/", "foro"), "/run/user/1/foro");
    assert_eq!(join_path("", "foro"), "foro");
}

#[test]
fn a_windows_path_is_read_by_the_rules_with_slashes() {
    let path = r"C:\work\v1.2\notes";
    assert_eq!(rule_path(PathStyle::Posix, path), path);
    assert_eq!(rule_path(PathStyle::Windows, path), "C:/work/v1.2/notes");
    assert_eq!(path_extension(&rule_path(PathStyle::Windows, path)), None);
    assert_eq!(
        path_extension(&rule_path(PathStyle::Windows, r"C:\work\v1.2\a.rs")),
        Some("rs".to_string())
    );
    let rule = OnRule::Extension(".rs".to_string());
    assert!(rule.on_match(&rule_path(PathStyle::Windows, r"C:\work/mixed\a.rs")));
    assert!(!rule.on_match(&rule_path(PathStyle::Windows, r"C:\work\a.rs\notes")));
    assert_eq!(rule_path(PathStyle::Windows, ""), "");
}
