use sonosano_shell::platform::{backend_dir, backend_file_name, same_text, BackendLocation, Platform};

#[test]
fn windows_executable_carries_the_exe_suffix() {
    assert_eq!(backend_file_name(Platform::Windows), "sonosano-backend.exe");
}

#[test]
fn every_other_platform_shares_one_name() {
    assert_eq!(backend_file_name(Platform::Linux), "sonosano-backend");
    assert_eq!(backend_file_name(Platform::MacOs), "sonosano-backend");
    assert_eq!(backend_file_name(Platform::Other), "sonosano-backend");
}

#[test]
fn windows_name_is_the_common_name_and_a_suffix() {
    let common = backend_file_name(Platform::Linux);
    let windows = backend_file_name(Platform::Windows);
    assert_eq!(windows, format!("{}{}", common, ".exe"));
}

#[test]
fn backend_directory_is_fixed() {
    assert_eq!(backend_dir(), "backend");
}

#[test]
fn os_names_map_to_their_platforms() {
    assert_eq!(Platform::from_os_name("windows"), Platform::Windows);
    assert_eq!(Platform::from_os_name("macos"), Platform::MacOs);
    assert_eq!(Platform::from_os_name("linux"), Platform::Linux);
}

#[test]
fn unknown_os_names_map_to_other() {
    assert_eq!(Platform::from_os_name("freebsd"), Platform::Other);
    assert_eq!(Platform::from_os_name(""), Platform::Other);
    assert_eq!(Platform::from_os_name("Windows"), Platform::Other);
    assert_eq!(Platform::from_os_name("linux "), Platform::Other);
    assert_eq!(Platform::from_os_name("linu"), Platform::Other);
    assert_eq!(Platform::from_os_name("minux"), Platform::Other);
}

#[test]
fn same_text_compares_whole_strings() {
    assert!(same_text("", ""));
    assert!(same_text("backend", "backend"));
    assert!(same_text("großes-ß", "großes-ß"));
    assert!(!same_text("backend", "backenD"));
    assert!(!same_text("backend", "backend "));
    assert!(!same_text("", "x"));
    assert!(!same_text("é", "e"));
}

#[test]
fn location_names_directory_and_file() {
    let on_linux = BackendLocation { root: "/app", platform: Platform::Linux };
    assert_eq!(on_linux.dir(), "backend");
    assert_eq!(on_linux.file_name(), "sonosano-backend");
    let on_windows = BackendLocation { root: "C:\\app", platform: Platform::Windows };
    assert_eq!(on_windows.dir(), "backend");
    assert_eq!(on_windows.file_name(), "sonosano-backend.exe");
    assert_eq!(on_windows.root, "C:\\app");
}
