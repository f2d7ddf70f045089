use sonosano_shell::window::{window_init, window_maximize_toggle, WindowAction, WindowInfo};

#[test]
fn window_is_described_with_its_size_and_state() {
    let info = window_init(Some((1280, 720)), Some(true), "linux");
    assert_eq!(
        info,
        WindowInfo {
            width: 1280,
            height: 720,
            minimizable: true,
            maximizable: true,
            is_maximized: true,
            platform: "linux",
        }
    );
}

#[test]
fn unknown_size_counts_as_zero_by_zero() {
    let info = window_init(None, Some(false), "macos");
    assert_eq!(info.width, 0);
    assert_eq!(info.height, 0);
    assert!(!info.is_maximized);
    assert!(info.minimizable);
    assert!(info.maximizable);
    assert_eq!(info.platform, "macos");
}

#[test]
fn unknown_state_counts_as_not_maximized() {
    let info = window_init(Some((u32::MAX, 1)), None, String::from("windows"));
    assert_eq!(info.width, u32::MAX);
    assert_eq!(info.height, 1);
    assert!(!info.is_maximized);
    assert_eq!(info.platform, "windows");
}

#[test]
fn toggle_restores_a_maximized_window() {
    assert_eq!(window_maximize_toggle(Some(true)), WindowAction::Unmaximize);
}

#[test]
fn toggle_maximizes_any_other_window() {
    assert_eq!(window_maximize_toggle(Some(false)), WindowAction::Maximize);
    assert_eq!(window_maximize_toggle(None), WindowAction::Maximize);
}
