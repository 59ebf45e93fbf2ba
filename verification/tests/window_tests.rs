use wave_os_shell::command::Platform;
use wave_os_shell::kiosk::enable_kiosk;
use wave_os_shell::registry::Hive;
use wave_os_shell::shell::ShellMode;
use wave_os_shell::window::{
    close_requested, get_window_state, main_window_label, minimize_to_tray, set_kiosk_mode, set_shell_mode,
    settings_route_script, startup_changes, startup_mode, toggle_fullscreen, WindowOp,
    WindowQuery,
};

fn q(f: Option<bool>, m: Option<bool>, v: Option<bool>) -> Option<WindowQuery> {
    Some(WindowQuery { fullscreen: f, maximized: m, visible: v })
}

fn serde_state(f: bool, m: bool, v: bool) -> String {
    let mut map = serde_json::Map::new();
    map.insert("fullscreen".to_string(), serde_json::Value::Bool(f));
    map.insert("maximized".to_string(), serde_json::Value::Bool(m));
    map.insert("visible".to_string(), serde_json::Value::Bool(v));
    serde_json::Value::Object(map).to_string()
}

#[test]
fn labels() {
    assert_eq!(main_window_label(), "wave-os");
    assert_eq!(settings_route_script(), "window.location.hash = '#/settings';");
}

#[test]
fn window_state_json() {
    assert_eq!(
        get_window_state(&q(Some(true), Some(false), Some(true))),
        "{\"fullscreen\":true,\"maximized\":false,\"visible\":true}"
    );
    assert_eq!(get_window_state(&None), "{}");
}

#[test]
fn window_state_matches_serde_json() {
    for f in [false, true] {
        for m in [false, true] {
            for v in [false, true] {
                assert_eq!(get_window_state(&q(Some(f), Some(m), Some(v))), serde_state(f, m, v));
            }
        }
    }
}

#[test]
fn failed_queries_count_as_false() {
    assert_eq!(get_window_state(&q(None, None, None)), serde_state(false, false, false));
    assert_eq!(get_window_state(&q(None, Some(true), None)), serde_state(false, true, false));
}

#[test]
fn toggle_switches_fullscreen() {
    assert_eq!(toggle_fullscreen(&q(Some(true), None, None)), Some(WindowOp::SetFullscreen(false)));
    assert_eq!(toggle_fullscreen(&q(Some(false), None, None)), Some(WindowOp::SetFullscreen(true)));
    assert_eq!(toggle_fullscreen(&q(None, None, None)), Some(WindowOp::SetFullscreen(true)));
    assert_eq!(toggle_fullscreen(&None), None);
}

#[test]
fn minimize_hides_in_app_mode_only() {
    assert_eq!(minimize_to_tray(ShellMode::App, true), Some(WindowOp::Hide));
    assert_eq!(minimize_to_tray(ShellMode::App, false), None);
    assert_eq!(minimize_to_tray(ShellMode::Shell, true), None);
    assert_eq!(minimize_to_tray(ShellMode::Kiosk, true), None);
}

#[test]
fn closing_goes_to_tray_in_app_mode() {
    assert_eq!(close_requested(ShellMode::App), vec![WindowOp::Hide]);
    assert!(close_requested(ShellMode::Shell).is_empty());
    assert!(close_requested(ShellMode::Kiosk).is_empty());
}

#[test]
fn lockdown_window() {
    let expected = vec![
        WindowOp::SetFullscreen(true),
        WindowOp::Maximize,
        WindowOp::SetDecorations(false),
        WindowOp::SetAlwaysOnTop(true),
        WindowOp::SetSkipTaskbar(true),
    ];
    assert_eq!(set_shell_mode(), expected);
    assert_eq!(set_kiosk_mode(Platform::Windows).window, expected);
    assert_eq!(set_kiosk_mode(Platform::Other).window, expected);
}

#[test]
fn kiosk_mode_sets_policies() {
    let k = set_kiosk_mode(Platform::Windows);
    assert_eq!(k.policies, enable_kiosk(Platform::Windows).unwrap());
    let names: Vec<&str> = k.policies.iter().map(|w| w.target.name.as_str()).collect();
    assert_eq!(names, vec!["DisableTaskMgr", "DisableRegistryTools", "DisableCMD"]);
    assert!(k.policies.iter().all(|w| w.data == 1 && w.target.hive == Hive::CurrentUser));
    assert_eq!(k.policies[1].target.key, "SOFTWARE\\Microsoft\\Windows\\CurrentVersion\\Policies\\System");
    assert_eq!(k.policies[2].target.key, "SOFTWARE\\Policies\\Microsoft\\Windows\\System");
    assert!(set_kiosk_mode(Platform::MacOs).policies.is_empty());
}

fn args(a: &[&str]) -> Vec<String> {
    a.iter().map(|s| s.to_string()).collect()
}

#[test]
fn startup_mode_from_arguments() {
    assert_eq!(startup_mode(&args(&["wave-os-shell.exe"])), ShellMode::App);
    assert_eq!(startup_mode(&args(&["wave-os-shell.exe", "--shell"])), ShellMode::Shell);
    assert_eq!(startup_mode(&args(&["wave-os-shell.exe", "--kiosk"])), ShellMode::Kiosk);
    assert_eq!(startup_mode(&args(&["x", "--kiosk", "--shell"])), ShellMode::Shell);
    assert_eq!(startup_mode(&args(&["x", "--shell=1"])), ShellMode::App);
    assert_eq!(startup_mode(&vec![]), ShellMode::App);
}

#[test]
fn startup_window_changes() {
    let app = startup_changes(ShellMode::App, Platform::Windows);
    assert!(app.window.is_empty() && app.policies.is_empty());
    let shell = startup_changes(ShellMode::Shell, Platform::Windows);
    assert_eq!(shell.window, set_shell_mode());
    assert!(shell.policies.is_empty());
    assert_eq!(startup_changes(ShellMode::Kiosk, Platform::Windows), set_kiosk_mode(Platform::Windows));
    assert_eq!(startup_changes(ShellMode::Kiosk, Platform::MacOs), set_kiosk_mode(Platform::MacOs));
    assert!(startup_changes(ShellMode::Kiosk, Platform::MacOs).policies.is_empty());
}
