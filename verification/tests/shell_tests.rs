use wave_os_shell::command::{Platform, RunMode};
use wave_os_shell::registry::Hive;
use wave_os_shell::shell::{
    disable_shell_mode, enable_shell_mode, get_shell_mode, is_shell_mode, kill_explorer,
    launch_explorer, shell_change_record, shell_mode_of, shell_mode_write, shell_registry_value,
    ShellMode,
};

fn some(s: &str) -> Option<String> {
    Some(s.to_string())
}

#[test]
fn mode_names() {
    assert_eq!(ShellMode::App.name(), "app");
    assert_eq!(ShellMode::Shell.name(), "shell");
    assert_eq!(ShellMode::Kiosk.name(), "kiosk");
    let all = [ShellMode::App, ShellMode::Shell, ShellMode::Kiosk];
    for a in all.iter() {
        for b in all.iter() {
            assert_eq!(a == b, a.name() == b.name());
        }
    }
}

#[test]
fn shell_mode_from_registry_value() {
    assert_eq!(get_shell_mode(&None), "app");
    assert_eq!(get_shell_mode(&some("explorer.exe")), "app");
    assert_eq!(get_shell_mode(&some("\"C:\\Program Files\\Wave\\wave-os-shell.exe\" --shell")), "shell");
    assert_eq!(
        get_shell_mode(&some("\"C:\\Program Files\\Wave\\wave-os-shell.exe\" --kiosk")),
        "kiosk"
    );
    assert_eq!(get_shell_mode(&some("other.exe --kiosk")), "app");
    assert_eq!(shell_mode_of(&some("wave-os-shell --kiosk")), ShellMode::Kiosk);
}

#[test]
fn is_shell_mode_follows_the_name() {
    for v in [None, some("explorer.exe"), some("wave-os-shell.exe --shell"), some("wave-os-shell --kiosk")] {
        assert_eq!(is_shell_mode(&v), get_shell_mode(&v) != "app");
    }
    assert!(!is_shell_mode(&None));
    assert!(is_shell_mode(&some("wave-os-shell.exe")));
}

#[test]
fn winlogon_location() {
    let v = shell_registry_value();
    assert_eq!(v.hive, Hive::LocalMachine);
    assert_eq!(v.key, "SOFTWARE\\Microsoft\\Windows NT\\CurrentVersion\\Winlogon");
    assert_eq!(v.name, "Shell");
}

#[test]
fn enable_shell_mode_writes_quoted_path() {
    let exe = "C:\\Program Files\\Wave OS\\wave-os-shell.exe".to_string();
    let w = enable_shell_mode(&exe, Platform::Windows).unwrap();
    assert_eq!(w.target, shell_registry_value());
    assert_eq!(w.data, "\"C:\\Program Files\\Wave OS\\wave-os-shell.exe\" --shell");
}

#[test]
fn enable_then_read_back_gives_shell() {
    let exe = "D:\\wave-os-shell\\wave-os-shell.exe".to_string();
    let w = enable_shell_mode(&exe, Platform::Windows).unwrap();
    assert_eq!(get_shell_mode(&Some(w.data)), "shell");
}

#[test]
fn disable_then_read_back_gives_app() {
    let w = disable_shell_mode(Platform::Windows).unwrap();
    assert_eq!(w.target, shell_registry_value());
    assert_eq!(w.data, "explorer.exe");
    assert_eq!(get_shell_mode(&Some(w.data)), "app");
}

#[test]
fn shell_mode_refused_off_windows() {
    let exe = "/opt/wave-os-shell".to_string();
    assert_eq!(
        enable_shell_mode(&exe, Platform::Other).unwrap_err(),
        "Shell mode is only available on Windows"
    );
    assert_eq!(
        disable_shell_mode(Platform::Other).unwrap_err(),
        "Shell mode is only available on Windows"
    );
}

#[test]
fn explorer_commands() {
    let l = launch_explorer();
    assert_eq!(l.program, "explorer.exe");
    assert!(l.args.is_empty());
    assert_eq!(l.working_dir, None);
    assert_eq!(l.mode, RunMode::Spawn);
    let k = kill_explorer();
    assert_eq!(k.program, "taskkill");
    assert_eq!(k.args, vec!["/f", "/im", "explorer.exe"]);
    assert_eq!(k.mode, RunMode::Spawn);
}

#[test]
fn mode_switch_writes_and_reads_back() {
    let exe = "C:\\Wave\\wave-os-shell.exe".to_string();
    for mode in [ShellMode::App, ShellMode::Shell, ShellMode::Kiosk] {
        let w = shell_mode_write(mode, &exe, Platform::Windows).unwrap();
        assert_eq!(w.target, shell_registry_value());
        assert_eq!(shell_mode_of(&Some(w.data.clone())), mode);
    }
    assert_eq!(
        shell_mode_write(ShellMode::Kiosk, &exe, Platform::Windows).unwrap().data,
        "\"C:\\Wave\\wave-os-shell.exe\" --kiosk"
    );
    assert!(shell_mode_write(ShellMode::Shell, &exe, Platform::MacOs).is_err());
}

#[test]
fn rollback_record() {
    let exe = "C:\\Wave\\wave-os-shell.exe".to_string();
    let w = enable_shell_mode(&exe, Platform::Windows).unwrap();
    let r = shell_change_record(&None, &w);
    assert_eq!(r.previous, "explorer.exe");
    assert_eq!(r.written, "\"C:\\Wave\\wave-os-shell.exe\" --shell");
    let r = shell_change_record(&Some("custom.exe".to_string()), &w);
    assert_eq!(r.previous, "custom.exe");
}
