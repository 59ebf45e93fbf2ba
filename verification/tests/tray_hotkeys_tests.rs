use wave_os_shell::command::{Platform, RunMode};
use wave_os_shell::hotkeys::{hotkey_actions, register_hotkeys, terminal_command, Hotkey, KeyState};
use wave_os_shell::shell::{kill_explorer, launch_explorer, shell_mode_write, ShellMode};
use wave_os_shell::tray::{
    create_tray, exit_to_windows, mode_checks, tray_icon_click, tray_menu_actions, ButtonState,
    MenuEntry, PointerButton,
};
use wave_os_shell::window::{UiAction, WindowOp, WindowQuery};

fn visible(v: Option<bool>) -> Option<WindowQuery> {
    Some(WindowQuery { fullscreen: None, maximized: None, visible: v })
}

fn settings_actions() -> Vec<UiAction> {
    vec![
        UiAction::Window(WindowOp::Show),
        UiAction::Window(WindowOp::SetFocus),
        UiAction::Window(WindowOp::Eval("window.location.hash = '#/settings';".to_string())),
    ]
}

fn press(key: Hotkey, window: &Option<WindowQuery>) -> Vec<UiAction> {
    hotkey_actions(key, KeyState::Pressed, window, Platform::Windows)
}

#[test]
fn hotkeys_per_mode() {
    let (tw, os, ot, ew, lk) = (
        Hotkey::ToggleWave,
        Hotkey::OpenSettings,
        Hotkey::OpenTerminal,
        Hotkey::ExitToWindows,
        Hotkey::LockKiosk,
    );
    assert_eq!(register_hotkeys(ShellMode::App, false), vec![tw, os]);
    assert_eq!(register_hotkeys(ShellMode::App, true), vec![tw, os, ot]);
    assert_eq!(register_hotkeys(ShellMode::Shell, true), vec![tw, os, ot, ew]);
    assert_eq!(register_hotkeys(ShellMode::Kiosk, false), vec![tw, os, ew, lk]);
    assert_eq!(tw.accelerator(), "ctrl+alt+w");
    assert_eq!(os.accelerator(), "ctrl+alt+s");
    assert_eq!(ot.accelerator(), "ctrl+alt+t");
    assert_eq!(ew.accelerator(), "super+escape");
    assert_eq!(lk.accelerator(), "ctrl+alt+l");
}

#[test]
fn toggle_hides_visible_window() {
    assert_eq!(
        press(Hotkey::ToggleWave, &visible(Some(true))),
        vec![UiAction::Window(WindowOp::Hide), UiAction::Run(launch_explorer())]
    );
}

#[test]
fn toggle_shows_hidden_window() {
    let expected = vec![
        UiAction::Window(WindowOp::Show),
        UiAction::Window(WindowOp::SetFocus),
        UiAction::Run(kill_explorer()),
    ];
    assert_eq!(press(Hotkey::ToggleWave, &visible(Some(false))), expected);
    assert_eq!(press(Hotkey::ToggleWave, &visible(None)), expected);
}

#[test]
fn key_release_does_nothing() {
    for key in [Hotkey::ToggleWave, Hotkey::OpenSettings, Hotkey::OpenTerminal, Hotkey::ExitToWindows, Hotkey::LockKiosk] {
        assert!(hotkey_actions(key, KeyState::Released, &visible(Some(true)), Platform::Windows).is_empty());
    }
}

#[test]
fn settings_hotkey() {
    assert_eq!(press(Hotkey::OpenSettings, &visible(Some(false))), settings_actions());
    assert!(press(Hotkey::OpenSettings, &None).is_empty());
    assert!(press(Hotkey::ToggleWave, &None).is_empty());
}

#[test]
fn other_hotkeys() {
    assert_eq!(press(Hotkey::OpenTerminal, &None), vec![UiAction::Run(terminal_command(Platform::Windows))]);
    assert_eq!(terminal_command(Platform::Windows).program, "cmd.exe");
    let mac = terminal_command(Platform::MacOs);
    assert_eq!((mac.program.as_str(), mac.args.clone()), ("open", vec!["-a".to_string(), "Terminal".to_string()]));
    assert_eq!(terminal_command(Platform::Other).program, "x-terminal-emulator");
    assert_eq!(press(Hotkey::ExitToWindows, &None), vec![UiAction::ExitToWindows]);
    match &press(Hotkey::LockKiosk, &None)[..] {
        [UiAction::Run(c)] => {
            assert_eq!(c.program, "rundll32.exe");
            assert_eq!(c.args, vec!["user32.dll,LockWorkStation"]);
            assert_eq!(c.mode, RunMode::Spawn);
        }
        other => panic!("unexpected {:?}", other),
    }
}

fn simulate(acts: &[UiAction], visible: &mut bool, explorer: &mut bool) {
    for a in acts {
        match a {
            UiAction::Window(WindowOp::Show) => *visible = true,
            UiAction::Window(WindowOp::Hide) => *visible = false,
            UiAction::Run(c) if c.program == "explorer.exe" => *explorer = true,
            UiAction::Run(c) if c.program == "taskkill" => *explorer = false,
            _ => {}
        }
    }
}

#[test]
fn toggle_twice_returns_to_start() {
    for start in [false, true] {
        let mut v = start;
        let mut explorer = !start;
        for _ in 0..2 {
            let q = visible(Some(v));
            let mut acts = hotkey_actions(Hotkey::ToggleWave, KeyState::Pressed, &q, Platform::Windows);
            acts.extend(hotkey_actions(Hotkey::ToggleWave, KeyState::Released, &q, Platform::Windows));
            simulate(&acts, &mut v, &mut explorer);
            assert_eq!(explorer, !v);
        }
        assert_eq!(v, start);
    }
}

fn entry_id(e: &MenuEntry) -> String {
    match e {
        MenuEntry::Item { id, .. } => id.clone(),
        MenuEntry::Check { id, .. } => id.clone(),
        MenuEntry::Separator => "-".to_string(),
    }
}

#[test]
fn tray_layout() {
    let t = create_tray(ShellMode::App);
    assert_eq!(t.id, "wave-tray");
    assert_eq!(t.tooltip, "Wave OS");
    let ids: Vec<String> = t.entries.iter().map(entry_id).collect();
    assert_eq!(
        ids,
        vec![
            "open", "windows", "-", "settings", "updates", "-", "shell_mode", "shell_app",
            "shell_replace", "shell_kiosk", "-", "exit"
        ]
    );
    assert_eq!(
        t.entries[4],
        MenuEntry::Item { id: "updates".to_string(), label: "Check for Updates".to_string(), enabled: true }
    );
    assert_eq!(
        t.entries[6],
        MenuEntry::Item { id: "shell_mode".to_string(), label: "Shell Mode".to_string(), enabled: false }
    );
    assert_eq!(
        t.entries[7],
        MenuEntry::Check { id: "shell_app".to_string(), label: "App (default)".to_string(), enabled: true, checked: true }
    );
    assert_eq!(
        t.entries[9],
        MenuEntry::Check { id: "shell_kiosk".to_string(), label: "Kiosk Lockdown".to_string(), enabled: true, checked: false }
    );
}

#[test]
fn tray_checks_current_mode() {
    let t = create_tray(ShellMode::Shell);
    let checked: Vec<String> = t
        .entries
        .iter()
        .filter_map(|e| match e {
            MenuEntry::Check { id, checked: true, .. } => Some(id.clone()),
            _ => None,
        })
        .collect();
    assert_eq!(checked, vec!["shell_replace"]);
    assert_eq!(
        mode_checks(ShellMode::Kiosk),
        vec![("shell_app".to_string(), false), ("shell_replace".to_string(), false), ("shell_kiosk".to_string(), true)]
    );
}

fn pick(id: &str, window: bool, current: ShellMode) -> Vec<UiAction> {
    tray_menu_actions(&id.to_string(), window, current, &"C:\\Wave\\wave-os-shell.exe".to_string(), Platform::Windows)
}

#[test]
fn tray_menu_choices() {
    assert_eq!(
        pick("open", true, ShellMode::App),
        vec![UiAction::Window(WindowOp::Show), UiAction::Window(WindowOp::SetFocus)]
    );
    assert!(pick("open", false, ShellMode::App).is_empty());
    assert_eq!(pick("windows", false, ShellMode::App), vec![UiAction::Run(launch_explorer())]);
    assert_eq!(pick("settings", true, ShellMode::App), settings_actions());
    assert!(pick("settings", false, ShellMode::App).is_empty());
    assert_eq!(pick("updates", false, ShellMode::App), vec![UiAction::CheckForUpdates]);
    assert_eq!(pick("exit", false, ShellMode::App), vec![UiAction::ExitToWindows]);
    assert!(pick("shell_mode", true, ShellMode::App).is_empty());
    assert!(pick("unknown", true, ShellMode::App).is_empty());
}

#[test]
fn tray_switches_shell_mode() {
    let exe = "C:\\Wave\\wave-os-shell.exe".to_string();
    for (id, mode) in [("shell_app", ShellMode::App), ("shell_replace", ShellMode::Shell), ("shell_kiosk", ShellMode::Kiosk)] {
        let w = shell_mode_write(mode, &exe, Platform::Windows).unwrap();
        assert_eq!(pick(id, true, ShellMode::App), vec![UiAction::WriteShell(w), UiAction::SyncModeChecks]);
    }
    assert_eq!(pick("shell_app", true, ShellMode::Kiosk), vec![UiAction::SyncModeChecks]);
    assert_eq!(
        tray_menu_actions(&"shell_replace".to_string(), true, ShellMode::App, &exe, Platform::Other),
        vec![UiAction::SyncModeChecks]
    );
}

#[test]
fn exit_restores_explorer_only_in_shell_mode() {
    assert_eq!(exit_to_windows(&None), vec![UiAction::Exit(0)]);
    assert_eq!(exit_to_windows(&Some("explorer.exe".to_string())), vec![UiAction::Exit(0)]);
    let shell = Some("\"C:\\Wave\\wave-os-shell.exe\" --shell".to_string());
    assert_eq!(exit_to_windows(&shell), vec![UiAction::Run(launch_explorer()), UiAction::Exit(0)]);
    let kiosk = Some("\"C:\\Wave\\wave-os-shell.exe\" --kiosk".to_string());
    assert!(exit_to_windows(&kiosk).is_empty());
}

#[test]
fn tray_left_click() {
    let up = ButtonState::Up;
    assert_eq!(
        tray_icon_click(ShellMode::App, PointerButton::Left, up, &visible(Some(false))),
        vec![UiAction::Window(WindowOp::Show), UiAction::Window(WindowOp::SetFocus)]
    );
    assert_eq!(
        tray_icon_click(ShellMode::App, PointerButton::Left, up, &visible(Some(true))),
        vec![UiAction::Window(WindowOp::Hide)]
    );
    assert!(tray_icon_click(ShellMode::App, PointerButton::Left, ButtonState::Down, &visible(Some(true))).is_empty());
    assert!(tray_icon_click(ShellMode::App, PointerButton::Right, up, &visible(Some(true))).is_empty());
    assert!(tray_icon_click(ShellMode::Shell, PointerButton::Left, up, &visible(Some(true))).is_empty());
    assert!(tray_icon_click(ShellMode::Kiosk, PointerButton::Left, up, &visible(Some(false))).is_empty());
    assert!(tray_icon_click(ShellMode::App, PointerButton::Left, up, &None).is_empty());
}
