use vstd::prelude::*;

use crate::command::{opt_text_view, owned, Platform};
use crate::text::is_substring;
use crate::hotkeys::{explorer_launch_view, open_settings_actions};
use crate::registry::{after_write, read_value, Hive, RegistryContents, RegistryValueView, RegistryWriteView};
use crate::shell::{
    kiosk_flag, law_mode_switch_reads_back, own_marker, launch_explorer, mode_of_shell_value, mode_value, shell_mode_of, shell_mode_write,
    shell_registry_view, ShellMode,
};
use crate::window::{
    actions_view, or_false, settings_route_script, UiAction, UiActionView, WindowOp, WindowOpView,
    WindowQuery,
};

verus! {

/// One line of the tray menu.
#[derive(Clone, Debug, PartialEq, Eq)]
pub enum MenuEntry {
    Item { id: String, label: String, enabled: bool },
    Check { id: String, label: String, enabled: bool, checked: bool },
    Separator,
}

/// The plain content of a [`MenuEntry`].
pub enum MenuEntryView {
    Item { id: Seq<char>, label: Seq<char>, enabled: bool },
    Check { id: Seq<char>, label: Seq<char>, enabled: bool, checked: bool },
    Separator,
}

impl View for MenuEntry {
    type V = MenuEntryView;

    open spec fn view(&self) -> MenuEntryView {
        match self {
            MenuEntry::Item { id, label, enabled } => MenuEntryView::Item {
                id: id@,
                label: label@,
                enabled: *enabled,
            },
            MenuEntry::Check { id, label, enabled, checked } => MenuEntryView::Check {
                id: id@,
                label: label@,
                enabled: *enabled,
                checked: *checked,
            },
            MenuEntry::Separator => MenuEntryView::Separator,
        }
    }
}

/// The tray icon: its id, tooltip and menu.
#[derive(Clone, Debug, PartialEq, Eq)]
pub struct TrayLayout {
    pub id: String,
    pub tooltip: String,
    pub entries: Vec<MenuEntry>,
}

/// The tray menu, top to bottom, with the item of the current shell mode
/// checked.
pub open spec fn tray_menu(mode: ShellMode) -> Seq<MenuEntryView> {
    seq![
        MenuEntryView::Item { id: "open"@, label: "Open Wave OS"@, enabled: true },
        MenuEntryView::Item { id: "windows"@, label: "Windows Mode"@, enabled: true },
        MenuEntryView::Separator,
        MenuEntryView::Item { id: "settings"@, label: "Settings"@, enabled: true },
        MenuEntryView::Item { id: "updates"@, label: "Check for Updates"@, enabled: true },
        MenuEntryView::Separator,
        MenuEntryView::Item { id: "shell_mode"@, label: "Shell Mode"@, enabled: false },
        MenuEntryView::Check {
            id: "shell_app"@,
            label: "App (default)"@,
            enabled: true,
            checked: mode == ShellMode::App,
        },
        MenuEntryView::Check {
            id: "shell_replace"@,
            label: "Shell Replacement"@,
            enabled: true,
            checked: mode == ShellMode::Shell,
        },
        MenuEntryView::Check {
            id: "shell_kiosk"@,
            label: "Kiosk Lockdown"@,
            enabled: true,
            checked: mode == ShellMode::Kiosk,
        },
        MenuEntryView::Separator,
        MenuEntryView::Item { id: "exit"@, label: "Exit to Windows"@, enabled: true },
    ]
}

fn item(id: &str, label: &str, enabled: bool) -> (e: MenuEntry)
    ensures
        e@ == (MenuEntryView::Item { id: id@, label: label@, enabled }),
{
    MenuEntry::Item { id: owned(id), label: owned(label), enabled }
}

fn check(id: &str, label: &str, checked: bool) -> (e: MenuEntry)
    ensures
        e@ == (MenuEntryView::Check { id: id@, label: label@, enabled: true, checked }),
{
    MenuEntry::Check { id: owned(id), label: owned(label), enabled: true, checked }
}

/// The tray icon "wave-tray" with the tooltip "Wave OS" and its menu, the
/// item of the current shell mode checked.
pub fn create_tray(mode: ShellMode) -> (t: TrayLayout)
    ensures
        t.id@ == "wave-tray"@,
        t.tooltip@ == "Wave OS"@,
        t.entries@.map_values(|e: MenuEntry| e@) == tray_menu(mode),
{
    let mut entries: Vec<MenuEntry> = Vec::new();
    entries.push(item("open", "Open Wave OS", true));
    entries.push(item("windows", "Windows Mode", true));
    entries.push(MenuEntry::Separator);
    entries.push(item("settings", "Settings", true));
    entries.push(item("updates", "Check for Updates", true));
    entries.push(MenuEntry::Separator);
    entries.push(item("shell_mode", "Shell Mode", false));
    entries.push(check("shell_app", "App (default)", mode == ShellMode::App));
    entries.push(check("shell_replace", "Shell Replacement", mode == ShellMode::Shell));
    entries.push(check("shell_kiosk", "Kiosk Lockdown", mode == ShellMode::Kiosk));
    entries.push(MenuEntry::Separator);
    entries.push(item("exit", "Exit to Windows", true));
    assert(entries@.map_values(|e: MenuEntry| e@) =~= tray_menu(mode));
    TrayLayout { id: owned("wave-tray"), tooltip: owned("Wave OS"), entries }
}

/// The checked state of each shell-mode item: only the item of `mode` is
/// checked.
pub open spec fn mode_checks_view(mode: ShellMode) -> Seq<(Seq<char>, bool)> {
    seq![
        ("shell_app"@, mode == ShellMode::App),
        ("shell_replace"@, mode == ShellMode::Shell),
        ("shell_kiosk"@, mode == ShellMode::Kiosk),
    ]
}

/// The checked state of each shell-mode item for the current mode.
pub fn mode_checks(mode: ShellMode) -> (v: Vec<(String, bool)>)
    ensures
        v@.map_values(|p: (String, bool)| (p.0@, p.1)) == mode_checks_view(mode),
{
    let mut v: Vec<(String, bool)> = Vec::new();
    v.push((owned("shell_app"), mode == ShellMode::App));
    v.push((owned("shell_replace"), mode == ShellMode::Shell));
    v.push((owned("shell_kiosk"), mode == ShellMode::Kiosk));
    assert(v@.map_values(|p: (String, bool)| (p.0@, p.1)) =~= mode_checks_view(mode));
    v
}

/// The mode a shell-mode item selects.
pub open spec fn mode_of_item(id: Seq<char>) -> Option<ShellMode> {
    if id == "shell_app"@ {
        Some(ShellMode::App)
    } else if id == "shell_replace"@ {
        Some(ShellMode::Shell)
    } else if id == "shell_kiosk"@ {
        Some(ShellMode::Kiosk)
    } else {
        None
    }
}

/// What choosing a shell-mode item does: leaving kiosk mode needs the PIN,
/// so there nothing but the kiosk item switches; otherwise, on Windows, the
/// Winlogon value of the chosen mode is written. Either way the checks are
/// brought back in line with the registry.
pub open spec fn mode_switch_actions(
    target: ShellMode,
    current: ShellMode,
    exe: Seq<char>,
    platform: Platform,
) -> Seq<UiActionView> {
    if (current == ShellMode::Kiosk && target != ShellMode::Kiosk) || platform != Platform::Windows {
        seq![UiActionView::SyncModeChecks]
    } else {
        seq![
            UiActionView::WriteShell(
                RegistryWriteView { target: shell_registry_view(), data: mode_value(target, exe) },
            ),
            UiActionView::SyncModeChecks,
        ]
    }
}

fn switch_mode(target: ShellMode, current: ShellMode, exe_path: &String, platform: Platform) -> (acts:
    Vec<UiAction>)
    ensures
        actions_view(acts@) == mode_switch_actions(target, current, exe_path@, platform),
{
    let mut acts: Vec<UiAction> = Vec::new();
    if current == ShellMode::Kiosk && target != ShellMode::Kiosk {
        acts.push(UiAction::SyncModeChecks);
        assert(actions_view(acts@) =~= seq![UiActionView::SyncModeChecks]);
        return acts;
    }
    match shell_mode_write(target, exe_path, platform) {
        Ok(w) => {
            acts.push(UiAction::WriteShell(w));
            acts.push(UiAction::SyncModeChecks);
        },
        Err(_) => {
            acts.push(UiAction::SyncModeChecks);
        },
    }
    assert(actions_view(acts@) =~= mode_switch_actions(target, current, exe_path@, platform));
    acts
}

/// What choosing a tray menu entry does, in order; the failure of any step
/// is ignored. "open" brings the window forward, "windows" starts Explorer,
/// "settings" brings the window forward on the settings page, "updates"
/// looks for a newer release, the shell-mode items switch the mode (see
/// `mode_switch_actions`; `current` is the mode now in the registry and
/// `exe_path` this program), "exit" leaves for Windows; anything else does
/// nothing. Without a window, "open" and "settings" do nothing.
pub fn tray_menu_actions(
    id: &String,
    window_present: bool,
    current: ShellMode,
    exe_path: &String,
    platform: Platform,
) -> (acts: Vec<UiAction>)
    ensures
        id@ == "open"@ ==> actions_view(acts@) == if window_present {
            seq![UiActionView::Window(WindowOpView::Show), UiActionView::Window(WindowOpView::SetFocus)]
        } else {
            Seq::<UiActionView>::empty()
        },
        id@ == "windows"@ ==> actions_view(acts@) == seq![UiActionView::Run(explorer_launch_view())],
        id@ == "settings"@ ==> actions_view(acts@) == if window_present {
            open_settings_actions()
        } else {
            Seq::<UiActionView>::empty()
        },
        id@ == "updates"@ ==> actions_view(acts@) == seq![UiActionView::CheckForUpdates],
        mode_of_item(id@) matches Some(t) ==> actions_view(acts@) == mode_switch_actions(
            t,
            current,
            exe_path@,
            platform,
        ),
        id@ == "exit"@ ==> actions_view(acts@) == seq![UiActionView::ExitToWindows],
        (id@ != "open"@ && id@ != "windows"@ && id@ != "settings"@ && id@ != "updates"@ && id@
            != "exit"@ && mode_of_item(id@) is None) ==> acts@.len() == 0,
{
    proof {
        reveal_strlit("open");
        reveal_strlit("windows");
        reveal_strlit("settings");
        reveal_strlit("updates");
        reveal_strlit("exit");
        reveal_strlit("shell_app");
        reveal_strlit("shell_replace");
        reveal_strlit("shell_kiosk");
        assert("open"@.len() == 4 && "exit"@.len() == 4);
        assert("windows"@.len() == 7 && "settings"@.len() == 8 && "updates"@.len() == 7);
        assert("open"@[0] != "exit"@[0]);
        assert("windows"@[0] != "updates"@[0]);
        assert("shell_app"@.len() == 9 && "shell_replace"@.len() == 13 && "shell_kiosk"@.len() == 11);
    }
    let mut acts: Vec<UiAction> = Vec::new();
    if *id == owned("open") {
        if window_present {
            acts.push(UiAction::Window(WindowOp::Show));
            acts.push(UiAction::Window(WindowOp::SetFocus));
            assert(actions_view(acts@) =~= seq![
                UiActionView::Window(WindowOpView::Show),
                UiActionView::Window(WindowOpView::SetFocus),
            ]);
        } else {
            assert(actions_view(acts@) =~= Seq::<UiActionView>::empty());
        }
    } else if *id == owned("windows") {
        acts.push(UiAction::Run(launch_explorer()));
        assert(actions_view(acts@) =~= seq![UiActionView::Run(explorer_launch_view())]);
    } else if *id == owned("settings") {
        if window_present {
            acts.push(UiAction::Window(WindowOp::Show));
            acts.push(UiAction::Window(WindowOp::SetFocus));
            acts.push(UiAction::Window(WindowOp::Eval(settings_route_script())));
            assert(actions_view(acts@) =~= open_settings_actions());
        } else {
            assert(actions_view(acts@) =~= Seq::<UiActionView>::empty());
        }
    } else if *id == owned("updates") {
        acts.push(UiAction::CheckForUpdates);
        assert(actions_view(acts@) =~= seq![UiActionView::CheckForUpdates]);
    } else if *id == owned("shell_app") {
        acts = switch_mode(ShellMode::App, current, exe_path, platform);
    } else if *id == owned("shell_replace") {
        acts = switch_mode(ShellMode::Shell, current, exe_path, platform);
    } else if *id == owned("shell_kiosk") {
        acts = switch_mode(ShellMode::Kiosk, current, exe_path, platform);
    } else if *id == owned("exit") {
        acts.push(UiAction::ExitToWindows);
        assert(actions_view(acts@) =~= seq![UiActionView::ExitToWindows]);
    }
    acts
}

/// Leaving for Windows, given the Winlogon shell value read from the
/// registry: where Wave OS is the shell, Explorer is started first and the
/// application then exits with code 0; in app mode it just exits; in kiosk
/// mode nothing happens, since kiosk mode is left only with the PIN.
pub fn exit_to_windows(registry_shell: &Option<String>) -> (acts: Vec<UiAction>)
    ensures
        mode_of_shell_value(opt_text_view(*registry_shell)) == ShellMode::Shell ==> actions_view(
            acts@,
        ) == seq![UiActionView::Run(explorer_launch_view()), UiActionView::Exit(0)],
        mode_of_shell_value(opt_text_view(*registry_shell)) == ShellMode::App ==> actions_view(acts@)
            == seq![UiActionView::Exit(0)],
        mode_of_shell_value(opt_text_view(*registry_shell)) == ShellMode::Kiosk ==> acts@.len() == 0,
{
    let mut acts: Vec<UiAction> = Vec::new();
    match shell_mode_of(registry_shell) {
        ShellMode::App => {
            acts.push(UiAction::Exit(0));
            assert(actions_view(acts@) =~= seq![UiActionView::Exit(0)]);
        },
        ShellMode::Shell => {
            acts.push(UiAction::Run(launch_explorer()));
            acts.push(UiAction::Exit(0));
            assert(actions_view(acts@) =~= seq![
                UiActionView::Run(explorer_launch_view()),
                UiActionView::Exit(0),
            ]);
        },
        ShellMode::Kiosk => {},
    }
    acts
}

/// A mouse button on the tray icon.
#[derive(Clone, Copy, Debug, PartialEq, Eq, Structural)]
pub enum PointerButton {
    Left,
    Right,
    Middle,
}

/// Whether a click event is the button going down or coming up.
#[derive(Clone, Copy, Debug, PartialEq, Eq, Structural)]
pub enum ButtonState {
    Down,
    Up,
}

/// What a click on the tray icon does. A left click (acting once, as the
/// button comes up) in app mode shows and focuses a hidden window (a failed
/// query counts as hidden) and sends a visible one to the tray; in shell
/// and kiosk mode the window is always shown and nothing happens; other
/// buttons open the menu and do nothing here.
pub fn tray_icon_click(
    mode: ShellMode,
    button: PointerButton,
    state: ButtonState,
    window: &Option<WindowQuery>,
) -> (acts: Vec<UiAction>)
    ensures
        (button != PointerButton::Left || state != ButtonState::Up || mode != ShellMode::App
            || window is None) ==> acts@.len() == 0,
        (button == PointerButton::Left && state == ButtonState::Up && mode == ShellMode::App)
            ==> match *window {
            Some(q) => actions_view(acts@) == if or_false(q.visible) {
                seq![UiActionView::Window(WindowOpView::Hide)]
            } else {
                seq![
                    UiActionView::Window(WindowOpView::Show),
                    UiActionView::Window(WindowOpView::SetFocus),
                ]
            },
            None => acts@.len() == 0,
        },
{
    let mut acts: Vec<UiAction> = Vec::new();
    if button == PointerButton::Left && state == ButtonState::Up && mode == ShellMode::App {
        match window {
            Some(q) => {
                let visible = match q.visible {
                    Some(b) => b,
                    None => false,
                };
                if visible {
                    acts.push(UiAction::Window(WindowOp::Hide));
                    assert(actions_view(acts@) =~= seq![UiActionView::Window(WindowOpView::Hide)]);
                } else {
                    acts.push(UiAction::Window(WindowOp::Show));
                    acts.push(UiAction::Window(WindowOp::SetFocus));
                    assert(actions_view(acts@) =~= seq![
                        UiActionView::Window(WindowOpView::Show),
                        UiActionView::Window(WindowOpView::SetFocus),
                    ]);
                }
            },
            None => {},
        }
    }
    acts
}

/// A menu entry that shows a check mark.
pub open spec fn is_checked(e: MenuEntryView) -> bool {
    e matches MenuEntryView::Check { checked, .. } && checked
}

/// A shell-mode item of the menu that selects `m`.
pub open spec fn selects(e: MenuEntryView, m: ShellMode) -> bool {
    e matches MenuEntryView::Check { id, .. } && mode_of_item(id) == Some(m)
}

/// The menu has an item that selects `m`.
pub open spec fn has_item_for(menu: Seq<MenuEntryView>, m: ShellMode) -> bool {
    exists|i: int| 0 <= i < menu.len() && #[trigger] selects(menu[i], m)
}

/// The check states name an item that selects `m`.
pub open spec fn has_check_for(checks: Seq<(Seq<char>, bool)>, m: ShellMode) -> bool {
    exists|i: int| 0 <= i < checks.len() && mode_of_item((#[trigger] checks[i]).0) == Some(m)
}

proof fn lemma_item_ids()
    ensures
        mode_of_item("shell_app"@) == Some(ShellMode::App),
        mode_of_item("shell_replace"@) == Some(ShellMode::Shell),
        mode_of_item("shell_kiosk"@) == Some(ShellMode::Kiosk),
{
    reveal_strlit("shell_app");
    reveal_strlit("shell_replace");
    reveal_strlit("shell_kiosk");
    assert("shell_app"@.len() == 9 && "shell_replace"@.len() == 13 && "shell_kiosk"@.len() == 11);
}

/// Law: the tray menu checks the current mode and nothing else: a
/// shell-mode item is checked exactly when the mode it selects is the
/// current one, exactly one entry is checked, and every mode has its item.
pub proof fn law_tray_checks_current_mode(mode: ShellMode)
    ensures
        forall|i: int|
            0 <= i < tray_menu(mode).len() ==> match #[trigger] tray_menu(mode)[i] {
                MenuEntryView::Check { id, checked, .. } => checked == (mode_of_item(id) == Some(mode)),
                _ => true,
            },
        exists|i: int| 0 <= i < tray_menu(mode).len() && is_checked(#[trigger] tray_menu(mode)[i]),
        forall|i: int, j: int|
            0 <= i < tray_menu(mode).len() && 0 <= j < tray_menu(mode).len() && is_checked(
                #[trigger] tray_menu(mode)[i],
            ) && is_checked(#[trigger] tray_menu(mode)[j]) ==> i == j,
        forall|m: ShellMode| #[trigger] has_item_for(tray_menu(mode), m),
{
    lemma_item_ids();
    let t = tray_menu(mode);
    assert(t.len() == 12);
    assert forall|i: int| 0 <= i < t.len() && !(7 <= i <= 9) implies !is_checked(#[trigger] t[i]) by {}
    let k: int = match mode {
        ShellMode::App => 7,
        ShellMode::Shell => 8,
        ShellMode::Kiosk => 9,
    };
    assert(is_checked(t[k]));
    assert forall|m: ShellMode| #[trigger] has_item_for(t, m) by {
        let j: int = match m {
            ShellMode::App => 7,
            ShellMode::Shell => 8,
            ShellMode::Kiosk => 9,
        };
        assert(selects(t[j], m));
    }
}

/// Law: the checks sent back after a switch mark the item of the current
/// mode and no other one; the three items select the three modes.
pub proof fn law_synced_checks_mark_current_mode(mode: ShellMode)
    ensures
        mode_checks_view(mode).len() == 3,
        forall|i: int|
            0 <= i < 3 ==> (#[trigger] mode_checks_view(mode)[i]).1 == (mode_of_item(
                mode_checks_view(mode)[i].0,
            ) == Some(mode)),
        forall|m: ShellMode| #[trigger] has_check_for(mode_checks_view(mode), m),
{
    lemma_item_ids();
    let v = mode_checks_view(mode);
    assert forall|m: ShellMode| #[trigger] has_check_for(v, m) by {
        let j: int = match m {
            ShellMode::App => 0,
            ShellMode::Shell => 1,
            ShellMode::Kiosk => 2,
        };
        assert(mode_of_item(v[j].0) == Some(m));
    }
}

/// Law: outside kiosk mode on Windows, each shell-mode item of the tray
/// writes the Winlogon Shell value of the mode it selects (Explorer for
/// "App (default)", this program quoted with `--shell` or `--kiosk`
/// otherwise) and then brings the checks in line; for a path to this
/// program the written value reads back as the chosen mode, whatever the
/// registry held before.
pub proof fn law_tray_switch_writes_chosen_mode(
    target: ShellMode,
    current: ShellMode,
    exe: Seq<char>,
    reg: RegistryContents,
)
    requires
        current != ShellMode::Kiosk,
    ensures
        mode_switch_actions(target, current, exe, Platform::Windows) == seq![
            UiActionView::WriteShell(
                RegistryWriteView {
                    target: RegistryValueView {
                        hive: Hive::LocalMachine,
                        key: "SOFTWARE\\Microsoft\\Windows NT\\CurrentVersion\\Winlogon"@,
                        name: "Shell"@,
                    },
                    data: match target {
                        ShellMode::App => "explorer.exe"@,
                        ShellMode::Shell => "\""@ + exe + "\" --shell"@,
                        ShellMode::Kiosk => "\""@ + exe + "\" --kiosk"@,
                    },
                },
            ),
            UiActionView::SyncModeChecks,
        ],
        is_substring(own_marker(), exe) && !is_substring(kiosk_flag(), exe) ==> (mode_switch_actions(
            target,
            current,
            exe,
            Platform::Windows,
        )[0] matches UiActionView::WriteShell(w) && mode_of_shell_value(
            read_value(after_write(reg, w), shell_registry_view()),
        ) == target),
{
    if is_substring(own_marker(), exe) && !is_substring(kiosk_flag(), exe) {
        law_mode_switch_reads_back(reg, target, exe);
    }
}

/// Law: kiosk mode is not left from the tray: in kiosk mode, and off
/// Windows in any mode, a shell-mode item writes nothing and only brings
/// the checks in line with the registry.
pub proof fn law_tray_switch_never_leaves_kiosk(
    target: ShellMode,
    current: ShellMode,
    exe: Seq<char>,
    platform: Platform,
)
    requires
        (current == ShellMode::Kiosk && target != ShellMode::Kiosk) || platform != Platform::Windows,
    ensures
        mode_switch_actions(target, current, exe, platform) == seq![UiActionView::SyncModeChecks],
{
}

} // verus!
