use vstd::prelude::*;

use crate::command::{bare_command, owned, push_text_arg, CommandSpec, CommandView, Platform, RunMode};
use crate::shell::ShellMode;
use crate::shell::{kill_explorer, launch_explorer};
use crate::window::{
    actions_view, or_false, settings_route_script, settings_script, UiAction, UiActionView,
    WindowOp, WindowOpView, WindowQuery,
};

verus! {

/// The global hotkeys of the shell.
#[derive(Clone, Copy, Debug, PartialEq, Eq, Structural)]
pub enum Hotkey {
    /// Ctrl+Alt+W: switch between Wave OS and Explorer.
    ToggleWave,
    /// Ctrl+Alt+S: open the Wave OS settings.
    OpenSettings,
    /// Ctrl+Alt+T: open a terminal.
    OpenTerminal,
    /// Win+Esc: leave for Windows (shell and kiosk mode).
    ExitToWindows,
    /// Ctrl+Alt+L: lock the kiosk (kiosk mode).
    LockKiosk,
}

/// Whether a hotkey event is the key going down or coming up.
#[derive(Clone, Copy, Debug, PartialEq, Eq, Structural)]
pub enum KeyState {
    Pressed,
    Released,
}

impl Hotkey {
    /// The key combination, as the shortcut plugin reads it.
    pub open spec fn keys(self) -> Seq<char> {
        match self {
            Hotkey::ToggleWave => "ctrl+alt+w"@,
            Hotkey::OpenSettings => "ctrl+alt+s"@,
            Hotkey::OpenTerminal => "ctrl+alt+t"@,
            Hotkey::ExitToWindows => "super+escape"@,
            Hotkey::LockKiosk => "ctrl+alt+l"@,
        }
    }

    /// The key combination, as the shortcut plugin reads it.
    pub fn accelerator(&self) -> (s: String)
        ensures
            s@ == self.keys(),
    {
        match self {
            Hotkey::ToggleWave => owned("ctrl+alt+w"),
            Hotkey::OpenSettings => owned("ctrl+alt+s"),
            Hotkey::OpenTerminal => owned("ctrl+alt+t"),
            Hotkey::ExitToWindows => owned("super+escape"),
            Hotkey::LockKiosk => owned("ctrl+alt+l"),
        }
    }
}

/// The hotkeys of a mode, in order: Ctrl+Alt+W and Ctrl+Alt+S always,
/// Ctrl+Alt+T where a terminal is available, Win+Esc in shell and kiosk
/// mode, Ctrl+Alt+L in kiosk mode.
pub open spec fn hotkeys_for(mode: ShellMode, terminal_available: bool) -> Seq<Hotkey> {
    seq![Hotkey::ToggleWave, Hotkey::OpenSettings] + (if terminal_available {
        seq![Hotkey::OpenTerminal]
    } else {
        Seq::<Hotkey>::empty()
    }) + (if mode != ShellMode::App {
        seq![Hotkey::ExitToWindows]
    } else {
        Seq::<Hotkey>::empty()
    }) + (if mode == ShellMode::Kiosk {
        seq![Hotkey::LockKiosk]
    } else {
        Seq::<Hotkey>::empty()
    })
}

/// The hotkeys registered at start-up in the given mode.
pub fn register_hotkeys(mode: ShellMode, terminal_available: bool) -> (keys: Vec<Hotkey>)
    ensures
        keys@ == hotkeys_for(mode, terminal_available),
{
    let mut keys: Vec<Hotkey> = Vec::new();
    keys.push(Hotkey::ToggleWave);
    keys.push(Hotkey::OpenSettings);
    if terminal_available {
        keys.push(Hotkey::OpenTerminal);
    }
    if mode != ShellMode::App {
        keys.push(Hotkey::ExitToWindows);
    }
    if mode == ShellMode::Kiosk {
        keys.push(Hotkey::LockKiosk);
    }
    assert(keys@ =~= hotkeys_for(mode, terminal_available));
    keys
}

/// The terminal that Ctrl+Alt+T opens: the command prompt on Windows, the
/// Terminal application on macOS, the default terminal emulator elsewhere.
pub open spec fn terminal_view(platform: Platform) -> CommandView {
    match platform {
        Platform::Windows => CommandView {
            program: "cmd.exe"@,
            args: Seq::<Seq<char>>::empty(),
            working_dir: None,
            mode: RunMode::Spawn,
        },
        Platform::MacOs => CommandView {
            program: "open"@,
            args: seq!["-a"@, "Terminal"@],
            working_dir: None,
            mode: RunMode::Spawn,
        },
        Platform::Other => CommandView {
            program: "x-terminal-emulator"@,
            args: Seq::<Seq<char>>::empty(),
            working_dir: None,
            mode: RunMode::Spawn,
        },
    }
}

/// The terminal that Ctrl+Alt+T opens on this platform.
pub fn terminal_command(platform: Platform) -> (c: CommandSpec)
    ensures
        c@ == terminal_view(platform),
{
    match platform {
        Platform::Windows => bare_command("cmd.exe", RunMode::Spawn),
        Platform::MacOs => {
            let mut c = bare_command("open", RunMode::Spawn);
            push_text_arg(&mut c, "-a");
            push_text_arg(&mut c, "Terminal");
            assert(c@.args =~= seq!["-a"@, "Terminal"@]);
            c
        },
        Platform::Other => bare_command("x-terminal-emulator", RunMode::Spawn),
    }
}

/// Locking the Windows session, as Ctrl+Alt+L does in kiosk mode.
pub open spec fn lock_view() -> CommandView {
    CommandView {
        program: "rundll32.exe"@,
        args: seq!["user32.dll,LockWorkStation"@],
        working_dir: None,
        mode: RunMode::Spawn,
    }
}

fn lock_command() -> (c: CommandSpec)
    ensures
        c@ == lock_view(),
{
    let mut c = bare_command("rundll32.exe", RunMode::Spawn);
    push_text_arg(&mut c, "user32.dll,LockWorkStation");
    assert(c@.args =~= seq!["user32.dll,LockWorkStation"@]);
    c
}

/// Starting Explorer, as a plain view.
pub open spec fn explorer_launch_view() -> CommandView {
    CommandView {
        program: "explorer.exe"@,
        args: Seq::<Seq<char>>::empty(),
        working_dir: None,
        mode: RunMode::Spawn,
    }
}

/// Ending Explorer, as a plain view.
pub open spec fn explorer_kill_view() -> CommandView {
    CommandView {
        program: "taskkill"@,
        args: seq!["/f"@, "/im"@, "explorer.exe"@],
        working_dir: None,
        mode: RunMode::Spawn,
    }
}

/// What Ctrl+Alt+W does to a window that is (or is not) visible.
pub open spec fn toggle_wave_actions(visible: bool) -> Seq<UiActionView> {
    if visible {
        seq![UiActionView::Window(WindowOpView::Hide), UiActionView::Run(explorer_launch_view())]
    } else {
        seq![
            UiActionView::Window(WindowOpView::Show),
            UiActionView::Window(WindowOpView::SetFocus),
            UiActionView::Run(explorer_kill_view()),
        ]
    }
}

/// Whether the window is visible after the actions, starting from `visible`.
pub open spec fn visible_after(acts: Seq<UiActionView>, visible: bool) -> bool
    decreases acts.len(),
{
    if acts.len() == 0 {
        visible
    } else {
        let before = visible_after(acts.drop_last(), visible);
        match acts.last() {
            UiActionView::Window(WindowOpView::Show) => true,
            UiActionView::Window(WindowOpView::Hide) => false,
            _ => before,
        }
    }
}

/// Whether Explorer is left running after the actions, starting from
/// `running`: starting it makes it run, ending it by force stops it.
pub open spec fn explorer_after(acts: Seq<UiActionView>, running: bool) -> bool
    decreases acts.len(),
{
    if acts.len() == 0 {
        running
    } else {
        let before = explorer_after(acts.drop_last(), running);
        if acts.last() == UiActionView::Run(explorer_launch_view()) {
            true
        } else if acts.last() == UiActionView::Run(explorer_kill_view()) {
            false
        } else {
            before
        }
    }
}

/// Law: Ctrl+Alt+W switches between Wave OS and Windows: the window's
/// visibility flips, Explorer runs exactly when the window is hidden, and
/// pressing it twice brings the window back to where it was.
pub proof fn law_toggle_switches_between_wave_and_windows(visible: bool, explorer: bool)
    ensures
        visible_after(toggle_wave_actions(visible), visible) == !visible,
        explorer_after(toggle_wave_actions(visible), explorer) == visible,
        visible_after(toggle_wave_actions(!visible), visible_after(toggle_wave_actions(visible), visible))
            == visible,
{
    reveal_with_fuel(visible_after, 4);
    reveal_with_fuel(explorer_after, 4);
    reveal_strlit("explorer.exe");
    reveal_strlit("taskkill");
    assert(explorer_launch_view() != explorer_kill_view()) by {
        assert(explorer_launch_view().program.len() != explorer_kill_view().program.len());
    }
    let t = toggle_wave_actions(true);
    let f = toggle_wave_actions(false);
    assert(t.drop_last() =~= seq![UiActionView::Window(WindowOpView::Hide)]);
    assert(t.drop_last().drop_last() =~= Seq::<UiActionView>::empty());
    assert(f.drop_last() =~= seq![
        UiActionView::Window(WindowOpView::Show),
        UiActionView::Window(WindowOpView::SetFocus),
    ]);
    assert(f.drop_last().drop_last() =~= seq![UiActionView::Window(WindowOpView::Show)]);
    assert(f.drop_last().drop_last().drop_last() =~= Seq::<UiActionView>::empty());
}

/// Bringing the window forward on the settings page.
pub open spec fn open_settings_actions() -> Seq<UiActionView> {
    seq![
        UiActionView::Window(WindowOpView::Show),
        UiActionView::Window(WindowOpView::SetFocus),
        UiActionView::Window(WindowOpView::Eval(settings_script())),
    ]
}

/// What a hotkey does, in order; the failure of any step is ignored. Only
/// the key going down acts, so one keystroke acts once. Ctrl+Alt+W on a
/// visible window hides it and starts Explorer; on a hidden one (a failed
/// query counts as hidden) it shows and focuses the window and ends
/// Explorer. Ctrl+Alt+S shows and focuses the window on the settings page.
/// Both need the window. Ctrl+Alt+T opens a terminal, Win+Esc leaves for
/// Windows, Ctrl+Alt+L locks the session.
pub fn hotkey_actions(
    key: Hotkey,
    state: KeyState,
    window: &Option<WindowQuery>,
    platform: Platform,
) -> (acts: Vec<UiAction>)
    ensures
        state == KeyState::Released ==> acts@.len() == 0,
        state == KeyState::Pressed && key == Hotkey::ToggleWave ==> match *window {
            Some(q) => actions_view(acts@) == toggle_wave_actions(or_false(q.visible)),
            None => acts@.len() == 0,
        },
        state == KeyState::Pressed && key == Hotkey::OpenSettings ==> match *window {
            Some(q) => actions_view(acts@) == open_settings_actions(),
            None => acts@.len() == 0,
        },
        state == KeyState::Pressed && key == Hotkey::OpenTerminal ==> actions_view(acts@) == seq![
            UiActionView::Run(terminal_view(platform)),
        ],
        state == KeyState::Pressed && key == Hotkey::ExitToWindows ==> actions_view(acts@) == seq![
            UiActionView::ExitToWindows,
        ],
        state == KeyState::Pressed && key == Hotkey::LockKiosk ==> actions_view(acts@) == seq![
            UiActionView::Run(lock_view()),
        ],
{
    let mut acts: Vec<UiAction> = Vec::new();
    if state == KeyState::Released {
        return acts;
    }
    match key {
        Hotkey::ToggleWave => {
            match window {
                None => {},
                Some(q) => {
                    let visible = match q.visible {
                        Some(b) => b,
                        None => false,
                    };
                    if visible {
                        acts.push(UiAction::Window(WindowOp::Hide));
                        acts.push(UiAction::Run(launch_explorer()));
                    } else {
                        acts.push(UiAction::Window(WindowOp::Show));
                        acts.push(UiAction::Window(WindowOp::SetFocus));
                        acts.push(UiAction::Run(kill_explorer()));
                    }
                    assert(actions_view(acts@) =~= toggle_wave_actions(visible));
                },
            }
        },
        Hotkey::OpenSettings => {
            match window {
                None => {},
                Some(_) => {
                    acts.push(UiAction::Window(WindowOp::Show));
                    acts.push(UiAction::Window(WindowOp::SetFocus));
                    acts.push(UiAction::Window(WindowOp::Eval(settings_route_script())));
                    assert(actions_view(acts@) =~= open_settings_actions());
                },
            }
        },
        Hotkey::OpenTerminal => {
            acts.push(UiAction::Run(terminal_command(platform)));
            assert(actions_view(acts@) =~= seq![UiActionView::Run(terminal_view(platform))]);
        },
        Hotkey::ExitToWindows => {
            acts.push(UiAction::ExitToWindows);
            assert(actions_view(acts@) =~= seq![UiActionView::ExitToWindows]);
        },
        Hotkey::LockKiosk => {
            acts.push(UiAction::Run(lock_command()));
            assert(actions_view(acts@) =~= seq![UiActionView::Run(lock_view())]);
        },
    }
    acts
}

/// Law: which hotkeys a mode registers. Ctrl+Alt+W and Ctrl+Alt+S always,
/// Ctrl+Alt+T exactly when a terminal is available, Win+Esc exactly outside
/// app mode, Ctrl+Alt+L exactly in kiosk mode, each of them independently
/// of the others, and no hotkey twice.
pub proof fn law_registered_hotkeys(mode: ShellMode, terminal_available: bool)
    ensures
        hotkeys_for(mode, terminal_available).contains(Hotkey::ToggleWave),
        hotkeys_for(mode, terminal_available).contains(Hotkey::OpenSettings),
        hotkeys_for(mode, terminal_available).contains(Hotkey::OpenTerminal) == terminal_available,
        hotkeys_for(mode, terminal_available).contains(Hotkey::ExitToWindows) == (mode
            != ShellMode::App),
        hotkeys_for(mode, terminal_available).contains(Hotkey::LockKiosk) == (mode == ShellMode::Kiosk),
        hotkeys_for(mode, terminal_available).no_duplicates(),
{
    let h = hotkeys_for(mode, terminal_available);
    assert(h[0] == Hotkey::ToggleWave);
    assert(h[1] == Hotkey::OpenSettings);
    let t: int = if terminal_available { 1 } else { 0 };
    let e: int = if mode != ShellMode::App { 1 } else { 0 };
    let l: int = if mode == ShellMode::Kiosk { 1 } else { 0 };
    assert(h.len() == 2 + t + e + l);
    if terminal_available {
        assert(h[2] == Hotkey::OpenTerminal);
    }
    if mode != ShellMode::App {
        assert(h[2 + t] == Hotkey::ExitToWindows);
    }
    if mode == ShellMode::Kiosk {
        assert(h[2 + t + e] == Hotkey::LockKiosk);
    }
    assert forall|i: int| 0 <= i < h.len() implies (#[trigger] h[i] == Hotkey::OpenTerminal ==> i == 2
        && terminal_available) && (h[i] == Hotkey::ExitToWindows ==> i == 2 + t && mode
        != ShellMode::App) && (h[i] == Hotkey::LockKiosk ==> i == 2 + t + e && mode == ShellMode::Kiosk)
        && (h[i] == Hotkey::ToggleWave ==> i == 0) && (h[i] == Hotkey::OpenSettings ==> i == 1) by {}
}

} // verus!
