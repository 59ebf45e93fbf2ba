use vstd::prelude::*;
use vstd::string::*;

use crate::command::{owned, CommandSpec, CommandView, Platform};
use crate::kiosk::{enable_kiosk, sets_kiosk_policies};
use crate::registry::{DwordWrite, RegistryWrite, RegistryWriteView};
use crate::shell::ShellMode;

verus! {

/// One change to the Wave OS window.
#[derive(Clone, Debug, PartialEq, Eq)]
pub enum WindowOp {
    Show,
    Hide,
    SetFocus,
    Maximize,
    SetFullscreen(bool),
    SetDecorations(bool),
    SetAlwaysOnTop(bool),
    SetSkipTaskbar(bool),
    /// Run this script in the page.
    Eval(String),
}

/// The plain content of a [`WindowOp`].
pub enum WindowOpView {
    Show,
    Hide,
    SetFocus,
    Maximize,
    SetFullscreen(bool),
    SetDecorations(bool),
    SetAlwaysOnTop(bool),
    SetSkipTaskbar(bool),
    Eval(Seq<char>),
}

impl View for WindowOp {
    type V = WindowOpView;

    open spec fn view(&self) -> WindowOpView {
        match self {
            WindowOp::Show => WindowOpView::Show,
            WindowOp::Hide => WindowOpView::Hide,
            WindowOp::SetFocus => WindowOpView::SetFocus,
            WindowOp::Maximize => WindowOpView::Maximize,
            WindowOp::SetFullscreen(b) => WindowOpView::SetFullscreen(*b),
            WindowOp::SetDecorations(b) => WindowOpView::SetDecorations(*b),
            WindowOp::SetAlwaysOnTop(b) => WindowOpView::SetAlwaysOnTop(*b),
            WindowOp::SetSkipTaskbar(b) => WindowOpView::SetSkipTaskbar(*b),
            WindowOp::Eval(s) => WindowOpView::Eval(s@),
        }
    }
}

/// The plain content of a list of window changes.
pub open spec fn ops_view(v: Seq<WindowOp>) -> Seq<WindowOpView> {
    v.map_values(|o: WindowOp| o@)
}

/// Something the tray menu or a hotkey asks for.
#[derive(Clone, Debug, PartialEq, Eq)]
pub enum UiAction {
    Window(WindowOp),
    /// Start this process; its failure is ignored.
    Run(CommandSpec),
    /// Leave for Windows: what that takes depends on the shell mode (see
    /// `tray::exit_to_windows`).
    ExitToWindows,
    /// Store this Winlogon shell value (see `shell::shell_mode_write`).
    WriteShell(RegistryWrite),
    /// Check the tray's shell-mode item of the mode now in the registry and
    /// uncheck the others (see `tray::mode_checks`).
    SyncModeChecks,
    /// Look for a newer release (see `update::update_available`).
    CheckForUpdates,
    /// End the application with this exit code.
    Exit(i32),
}

/// The plain content of a [`UiAction`].
pub enum UiActionView {
    Window(WindowOpView),
    Run(CommandView),
    ExitToWindows,
    WriteShell(RegistryWriteView),
    SyncModeChecks,
    CheckForUpdates,
    Exit(i32),
}

impl View for UiAction {
    type V = UiActionView;

    open spec fn view(&self) -> UiActionView {
        match self {
            UiAction::Window(o) => UiActionView::Window(o@),
            UiAction::Run(c) => UiActionView::Run(c@),
            UiAction::ExitToWindows => UiActionView::ExitToWindows,
            UiAction::WriteShell(w) => UiActionView::WriteShell(w@),
            UiAction::SyncModeChecks => UiActionView::SyncModeChecks,
            UiAction::CheckForUpdates => UiActionView::CheckForUpdates,
            UiAction::Exit(code) => UiActionView::Exit(*code),
        }
    }
}

/// The plain content of a list of actions.
pub open spec fn actions_view(v: Seq<UiAction>) -> Seq<UiActionView> {
    v.map_values(|a: UiAction| a@)
}

/// What the window reports of itself; `None` where a query failed.
#[derive(Clone, Copy, Debug, PartialEq, Eq, Structural)]
pub struct WindowQuery {
    pub fullscreen: Option<bool>,
    pub maximized: Option<bool>,
    pub visible: Option<bool>,
}

/// A queried flag, counting a failed query as `false`.
pub open spec fn or_false(o: Option<bool>) -> bool {
    match o {
        Some(b) => b,
        None => false,
    }
}

/// The script that opens the settings page of Wave OS.
pub open spec fn settings_script() -> Seq<char> {
    "window.location.hash = '#/settings';"@
}

/// The label of the Wave OS window.
pub fn main_window_label() -> (s: String)
    ensures
        s@ == "wave-os"@,
{
    owned("wave-os")
}

/// The script that opens the settings page of Wave OS.
pub fn settings_route_script() -> (s: String)
    ensures
        s@ == settings_script(),
{
    owned("window.location.hash = '#/settings';")
}

/// Hiding the window to the tray, in app mode only: in shell and kiosk mode
/// the window is the desktop and cannot be minimized. Nothing where there is
/// no window.
pub fn minimize_to_tray(mode: ShellMode, window_present: bool) -> (op: Option<WindowOp>)
    ensures
        window_present && mode == ShellMode::App ==> (op matches Some(o) && o@ == WindowOpView::Hide),
        !window_present || mode != ShellMode::App ==> op is None,
{
    if window_present && mode == ShellMode::App {
        Some(WindowOp::Hide)
    } else {
        None
    }
}

/// What closing the window does; the window itself is never closed. In app
/// mode it goes to the tray; in shell and kiosk mode it stays, being the
/// desktop.
pub fn close_requested(mode: ShellMode) -> (ops: Vec<WindowOp>)
    ensures
        mode == ShellMode::App ==> ops_view(ops@) == seq![WindowOpView::Hide],
        mode != ShellMode::App ==> ops@.len() == 0,
{
    let mut ops: Vec<WindowOp> = Vec::new();
    if mode == ShellMode::App {
        ops.push(WindowOp::Hide);
        assert(ops_view(ops@) =~= seq![WindowOpView::Hide]);
    }
    ops
}

/// Switching fullscreen: the opposite of what the window reports (a failed
/// query counts as not fullscreen); nothing where there is no window.
pub fn toggle_fullscreen(window: &Option<WindowQuery>) -> (op: Option<WindowOp>)
    ensures
        match *window {
            Some(q) => op matches Some(o) && o@ == WindowOpView::SetFullscreen(!or_false(q.fullscreen)),
            None => op is None,
        },
{
    match window {
        Some(q) => {
            let now = match q.fullscreen {
                Some(b) => b,
                None => false,
            };
            Some(WindowOp::SetFullscreen(!now))
        },
        None => None,
    }
}

/// `true` or `false` as JSON writes it.
pub open spec fn bool_json(b: bool) -> Seq<char> {
    if b {
        "true"@
    } else {
        "false"@
    }
}

/// The window state as a compact JSON object with members in this order.
pub open spec fn window_state_json(fullscreen: bool, maximized: bool, visible: bool) -> Seq<char> {
    "{\"fullscreen\":"@ + bool_json(fullscreen) + ",\"maximized\":"@ + bool_json(maximized)
        + ",\"visible\":"@ + bool_json(visible) + "}"@
}

fn bool_text(b: bool) -> (s: &'static str)
    ensures
        s@ == bool_json(b),
{
    if b {
        "true"
    } else {
        "false"
    }
}

/// The window state for the front end: a JSON object with the fullscreen,
/// maximized and visible flags (a failed query counts as `false`), or `{}`
/// where there is no window.
pub fn get_window_state(window: &Option<WindowQuery>) -> (s: String)
    ensures
        match *window {
            Some(q) => s@ == window_state_json(
                or_false(q.fullscreen),
                or_false(q.maximized),
                or_false(q.visible),
            ),
            None => s@ == "{}"@,
        },
{
    match window {
        Some(q) => {
            let fullscreen = match q.fullscreen {
                Some(b) => b,
                None => false,
            };
            let maximized = match q.maximized {
                Some(b) => b,
                None => false,
            };
            let visible = match q.visible {
                Some(b) => b,
                None => false,
            };
            let mut s = owned("{\"fullscreen\":");
            s.append(bool_text(fullscreen));
            s.append(",\"maximized\":");
            s.append(bool_text(maximized));
            s.append(",\"visible\":");
            s.append(bool_text(visible));
            s.append("}");
            s
        },
        None => owned("{}"),
    }
}

/// The borderless, always-on-top, fullscreen window that shell and kiosk
/// mode use, in the order the changes are made.
pub open spec fn lockdown_ops() -> Seq<WindowOpView> {
    seq![
        WindowOpView::SetFullscreen(true),
        WindowOpView::Maximize,
        WindowOpView::SetDecorations(false),
        WindowOpView::SetAlwaysOnTop(true),
        WindowOpView::SetSkipTaskbar(true),
    ]
}

fn lockdown() -> (ops: Vec<WindowOp>)
    ensures
        ops_view(ops@) == lockdown_ops(),
{
    let mut ops: Vec<WindowOp> = Vec::new();
    ops.push(WindowOp::SetFullscreen(true));
    ops.push(WindowOp::Maximize);
    ops.push(WindowOp::SetDecorations(false));
    ops.push(WindowOp::SetAlwaysOnTop(true));
    ops.push(WindowOp::SetSkipTaskbar(true));
    assert(ops_view(ops@) =~= lockdown_ops());
    ops
}

/// The window changes for shell mode, made in order until one fails.
pub fn set_shell_mode() -> (ops: Vec<WindowOp>)
    ensures
        ops_view(ops@) == lockdown_ops(),
{
    lockdown()
}

/// Changes that lock the desktop down: window changes, and policy values
/// to write (those that take away Task Manager, the registry editor and the
/// command prompt in kiosk mode).
#[derive(Clone, Debug, PartialEq, Eq)]
pub struct Lockdown {
    pub window: Vec<WindowOp>,
    pub policies: Vec<DwordWrite>,
}

/// Full kiosk lockdown: the window changes of shell mode, made in order
/// until one fails, and on Windows the kiosk policy values set to 1
/// (elsewhere no policy is written).
pub fn set_kiosk_mode(platform: Platform) -> (k: Lockdown)
    ensures
        ops_view(k.window@) == lockdown_ops(),
        platform == Platform::Windows ==> sets_kiosk_policies(k.policies@),
        platform != Platform::Windows ==> k.policies@.len() == 0,
{
    let policies = match enable_kiosk(platform) {
        Ok(ws) => ws,
        Err(_) => Vec::new(),
    };
    Lockdown { window: lockdown(), policies }
}

/// The mode the command line asks for: `--shell` anywhere selects shell
/// mode, otherwise `--kiosk` anywhere selects kiosk mode, otherwise app
/// mode.
pub open spec fn mode_of_args(args: Seq<String>) -> ShellMode {
    if exists|i: int| 0 <= i < args.len() && #[trigger] args[i]@ == "--shell"@ {
        ShellMode::Shell
    } else if exists|i: int| 0 <= i < args.len() && #[trigger] args[i]@ == "--kiosk"@ {
        ShellMode::Kiosk
    } else {
        ShellMode::App
    }
}

fn has_arg(args: &Vec<String>, flag: &str) -> (b: bool)
    ensures
        b == exists|i: int| 0 <= i < args@.len() && #[trigger] args@[i]@ == flag@,
{
    let f = owned(flag);
    let n = args.len();
    let mut i: usize = 0;
    while i < n
        invariant
            n == args@.len(),
            i <= n,
            f@ == flag@,
            forall|k: int| 0 <= k < i ==> args@[k]@ != flag@,
        decreases n - i,
    {
        if args[i] == f {
            return true;
        }
        i = i + 1;
    }
    false
}

/// The mode the program starts in, from its command-line arguments.
pub fn startup_mode(args: &Vec<String>) -> (m: ShellMode)
    ensures
        m == mode_of_args(args@),
{
    if has_arg(args, "--shell") {
        ShellMode::Shell
    } else if has_arg(args, "--kiosk") {
        ShellMode::Kiosk
    } else {
        ShellMode::App
    }
}

/// The changes made at start-up: in shell mode the window lockdown, in
/// kiosk mode the full kiosk lockdown, in app mode nothing.
pub fn startup_changes(mode: ShellMode, platform: Platform) -> (k: Lockdown)
    ensures
        mode == ShellMode::App ==> k.window@.len() == 0 && k.policies@.len() == 0,
        mode == ShellMode::Shell ==> ops_view(k.window@) == lockdown_ops() && k.policies@.len()
            == 0,
        mode == ShellMode::Kiosk ==> ops_view(k.window@) == lockdown_ops() && (platform
            == Platform::Windows ==> sets_kiosk_policies(k.policies@)) && (platform
            != Platform::Windows ==> k.policies@.len() == 0),
{
    match mode {
        ShellMode::Shell => Lockdown { window: set_shell_mode(), policies: Vec::new() },
        ShellMode::Kiosk => set_kiosk_mode(platform),
        ShellMode::App => Lockdown { window: Vec::new(), policies: Vec::new() },
    }
}

} // verus!
