use vstd::prelude::*;
use vstd::string::*;

use crate::command::{bare_command, opt_text_view, owned, push_arg, CommandSpec, Platform, RunMode};
use crate::registry::{
    after_write, read_value, registry_value, Hive, RegistryContents, RegistryValue,
    RegistryValueView, RegistryWrite, RegistryWriteView,
};
use crate::text::{contains, is_substring, occurs_at};

verus! {

/// How Wave OS runs: as an application beside Explorer, as the Windows
/// shell in place of Explorer, or as the shell locked down for kiosks.
#[derive(Clone, Copy, Debug, PartialEq, Eq, Structural)]
pub enum ShellMode {
    App,
    Shell,
    Kiosk,
}

impl ShellMode {
    /// The lower-case name of the mode, as the front end receives it.
    pub open spec fn label(self) -> Seq<char> {
        match self {
            ShellMode::App => "app"@,
            ShellMode::Shell => "shell"@,
            ShellMode::Kiosk => "kiosk"@,
        }
    }

    /// The lower-case name of the mode ("app", "shell" or "kiosk").
    pub fn name(&self) -> (s: String)
        ensures
            s@ == self.label(),
    {
        match self {
            ShellMode::App => owned("app"),
            ShellMode::Shell => owned("shell"),
            ShellMode::Kiosk => owned("kiosk"),
        }
    }
}

/// Law: distinct modes have distinct names, so the front end can tell them
/// apart by name.
pub proof fn law_mode_names_distinct(a: ShellMode, b: ShellMode)
    requires
        a != b,
    ensures
        a.label() != b.label(),
{
    reveal_strlit("app");
    reveal_strlit("shell");
    reveal_strlit("kiosk");
    assert("app"@.len() == 3 && "shell"@.len() == 5 && "kiosk"@.len() == 5);
    assert("shell"@[0] != "kiosk"@[0]);
}

/// The Winlogon value that names the program Windows starts as its shell.
pub open spec fn shell_registry_view() -> RegistryValueView {
    RegistryValueView {
        hive: Hive::LocalMachine,
        key: "SOFTWARE\\Microsoft\\Windows NT\\CurrentVersion\\Winlogon"@,
        name: "Shell"@,
    }
}

/// The marker that identifies this program in the Winlogon shell value.
pub open spec fn own_marker() -> Seq<char> {
    "wave-os-shell"@
}

/// The command-line flag that selects kiosk mode.
pub open spec fn kiosk_flag() -> Seq<char> {
    "--kiosk"@
}

/// The mode that a Winlogon shell value selects: this program's own command
/// line means shell mode, or kiosk mode where it carries the kiosk flag;
/// any other value, or none, means app mode.
pub open spec fn mode_of_shell_value(value: Option<Seq<char>>) -> ShellMode {
    match value {
        Some(v) => if is_substring(own_marker(), v) {
            if is_substring(kiosk_flag(), v) {
                ShellMode::Kiosk
            } else {
                ShellMode::Shell
            }
        } else {
            ShellMode::App
        },
        None => ShellMode::App,
    }
}

/// The Winlogon value that enabling shell mode stores: the quoted program
/// path followed by the shell flag.
pub open spec fn shell_launch_value(exe: Seq<char>) -> Seq<char> {
    "\""@ + exe + "\" --shell"@
}

/// The Winlogon value that disabling shell mode restores.
pub open spec fn explorer_shell_value() -> Seq<char> {
    "explorer.exe"@
}

/// The reply where shell mode is asked for off Windows.
pub open spec fn shell_unsupported_reply() -> Seq<char> {
    "Shell mode is only available on Windows"@
}

/// Where the Winlogon shell value lives.
pub fn shell_registry_value() -> (v: RegistryValue)
    ensures
        v@ == shell_registry_view(),
{
    registry_value(
        Hive::LocalMachine,
        "SOFTWARE\\Microsoft\\Windows NT\\CurrentVersion\\Winlogon",
        "Shell",
    )
}

/// The mode that the Winlogon shell value read from the registry selects
/// (`None` where it could not be read, or off Windows).
pub fn shell_mode_of(registry_shell: &Option<String>) -> (m: ShellMode)
    ensures
        m == mode_of_shell_value(opt_text_view(*registry_shell)),
{
    match registry_shell {
        Some(v) => {
            if contains(v.as_str(), "wave-os-shell") {
                if contains(v.as_str(), "--kiosk") {
                    ShellMode::Kiosk
                } else {
                    ShellMode::Shell
                }
            } else {
                ShellMode::App
            }
        },
        None => ShellMode::App,
    }
}

/// The current shell mode's name, from the Winlogon shell value read from
/// the registry (`None` where it could not be read, or off Windows).
pub fn get_shell_mode(registry_shell: &Option<String>) -> (s: String)
    ensures
        s@ == mode_of_shell_value(opt_text_view(*registry_shell)).label(),
{
    shell_mode_of(registry_shell).name()
}

/// Whether Wave OS is registered as the Windows shell: the mode's name is
/// anything but "app".
pub fn is_shell_mode(registry_shell: &Option<String>) -> (b: bool)
    ensures
        b == (mode_of_shell_value(opt_text_view(*registry_shell)).label() != "app"@),
        b == (mode_of_shell_value(opt_text_view(*registry_shell)) != ShellMode::App),
{
    proof {
        reveal_strlit("app");
        reveal_strlit("shell");
        reveal_strlit("kiosk");
    }
    let m = shell_mode_of(registry_shell);
    match m {
        ShellMode::App => false,
        _ => {
            assert(m.label().len() != 3 || m.label()[0] != 'a');
            true
        },
    }
}

/// The Winlogon value that selects kiosk mode: the quoted program path
/// followed by the kiosk flag.
pub open spec fn kiosk_launch_value(exe: Seq<char>) -> Seq<char> {
    "\""@ + exe + "\" --kiosk"@
}

/// The Winlogon value that selects `mode` for the program at `exe`.
pub open spec fn mode_value(mode: ShellMode, exe: Seq<char>) -> Seq<char> {
    match mode {
        ShellMode::App => explorer_shell_value(),
        ShellMode::Shell => shell_launch_value(exe),
        ShellMode::Kiosk => kiosk_launch_value(exe),
    }
}

/// Switching to a shell mode: on Windows, the write of the Winlogon value
/// that selects it (Explorer for app mode, this program with the shell or
/// kiosk flag otherwise); elsewhere the refusal.
pub fn shell_mode_write(mode: ShellMode, exe_path: &String, platform: Platform) -> (r: Result<
    RegistryWrite,
    String,
>)
    ensures
        platform == Platform::Windows ==> (r matches Ok(w) && w@ == (RegistryWriteView {
            target: shell_registry_view(),
            data: mode_value(mode, exe_path@),
        })),
        platform != Platform::Windows ==> (r matches Err(e) && e@ == shell_unsupported_reply()),
{
    match platform {
        Platform::Windows => {
            let data = match mode {
                ShellMode::App => owned("explorer.exe"),
                ShellMode::Shell => {
                    let mut d = owned("\"");
                    d.append(exe_path.as_str());
                    d.append("\" --shell");
                    d
                },
                ShellMode::Kiosk => {
                    let mut d = owned("\"");
                    d.append(exe_path.as_str());
                    d.append("\" --kiosk");
                    d
                },
            };
            Ok(RegistryWrite { target: shell_registry_value(), data })
        },
        _ => Err(owned("Shell mode is only available on Windows")),
    }
}

/// Enabling shell mode: on Windows, the write that makes the Winlogon shell
/// value start this program with the shell flag; elsewhere the refusal.
pub fn enable_shell_mode(exe_path: &String, platform: Platform) -> (r: Result<RegistryWrite, String>)
    ensures
        platform == Platform::Windows ==> (r matches Ok(w) && w@ == (RegistryWriteView {
            target: shell_registry_view(),
            data: shell_launch_value(exe_path@),
        })),
        platform != Platform::Windows ==> (r matches Err(e) && e@ == shell_unsupported_reply()),
{
    shell_mode_write(ShellMode::Shell, exe_path, platform)
}

/// Disabling shell mode: on Windows, the write that restores Explorer as the
/// Winlogon shell; elsewhere the refusal.
pub fn disable_shell_mode(platform: Platform) -> (r: Result<RegistryWrite, String>)
    ensures
        platform == Platform::Windows ==> (r matches Ok(w) && w@ == (RegistryWriteView {
            target: shell_registry_view(),
            data: explorer_shell_value(),
        })),
        platform != Platform::Windows ==> (r matches Err(e) && e@ == shell_unsupported_reply()),
{
    let none = String::new();
    shell_mode_write(ShellMode::App, &none, platform)
}

/// The rollback record of a change of the Winlogon shell value: the value
/// before it and the value written.
#[derive(Clone, Debug, PartialEq, Eq)]
pub struct ShellChange {
    pub previous: String,
    pub written: String,
}

/// The rollback record for a write, given the value read before it
/// (`None` where it could not be read, which counts as Explorer).
pub fn shell_change_record(previous: &Option<String>, write: &RegistryWrite) -> (c: ShellChange)
    ensures
        c.previous@ == match *previous {
            Some(p) => p@,
            None => explorer_shell_value(),
        },
        c.written@ == write.data@,
{
    let before = match previous {
        Some(p) => p.clone(),
        None => owned("explorer.exe"),
    };
    ShellChange { previous: before, written: write.data.clone() }
}

/// Starting Explorer beside Wave OS, without waiting for it.
pub fn launch_explorer() -> (c: CommandSpec)
    ensures
        c@.program == "explorer.exe"@,
        c@.args == Seq::<Seq<char>>::empty(),
        c@.working_dir is None,
        c@.mode == RunMode::Spawn,
{
    bare_command("explorer.exe", RunMode::Spawn)
}

/// Ending every Explorer process by force, without waiting for it.
pub fn kill_explorer() -> (c: CommandSpec)
    ensures
        c@.program == "taskkill"@,
        c@.args == seq!["/f"@, "/im"@, "explorer.exe"@],
        c@.working_dir is None,
        c@.mode == RunMode::Spawn,
{
    let mut c = bare_command("taskkill", RunMode::Spawn);
    push_arg(&mut c, owned("/f"));
    push_arg(&mut c, owned("/im"));
    push_arg(&mut c, owned("explorer.exe"));
    assert(c@.args =~= seq!["/f"@, "/im"@, "explorer.exe"@]);
    c
}

proof fn lemma_launch_value_keeps_marker(exe: Seq<char>)
    requires
        is_substring(own_marker(), exe),
    ensures
        is_substring(own_marker(), shell_launch_value(exe)),
{
    reveal_strlit("\"");
    let m = own_marker();
    let v = shell_launch_value(exe);
    let p = choose|p: int| occurs_at(m, exe, p);
    assert(v.subrange(p + 1, p + 1 + m.len()) =~= exe.subrange(p, p + m.len()));
    assert(occurs_at(m, v, p + 1));
}

proof fn lemma_launch_value_lacks_kiosk_flag(exe: Seq<char>)
    requires
        !is_substring(kiosk_flag(), exe),
    ensures
        !is_substring(kiosk_flag(), shell_launch_value(exe)),
{
    reveal_strlit("\"");
    reveal_strlit("\" --shell");
    reveal_strlit("--kiosk");
    let k = kiosk_flag();
    let v = shell_launch_value(exe);
    let l = exe.len() as int;
    assert(k.len() == 7);
    assert(v.len() == l + 10);
    assert forall|i: int| !occurs_at(k, v, i) by {
        if occurs_at(k, v, i) {
            let w = v.subrange(i, i + 7);
            assert(w == k);
            if i == 0 {
                assert(w[0] == v[0]);
                assert(v[0] == '"');
            } else if i + 7 <= l + 1 {
                assert forall|m: int| 0 <= m < 7 implies exe[i - 1 + m] == k[m] by {
                    assert(w[m] == v[i + m]);
                    assert(v[i + m] == exe[i + m - 1]);
                }
                assert(exe.subrange(i - 1, i - 1 + 7) =~= k);
                assert(occurs_at(k, exe, i - 1));
            } else if i <= l + 1 {
                let j = l + 1 - i;
                assert(w[j] == v[l + 1]);
                assert(v[l + 1] == '"');
            } else if i == l + 2 {
                assert(w[0] == v[l + 2]);
                assert(v[l + 2] == ' ');
            } else {
                assert(i == l + 3);
                assert(w[2] == v[l + 5]);
                assert(v[l + 5] == 's');
            }
        }
    }
}

/// Law: once shell mode has been enabled with a path to this program (one
/// that carries the program's marker and not the kiosk flag), reading the
/// Winlogon value back gives shell mode, whatever the registry held before.
pub proof fn law_enabled_shell_reads_back_as_shell(reg: RegistryContents, exe: Seq<char>)
    requires
        is_substring(own_marker(), exe),
        !is_substring(kiosk_flag(), exe),
    ensures
        mode_of_shell_value(
            read_value(
                after_write(
                    reg,
                    RegistryWriteView { target: shell_registry_view(), data: shell_launch_value(exe) },
                ),
                shell_registry_view(),
            ),
        ) == ShellMode::Shell,
{
    lemma_launch_value_keeps_marker(exe);
    lemma_launch_value_lacks_kiosk_flag(exe);
}

proof fn lemma_kiosk_value_selects_kiosk(exe: Seq<char>)
    requires
        is_substring(own_marker(), exe),
    ensures
        is_substring(own_marker(), kiosk_launch_value(exe)),
        is_substring(kiosk_flag(), kiosk_launch_value(exe)),
{
    reveal_strlit("\"");
    reveal_strlit("\" --kiosk");
    reveal_strlit("--kiosk");
    let m = own_marker();
    let v = kiosk_launch_value(exe);
    let p = choose|p: int| occurs_at(m, exe, p);
    assert(v.subrange(p + 1, p + 1 + m.len()) =~= exe.subrange(p, p + m.len()));
    assert(occurs_at(m, v, p + 1));
    let l = exe.len() as int;
    assert(v.subrange(l + 3, l + 10) =~= kiosk_flag());
    assert(occurs_at(kiosk_flag(), v, l + 3));
}

/// Law: switching to a mode and reading the Winlogon value back gives that
/// mode, whatever the registry held before, for a program path that carries
/// the program's marker and not the kiosk flag.
pub proof fn law_mode_switch_reads_back(reg: RegistryContents, mode: ShellMode, exe: Seq<char>)
    requires
        is_substring(own_marker(), exe),
        !is_substring(kiosk_flag(), exe),
    ensures
        mode_of_shell_value(
            read_value(
                after_write(
                    reg,
                    RegistryWriteView { target: shell_registry_view(), data: mode_value(mode, exe) },
                ),
                shell_registry_view(),
            ),
        ) == mode,
{
    match mode {
        ShellMode::App => law_disabled_shell_reads_back_as_app(reg),
        ShellMode::Shell => law_enabled_shell_reads_back_as_shell(reg, exe),
        ShellMode::Kiosk => lemma_kiosk_value_selects_kiosk(exe),
    }
}

/// Law: once shell mode has been disabled, reading the Winlogon value back
/// gives app mode, whatever the registry held before.
pub proof fn law_disabled_shell_reads_back_as_app(reg: RegistryContents)
    ensures
        mode_of_shell_value(
            read_value(
                after_write(
                    reg,
                    RegistryWriteView { target: shell_registry_view(), data: explorer_shell_value() },
                ),
                shell_registry_view(),
            ),
        ) == ShellMode::App,
{
    reveal_strlit("explorer.exe");
    reveal_strlit("wave-os-shell");
    assert forall|i: int| !occurs_at(own_marker(), explorer_shell_value(), i) by {}
}

} // verus!
