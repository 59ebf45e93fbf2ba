use vstd::prelude::*;

use crate::command::{
    bare_command, opt_text_view, owned, push_arg, push_text_arg, CommandSpec, CommandView, Platform,
    RunMode,
};
use crate::registry::{
    after_delete, after_write, read_value, registry_value, Hive, RegistryContents, RegistryValue,
    RegistryValueView, RegistryWrite, RegistryWriteView,
};
use crate::shell::{explorer_shell_value, shell_registry_value, shell_registry_view};
use crate::text::{decode_utf8_lossy, utf8_lossy};

verus! {

/// The per-user Run value that starts Wave OS at login.
pub open spec fn run_value_view() -> RegistryValueView {
    RegistryValueView {
        hive: Hive::CurrentUser,
        key: "SOFTWARE\\Microsoft\\Windows\\CurrentVersion\\Run"@,
        name: "WaveOS"@,
    }
}

/// The scheduled task that starts Wave OS at logon with the highest rights.
pub open spec fn create_task_view(exe: Seq<char>) -> CommandView {
    CommandView {
        program: "schtasks"@,
        args: seq![
            "/create"@,
            "/tn"@,
            "WaveOS"@,
            "/tr"@,
            exe,
            "/sc"@,
            "onlogon"@,
            "/rl"@,
            "highest"@,
            "/f"@,
        ],
        working_dir: None,
        mode: RunMode::Output,
    }
}

/// Removing that scheduled task.
pub open spec fn delete_task_view() -> CommandView {
    CommandView {
        program: "schtasks"@,
        args: seq!["/delete"@, "/tn"@, "WaveOS"@, "/f"@],
        working_dir: None,
        mode: RunMode::Output,
    }
}

/// The reply where a tier other than 1 or 2 is asked for.
pub open spec fn invalid_tier_reply() -> Seq<char> {
    "Invalid tier. Use 1 (user) or 2 (system)"@
}

/// The reply where auto-start is asked for off Windows.
pub open spec fn autostart_unsupported_reply() -> Seq<char> {
    "Auto-start is only available on Windows"@
}

/// Whether auto-start counts as enabled: on Windows, the Run value holds a
/// string or the scheduled task is registered.
pub open spec fn autostart_enabled(
    platform: Platform,
    run_value: Option<Seq<char>>,
    task_registered: bool,
) -> bool {
    platform == Platform::Windows && (run_value is Some || task_registered)
}

/// Asking whether the scheduled task is registered; it is where the query
/// succeeds.
pub open spec fn query_task_view() -> CommandView {
    CommandView {
        program: "schtasks"@,
        args: seq!["/query"@, "/tn"@, "WaveOS"@],
        working_dir: None,
        mode: RunMode::Output,
    }
}

/// What enabling auto-start does: store the program in the Run value (tier
/// 1), or create the scheduled task and wait for it (tier 2).
#[derive(Clone, Debug, PartialEq, Eq)]
pub enum AutostartPlan {
    SetRunValue(RegistryWrite),
    CreateTask(CommandSpec),
}

/// One step of disabling auto-start.
#[derive(Clone, Debug, PartialEq, Eq)]
pub enum CleanupStep {
    /// Delete this value; a value that is already absent counts as done.
    DeleteValue(RegistryValue),
    /// Run this command and wait for it; only a failure to run it counts.
    Run(CommandSpec),
    /// Store this value.
    Write(RegistryWrite),
}

/// How a step of disabling auto-start went.
#[derive(Clone, Debug, PartialEq, Eq)]
pub enum StepOutcome {
    Done,
    /// There was nothing to remove.
    Missing,
    /// The step failed with this reply.
    Failed(String),
}

/// What to do next while disabling auto-start.
#[derive(Debug, PartialEq, Eq)]
pub enum CleanupNext {
    Do(CleanupStep),
    Finished(Result<(), String>),
}

/// Where the Run value lives.
pub fn autostart_run_value() -> (v: RegistryValue)
    ensures
        v@ == run_value_view(),
{
    registry_value(Hive::CurrentUser, "SOFTWARE\\Microsoft\\Windows\\CurrentVersion\\Run", "WaveOS")
}

fn create_task(exe_path: &String) -> (c: CommandSpec)
    ensures
        c@ == create_task_view(exe_path@),
{
    let mut c = bare_command("schtasks", RunMode::Output);
    push_text_arg(&mut c, "/create");
    push_text_arg(&mut c, "/tn");
    push_text_arg(&mut c, "WaveOS");
    push_text_arg(&mut c, "/tr");
    push_arg(&mut c, exe_path.clone());
    push_text_arg(&mut c, "/sc");
    push_text_arg(&mut c, "onlogon");
    push_text_arg(&mut c, "/rl");
    push_text_arg(&mut c, "highest");
    push_text_arg(&mut c, "/f");
    assert(c@.args =~= create_task_view(exe_path@).args);
    c
}

/// Enabling auto-start at the given tier: 1 stores the program path in the
/// per-user Run value, 2 creates a scheduled task; both only on Windows. Any
/// other tier is refused on every platform.
pub fn enable_autostart(exe_path: &String, tier: u32, platform: Platform) -> (r: Result<
    AutostartPlan,
    String,
>)
    ensures
        tier == 1 && platform == Platform::Windows ==> (r matches Ok(AutostartPlan::SetRunValue(w))
            && w@ == (RegistryWriteView { target: run_value_view(), data: exe_path@ })),
        tier == 2 && platform == Platform::Windows ==> (r matches Ok(AutostartPlan::CreateTask(c))
            && c@ == create_task_view(exe_path@)),
        (tier == 1 || tier == 2) && platform != Platform::Windows ==> (r matches Err(e) && e@
            == autostart_unsupported_reply()),
        tier != 1 && tier != 2 ==> (r matches Err(e) && e@ == invalid_tier_reply()),
{
    if tier == 1 || tier == 2 {
        match platform {
            Platform::Windows => {
                if tier == 1 {
                    Ok(
                        AutostartPlan::SetRunValue(
                            RegistryWrite { target: autostart_run_value(), data: exe_path.clone() },
                        ),
                    )
                } else {
                    Ok(AutostartPlan::CreateTask(create_task(exe_path)))
                }
            },
            _ => Err(owned("Auto-start is only available on Windows")),
        }
    } else {
        Err(owned("Invalid tier. Use 1 (user) or 2 (system)"))
    }
}

/// The reply once the scheduled task command has finished: success, or its
/// error output.
pub fn scheduled_task_outcome(succeeded: bool, stderr: &Vec<u8>) -> (r: Result<(), String>)
    ensures
        succeeded ==> r is Ok,
        !succeeded ==> (r matches Err(e) && e@ == "schtasks failed: "@ + utf8_lossy(stderr@)),
{
    if succeeded {
        Ok(())
    } else {
        let mut e = owned("schtasks failed: ");
        let detail = decode_utf8_lossy(stderr.as_slice());
        e.append(detail.as_str());
        Err(e)
    }
}

/// The first failure among the outcomes, if any.
pub open spec fn first_failure(outcomes: Seq<StepOutcome>) -> Option<Seq<char>>
    decreases outcomes.len(),
{
    if outcomes.len() == 0 {
        None
    } else {
        match outcomes[0] {
            StepOutcome::Failed(m) => Some(m@),
            _ => first_failure(outcomes.drop_first()),
        }
    }
}

/// How many steps disabling auto-start takes: three on Windows (the Run
/// value, the scheduled task, and Explorer back as the Winlogon shell),
/// none elsewhere.
pub open spec fn cleanup_len(platform: Platform) -> nat {
    if platform == Platform::Windows {
        3
    } else {
        0
    }
}

/// Whether `step` is the step at `index` of disabling auto-start.
pub open spec fn is_cleanup_step(step: CleanupStep, index: int) -> bool {
    if index == 0 {
        step matches CleanupStep::DeleteValue(v) && v@ == run_value_view()
    } else if index == 1 {
        step matches CleanupStep::Run(c) && c@ == delete_task_view()
    } else {
        step matches CleanupStep::Write(w) && w@ == (RegistryWriteView {
            target: shell_registry_view(),
            data: explorer_shell_value(),
        })
    }
}

fn first_failed(outcomes: &Vec<StepOutcome>) -> (r: Option<String>)
    ensures
        match r {
            Some(m) => first_failure(outcomes@) == Some(m@),
            None => first_failure(outcomes@) is None,
        },
{
    let n = outcomes.len();
    let mut i: usize = 0;
    assert(outcomes@.subrange(0, n as int) =~= outcomes@);
    while i < n
        invariant
            n == outcomes@.len(),
            i <= n,
            first_failure(outcomes@) == first_failure(outcomes@.subrange(i as int, n as int)),
        decreases n - i,
    {
        let ghost rest = outcomes@.subrange(i as int, n as int);
        assert(rest.drop_first() =~= outcomes@.subrange(i + 1, n as int));
        assert(rest[0] == outcomes@[i as int]);
        match &outcomes[i] {
            StepOutcome::Failed(m) => {
                return Some(m.clone());
            },
            _ => {},
        }
        i = i + 1;
    }
    assert(outcomes@.subrange(n as int, n as int).len() == 0);
    None
}

/// Disabling auto-start, one step at a time: on Windows, delete the Run
/// value, delete the scheduled task, then restore Explorer as the Winlogon
/// shell; elsewhere nothing. `outcomes` holds how the steps taken so far
/// went. The first failure ends the command with its reply; once every step
/// is done (or found nothing to remove) the command succeeds.
pub fn disable_autostart(platform: Platform, outcomes: &Vec<StepOutcome>) -> (next: CleanupNext)
    ensures
        first_failure(outcomes@) matches Some(m) ==> (next matches CleanupNext::Finished(Err(e))
            && e@ == m),
        first_failure(outcomes@) is None && outcomes@.len() < cleanup_len(platform) ==> (
        next matches CleanupNext::Do(step) && is_cleanup_step(step, outcomes@.len() as int)),
        first_failure(outcomes@) is None && outcomes@.len() >= cleanup_len(platform) ==> (
        next matches CleanupNext::Finished(Ok(_))),
{
    match first_failed(outcomes) {
        Some(m) => CleanupNext::Finished(Err(m)),
        None => {
            let total: usize = match platform {
                Platform::Windows => 3,
                _ => 0,
            };
            let k = outcomes.len();
            if k >= total {
                CleanupNext::Finished(Ok(()))
            } else if k == 0 {
                CleanupNext::Do(CleanupStep::DeleteValue(autostart_run_value()))
            } else if k == 1 {
                let mut c = bare_command("schtasks", RunMode::Output);
                push_text_arg(&mut c, "/delete");
                push_text_arg(&mut c, "/tn");
                push_text_arg(&mut c, "WaveOS");
                push_text_arg(&mut c, "/f");
                assert(c@.args =~= delete_task_view().args);
                CleanupNext::Do(CleanupStep::Run(c))
            } else {
                CleanupNext::Do(
                    CleanupStep::Write(
                        RegistryWrite { target: shell_registry_value(), data: owned("explorer.exe") },
                    ),
                )
            }
        },
    }
}

/// Asking whether the scheduled task is registered.
pub fn autostart_task_query() -> (c: CommandSpec)
    ensures
        c@ == query_task_view(),
{
    let mut c = bare_command("schtasks", RunMode::Output);
    push_text_arg(&mut c, "/query");
    push_text_arg(&mut c, "/tn");
    push_text_arg(&mut c, "WaveOS");
    assert(c@.args =~= query_task_view().args);
    c
}

/// Whether auto-start is enabled, from the Run value read as a string
/// (`None` where it could not be read) and whether the task query found the
/// scheduled task.
pub fn get_autostart_status(platform: Platform, run_value: &Option<String>, task_registered: bool) -> (b:
    bool)
    ensures
        b == autostart_enabled(platform, opt_text_view(*run_value), task_registered),
{
    match platform {
        Platform::Windows => run_value.is_some() || task_registered,
        _ => false,
    }
}

/// Law: once tier-1 auto-start has stored a path, the status on Windows
/// reads as enabled, whatever the registry held before and whether or not
/// the task exists.
pub proof fn law_enabled_autostart_reads_back_enabled(
    reg: RegistryContents,
    exe: Seq<char>,
    task_registered: bool,
)
    ensures
        autostart_enabled(
            Platform::Windows,
            read_value(
                after_write(reg, RegistryWriteView { target: run_value_view(), data: exe }),
                run_value_view(),
            ),
            task_registered,
        ),
{
}

/// Law: once tier-2 auto-start has registered its task, the status on
/// Windows reads as enabled, whatever the Run value holds.
pub proof fn law_scheduled_autostart_reads_back_enabled(run_value: Option<Seq<char>>)
    ensures
        autostart_enabled(Platform::Windows, run_value, true),
{
}

/// Law: once disabling auto-start has finished successfully (the Run value
/// deleted, the task gone, Explorer written back as the Winlogon shell),
/// the status reads as disabled and the shell mode as app mode, whatever
/// the registry held before.
pub proof fn law_disabled_autostart_restores_everything(reg: RegistryContents, platform: Platform)
    ensures
        ({
            let after = after_write(
                after_delete(reg, run_value_view()),
                RegistryWriteView { target: shell_registry_view(), data: explorer_shell_value() },
            );
            &&& !autostart_enabled(platform, read_value(after, run_value_view()), false)
            &&& crate::shell::mode_of_shell_value(read_value(after, shell_registry_view()))
                == crate::shell::ShellMode::App
        }),
{
    let after = after_write(
        after_delete(reg, run_value_view()),
        RegistryWriteView { target: shell_registry_view(), data: explorer_shell_value() },
    );
    assert(run_value_view() != shell_registry_view()) by {
        reveal_strlit("WaveOS");
        reveal_strlit("Shell");
        assert(run_value_view().hive != shell_registry_view().hive);
    }
    assert(read_value(after, run_value_view()) is None);
    crate::shell::law_disabled_shell_reads_back_as_app(after_delete(reg, run_value_view()));
}

} // verus!
