use wave_os_shell::autostart::{
    autostart_run_value, autostart_task_query, disable_autostart, enable_autostart,
    get_autostart_status, scheduled_task_outcome, AutostartPlan, CleanupNext, CleanupStep,
    StepOutcome,
};
use wave_os_shell::command::{Platform, RunMode};
use wave_os_shell::registry::Hive;
use wave_os_shell::shell::{get_shell_mode, shell_registry_value};

#[test]
fn run_value_location() {
    let v = autostart_run_value();
    assert_eq!(v.hive, Hive::CurrentUser);
    assert_eq!(v.key, "SOFTWARE\\Microsoft\\Windows\\CurrentVersion\\Run");
    assert_eq!(v.name, "WaveOS");
}

#[test]
fn tier_one_sets_run_value() {
    let exe = "C:\\Wave\\wave-os-shell.exe".to_string();
    match enable_autostart(&exe, 1, Platform::Windows).unwrap() {
        AutostartPlan::SetRunValue(w) => {
            assert_eq!(w.target, autostart_run_value());
            assert_eq!(w.data, exe);
        }
        other => panic!("unexpected plan {:?}", other),
    }
}

#[test]
fn tier_two_creates_task() {
    let exe = "C:\\Wave\\wave-os-shell.exe".to_string();
    match enable_autostart(&exe, 2, Platform::Windows).unwrap() {
        AutostartPlan::CreateTask(c) => {
            assert_eq!(c.program, "schtasks");
            assert_eq!(
                c.args,
                vec!["/create", "/tn", "WaveOS", "/tr", "C:\\Wave\\wave-os-shell.exe", "/sc", "onlogon", "/rl", "highest", "/f"]
            );
            assert_eq!(c.mode, RunMode::Output);
            assert_eq!(c.working_dir, None);
        }
        other => panic!("unexpected plan {:?}", other),
    }
}

#[test]
fn invalid_tier_refused_everywhere() {
    let exe = "x".to_string();
    for tier in [0u32, 3, 42] {
        for p in [Platform::Windows, Platform::MacOs, Platform::Other] {
            assert_eq!(
                enable_autostart(&exe, tier, p).unwrap_err(),
                "Invalid tier. Use 1 (user) or 2 (system)"
            );
        }
    }
}

#[test]
fn autostart_refused_off_windows() {
    let exe = "x".to_string();
    for tier in [1u32, 2] {
        for p in [Platform::MacOs, Platform::Other] {
            assert_eq!(
                enable_autostart(&exe, tier, p).unwrap_err(),
                "Auto-start is only available on Windows"
            );
        }
    }
}

#[test]
fn scheduled_task_reply() {
    assert_eq!(scheduled_task_outcome(true, &b"ignored".to_vec()), Ok(()));
    assert_eq!(
        scheduled_task_outcome(false, &b"ERROR: Access is denied.".to_vec()),
        Err("schtasks failed: ERROR: Access is denied.".to_string())
    );
    assert_eq!(
        scheduled_task_outcome(false, &b"bad \xfe".to_vec()),
        Err("schtasks failed: bad \u{FFFD}".to_string())
    );
}

fn step(platform: Platform, outcomes: &[StepOutcome]) -> CleanupNext {
    disable_autostart(platform, &outcomes.to_vec())
}

#[test]
fn disable_walks_three_steps() {
    match step(Platform::Windows, &[]) {
        CleanupNext::Do(CleanupStep::DeleteValue(v)) => assert_eq!(v, autostart_run_value()),
        other => panic!("unexpected {:?}", other),
    }
    match step(Platform::Windows, &[StepOutcome::Missing]) {
        CleanupNext::Do(CleanupStep::Run(c)) => {
            assert_eq!(c.program, "schtasks");
            assert_eq!(c.args, vec!["/delete", "/tn", "WaveOS", "/f"]);
            assert_eq!(c.mode, RunMode::Output);
        }
        other => panic!("unexpected {:?}", other),
    }
    match step(Platform::Windows, &[StepOutcome::Done, StepOutcome::Done]) {
        CleanupNext::Do(CleanupStep::Write(w)) => {
            assert_eq!(w.target, shell_registry_value());
            assert_eq!(w.data, "explorer.exe");
            assert_eq!(get_shell_mode(&Some(w.data.clone())), "app");
        }
        other => panic!("unexpected {:?}", other),
    }
    assert_eq!(
        step(Platform::Windows, &[StepOutcome::Done, StepOutcome::Done, StepOutcome::Done]),
        CleanupNext::Finished(Ok(()))
    );
}

#[test]
fn disable_stops_at_first_failure() {
    assert_eq!(
        step(Platform::Windows, &[StepOutcome::Done, StepOutcome::Failed("denied".to_string())]),
        CleanupNext::Finished(Err("denied".to_string()))
    );
    assert_eq!(
        step(
            Platform::Windows,
            &[StepOutcome::Failed("a".to_string()), StepOutcome::Failed("b".to_string())]
        ),
        CleanupNext::Finished(Err("a".to_string()))
    );
}

#[test]
fn disable_off_windows_does_nothing() {
    assert_eq!(step(Platform::Other, &[]), CleanupNext::Finished(Ok(())));
    assert_eq!(step(Platform::MacOs, &[]), CleanupNext::Finished(Ok(())));
}

#[test]
fn task_query() {
    let c = autostart_task_query();
    assert_eq!(c.program, "schtasks");
    assert_eq!(c.args, vec!["/query", "/tn", "WaveOS"]);
    assert_eq!(c.mode, RunMode::Output);
}

#[test]
fn status_reads_run_value_and_task() {
    assert!(get_autostart_status(Platform::Windows, &Some("C:\\Wave\\wave.exe".to_string()), false));
    assert!(get_autostart_status(Platform::Windows, &None, true));
    assert!(!get_autostart_status(Platform::Windows, &None, false));
    assert!(!get_autostart_status(Platform::Other, &Some("x".to_string()), true));
}

#[test]
fn enable_then_status_then_disable() {
    let exe = "C:\\Wave\\wave-os-shell.exe".to_string();
    let stored = match enable_autostart(&exe, 1, Platform::Windows).unwrap() {
        AutostartPlan::SetRunValue(w) => Some(w.data),
        _ => None,
    };
    assert!(get_autostart_status(Platform::Windows, &stored, false));
    assert!(matches!(enable_autostart(&exe, 2, Platform::Windows), Ok(AutostartPlan::CreateTask(_))));
    assert!(get_autostart_status(Platform::Windows, &None, true));
    assert!(!get_autostart_status(Platform::Windows, &None, false));
}
