use wave_os_shell::command::RunMode;
use wave_os_shell::process::{
    is_process_running, is_spawn_allowed, kill_process, launch_explorer, launch_task_manager,
    process_listed, spawn_process,
};

#[test]
fn spawn_keeps_everything() {
    let c = spawn_process(
        &"notepad.exe".to_string(),
        &vec!["a.txt".to_string(), "--flag".to_string()],
        &Some("C:\\Users".to_string()),
        false,
    )
    .unwrap();
    assert_eq!(c.program, "notepad.exe");
    assert_eq!(c.args, vec!["a.txt", "--flag"]);
    assert_eq!(c.working_dir, Some("C:\\Users".to_string()));
    assert_eq!(c.mode, RunMode::Spawn);
    let d = spawn_process(&"calc".to_string(), &vec![], &None, false).unwrap();
    assert!(d.args.is_empty());
    assert_eq!(d.working_dir, None);
}

#[test]
fn production_build_spawns_only_whitelisted() {
    assert_eq!(
        spawn_process(&"notepad.exe".to_string(), &vec![], &None, true).unwrap_err(),
        "Executable not allowed: notepad.exe"
    );
    for exe in ["ollama", "OLLAMA.EXE", "C:\\Program Files\\Ollama\\ollama.exe", "explorer.exe", "/usr/bin/ollama", "TaskMgr.exe"] {
        assert!(spawn_process(&exe.to_string(), &vec![], &None, true).is_ok(), "{}", exe);
        assert!(is_spawn_allowed(&exe.to_string()));
    }
    for exe in ["myollama", "evil-explorer.exe", "ollama.exe.bat", ""] {
        assert!(spawn_process(&exe.to_string(), &vec![], &None, true).is_err(), "{}", exe);
    }
}

#[test]
fn kill_by_decimal_pid() {
    let c = kill_process(4321);
    assert_eq!(c.program, "taskkill");
    assert_eq!(c.args, vec!["/f", "/pid", "4321"]);
    assert_eq!(c.mode, RunMode::Output);
    assert_eq!(kill_process(0).args[2], "0");
}

#[test]
fn tasklist_query() {
    let c = is_process_running(&"ollama.exe".to_string());
    assert_eq!(c.program, "tasklist");
    assert_eq!(c.args, vec!["/fi", "imagename eq ollama.exe", "/fo", "csv", "/nh"]);
    assert_eq!(c.mode, RunMode::Output);
}

#[test]
fn listed_process_found_in_output() {
    let out = b"\"ollama.exe\",\"1234\",\"Console\",\"1\",\"45,000 K\"\r\n".to_vec();
    assert!(process_listed(&Some(out.clone()), &"ollama.exe".to_string()));
    assert!(process_listed(&Some(out.clone()), &"OLLAMA.EXE".to_string()));
    assert!(!process_listed(&Some(out.clone()), &"ollama".to_string()));
    assert!(!process_listed(&Some(out), &"".to_string()));
    let none = b"INFO: No tasks are running which match the specified criteria.\r\n".to_vec();
    assert!(!process_listed(&Some(none), &"ollama.exe".to_string()));
    assert!(!process_listed(&None, &"ollama.exe".to_string()));
}

#[test]
fn listed_process_on_a_later_line() {
    let out = b"\"a.exe\",\"1\"\r\n\"ollama.exe\",\"2\"\r\n".to_vec();
    assert!(process_listed(&Some(out), &"ollama.exe".to_string()));
    let inner = b"\"x.exe\",\"ollama.exe\"\r\n".to_vec();
    assert!(!process_listed(&Some(inner), &"ollama.exe".to_string()));
}

#[test]
fn listed_process_with_invalid_bytes() {
    let out = b"\xff\r\n\"ollama.exe\",\"1\"".to_vec();
    assert!(process_listed(&Some(out), &"ollama.exe".to_string()));
    let bad_name = b"\"\xff\",\"1\"".to_vec();
    assert!(process_listed(&Some(bad_name), &"\u{FFFD}".to_string()));
}

#[test]
fn launchers() {
    let e = launch_explorer();
    assert_eq!(e.program, "explorer.exe");
    assert!(e.args.is_empty());
    assert_eq!(e.mode, RunMode::Spawn);
    let t = launch_task_manager();
    assert_eq!(t.program, "taskmgr.exe");
    assert!(t.args.is_empty());
    assert_eq!(t.mode, RunMode::Spawn);
}
