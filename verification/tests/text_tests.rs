use wave_os_shell::failure::Failure;
use wave_os_shell::text::{chars_of, contains, decimal_string};

#[test]
fn contains_finds_inner_text() {
    assert!(contains("\"C:\\Apps\\wave-os-shell.exe\" --shell", "wave-os-shell"));
    assert!(contains("abc", "abc"));
    assert!(contains("abc", "c"));
    assert!(!contains("abc", "abcd"));
    assert!(!contains("explorer.exe", "wave-os-shell"));
}

#[test]
fn contains_accepts_empty_needle() {
    assert!(contains("", ""));
    assert!(contains("anything", ""));
    assert_eq!(contains("", "x"), "".contains("x"));
}

#[test]
fn contains_agrees_with_std_on_samples() {
    let hays = ["", "a", "aaa", "abab", "ollama.exe", "\"ollama.exe\",\"1234\"", "naïve café"];
    let needles = ["", "a", "aa", "bab", "ollama", "exe\"", "é", "ïve"];
    for h in hays.iter() {
        for n in needles.iter() {
            assert_eq!(contains(h, n), h.contains(n), "{:?} in {:?}", n, h);
        }
    }
}

#[test]
fn chars_of_keeps_every_character() {
    assert_eq!(chars_of("naïve"), vec!['n', 'a', 'ï', 'v', 'e']);
    assert_eq!(chars_of(""), Vec::<char>::new());
}

#[test]
fn decimal_string_matches_to_string() {
    assert_eq!(decimal_string(0), "0");
    assert_eq!(decimal_string(7), "7");
    assert_eq!(decimal_string(10), "10");
    assert_eq!(decimal_string(1234), "1234");
    assert_eq!(decimal_string(u32::MAX), "4294967295");
    for n in [1u32, 9, 99, 100, 65535, 1_000_000] {
        assert_eq!(decimal_string(n), n.to_string());
    }
}

#[test]
fn decimal_string_reads_back() {
    for n in [0u32, 5, 42, 90210, u32::MAX] {
        let text = decimal_string(n);
        assert_eq!(text.parse::<u32>().unwrap(), n);
        assert!(n == 0 || !text.starts_with('0'));
    }
}

#[test]
fn failure_messages() {
    assert_eq!(Failure::SpawnProcess.message("not found"), "Failed to spawn process: not found");
    assert_eq!(Failure::KillProcess.message("e"), "Failed to kill process: e");
    assert_eq!(Failure::LaunchExplorer.message("e"), "Failed to launch explorer: e");
    assert_eq!(Failure::LaunchTaskManager.message("e"), "Failed to launch Task Manager: e");
    assert_eq!(Failure::KillExplorer.message("e"), "Failed to kill explorer: e");
    assert_eq!(
        Failure::OpenRegistry.message("Access is denied. (os error 5)"),
        "Failed to open registry: Access is denied. (os error 5). Run as administrator."
    );
    assert_eq!(Failure::SetRegistryValue.message("e"), "Failed to set registry value: e");
    assert_eq!(Failure::RestoreExplorer.message("e"), "Failed to restore explorer.exe: e");
    assert_eq!(Failure::OpenRunKey.message("e"), "Failed to open Run key: e");
    assert_eq!(Failure::SetRunValue.message("e"), "Failed to set Run value: e");
    assert_eq!(Failure::CreateScheduledTask.message("e"), "Failed to create scheduled task: e");
    assert_eq!(Failure::DeleteRunValue.message("e"), "Failed to delete Run value: e");
    assert_eq!(Failure::DeleteScheduledTask.message("e"), "Failed to delete scheduled task: e");
    assert_eq!(Failure::SaveFile.message("e"), "Failed to save file: e");
    assert_eq!(Failure::ReadFile.message("e"), "Failed to read file: e");
    assert_eq!(Failure::OpenFile.message("e"), "Failed to open file: e");
    assert_eq!(Failure::ShowInExplorer.message("e"), "Failed to show in Explorer: e");
    assert_eq!(Failure::HideWindow.message("e"), "Failed to hide window: e");
    assert_eq!(Failure::ToggleFullscreen.message("e"), "Failed to toggle fullscreen: e");
}
