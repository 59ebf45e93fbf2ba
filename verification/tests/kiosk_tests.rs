use wave_os_shell::command::Platform;
use wave_os_shell::kiosk::{disable_kiosk, enable_kiosk, set_kiosk_pin, to_hex};
use wave_os_shell::registry::Hive;

#[test]
fn hex_text() {
    assert_eq!(to_hex(&vec![]), "");
    assert_eq!(to_hex(&vec![0x00, 0x0f, 0xa5, 0xff]), "000fa5ff");
}

#[test]
fn pin_is_kept_as_sha256_hex() {
    // SHA-256 of "1234".
    assert_eq!(
        set_kiosk_pin(&"1234".to_string()).unwrap(),
        "03ac674216f3e15c761ee1a5e255f067953623c8b388b4459e13f978d7c846f4"
    );
}

#[test]
fn pin_format_checked() {
    for bad in ["", "123", "123456789", "12a4", "１２３４"] {
        assert_eq!(set_kiosk_pin(&bad.to_string()).unwrap_err(), "PIN must be 4 to 8 digits");
    }
    assert!(set_kiosk_pin(&"12345678".to_string()).is_ok());
}

#[test]
fn policies() {
    let ws = enable_kiosk(Platform::Windows).unwrap();
    let names: Vec<&str> = ws.iter().map(|w| w.target.name.as_str()).collect();
    assert_eq!(names, vec!["DisableTaskMgr", "DisableRegistryTools", "DisableCMD"]);
    assert!(ws.iter().all(|w| w.data == 1 && w.target.hive == Hive::CurrentUser));
    assert_eq!(ws[0].target.key, "SOFTWARE\\Microsoft\\Windows\\CurrentVersion\\Policies\\System");
    assert_eq!(ws[2].target.key, "SOFTWARE\\Policies\\Microsoft\\Windows\\System");
    assert_eq!(enable_kiosk(Platform::Other).unwrap_err(), "Kiosk mode is only available on Windows");
}

#[test]
fn chosen_pin_unlocks() {
    let kept = set_kiosk_pin(&"4711".to_string()).unwrap();
    let values = disable_kiosk(&"4711".to_string(), &Some(kept.clone()), Platform::Windows).unwrap();
    let expected: Vec<_> = enable_kiosk(Platform::Windows).unwrap().into_iter().map(|w| w.target).collect();
    assert_eq!(values, expected);
    assert_eq!(
        disable_kiosk(&"4712".to_string(), &Some(kept.clone()), Platform::Windows).unwrap_err(),
        "Invalid PIN"
    );
    assert_eq!(disable_kiosk(&"4711".to_string(), &None, Platform::Windows).unwrap_err(), "Invalid PIN");
    assert_eq!(
        disable_kiosk(&"4711".to_string(), &Some(kept), Platform::Other).unwrap_err(),
        "Kiosk mode is only available on Windows"
    );
}
