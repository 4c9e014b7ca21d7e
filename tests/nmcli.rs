use sshdock::wifi::{detect_active_wifi, parse_nmcli_line, split_lines};

#[test]
fn fields_split_on_unescaped_colons() {
    assert_eq!(
        parse_nmcli_line(r"yes:My\:Net:AA\:BB\:CC:wlan0"),
        vec!["yes", "My:Net", "AA:BB:CC", "wlan0"]
    );
    assert_eq!(parse_nmcli_line(r"a\\b:"), vec![r"a\b", ""]);
    assert_eq!(parse_nmcli_line(""), vec![""]);
}

#[test]
fn lines_drop_carriage_returns() {
    assert_eq!(split_lines("a\r\nb\nc"), vec!["a", "b", "c"]);
    assert_eq!(split_lines("a\n"), vec!["a", ""]);
}

#[test]
fn active_line_is_reported() {
    let out = "no:Other:11\\:22:wlan0\nyes:Home:AA\\:BB:wlan0\n";
    let w = detect_active_wifi(out).unwrap();
    assert_eq!(w.ssid, "Home");
    assert_eq!(w.bssid.as_deref(), Some("AA:BB"));
    assert_eq!(w.device.as_deref(), Some("wlan0"));
}

#[test]
fn crlf_output_keeps_device_clean() {
    let w = detect_active_wifi("yes:Home::wlan0\r\n").unwrap();
    assert_eq!(w.bssid, None);
    assert_eq!(w.device.as_deref(), Some("wlan0"));
}

#[test]
fn no_active_line_or_empty_ssid_is_none() {
    assert!(detect_active_wifi("no:Home:AA:wlan0\n").is_none());
    assert!(detect_active_wifi("").is_none());
    assert!(detect_active_wifi("yes::AA:wlan0\nyes:Home::wlan0\n").is_none());
    let w = detect_active_wifi("yes:Home").unwrap();
    assert_eq!((w.bssid, w.device), (None, None));
}
