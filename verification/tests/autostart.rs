use parsec_vdisplay::parsec::parsec_log_path;
use parsec_vdisplay::settings::settings_path;
use parsec_vdisplay::autostart::{AutoStart, AutoStartChange};
use parsec_vdisplay::dioxus_config::{DesktopConfig, DioxusConfig};

#[test]
fn test_autostart_path() {
    let autostart = AutoStart::with_label("com.test.app", Some("/Users/tester"), "/Applications/VDisplay").unwrap();
    assert!(autostart.plist_path().contains("LaunchAgents"));
    assert!(autostart.plist_path().contains("com.test.app"));
}

#[test]
fn plist_path_layout() {
    let a = AutoStart::with_label("com.test.app", Some("/Users/tester"), "/bin/x").unwrap();
    assert_eq!(a.plist_path(), "/Users/tester/Library/LaunchAgents/com.test.app.plist");
    let b = AutoStart::with_label("l", Some("/home/u/"), "/bin/x").unwrap();
    assert_eq!(b.plist_path(), "/home/u/Library/LaunchAgents/l.plist");
    let c = AutoStart::with_label("/abs", Some("/home/u"), "/bin/x").unwrap();
    assert_eq!(c.plist_path(), "/abs.plist");
    assert_eq!(a.label(), "com.test.app");
    assert_eq!(a.app_path(), "/bin/x");
}

#[test]
fn no_home_directory() {
    assert_eq!(AutoStart::with_label("x", None, "/bin/x").err().unwrap(), "Cannot find home directory");
}

#[test]
fn autostart_from_config() {
    let cfg = DioxusConfig::default();
    let a = AutoStart::new(&cfg, Some("/Users/t"), "/bin/x").unwrap();
    assert_eq!(a.label(), "com.vdgmstd.parsec-vdisplay");
}

#[test]
fn plist_content_names_label_and_program() {
    let a = AutoStart::with_label("com.test.app", Some("/Users/t"), "/Applications/V.app/Contents/MacOS/v").unwrap();
    let text = a.plist_content();
    assert!(text.starts_with("<?xml version=\"1.0\" encoding=\"UTF-8\"?>\n"));
    assert!(text.contains("    <key>Label</key>\n    <string>com.test.app</string>\n"));
    assert!(text.contains("        <string>/Applications/V.app/Contents/MacOS/v</string>\n"));
    assert!(text.contains("<key>RunAtLoad</key>\n    <true/>"));
    assert!(text.ends_with("</dict>\n</plist>\n"));
}

#[test]
fn toggle_and_launchctl() {
    let a = AutoStart::with_label("l", Some("/h"), "/p").unwrap();
    assert_eq!(a.toggle(true), AutoStartChange::Disable);
    assert_eq!(a.toggle(false), AutoStartChange::Enable);
    assert_eq!(a.launchctl_args(true), vec!["load", "-w", "/h/Library/LaunchAgents/l.plist"]);
    assert_eq!(a.launchctl_args(false), vec!["unload", "-w", "/h/Library/LaunchAgents/l.plist"]);
}

#[test]
fn config_defaults_and_overrides() {
    let mut cfg = DioxusConfig::default();
    assert_eq!(cfg.app_name(), "PVDisplayPlugin");
    assert_eq!(cfg.identifier(), "com.vdgmstd.parsec-vdisplay");
    assert_eq!(cfg.app_version("0.1.0"), "0.1.0");
    cfg.application.name = Some("VDisplay".to_string());
    cfg.application.version = Some("1.2.3".to_string());
    cfg.bundle.identifier = Some("com.example.v".to_string());
    assert_eq!(cfg.app_name(), "VDisplay");
    assert_eq!(cfg.app_version("0.1.0"), "1.2.3");
    assert_eq!(cfg.identifier(), "com.example.v");
    let d = cfg.desktop_config();
    assert!(!d.resizable());
    assert!(d.visible());
    assert_eq!((d.window_width(), d.window_height()), (450, 570));
    let mut w = DesktopConfig::default();
    w.width = Some(800);
    w.resizable = Some(true);
    w.visible = Some(false);
    assert_eq!(w.window_width(), 800);
    assert!(w.resizable() && !w.visible());
}

#[test]
fn settings_and_log_paths() {
    assert_eq!(settings_path(Some("/Users/t/Library/Application Support")), "/Users/t/Library/Application Support/vdisplay/settings.json");
    assert_eq!(settings_path(None), "./vdisplay/settings.json");
    assert_eq!(parsec_log_path(Some("/Users/t")), "/Users/t/.parsec/log.txt");
    assert_eq!(parsec_log_path(None), "./.parsec/log.txt");
}
