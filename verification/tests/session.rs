use parsec_vdisplay::display::ResolutionMode;
use parsec_vdisplay::session::{
    build_display_config, display_action, recreate_config, ConnectionStatus, DisplayAction,
};
use parsec_vdisplay::settings::{CustomResolution, Settings};

#[test]
fn display_config_from_settings() {
    let mut s = Settings::default();
    s.width = 1920;
    s.height = 1080;
    s.frame_rate = 120;
    s.custom_resolutions.push(CustomResolution { width: 1600, height: 900, name: "a".to_string() });
    s.custom_resolutions.push(CustomResolution { width: 1920, height: 1080, name: "b".to_string() });
    s.custom_resolutions.push(CustomResolution { width: 1600, height: 900, name: "c".to_string() });
    let c = build_display_config(&s);
    assert_eq!((c.width, c.height, c.frame_rate), (1920, 1080, 120));
    assert_eq!(c.name, "Parsec");
    assert_eq!(c.available_modes.len(), 8);
    assert_eq!(c.available_modes[7], ResolutionMode { width: 1600, height: 900 });
    assert_eq!(c.available_modes[6], ResolutionMode { width: 5120, height: 1440 });
}

#[test]
fn connection_status_text() {
    let s = ConnectionStatus::default();
    assert!(!s.connected && s.username.is_none());
    assert_eq!(s.status_text(), "Disconnected");
    let c = ConnectionStatus::from_event(true, "alice".to_string());
    assert_eq!(c.status_text(), "Connected: alice");
    let unnamed = ConnectionStatus { connected: true, username: None };
    assert_eq!(unnamed.status_text(), "Connected: ");
}

#[test]
fn display_follows_connections() {
    assert_eq!(display_action(true, true, false), DisplayAction::Create);
    assert_eq!(display_action(true, true, true), DisplayAction::Nothing);
    assert_eq!(display_action(true, false, true), DisplayAction::Destroy);
    assert_eq!(display_action(true, false, false), DisplayAction::Nothing);
    assert_eq!(display_action(false, true, false), DisplayAction::Nothing);
    assert_eq!(display_action(false, false, true), DisplayAction::Nothing);
}

#[test]
fn recreate_only_an_active_display() {
    let s = Settings::default();
    assert!(recreate_config(&s, false).is_none());
    let c = recreate_config(&s, true).unwrap();
    assert_eq!((c.width, c.height, c.frame_rate), (3440, 1440, 60));
    assert_eq!(c.available_modes.len(), 7);
}
