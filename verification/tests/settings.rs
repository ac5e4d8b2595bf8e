use parsec_vdisplay::settings::parse_size_key;
use parsec_vdisplay::commands::{push_command, take_commands, Command};
use parsec_vdisplay::settings::{
    frame_rates, preset_resolutions, size_text, CustomResolution, Resolution, Settings,
};

#[test]
fn resolution_new_and_default() {
    let r = Resolution::new(1920, 1080, "1920x1080 (FHD)");
    assert_eq!((r.width, r.height), (1920, 1080));
    assert_eq!(r.name, "1920x1080 (FHD)");
    let d = Resolution::default();
    assert_eq!((d.width, d.height), (3440, 1440));
    assert_eq!(d.name, "3440x1440 (Ultrawide)");
}

#[test]
fn presets_and_frame_rates() {
    let p = preset_resolutions();
    assert_eq!(p.len(), 7);
    assert_eq!((p[0].width, p[0].height), (1280, 720));
    assert_eq!(p[6].name, "5120x1440 (Super Ultrawide)");
    assert_eq!(frame_rates(), vec![30, 60, 120, 144]);
}

#[test]
fn default_settings() {
    let s = Settings::default();
    assert_eq!((s.width, s.height, s.frame_rate), (3440, 1440, 60));
    assert!(s.auto_create && !s.start_at_login && s.show_tray_icon && !s.hidpi);
    assert_eq!(s.display_name, "Parsec");
    assert!(s.custom_resolutions.is_empty());
}

#[test]
fn resolution_display_text() {
    let s = Settings::default();
    assert_eq!(s.resolution_display(), "3440x1440");
    assert_eq!(size_text(0, 7), "0x7");
    assert_eq!(size_text(4294967295, 10), "4294967295x10");
}

#[test]
fn custom_resolution_is_added_once() {
    let mut s = Settings::default();
    assert!(s.add_custom_resolution(1920, 1200));
    assert_eq!((s.width, s.height), (1920, 1200));
    assert_eq!(s.custom_resolutions.len(), 1);
    assert_eq!(s.custom_resolutions[0].name, "1920x1200 (Custom)");
    assert!(!s.add_custom_resolution(1920, 1200));
    assert_eq!(s.custom_resolutions.len(), 1);
}

#[test]
fn custom_resolution_bounds() {
    let mut s = Settings::default();
    assert!(!s.add_custom_resolution(639, 480));
    assert!(!s.add_custom_resolution(640, 479));
    assert!(!s.add_custom_resolution(7681, 4320));
    assert!(!s.add_custom_resolution(7680, 4321));
    assert_eq!((s.width, s.height), (3440, 1440));
    assert!(s.add_custom_resolution(640, 480));
    assert!(s.add_custom_resolution(7680, 4320));
    assert!(s.has_custom_resolution(640, 480));
    let c = CustomResolution { width: 1, height: 2, name: String::new() };
    s.custom_resolutions.push(c);
    assert!(s.has_custom_resolution(1, 2));
}

#[test]
fn commands_change_settings() {
    let mut s = Settings::default();
    s.apply_command(Command::SetResolution(1920, 1080));
    assert_eq!((s.width, s.height, s.frame_rate), (1920, 1080, 60));
    s.apply_command(Command::SetFps(144));
    assert_eq!((s.width, s.height, s.frame_rate), (1920, 1080, 144));
}

#[test]
fn command_queue_is_first_in_first_out() {
    let mut q = Vec::new();
    push_command(&mut q, Command::SetFps(30));
    push_command(&mut q, Command::SetResolution(1280, 720));
    let taken = take_commands(&mut q);
    assert_eq!(taken, vec![Command::SetFps(30), Command::SetResolution(1280, 720)]);
    assert!(q.is_empty());
    assert!(take_commands(&mut q).is_empty());
}

#[test]
fn resolution_keys() {
    assert_eq!(parse_size_key("1920x1080"), Some((1920, 1080)));
    assert_eq!(parse_size_key("+1920x+1080"), Some((1920, 1080)));
    assert_eq!(parse_size_key("1920x1080x1"), None);
    assert_eq!(parse_size_key("1920*1080"), None);
    assert_eq!(parse_size_key("x1080"), None);
    assert_eq!(parse_size_key("4294967296x1"), None);
    assert_eq!(parse_size_key("4294967295x0"), Some((4294967295, 0)));
    assert_eq!(parse_size_key("-1x2"), None);
}

#[test]
fn choosing_from_text() {
    let mut s = Settings::default();
    assert!(s.choose_resolution_key("2560x1440"));
    assert_eq!((s.width, s.height), (2560, 1440));
    assert!(!s.choose_resolution_key("bad"));
    assert_eq!((s.width, s.height), (2560, 1440));
    assert!(s.choose_frame_rate_text("144"));
    assert_eq!(s.frame_rate, 144);
    assert!(!s.choose_frame_rate_text("fast"));
    assert_eq!(s.frame_rate, 144);
}

#[test]
fn custom_resolution_from_text_uses_fallbacks() {
    let mut s = Settings::default();
    assert!(s.add_custom_resolution_text("abc", "1200"));
    assert_eq!((s.width, s.height), (1920, 1200));
    assert!(s.add_custom_resolution_text("", ""));
    assert_eq!((s.width, s.height), (1920, 1080));
    assert!(!s.add_custom_resolution_text("100", "100"));
}

#[test]
fn size_text_reads_back_as_key() {
    for &(w, h) in &[(0u32, 0u32), (1920, 1080), (3440, 1440), (u32::MAX, 7)] {
        assert_eq!(parse_size_key(&size_text(w, h)), Some((w, h)));
    }
}

#[test]
fn custom_resolution_from_text_adds_one_and_keeps_options() {
    let mut s = Settings::default();
    s.frame_rate = 120;
    s.auto_create = false;
    assert!(s.add_custom_resolution_text("1600", "900"));
    assert_eq!(s.custom_resolutions.len(), 1);
    assert_eq!(s.custom_resolutions[0].name, "1600x900 (Custom)");
    assert_eq!(s.frame_rate, 120);
    assert!(!s.auto_create);
}

#[test]
fn removing_a_custom_resolution() {
    let mut s = Settings::default();
    s.add_custom_resolution(1600, 900);
    s.add_custom_resolution(1920, 1200);
    s.add_custom_resolution(2048, 1152);
    s.remove_custom_resolution(1);
    let sizes: Vec<(u32, u32)> = s.custom_resolutions.iter().map(|c| (c.width, c.height)).collect();
    assert_eq!(sizes, vec![(1600, 900), (2048, 1152)]);
    assert_eq!((s.width, s.height), (2048, 1152));
}
