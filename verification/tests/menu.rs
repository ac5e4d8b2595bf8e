use parsec_vdisplay::menu::{
    fits_menu_tag, frame_rate_entry_index, resolution_entry_index, status_entry_index, top_menu,
    TopMenuEntry,
};
use parsec_vdisplay::commands::Command;
use parsec_vdisplay::menu::{
    fps_checks, fps_command, fps_menu, menu_tag, resolution_check, resolution_command,
    resolution_menu, tag_resolution, tray_status_text, MenuItem,
};
use parsec_vdisplay::settings::CustomResolution;

fn choice(item: &MenuItem) -> (String, isize, bool) {
    match item {
        MenuItem::Choice { title, tag, checked } => (title.clone(), *tag, *checked),
        MenuItem::Separator => (String::from("-"), 0, false),
    }
}

#[test]
fn tags_round_trip() {
    assert_eq!(menu_tag(1920, 1080), 19201080);
    assert_eq!(tag_resolution(19201080), (1920, 1080));
    assert_eq!(tag_resolution(menu_tag(5120, 1440)), (5120, 1440));
    assert_eq!(tag_resolution(0), (0, 0));
}

#[test]
fn negative_tags_truncate_like_rust() {
    let t: isize = -19201080;
    assert_eq!(tag_resolution(t), ((t / 10000) as u32, (t % 10000) as u32));
}

#[test]
fn menu_commands() {
    assert_eq!(resolution_command(25601440), Command::SetResolution(2560, 1440));
    assert_eq!(fps_command(120), Command::SetFps(120));
}

#[test]
fn resolution_menu_without_customs() {
    let items = resolution_menu(&Vec::new(), 1920, 1080);
    assert_eq!(items.len(), 7);
    assert_eq!(choice(&items[1]), ("1920x1080 (FHD)".to_string(), 19201080, true));
    assert_eq!(choice(&items[0]), ("1280x720 (HD)".to_string(), 12800720, false));
}

#[test]
fn resolution_menu_with_customs() {
    let customs = vec![CustomResolution { width: 1600, height: 900, name: "1600x900 (Custom)".to_string() }];
    let items = resolution_menu(&customs, 1600, 900);
    assert_eq!(items.len(), 9);
    assert!(matches!(items[7], MenuItem::Separator));
    assert_eq!(choice(&items[8]), ("1600x900 (Custom)".to_string(), 16000900, true));
    assert!(items[..7].iter().all(|i| !choice(i).2));
}

#[test]
fn fps_menu_items() {
    let items = fps_menu(60);
    let got: Vec<(String, isize, bool)> = items.iter().map(choice).collect();
    assert_eq!(
        got,
        vec![
            ("30 FPS".to_string(), 30, false),
            ("60 FPS".to_string(), 60, true),
            ("120 FPS".to_string(), 120, false),
            ("144 FPS".to_string(), 144, false),
        ]
    );
    assert_eq!(fps_checks(144), vec![false, false, false, true]);
}

#[test]
fn resolution_checkmarks() {
    assert_eq!(resolution_check(19201080, 1920, 1080), Some(true));
    assert_eq!(resolution_check(12800720, 1920, 1080), Some(false));
    assert_eq!(resolution_check(0, 1920, 1080), None);
}

#[test]
fn tray_status_lines() {
    assert_eq!(tray_status_text(true, Some("bob#1")), "Connected: bob#1");
    assert_eq!(tray_status_text(true, None), "Connected: Unknown");
    assert_eq!(tray_status_text(false, Some("bob#1")), "Status: Monitoring...");
}

#[test]
fn menu_tag_bounds() {
    assert!(fits_menu_tag(7680, 4320));
    assert_eq!(fits_menu_tag(u32::MAX, u32::MAX), (u32::MAX as u128) * 10000 + (u32::MAX as u128) <= isize::MAX as u128);
}

#[test]
fn top_menu_layout() {
    let m = top_menu();
    assert_eq!(m.len(), 8);
    assert_eq!(m[status_entry_index()], TopMenuEntry::Status);
    assert_eq!(m[resolution_entry_index()], TopMenuEntry::Resolution);
    assert_eq!(m[frame_rate_entry_index()], TopMenuEntry::FrameRate);
    assert_eq!(m[7], TopMenuEntry::Quit);
}
