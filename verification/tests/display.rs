use parsec_vdisplay::display::{
    arrangement_fixes, check_classes, clamp, destroy_display, djb2_hash, get_display_id,
    is_display_created, mirror_change, display_identity, is_valid_display_name, mode_list, plan_display, unique_modes, CreateEvent,
    DestroyEvent, DisplayConfig, MirrorChange, ResolutionMode, VirtualDisplay, VirtualDisplayState,
};

#[test]
fn djb2_known_values() {
    assert_eq!(djb2_hash(""), 5381);
    assert_eq!(djb2_hash("a"), 177670);
    assert_eq!(djb2_hash("Parsec"), 3382147523);
    assert_eq!(djb2_hash("Virtual Display"), 3740561026);
}

#[test]
fn clamp_holds_within_bounds() {
    assert_eq!(clamp(10, 30, 120), 30);
    assert_eq!(clamp(144, 30, 120), 120);
    assert_eq!(clamp(60, 30, 120), 60);
    assert_eq!(clamp(300, 72, 300), 300);
}

#[test]
fn default_display_config() {
    let c = DisplayConfig::default();
    assert_eq!((c.width, c.height, c.frame_rate), (3440, 1440, 60));
    assert_eq!(c.name, "Parsec");
    assert_eq!(c.available_modes.len(), 5);
    assert_eq!(c.available_modes[4], ResolutionMode { width: 3840, height: 2160 });
}

#[test]
fn unique_modes_keep_first_and_order() {
    let modes = [(1920, 1080), (1280, 720), (1920, 1080), (2560, 1440), (1280, 720)];
    let u = unique_modes(1920, 1080, &modes);
    assert_eq!(u, vec![(1920, 1080), (1280, 720), (2560, 1440)]);
}

#[test]
fn hidpi_adds_half_size_modes() {
    let modes = vec![(1920, 1080), (1024, 768)];
    assert_eq!(mode_list(&modes, false), vec![(1920, 1080), (1024, 768)]);
    assert_eq!(mode_list(&modes, true), vec![(1920, 1080), (960, 540), (1024, 768)]);
}

#[test]
fn zero_size_display_is_refused() {
    let r = plan_display(0, 1080, 60, false, 81, &[]);
    assert_eq!(r.err().unwrap(), "Width and height must be greater than 0");
    assert!(plan_display(1920, 0, 60, false, 81, &[]).is_err());
}

#[test]
fn display_plan_values() {
    let p = plan_display(1920, 1080, 144, false, 81, &[(3440, 1440), (1280, 720)]).unwrap();
    assert_eq!(p.refresh_rate, 120);
    assert_eq!(p.ppi, 81);
    assert_eq!((p.max_width, p.max_height), (3440, 1440));
    assert_eq!(p.modes, vec![(1920, 1080), (3440, 1440), (1280, 720)]);
    let low = plan_display(800, 600, 10, true, 20, &[]).unwrap();
    assert_eq!(low.refresh_rate, 30);
    assert_eq!(low.ppi, 72);
    let huge = plan_display(800, 600, u32::MAX, false, 400, &[]).unwrap();
    assert_eq!(huge.refresh_rate, 30);
    assert_eq!(huge.ppi, 300);
}

#[test]
fn missing_classes_are_reported() {
    assert!(check_classes(1, 2, 3, 4).is_ok());
    assert_eq!(
        check_classes(1, 0, 3, 4).err().unwrap(),
        "Failed to get CGVirtualDisplay classes - private API may be unavailable"
    );
}

#[test]
fn display_state_lifecycle() {
    let mut s = VirtualDisplayState::new();
    assert!(!is_display_created(&s));
    assert_eq!(get_display_id(&s), 0);
    let (released, mut build) = s.begin_create();
    assert!(released.is_empty());
    assert!(build.attach_descriptor(11).is_ok());
    assert!(build.attach_display(22).is_ok());
    assert_eq!(build.attach_display_id(7).unwrap(), 7);
    build.attach_settings(33);
    assert!(build.is_complete());
    assert_eq!(s.finish_create(build), 7);
    assert!(is_display_created(&s));
    assert_eq!(get_display_id(&s), 7);
    let (was, released) = destroy_display(&mut s);
    assert!(was);
    assert_eq!(released, vec![33, 11, 22]);
    assert!(!is_display_created(&s));
    assert_eq!(get_display_id(&s), 0);
    let (again, none) = destroy_display(&mut s);
    assert!(!again);
    assert!(none.is_empty());
}

#[test]
fn making_a_display_releases_the_held_one_first() {
    let mut s = VirtualDisplayState::new();
    let (_, mut b) = s.begin_create();
    b.attach_descriptor(1).unwrap();
    b.attach_display(2).unwrap();
    b.attach_display_id(9).unwrap();
    b.attach_settings(3);
    s.finish_create(b);
    let (released, b2) = s.begin_create();
    assert_eq!(released, vec![3, 1, 2]);
    assert!(!s.is_created());
    assert_eq!(s.get_display_id(), 0);
    assert!(!b2.is_complete());
}

#[test]
fn display_state_failures_release_handles() {
    let mut s = VirtualDisplayState::new();
    let (_, mut b) = s.begin_create();
    assert_eq!(b.attach_descriptor(0).err().unwrap(), "Failed to create CGVirtualDisplayDescriptor");
    let (_, mut b) = s.begin_create();
    b.attach_descriptor(5).unwrap();
    let (msg, released) = b.attach_display(0).err().unwrap();
    assert_eq!(msg, "Failed to create CGVirtualDisplay");
    assert_eq!(released, 5);
    assert!(!b.is_complete());
    let (_, mut b) = s.begin_create();
    b.attach_descriptor(5).unwrap();
    b.attach_display(6).unwrap();
    let (msg, released) = b.attach_display_id(0).err().unwrap();
    assert_eq!(msg, "Failed to create virtual display (displayID is 0)");
    assert_eq!(released, vec![5, 6]);
    assert!(!b.is_complete());
    assert!(!s.is_created());
}

#[test]
fn displays_of_a_thread_share_one_state() {
    let mut s = VirtualDisplayState::new();
    let mut vd1 = VirtualDisplay::new(DisplayConfig::default());
    let mut vd2 = VirtualDisplay::new(DisplayConfig::default());
    assert!(vd1.create_request_on(&s).is_some());
    let (_, mut b) = s.begin_create();
    b.attach_descriptor(1).unwrap();
    b.attach_display(2).unwrap();
    let id = b.attach_display_id(42).unwrap();
    s.finish_create(b);
    vd1.create(CreateEvent::Created(id)).unwrap();
    assert!(vd2.create_request_on(&s).is_none());
    let (r, released) = vd2.destroy_on(&mut s);
    assert!(r.is_ok());
    assert_eq!(released, vec![1, 2]);
    assert!(!s.is_created());
    assert_eq!(vd2.display_id(), None);
    assert_eq!(vd1.display_id(), Some(42));
    let (r, released) = vd1.destroy_on(&mut s);
    assert!(r.is_ok() && released.is_empty());
    assert_eq!(vd1.display_id(), Some(42));
}

#[test]
fn djb2_append_ascii() {
    for s in ["", "Parsec", "Virtual Display", "é"] {
        for c in ['a', 'Z', '0', ' '] {
            let longer = format!("{}{}", s, c);
            assert_eq!(djb2_hash(&longer), djb2_hash(s).wrapping_mul(33).wrapping_add(c as u32));
        }
    }
}

#[test]
fn mirror_and_arrangement_decisions() {
    assert_eq!(mirror_change(true, 0), MirrorChange::Enable);
    assert_eq!(mirror_change(true, 1), MirrorChange::Keep);
    assert_eq!(mirror_change(false, 1), MirrorChange::Disable);
    assert_eq!(mirror_change(false, 0), MirrorChange::Keep);
    assert_eq!(mirror_change(false, 2), MirrorChange::Keep);
    let f = arrangement_fixes(1, 5, 5, 5);
    assert!(f.restore_main && f.clear_mirror);
    let g = arrangement_fixes(5, 5, 1, 5);
    assert!(!g.restore_main && !g.clear_mirror);
}

#[test]
fn virtual_display_events() {
    let mut vd = VirtualDisplay::new(DisplayConfig::default());
    assert_eq!(vd.display_id(), None);
    let req = vd.create_request();
    assert_eq!((req.width, req.height, req.refresh_rate), (3440, 1440, 60));
    assert!(!req.hidpi && !req.use_mirror);
    assert_eq!(req.ppi, 81);
    assert_eq!(req.all_modes.len(), 5);
    assert_eq!(req.all_modes[0], (1280, 720));
    assert_eq!(
        vd.create(CreateEvent::Failed("boom".to_string())).err().unwrap(),
        "Failed to create virtual display: boom"
    );
    assert_eq!(vd.display_id(), None);
    assert!(vd.create(CreateEvent::Created(42)).is_ok());
    assert_eq!(vd.display_id(), Some(42));
    assert!(vd.create(CreateEvent::AlreadyCreated).is_ok());
    assert_eq!(vd.display_id(), Some(42));
    assert_eq!(vd.destroy(DestroyEvent::Failed).err().unwrap(), "Failed to destroy virtual display");
    assert_eq!(vd.display_id(), Some(42));
    assert!(vd.destroy(DestroyEvent::Destroyed).is_ok());
    assert_eq!(vd.display_id(), None);
    assert!(vd.destroy(DestroyEvent::NothingToDestroy).is_ok());
}


#[test]
fn display_identity_from_name() {
    let id = display_identity("Parsec");
    assert_eq!(id.serial, 3382147523);
    assert_eq!(id.product_id, 51607);
    assert_eq!(id.vendor_id, 0xeeee);
    assert_eq!(display_identity("").serial, 5381);
}

#[test]
fn display_names_without_nul() {
    assert!(is_valid_display_name("Parsec"));
    assert!(is_valid_display_name(""));
    assert!(!is_valid_display_name("Par\0sec"));
}
