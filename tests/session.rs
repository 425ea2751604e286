use videocore::bcm_host::graphics_get_display_size;
use videocore::dispmanx::{handle_of, status_ok, ELEMENT_CHANGE_LAYER, ELEMENT_CHANGE_OPACITY};
use videocore::image::ImageType;
use videocore::session::{Misuse, Session};

fn started() -> Session {
    let mut s = Session::new();
    assert_eq!(s.init(), Ok(()));
    s
}

#[test]
fn graphics_test_pass() {
    let mut s = Session::new();
    assert_eq!(s.init(), Ok(()));
    assert_eq!(s.require_initialized(), Ok(()));
    let x = graphics_get_display_size(0, 1920, 1080).unwrap();
    println!("Display size = {}x{}", x.width, x.height);
    assert_eq!((x.width, x.height), (1920, 1080));
    assert_eq!(s.deinit(), Ok(()));
}

#[test]
fn absent_display_has_no_size() {
    assert!(graphics_get_display_size(-1, 0, 0).is_none());
    assert!(graphics_get_display_size(1, 0, 0).is_none());
    assert!(graphics_get_display_size(-1, 640, 480).is_none());
    let zero = graphics_get_display_size(0, 0, 0).unwrap();
    assert_eq!((zero.width, zero.height), (0, 0));
}

#[test]
fn status_and_handle_translation() {
    assert!(status_ok(1));
    assert!(!status_ok(0));
    assert!(!status_ok(-1));
    assert_eq!(handle_of(0), None);
    assert_eq!(handle_of(7), Some(7));
}

#[test]
fn init_gate() {
    let mut s = Session::new();
    assert_eq!(s.require_initialized(), Err(Misuse::NotInitialized));
    assert_eq!(s.require_display(1), Err(Misuse::NotInitialized));
    assert_eq!(s.deinit(), Err(Misuse::NotInitialized));
    assert_eq!(s.init(), Ok(()));
    assert_eq!(s.init(), Err(Misuse::AlreadyInitialized));
    assert_eq!(s.deinit(), Ok(()));
    assert_eq!(s.require_initialized(), Err(Misuse::NotInitialized));
}

#[test]
fn deinit_invalidates_every_handle() {
    let mut s = started();
    assert_eq!(s.display_open(0, 5), Some(5));
    assert_eq!(s.deinit(), Ok(()));
    assert_eq!(s.init(), Ok(()));
    assert_eq!(s.require_display(5), Err(Misuse::UnknownDisplay));
}

#[test]
fn display_open_then_close() {
    let mut s = started();
    let d = s.display_open(0, 3).unwrap();
    assert_eq!(s.require_display(d), Ok(()));
    assert!(s.display_close(d, 1));
    assert_eq!(s.require_display(d), Err(Misuse::UnknownDisplay));
}

#[test]
fn display_open_sentinel_and_failed_close() {
    let mut s = started();
    assert_eq!(s.display_open(2, 0), None);
    assert_eq!(s.require_display(0), Err(Misuse::UnknownDisplay));
    let d = s.display_open_mode(2, 9).unwrap();
    assert!(!s.display_close(d, 0));
    assert_eq!(s.require_display(d), Ok(()));
}

#[test]
fn resources_and_offscreen_displays() {
    let mut s = started();
    assert_eq!(s.require_resource(4), Err(Misuse::UnknownResource));
    assert_eq!(s.resource_create(ImageType::RGBA32, 64, 32, 0), None);
    let r = s.resource_create(ImageType::RGBA32, 64, 32, 4).unwrap();
    let d = s.display_open_offscreen(r, 8).unwrap();
    assert_eq!(s.require_display_and_resource(d, r), Ok(()));
    assert_eq!(s.require_display_and_resource(d, 99), Err(Misuse::UnknownResource));
    assert_eq!(s.require_display_and_resource(99, r), Err(Misuse::UnknownDisplay));
    assert!(!s.resource_delete(r, -1));
    assert_eq!(s.require_resource(r), Ok(()));
    assert!(s.resource_delete(r, 1));
    assert_eq!(s.require_resource(r), Err(Misuse::UnknownResource));
}

#[test]
fn submitted_update_refuses_element_operations() {
    let mut s = started();
    let d = s.display_open(0, 1).unwrap();
    let r = s.resource_create(ImageType::RGB565, 10, 10, 2).unwrap();
    let u = s.update_start(3).unwrap();
    assert_eq!(s.element_add_allowed(u, d, r), Ok(()));
    let e = s.element_add(u, d, 0, r, 4).unwrap();
    assert_eq!(s.element_op_allowed(u, e), Ok(()));
    assert!(s.update_submit(u, 1));
    assert_eq!(s.element_add_allowed(u, d, r), Err(Misuse::UpdateSubmitted));
    assert_eq!(s.element_op_allowed(u, e), Err(Misuse::UpdateSubmitted));
    assert_eq!(s.element_change_source_allowed(u, e, r), Err(Misuse::UpdateSubmitted));
    assert_eq!(s.require_update_and_display(u, d), Err(Misuse::UpdateSubmitted));
    assert_eq!(s.require_open_update(u), Err(Misuse::UpdateSubmitted));
}

#[test]
fn failed_submit_still_closes_the_update() {
    let mut s = started();
    let u = s.update_start(6).unwrap();
    assert!(!s.update_submit_sync(u, 0));
    assert_eq!(s.require_open_update(u), Err(Misuse::UpdateSubmitted));
    assert_eq!(s.require_open_update(77), Err(Misuse::UnknownUpdate));
    assert_eq!(s.update_start(0), None);
}

#[test]
fn element_checks_name_the_first_problem() {
    let mut s = started();
    let d = s.display_open(0, 1).unwrap();
    let u = s.update_start(2).unwrap();
    assert_eq!(s.element_add_allowed(9, d, 3), Err(Misuse::UnknownUpdate));
    assert_eq!(s.element_add_allowed(u, 9, 3), Err(Misuse::UnknownDisplay));
    assert_eq!(s.element_add_allowed(u, d, 3), Err(Misuse::UnknownResource));
    assert_eq!(s.element_op_allowed(u, 5), Err(Misuse::UnknownElement));
    assert_eq!(s.require_element(5), Err(Misuse::UnknownElement));
}

#[test]
fn lower_layer_renders_behind_in_either_order() {
    let mut s = started();
    let d = s.display_open(0, 1).unwrap();
    let r = s.resource_create(ImageType::RGB888, 8, 8, 2).unwrap();
    let u = s.update_start(3).unwrap();
    let front = s.element_add(u, d, 0, r, 10).unwrap();
    let back = s.element_add(u, d, -1, r, 11).unwrap();
    assert!(s.renders_behind(back, front));
    assert!(!s.renders_behind(front, back));

    let mut t = started();
    let d = t.display_open(0, 1).unwrap();
    let r = t.resource_create(ImageType::RGB888, 8, 8, 2).unwrap();
    let u = t.update_start(3).unwrap();
    let back = t.element_add(u, d, -1, r, 11).unwrap();
    let front = t.element_add(u, d, 0, r, 10).unwrap();
    assert!(t.renders_behind(back, front));
    assert!(!t.renders_behind(front, back));
}

#[test]
fn layer_changes_and_removal() {
    let mut s = started();
    let d = s.display_open(0, 1).unwrap();
    let d2 = s.display_open(2, 20).unwrap();
    let r = s.resource_create(ImageType::RGB888, 8, 8, 2).unwrap();
    let r2 = s.resource_create(ImageType::RGB888, 8, 8, 21).unwrap();
    let u = s.update_start(3).unwrap();
    let a = s.element_add(u, d, 1, r, 10).unwrap();
    let b = s.element_add(u, d, 2, r, 11).unwrap();
    let c = s.element_add(u, d2, 5, r, 12).unwrap();
    assert!(s.renders_behind(a, b));
    assert!(!s.renders_behind(a, c));
    assert!(s.element_change_layer(u, a, 3, 1));
    assert!(s.renders_behind(b, a));
    assert!(!s.element_change_layer(u, a, 0, 0));
    assert!(s.renders_behind(b, a));
    assert!(s.element_change_attributes(u, b, ELEMENT_CHANGE_OPACITY, 9, 1));
    assert!(s.renders_behind(b, a));
    assert!(s.element_change_attributes(u, b, ELEMENT_CHANGE_LAYER, 9, 1));
    assert!(s.renders_behind(a, b));
    assert_eq!(s.element_change_source_allowed(u, a, r2), Ok(()));
    assert!(s.element_change_source(u, a, r2, 1));
    assert!(s.element_remove(u, a, 1));
    assert_eq!(s.require_element(a), Err(Misuse::UnknownElement));
    assert!(!s.renders_behind(a, b));
    assert!(!s.element_remove(u, b, 0));
    assert_eq!(s.require_element(b), Ok(()));
}
