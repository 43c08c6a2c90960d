use raclettui::surface::{alpha_mode_index, surface_format_index, SurfaceState};

#[test]
fn new_surface_waits_for_configure() {
    let s = SurfaceState::new(300, 200);
    assert!(!s.is_surface_configured());
    assert!(s.is_redraw());
    assert_eq!((s.width(), s.height()), (300, 200));
}

#[test]
fn one_frame_per_callback() {
    let mut s = SurfaceState::new(300, 200);
    assert!(s.take_redraw());
    assert!(!s.take_redraw());
    assert!(!s.is_redraw());
    s.frame_done();
    assert!(s.is_redraw());
    assert!(s.take_redraw());
    assert!(!s.take_redraw());
}

#[test]
fn configure_sets_size() {
    let mut s = SurfaceState::new(300, 200);
    s.set_redraw(false);
    s.configure(640, 480);
    assert!(s.is_surface_configured());
    assert_eq!((s.width(), s.height()), (640, 480));
    assert!(!s.is_redraw());
    s.set_redraw(true);
    assert!(s.is_redraw());
}

#[test]
fn shm_layout_sizes() {
    assert_eq!(raclettui::surface::shm_buffer_layout(300, 200), (240000, 1200));
    assert_eq!(raclettui::surface::shm_buffer_layout(0, 5), (0, 0));
    assert_eq!(raclettui::surface::shm_buffer_layout(40000, 20000), (-1094967296, 160000));
}

#[test]
fn surface_format_prefers_first_srgb() {
    assert_eq!(surface_format_index(&vec![false, true, true]), 1);
    assert_eq!(surface_format_index(&vec![true, false]), 0);
    assert_eq!(surface_format_index(&vec![false, false, false]), 0);
}

#[test]
fn alpha_mode_skips_post_multiplied() {
    assert_eq!(alpha_mode_index(&vec![true, false, false]), Some(1));
    assert_eq!(alpha_mode_index(&vec![false]), Some(0));
    assert_eq!(alpha_mode_index(&vec![true, true]), None);
    assert_eq!(alpha_mode_index(&vec![]), None);
}
