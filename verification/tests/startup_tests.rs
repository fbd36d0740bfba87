use protractor_plus::features::ToolFlags;
use protractor_plus::settings::load_settings_text;

#[test]
fn initial_flags_show_only_the_bisector() {
    let f = ToolFlags::initial();
    assert!(f.bisector_visible);
    assert!(!f.north_visible && !f.course_visible && !f.distance_visible);
    assert!(!f.any_screen_pin());
    assert_eq!(f.red_locked_index, None);
    assert_eq!(f.active_handle, None);
}

#[test]
fn flags_come_from_the_settings_file() {
    let text = "11\n1 2\n3 4\n5 6\n1\n7 8\n1\n0.5\n2\n0\n1\n1\n0\n1\n0\n1\n2.5\n1\n-1.5\n1\n1\n0\n1\n0\n1\n10 20\n";
    let record = load_settings_text(text).expect("a version-11 file");
    let f = ToolFlags::from_record(&record);
    assert!(f.angle_locked);
    assert_eq!(f.red_locked_index, Some(2));
    assert!(!f.bisector_visible);
    assert!(f.plus_degrees_visible && f.inverted && !f.hypotenuse_visible);
    assert!(f.front_plus_visible && !f.xtk_visible && f.distance_visible);
    assert!(f.north_visible && f.north_locked && f.course_visible);
    assert!(!f.blue_pinned && f.left_red_pinned && !f.right_red_pinned && f.helper_pinned);
}

#[test]
fn course_at_startup_needs_north_and_a_helper() {
    let mut f = ToolFlags::initial();
    f.course_visible = true;
    assert!(f.settle_course(false));
    assert!(f.north_visible);
    let mut g = ToolFlags::initial();
    g.course_visible = true;
    assert!(!g.settle_course(true));
    let mut h = ToolFlags::initial();
    assert!(!h.settle_course(false));
    assert!(!h.north_visible);
}
