use protractor_plus::features::{ToolFlags, HELPER_HANDLE_INDEX};

fn plain_flags() -> ToolFlags {
    ToolFlags {
        angle_locked: false,
        red_locked_index: None,
        bisector_visible: true,
        plus_degrees_visible: false,
        inverted: false,
        hypotenuse_visible: false,
        front_plus_visible: false,
        xtk_visible: false,
        distance_visible: false,
        north_visible: false,
        north_locked: false,
        course_visible: false,
        blue_pinned: false,
        left_red_pinned: false,
        right_red_pinned: false,
        helper_pinned: false,
        active_handle: None,
    }
}

#[test]
fn helper_pin_needs_a_helper_point() {
    let mut flags = plain_flags();
    assert!(!flags.toggle_helper_pin(false));
    assert!(!flags.helper_pinned);
    assert!(flags.toggle_helper_pin(true));
    assert!(flags.helper_pinned);
}

#[test]
fn pinning_the_dragged_helper_releases_it() {
    let mut flags = plain_flags();
    flags.active_handle = Some(HELPER_HANDLE_INDEX);
    assert!(flags.toggle_helper_pin(true));
    assert_eq!(flags.active_handle, None);
    flags.active_handle = Some(1);
    assert!(flags.toggle_helper_pin(true));
    assert!(!flags.helper_pinned);
    assert_eq!(flags.active_handle, Some(1));
}

#[test]
fn blue_pin_toggles_and_releases_the_drag() {
    let mut flags = plain_flags();
    flags.active_handle = Some(0);
    flags.toggle_blue_pin();
    assert!(flags.blue_pinned);
    assert_eq!(flags.active_handle, None);
    assert!(flags.any_screen_pin());
    flags.toggle_blue_pin();
    assert!(!flags.blue_pinned);
    assert!(!flags.any_screen_pin());
}

#[test]
fn red_pins_only_for_red_points() {
    let mut flags = plain_flags();
    assert!(!flags.toggle_red_pin(1));
    assert!(!flags.any_red_pinned());
    assert!(flags.toggle_red_pin(2));
    assert!(flags.right_red_pinned);
    assert!(flags.red_point_pinned(2));
    assert!(!flags.red_point_pinned(0));
    assert!(flags.red_system_frozen());
}

#[test]
fn red_lock_moves_between_points_and_opens() {
    let mut flags = plain_flags();
    assert_eq!(flags.toggle_red_lock(0), Some(false));
    assert_eq!(flags.red_locked_index, Some(0));
    assert_eq!(flags.toggle_red_lock(2), Some(false));
    assert_eq!(flags.red_locked_index, Some(2));
    assert_eq!(flags.toggle_red_lock(2), Some(false));
    assert_eq!(flags.red_locked_index, None);
    assert_eq!(flags.toggle_red_lock(1), None);
}

#[test]
fn pinned_red_point_cannot_be_locked() {
    let mut flags = plain_flags();
    flags.left_red_pinned = true;
    assert_eq!(flags.toggle_red_lock(0), None);
    assert_eq!(flags.red_locked_index, None);
}

#[test]
fn angle_lock_blocked_by_vertex_pin() {
    let mut flags = plain_flags();
    assert_eq!(flags.toggle_angle_lock(), Some(true));
    assert!(flags.angle_locked);
    assert_eq!(flags.toggle_red_lock(0), Some(true));
    assert!(flags.both_locks_closed());
    assert!(flags.red_system_frozen());
    flags.blue_pinned = true;
    assert_eq!(flags.toggle_angle_lock(), None);
    assert!(flags.angle_locked);
}

#[test]
fn north_lock_only_while_north_shown() {
    let mut flags = plain_flags();
    assert!(!flags.toggle_north_lock());
    assert!(!flags.north_locked);
    flags.north_visible = true;
    assert!(flags.toggle_north_lock());
    assert!(flags.north_locked);
}

#[test]
fn context_menu_marks_follow_the_flags() {
    let mut flags = plain_flags();
    flags.inverted = true;
    let state = flags.context_menu_state(true);
    assert!(state.bisector);
    assert!(state.plus);
    assert!(state.inversion);
    assert!(!state.hypotenuse);
    assert!(!state.distance_plus);
}

use protractor_plus::distance::{DistanceKind, HiddenDistancePanels};
use protractor_plus::features::{HelperChange, HiddenAnglePanels};
use protractor_plus::menu::{
    MENU_BISECTOR, MENU_BOX_PLUS, MENU_COURSE_PLUS, MENU_DISTANCE_PLUS, MENU_FRONT_PLUS,
    MENU_HYPOTENUSE, MENU_INVERSION, MENU_NORTH_PLUS, MENU_PLUS, MENU_PLUS_DEGREES, MENU_XTK_PLUS,
};

fn all_hidden_distances() -> HiddenDistancePanels {
    HiddenDistancePanels {
        base: true,
        left_ray: true,
        right_ray: true,
        hypotenuse: true,
        front_left: true,
        front_right: true,
    }
}

#[test]
fn bisector_command_shows_its_labels() {
    let mut flags = plain_flags();
    let mut angles = HiddenAnglePanels { north: true, helper_yellow: true, course: true, ..Default::default() };
    let mut distances = HiddenDistancePanels::default();
    let effect = flags.toggle_feature(&mut angles, &mut distances, false, MENU_BISECTOR);
    assert!(effect.handled);
    assert!(!flags.bisector_visible);
    assert!(!angles.north);
    assert!(!angles.helper_yellow);
    assert!(angles.course);
}

#[test]
fn plus_command_removes_helper_and_dependents() {
    let mut flags = plain_flags();
    flags.distance_visible = true;
    flags.course_visible = true;
    flags.xtk_visible = true;
    flags.helper_pinned = true;
    let mut angles = HiddenAnglePanels { helper_left: true, course: true, main: true, ..Default::default() };
    let mut distances = all_hidden_distances();
    let effect = flags.toggle_feature(&mut angles, &mut distances, true, MENU_PLUS);
    assert_eq!(effect.helper, HelperChange::Remove);
    assert!(effect.end_distance_edit);
    assert!(!flags.distance_visible && !flags.course_visible && !flags.xtk_visible);
    assert!(!flags.helper_pinned);
    assert!(!angles.helper_left && !angles.course && angles.main);
    assert!(!distances.hidden(DistanceKind::Base));
}

#[test]
fn plus_command_creates_missing_helper() {
    let mut flags = plain_flags();
    let mut angles = HiddenAnglePanels::default();
    let mut distances = HiddenDistancePanels::default();
    let effect = flags.toggle_feature(&mut angles, &mut distances, false, MENU_PLUS);
    assert_eq!(effect.helper, HelperChange::Create);
    assert!(!effect.end_distance_edit);
}

#[test]
fn plus_degrees_command_shows_box_bearings() {
    let mut flags = plain_flags();
    let mut angles = HiddenAnglePanels { helper_delta: true, north: true, ..Default::default() };
    let mut distances = HiddenDistancePanels::default();
    let effect = flags.toggle_feature(&mut angles, &mut distances, true, MENU_PLUS_DEGREES);
    assert!(flags.plus_degrees_visible);
    assert!(effect.show_box_bearing_labels);
    assert!(!effect.show_box_distance_labels);
    assert!(!angles.helper_delta && angles.north);
}

#[test]
fn hypotenuse_and_front_commands_show_their_labels() {
    let mut flags = plain_flags();
    let mut angles = HiddenAnglePanels::default();
    let mut distances = all_hidden_distances();
    flags.toggle_feature(&mut angles, &mut distances, true, MENU_HYPOTENUSE);
    assert!(flags.hypotenuse_visible);
    assert!(!distances.hidden(DistanceKind::Hypotenuse));
    assert!(distances.hidden(DistanceKind::FrontLeft));
    flags.toggle_feature(&mut angles, &mut distances, true, MENU_FRONT_PLUS);
    assert!(flags.front_plus_visible);
    assert!(!distances.hidden(DistanceKind::FrontLeft));
    assert!(!distances.hidden(DistanceKind::FrontRight));
    assert!(distances.hidden(DistanceKind::LeftRay));
}

#[test]
fn distance_command_calibrates_when_turned_on() {
    let mut flags = plain_flags();
    let mut angles = HiddenAnglePanels::default();
    let mut distances = all_hidden_distances();
    let on = flags.toggle_feature(&mut angles, &mut distances, false, MENU_DISTANCE_PLUS);
    assert!(flags.distance_visible);
    assert!(on.calibrate_distance);
    assert_eq!(on.helper, HelperChange::Create);
    assert!(on.show_box_distance_labels);
    assert!(!distances.hidden(DistanceKind::RightRay));
    let off = flags.toggle_feature(&mut angles, &mut distances, true, MENU_DISTANCE_PLUS);
    assert!(!flags.distance_visible);
    assert!(off.end_distance_edit);
    assert!(!off.calibrate_distance);
    assert_eq!(off.helper, HelperChange::Keep);
}

#[test]
fn inversion_twice_restores_and_unknown_is_ignored() {
    let mut flags = plain_flags();
    let mut angles = HiddenAnglePanels::default();
    let mut distances = HiddenDistancePanels::default();
    flags.toggle_feature(&mut angles, &mut distances, false, MENU_INVERSION);
    assert!(flags.inverted);
    flags.toggle_feature(&mut angles, &mut distances, false, MENU_INVERSION);
    assert!(!flags.inverted);
    let effect = flags.toggle_feature(&mut angles, &mut distances, false, 999);
    assert!(!effect.handled);
}

#[test]
fn distance_labels_hide_and_show() {
    let mut distances = HiddenDistancePanels::default();
    distances.hide_label(DistanceKind::LeftRay);
    assert!(distances.hidden(DistanceKind::LeftRay));
    assert!(!distances.hidden(DistanceKind::RightRay));
    distances.show_label(DistanceKind::LeftRay);
    assert!(!distances.hidden(DistanceKind::LeftRay));
    distances.hide_label(DistanceKind::Base);
    distances.clear_all();
    assert!(!distances.hidden(DistanceKind::Base));
}

#[test]
fn angle_labels_shown_follow_features() {
    let mut flags = plain_flags();
    flags.north_visible = true;
    flags.plus_degrees_visible = true;
    let hidden = HiddenAnglePanels { helper_right: true, ..Default::default() };
    let shown = flags.shown_angle_labels(&hidden, true);
    assert!(shown.north);
    assert!(!shown.course);
    assert!(shown.helper_left);
    assert!(!shown.helper_right);
    assert!(shown.helper_yellow);
    assert!(shown.helper_delta);
    let without_helper = flags.shown_angle_labels(&hidden, false);
    assert!(!without_helper.helper_left && !without_helper.helper_delta);
}

#[test]
fn clear_pins_releases_every_pin() {
    let mut flags = plain_flags();
    flags.blue_pinned = true;
    flags.right_red_pinned = true;
    flags.helper_pinned = true;
    flags.angle_locked = true;
    flags.clear_pins();
    assert!(!flags.any_screen_pin());
    assert!(flags.angle_locked);
}

#[test]
fn course_command_shows_north_and_needs_a_helper() {
    let mut flags = plain_flags();
    let mut angles = HiddenAnglePanels { course: true, ..Default::default() };
    let mut distances = HiddenDistancePanels::default();
    let on = flags.toggle_feature(&mut angles, &mut distances, false, MENU_COURSE_PLUS);
    assert!(flags.course_visible && flags.north_visible && !angles.course);
    assert_eq!(on.helper, HelperChange::Create);
    let off = flags.toggle_feature(&mut angles, &mut distances, true, MENU_COURSE_PLUS);
    assert!(!flags.course_visible && flags.north_visible);
    assert_eq!(off.helper, HelperChange::Keep);
}

#[test]
fn north_command_turning_off_hides_the_course() {
    let mut flags = plain_flags();
    flags.north_visible = true;
    flags.course_visible = true;
    let mut angles = HiddenAnglePanels { north: true, course: true, ..Default::default() };
    let mut distances = HiddenDistancePanels::default();
    let effect = flags.toggle_feature(&mut angles, &mut distances, true, MENU_NORTH_PLUS);
    assert!(effect.handled);
    assert!(!flags.north_visible && !flags.course_visible);
    assert!(!angles.north && !angles.course);
    flags.toggle_feature(&mut angles, &mut distances, true, MENU_NORTH_PLUS);
    assert!(flags.north_visible && !flags.course_visible);
}

#[test]
fn xtk_and_box_commands() {
    let mut flags = plain_flags();
    let mut angles = HiddenAnglePanels::default();
    let mut distances = HiddenDistancePanels::default();
    let xtk = flags.toggle_feature(&mut angles, &mut distances, false, MENU_XTK_PLUS);
    assert!(flags.xtk_visible);
    assert_eq!(xtk.helper, HelperChange::Create);
    let boxed = flags.toggle_feature(&mut angles, &mut distances, true, MENU_BOX_PLUS);
    assert!(boxed.handled && boxed.toggle_box);
    assert!(!xtk.toggle_box);
}
