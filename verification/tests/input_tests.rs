use protractor_plus::input::{drag_mode, DragMode};
use protractor_plus::box_path::BoxPanelKind;
use protractor_plus::distance::{DistanceKind, HiddenDistancePanels};
use protractor_plus::features::{HiddenAnglePanels, ToolFlags, HELPER_HANDLE_INDEX};
use protractor_plus::input::{
    handle_at, hide_angle_label, is_double_click, key_action, left_press, menu_action,
    middle_press, wheel_target, AngleLabelHits, ClickMemory, HandleHits, KeyAction, KeyInput,
    MenuAction, MiddleAction, MiddleHits, PressAction, PressHits, WheelHits, WheelTarget,
    WheelTotal, NORTH_HANDLE_INDEX,
};
use protractor_plus::menu::{MENU_CLOSE, MENU_HYPOTENUSE, MENU_MINIMIZE};

fn flags() -> ToolFlags {
    ToolFlags {
        angle_locked: false,
        red_locked_index: None,
        bisector_visible: true,
        plus_degrees_visible: false,
        inverted: false,
        hypotenuse_visible: false,
        front_plus_visible: false,
        xtk_visible: false,
        distance_visible: false,
        north_visible: false,
        north_locked: false,
        course_visible: false,
        blue_pinned: false,
        left_red_pinned: false,
        right_red_pinned: false,
        helper_pinned: false,
        active_handle: None,
    }
}

fn no_handles() -> HandleHits {
    HandleHits { north: false, helper: false, points: [false, false, false] }
}

fn empty_press() -> PressHits {
    PressHits {
        north_lock: false,
        north_handle: false,
        helper_lock: false,
        helper_handle: false,
        red_point: None,
        distance_panel: None,
        red_lock: None,
        blue_lock: false,
        handles: no_handles(),
        over_angle_panel: false,
        over_box_panel: false,
    }
}

fn empty_memory() -> ClickMemory {
    ClickMemory { last_plus: None, last_red: None, last_distance: None }
}

fn no_angle_labels() -> AngleLabelHits {
    AngleLabelHits {
        north: false,
        course: false,
        helper_left: false,
        helper_right: false,
        helper_yellow: false,
        helper_delta: false,
    }
}

fn empty_middle() -> MiddleHits {
    MiddleHits {
        distance_panel: None,
        box_panel: None,
        angle_labels: no_angle_labels(),
        helper_lock: false,
        red_lock: None,
        blue_lock: false,
    }
}

fn empty_wheel() -> WheelHits {
    WheelHits {
        course_label: false,
        north_label: false,
        distance_label: false,
        blue_lock: false,
        red_lock: None,
        main_label: false,
    }
}

#[test]
fn double_click_window_is_450_ms() {
    assert!(is_double_click(1000, 1450));
    assert!(!is_double_click(1000, 1451));
    assert!(is_double_click(2000, 1000));
}

#[test]
fn handle_priority_and_pins() {
    let mut f = flags();
    let hits = HandleHits { north: true, helper: true, points: [true, true, true] };
    assert_eq!(handle_at(&f, true, &hits), Some(HELPER_HANDLE_INDEX));
    f.north_visible = true;
    assert_eq!(handle_at(&f, true, &hits), Some(NORTH_HANDLE_INDEX));
    f.north_locked = true;
    f.helper_pinned = true;
    f.left_red_pinned = true;
    assert_eq!(handle_at(&f, true, &hits), Some(1));
    f.blue_pinned = true;
    assert_eq!(handle_at(&f, true, &hits), Some(2));
    f.right_red_pinned = true;
    assert_eq!(handle_at(&f, true, &hits), None);
}

#[test]
fn helper_double_click_snaps() {
    let mut f = flags();
    let mut m = empty_memory();
    let mut hits = empty_press();
    hits.helper_handle = true;
    assert_eq!(left_press(&mut f, &mut m, &hits, true, false, false, 100), PressAction::Grab);
    assert_eq!(f.active_handle, Some(HELPER_HANDLE_INDEX));
    assert_eq!(m.last_plus, Some(100));
    assert_eq!(left_press(&mut f, &mut m, &hits, true, false, false, 400), PressAction::SnapHelper);
    assert_eq!(f.active_handle, None);
    assert_eq!(m.last_plus, None);
}

#[test]
fn red_point_double_click_needs_same_point() {
    let mut f = flags();
    let mut m = empty_memory();
    let mut hits = empty_press();
    hits.red_point = Some(0);
    assert_eq!(left_press(&mut f, &mut m, &hits, false, false, false, 10), PressAction::Grab);
    assert_eq!(f.active_handle, Some(0));
    hits.red_point = Some(2);
    assert_eq!(left_press(&mut f, &mut m, &hits, false, false, false, 20), PressAction::Grab);
    assert_eq!(m.last_red, Some((2, 20)));
    assert_eq!(left_press(&mut f, &mut m, &hits, false, false, false, 30), PressAction::SnapHypotenuse);
    assert_eq!(m.last_red, None);
}

#[test]
fn pinned_red_point_is_not_grabbed() {
    let mut f = flags();
    f.right_red_pinned = true;
    f.active_handle = Some(1);
    let mut m = empty_memory();
    let mut hits = empty_press();
    hits.red_point = Some(2);
    assert_eq!(left_press(&mut f, &mut m, &hits, false, false, false, 10), PressAction::Grab);
    assert_eq!(f.active_handle, None);
}

#[test]
fn distance_label_double_click_begins_edit() {
    let mut f = flags();
    let mut m = empty_memory();
    let mut hits = empty_press();
    hits.distance_panel = Some(DistanceKind::Base);
    assert_eq!(left_press(&mut f, &mut m, &hits, true, false, false, 0), PressAction::NoteDistanceClick);
    assert_eq!(
        left_press(&mut f, &mut m, &hits, true, false, false, 450),
        PressAction::BeginDistanceEdit(DistanceKind::Base)
    );
}

#[test]
fn lock_buttons_and_open_edit() {
    let mut f = flags();
    let mut m = empty_memory();
    let mut hits = empty_press();
    hits.blue_lock = true;
    assert_eq!(left_press(&mut f, &mut m, &hits, false, true, false, 0), PressAction::CommitDistanceEdit);
    assert_eq!(left_press(&mut f, &mut m, &hits, false, false, false, 0), PressAction::AngleLock(Some(true)));
    assert!(f.angle_locked);
    hits.red_lock = Some(2);
    assert_eq!(left_press(&mut f, &mut m, &hits, false, false, false, 0), PressAction::RedLock(Some(true)));
    assert_eq!(f.red_locked_index, Some(2));
}

#[test]
fn empty_press_drags_or_adds_box_point() {
    let mut f = flags();
    let mut m = empty_memory();
    let mut hits = empty_press();
    assert_eq!(left_press(&mut f, &mut m, &hits, false, false, false, 0), PressAction::Drag);
    assert_eq!(left_press(&mut f, &mut m, &hits, false, false, true, 0), PressAction::BoxPoint { drag: true });
    hits.over_angle_panel = true;
    f.blue_pinned = true;
    assert_eq!(left_press(&mut f, &mut m, &hits, false, false, true, 0), PressAction::Nothing);
}

#[test]
fn north_press_grabs_unless_locked() {
    let mut f = flags();
    f.north_visible = true;
    let mut m = empty_memory();
    let mut hits = empty_press();
    hits.north_handle = true;
    assert_eq!(left_press(&mut f, &mut m, &hits, false, false, false, 0), PressAction::Grab);
    assert_eq!(f.active_handle, Some(NORTH_HANDLE_INDEX));
    hits.north_lock = true;
    assert_eq!(left_press(&mut f, &mut m, &hits, false, false, false, 0), PressAction::NorthLock);
    assert!(f.north_locked);
}

#[test]
fn middle_press_hides_labels_first() {
    let mut f = flags();
    let mut angles = HiddenAnglePanels::default();
    let mut distances = HiddenDistancePanels::default();
    let mut hits = empty_middle();
    hits.distance_panel = Some(DistanceKind::Hypotenuse);
    hits.blue_lock = true;
    let r = middle_press(&mut f, &mut angles, &mut distances, &hits, false, Some(DistanceKind::Hypotenuse));
    assert_eq!(r, MiddleAction::HideDistance { end_edit: true });
    assert!(distances.hidden(DistanceKind::Hypotenuse));
    assert!(!f.blue_pinned);
    hits.distance_panel = None;
    hits.box_panel = Some(BoxPanelKind::Bearing(3));
    let r = middle_press(&mut f, &mut angles, &mut distances, &hits, false, None);
    assert_eq!(r, MiddleAction::HideBoxLabel(BoxPanelKind::Bearing(3)));
    hits.box_panel = None;
    let r = middle_press(&mut f, &mut angles, &mut distances, &hits, false, None);
    assert_eq!(r, MiddleAction::BluePin);
    assert!(f.blue_pinned);
}

#[test]
fn angle_labels_hide_in_order() {
    let mut angles = HiddenAnglePanels::default();
    let mut hits = no_angle_labels();
    hits.north = true;
    hits.helper_left = true;
    assert!(hide_angle_label(&mut angles, &hits));
    assert!(angles.helper_left);
    assert!(!angles.north);
    assert!(!hide_angle_label(&mut angles, &no_angle_labels()));
}

#[test]
fn wheel_targets() {
    let mut f = flags();
    let mut h = empty_wheel();
    assert_eq!(wheel_target(&f, &h), WheelTarget::Nothing);
    h.main_label = true;
    assert_eq!(wheel_target(&f, &h), WheelTarget::Angle);
    h.blue_lock = true;
    f.angle_locked = true;
    assert_eq!(wheel_target(&f, &h), WheelTarget::RedSystem);
    f.red_locked_index = Some(0);
    assert_eq!(wheel_target(&f, &h), WheelTarget::Frozen);
    f.angle_locked = false;
    assert_eq!(wheel_target(&f, &h), WheelTarget::RedPivot(0));
    h.north_label = true;
    f.north_locked = true;
    assert_eq!(wheel_target(&f, &h), WheelTarget::NorthLocked);
    h.course_label = true;
    let t = wheel_target(&f, &h);
    assert_eq!(t, WheelTarget::Course);
    assert_eq!(t.receiving_total(), Some(WheelTotal::Course));
    assert!(t.clears_total(WheelTotal::Angle));
    assert!(!t.clears_total(WheelTotal::Course));
    assert!(WheelTarget::DistanceLabel.clears_total(WheelTotal::North));
    assert!(!WheelTarget::DistanceLabel.clears_total(WheelTotal::Angle));
}

#[test]
fn keys_while_editing_and_not() {
    assert_eq!(key_action(&KeyInput::Enter, true), KeyAction::CommitEdit);
    assert_eq!(key_action(&KeyInput::Escape, true), KeyAction::CancelEdit);
    assert_eq!(key_action(&KeyInput::Backspace, true), KeyAction::BackspaceEdit);
    assert_eq!(key_action(&KeyInput::Text("r".to_string()), true), KeyAction::AppendEdit);
    assert_eq!(key_action(&KeyInput::Escape, false), KeyAction::Exit);
    assert_eq!(key_action(&KeyInput::Text("R".to_string()), false), KeyAction::ResetPoints);
    assert_eq!(key_action(&KeyInput::Text("l".to_string()), false), KeyAction::ToggleAngleLock);
    assert_eq!(key_action(&KeyInput::Text("T".to_string()), false), KeyAction::ToggleClickThrough);
    assert_eq!(key_action(&KeyInput::Text("rr".to_string()), false), KeyAction::Nothing);
    assert_eq!(key_action(&KeyInput::Enter, false), KeyAction::Nothing);
}

#[test]
fn menu_commands() {
    assert_eq!(menu_action(MENU_HYPOTENUSE), MenuAction::Feature(MENU_HYPOTENUSE));
    assert_eq!(menu_action(MENU_MINIMIZE), MenuAction::Minimize);
    assert_eq!(menu_action(MENU_CLOSE), MenuAction::Close);
    assert_eq!(menu_action(77), MenuAction::Nothing);
}

#[test]
fn drag_modes_follow_locks_and_pins() {
    let mut f = flags();
    assert_eq!(drag_mode(&f, 1), DragMode::Translate { helper_follows: true });
    assert_eq!(drag_mode(&f, 0), DragMode::FreeRay);
    assert_eq!(drag_mode(&f, HELPER_HANDLE_INDEX), DragMode::Helper);
    assert_eq!(drag_mode(&f, NORTH_HANDLE_INDEX), DragMode::Blocked);
    f.red_locked_index = Some(2);
    assert_eq!(drag_mode(&f, 1), DragMode::PivotAbout(2));
    f.angle_locked = true;
    assert_eq!(drag_mode(&f, 0), DragMode::CommonLength);
    assert_eq!(drag_mode(&f, 1), DragMode::Translate { helper_follows: true });
    f.red_locked_index = None;
    assert_eq!(drag_mode(&f, 2), DragMode::LockedAngle);
    f.helper_pinned = true;
    assert_eq!(drag_mode(&f, 1), DragMode::Translate { helper_follows: false });
    assert_eq!(drag_mode(&f, HELPER_HANDLE_INDEX), DragMode::Blocked);
    f.left_red_pinned = true;
    assert_eq!(drag_mode(&f, 2), DragMode::Blocked);
    assert_eq!(drag_mode(&f, 1), DragMode::Blocked);
    // The pivot itself may be pinned; the other red point may not.
    assert!(f.may_pivot_about(0));
    assert!(!f.may_pivot_about(2));
    f.left_red_pinned = false;
    f.blue_pinned = true;
    assert!(!f.may_pivot_about(0));
    f.blue_pinned = false;
    f.north_visible = true;
    assert!(f.north_follows());
    assert_eq!(drag_mode(&f, NORTH_HANDLE_INDEX), DragMode::NorthArrow);
}
