//! How the mouse, the wheel and the keyboard act on the protractor: the
//! decisions of the event handlers, given what lies under the cursor. The
//! geometry that finds what lies under the cursor, and the work that a
//! decision asks for, stay with the caller.
use vstd::prelude::*;
use vstd::string::StrSliceExecFns;
use crate::box_path::BoxPanelKind;
use crate::distance::{DistanceKind, HiddenDistancePanels};
use crate::features::{
    angle_lock_toggled, blue_pin_toggled, helper_pin_toggled, north_lock_toggled,
    red_lock_allowed, red_lock_toggled, red_pin_toggled, spec_red_point_pinned,
    HiddenAnglePanels, ToolFlags, HELPER_HANDLE_INDEX,
};
use crate::menu::{
    MENU_BISECTOR, MENU_BOX_PLUS, MENU_CLOSE, MENU_COURSE_PLUS, MENU_DISTANCE_PLUS,
    MENU_FRONT_PLUS, MENU_HYPOTENUSE, MENU_INVERSION, MENU_MINIMIZE, MENU_NORTH_PLUS, MENU_PLUS,
    MENU_PLUS_DEGREES, MENU_XTK_PLUS,
};

verus! {

/// The handle index of the North arrow.
pub const NORTH_HANDLE_INDEX: usize = 4;

/// The longest time, in milliseconds, between the two clicks of a double click.
pub const DOUBLE_CLICK_MS: u64 = 450;

/// Whether a click at `now` follows one at `earlier` closely enough to make
/// a double click (times in milliseconds; a clock that went back counts as
/// no time passed).
pub open spec fn spec_is_double_click(earlier: u64, now: u64) -> bool {
    (if now >= earlier { now - earlier } else { 0 }) <= DOUBLE_CLICK_MS
}

/// Whether a click at `now` follows one at `earlier` closely enough to make
/// a double click.
pub fn is_double_click(earlier: u64, now: u64) -> (b: bool)
    ensures
        b == spec_is_double_click(earlier, now),
{
    now.saturating_sub(earlier) <= DOUBLE_CLICK_MS
}

/// What the pointer tests found under the cursor: the North handle, the
/// helper point, and the three points of the construction (left red, vertex,
/// right red).
#[derive(Clone, Copy, Debug)]
pub struct HandleHits {
    pub north: bool,
    pub helper: bool,
    pub points: [bool; 3],
}

/// The handle that a press grabs: the North handle while North is shown and
/// unlocked, then the helper point unless it is pinned, then the first point
/// that is not pinned.
pub open spec fn spec_handle_at(f: ToolFlags, helper_present: bool, h: HandleHits) -> Option<usize> {
    if f.north_visible && !f.north_locked && h.north {
        Some(NORTH_HANDLE_INDEX)
    } else if helper_present && !f.helper_pinned && h.helper {
        Some(HELPER_HANDLE_INDEX)
    } else if h.points[0] && !f.left_red_pinned {
        Some(0usize)
    } else if h.points[1] && !f.blue_pinned {
        Some(1usize)
    } else if h.points[2] && !f.right_red_pinned {
        Some(2usize)
    } else {
        None
    }
}

/// The handle that a press at the cursor grabs.
pub fn handle_at(f: &ToolFlags, helper_present: bool, h: &HandleHits) -> (r: Option<usize>)
    ensures
        r == spec_handle_at(*f, helper_present, *h),
{
    if f.north_visible && !f.north_locked && h.north {
        Some(NORTH_HANDLE_INDEX)
    } else if helper_present && !f.helper_pinned && h.helper {
        Some(HELPER_HANDLE_INDEX)
    } else if h.points[0] && !f.left_red_pinned {
        Some(0)
    } else if h.points[1] && !f.blue_pinned {
        Some(1)
    } else if h.points[2] && !f.right_red_pinned {
        Some(2)
    } else {
        None
    }
}

/// The clicks remembered for telling double clicks, with their times in
/// milliseconds.
#[derive(Clone, Copy, Debug)]
pub struct ClickMemory {
    /// The last click on the helper point.
    pub last_plus: Option<u64>,
    /// The last click on a red point, and which.
    pub last_red: Option<(usize, u64)>,
    /// The last click on a distance label, and which.
    pub last_distance: Option<(DistanceKind, u64)>,
}

/// What the pointer tests found under the cursor at a press of the left
/// button.
#[derive(Clone, Copy, Debug)]
pub struct PressHits {
    /// The lock button of the North arrow.
    pub north_lock: bool,
    /// The head of the North arrow.
    pub north_handle: bool,
    /// The lock button of the helper point.
    pub helper_lock: bool,
    /// The helper point itself.
    pub helper_handle: bool,
    /// The red point (0 or 2) under the cursor.
    pub red_point: Option<usize>,
    /// The distance label under the cursor.
    pub distance_panel: Option<DistanceKind>,
    /// The lock button of a red point (0 or 2).
    pub red_lock: Option<usize>,
    /// The lock button of the vertex.
    pub blue_lock: bool,
    /// The handles under the cursor.
    pub handles: HandleHits,
    /// An angle label lies under the cursor.
    pub over_angle_panel: bool,
    /// A label of the box path lies under the cursor.
    pub over_box_panel: bool,
}

/// What a press of the left button did, or asks of the caller.
#[derive(Clone, Copy, Debug, PartialEq, Eq, Structural)]
pub enum PressAction {
    /// The North lock was toggled.
    NorthLock,
    /// Only the dragged handle was set or released.
    Grab,
    /// The helper pin was toggled.
    HelperPin,
    /// A double click on the helper point: it is moved onto the middle of the
    /// hypotenuse.
    SnapHelper,
    /// A double click on a red point: the middle of the hypotenuse is moved
    /// onto the helper point.
    SnapHypotenuse,
    /// A first click on a distance label.
    NoteDistanceClick,
    /// A double click on a distance label: its distance is edited.
    BeginDistanceEdit(DistanceKind),
    /// A click elsewhere ends the edit of a distance.
    CommitDistanceEdit,
    /// The lock of a red point was toggled, with the result of
    /// `ToolFlags::toggle_red_lock`.
    RedLock(Option<bool>),
    /// The angle lock was toggled, with the result of
    /// `ToolFlags::toggle_angle_lock`.
    AngleLock(Option<bool>),
    /// The press may add a point to the box path or close it; when it does
    /// not, the window is dragged if `drag` holds.
    BoxPoint { drag: bool },
    /// The window is dragged.
    Drag,
    /// Nothing happens.
    Nothing,
}

/// The flags with the dragged handle set to `h`.
pub open spec fn with_handle(f: ToolFlags, h: Option<usize>) -> ToolFlags {
    ToolFlags { active_handle: h, ..f }
}

/// Whether any point is pinned to the screen.
pub open spec fn spec_any_screen_pin(f: ToolFlags) -> bool {
    f.blue_pinned || f.left_red_pinned || f.right_red_pinned || f.helper_pinned
}

/// A press that lands on none of the North arrow, the helper point, the red
/// points and the distance labels: the flags after it and what it asks.
#[verifier::opaque]
pub open spec fn spec_press_rest(
    f: ToolFlags,
    h: PressHits,
    helper_present: bool,
    editor_open: bool,
    box_visible: bool,
) -> (ToolFlags, PressAction) {
    if editor_open {
        (f, PressAction::CommitDistanceEdit)
    } else if h.red_lock is Some {
        let i = h.red_lock->0;
        (
            red_lock_toggled(f, i),
            PressAction::RedLock(
                if red_lock_allowed(f, i) {
                    Some(f.angle_locked)
                } else {
                    None
                },
            ),
        )
    } else if h.blue_lock {
        (
            angle_lock_toggled(f),
            PressAction::AngleLock(
                if f.blue_pinned {
                    None
                } else {
                    Some(!f.angle_locked)
                },
            ),
        )
    } else {
        let grabbed = spec_handle_at(f, helper_present, h.handles);
        let g = with_handle(f, grabbed);
        if grabbed is Some {
            (g, PressAction::Grab)
        } else if box_visible && !h.over_angle_panel && !h.over_box_panel {
            (g, PressAction::BoxPoint { drag: !spec_any_screen_pin(f) })
        } else if !spec_any_screen_pin(f) {
            (g, PressAction::Drag)
        } else {
            (g, PressAction::Nothing)
        }
    }
}

/// Whether a click on the helper point at `now` is the second of a double
/// click.
pub open spec fn plus_double(m: ClickMemory, now: u64) -> bool {
    match m.last_plus {
        Some(t) => spec_is_double_click(t, now),
        None => false,
    }
}

/// Whether a click on red point `i` at `now` is the second of a double click.
pub open spec fn red_double(m: ClickMemory, i: usize, now: u64) -> bool {
    match m.last_red {
        Some((j, t)) => j == i && spec_is_double_click(t, now),
        None => false,
    }
}

/// Whether a click on the label of `k` at `now` is the second of a double
/// click.
pub open spec fn distance_double(m: ClickMemory, k: DistanceKind, now: u64) -> bool {
    match m.last_distance {
        Some((k2, t)) => k2 == k && spec_is_double_click(t, now),
        None => false,
    }
}

/// A press on red point `i`: a pinned point is not grabbed; a second click
/// soon after one on the same point is a double click.
#[verifier::opaque]
pub open spec fn spec_press_red(f: ToolFlags, m: ClickMemory, i: usize, now: u64) -> (
    ToolFlags,
    ClickMemory,
    PressAction,
) {
    if spec_red_point_pinned(f, i) {
        (with_handle(f, None), m, PressAction::Grab)
    } else if red_double(m, i, now) {
        (with_handle(f, None), ClickMemory { last_red: None, ..m }, PressAction::SnapHypotenuse)
    } else {
        (with_handle(f, Some(i)), ClickMemory { last_red: Some((i, now)), ..m }, PressAction::Grab)
    }
}

/// A press on the distance label of `k`: a second click soon after one on
/// the same label begins the edit.
#[verifier::opaque]
pub open spec fn spec_press_distance(m: ClickMemory, k: DistanceKind, now: u64) -> (
    ClickMemory,
    PressAction,
) {
    if distance_double(m, k, now) {
        (ClickMemory { last_distance: None, ..m }, PressAction::BeginDistanceEdit(k))
    } else {
        (ClickMemory { last_distance: Some((k, now)), ..m }, PressAction::NoteDistanceClick)
    }
}

/// A press that lands on none of the North arrow and the helper point.
#[verifier::opaque]
pub open spec fn spec_press_points(
    f: ToolFlags,
    m: ClickMemory,
    h: PressHits,
    helper_present: bool,
    editor_open: bool,
    box_visible: bool,
    now: u64,
) -> (ToolFlags, ClickMemory, PressAction) {
    if h.red_point is Some {
        spec_press_red(f, m, h.red_point->0, now)
    } else {
        let m2 = ClickMemory { last_red: None, ..m };
        if h.distance_panel is Some {
            let r = spec_press_distance(m2, h.distance_panel->0, now);
            (f, r.0, r.1)
        } else {
            let r = spec_press_rest(f, h, helper_present, editor_open, box_visible);
            (r.0, m2, r.1)
        }
    }
}

/// A press of the left button at `now`: the flags and click memory after it,
/// and what it asks of the caller. The North arrow comes first while it is
/// shown, then the helper point, the red points, the distance labels, an open
/// edit, the lock buttons, the handles, the box path, and last the window.
pub open spec fn spec_left_press(
    f: ToolFlags,
    m: ClickMemory,
    h: PressHits,
    helper_present: bool,
    editor_open: bool,
    box_visible: bool,
    now: u64,
) -> (ToolFlags, ClickMemory, PressAction) {
    if f.north_visible && h.north_lock {
        (north_lock_toggled(f), m, PressAction::NorthLock)
    } else if f.north_visible && h.north_handle {
        (
            with_handle(
                f,
                if f.north_locked {
                    None
                } else {
                    Some(NORTH_HANDLE_INDEX)
                },
            ),
            m,
            PressAction::Grab,
        )
    } else if helper_present && h.helper_lock {
        (helper_pin_toggled(f, true), m, PressAction::HelperPin)
    } else if helper_present && h.helper_handle {
        if plus_double(m, now) {
            (with_handle(f, None), ClickMemory { last_plus: None, ..m }, PressAction::SnapHelper)
        } else {
            (
                with_handle(f, Some(HELPER_HANDLE_INDEX)),
                ClickMemory { last_plus: Some(now), ..m },
                PressAction::Grab,
            )
        }
    } else {
        spec_press_points(
            f,
            ClickMemory { last_plus: None, ..m },
            h,
            helper_present,
            editor_open,
            box_visible,
            now,
        )
    }
}

fn press_rest_in_place(
    f: &mut ToolFlags,
    h: &PressHits,
    helper_present: bool,
    editor_open: bool,
    box_visible: bool,
) -> (a: PressAction)
    ensures
        (*final(f), a) == spec_press_rest(*old(f), *h, helper_present, editor_open, box_visible),
{
    reveal(spec_press_rest);
    if editor_open {
        return PressAction::CommitDistanceEdit;
    }
    if let Some(i) = h.red_lock {
        let r = f.toggle_red_lock(i);
        return PressAction::RedLock(r);
    }
    if h.blue_lock {
        let r = f.toggle_angle_lock();
        return PressAction::AngleLock(r);
    }
    let pinned = f.any_screen_pin();
    let grabbed = handle_at(f, helper_present, &h.handles);
    f.active_handle = grabbed;
    if grabbed.is_some() {
        PressAction::Grab
    } else if box_visible && !h.over_angle_panel && !h.over_box_panel {
        PressAction::BoxPoint { drag: !pinned }
    } else if !pinned {
        PressAction::Drag
    } else {
        PressAction::Nothing
    }
}

fn press_rest(
    f: ToolFlags,
    h: &PressHits,
    helper_present: bool,
    editor_open: bool,
    box_visible: bool,
) -> (r: (ToolFlags, PressAction))
    ensures
        r == spec_press_rest(f, *h, helper_present, editor_open, box_visible),
{
    let mut g = f;
    let a = press_rest_in_place(&mut g, h, helper_present, editor_open, box_visible);
    (g, a)
}

fn press_red(f: ToolFlags, m: ClickMemory, i: usize, now: u64) -> (r: (ToolFlags, ClickMemory, PressAction))
    ensures
        r == spec_press_red(f, m, i, now),
{
    reveal(spec_press_red);
    if f.red_point_pinned(i) {
        return (ToolFlags { active_handle: None, ..f }, m, PressAction::Grab);
    }
    let double = match m.last_red {
        Some((j, t)) => j == i && is_double_click(t, now),
        None => false,
    };
    if double {
        (ToolFlags { active_handle: None, ..f }, ClickMemory { last_red: None, ..m }, PressAction::SnapHypotenuse)
    } else {
        (
            ToolFlags { active_handle: Some(i), ..f },
            ClickMemory { last_red: Some((i, now)), ..m },
            PressAction::Grab,
        )
    }
}

fn press_distance(m: ClickMemory, k: DistanceKind, now: u64) -> (r: (ClickMemory, PressAction))
    ensures
        r == spec_press_distance(m, k, now),
{
    reveal(spec_press_distance);
    let double = match m.last_distance {
        Some((k2, t)) => k2 == k && is_double_click(t, now),
        None => false,
    };
    if double {
        (ClickMemory { last_distance: None, ..m }, PressAction::BeginDistanceEdit(k))
    } else {
        (ClickMemory { last_distance: Some((k, now)), ..m }, PressAction::NoteDistanceClick)
    }
}

fn press_points(
    f: ToolFlags,
    m: ClickMemory,
    h: &PressHits,
    helper_present: bool,
    editor_open: bool,
    box_visible: bool,
    now: u64,
) -> (r: (ToolFlags, ClickMemory, PressAction))
    ensures
        r == spec_press_points(f, m, *h, helper_present, editor_open, box_visible, now),
{
    reveal(spec_press_points);
    if let Some(i) = h.red_point {
        return press_red(f, m, i, now);
    }
    let m2 = ClickMemory { last_red: None, ..m };
    if let Some(k) = h.distance_panel {
        let (m3, a) = press_distance(m2, k, now);
        return (f, m3, a);
    }
    let (f2, a) = press_rest(f, h, helper_present, editor_open, box_visible);
    (f2, m2, a)
}

fn press_values(
    f: ToolFlags,
    m: ClickMemory,
    h: &PressHits,
    helper_present: bool,
    editor_open: bool,
    box_visible: bool,
    now: u64,
) -> (r: (ToolFlags, ClickMemory, PressAction))
    ensures
        r == spec_left_press(f, m, *h, helper_present, editor_open, box_visible, now),
{
    let mut f = f;
    if f.north_visible && h.north_lock {
        f.toggle_north_lock();
        return (f, m, PressAction::NorthLock);
    }
    if f.north_visible && h.north_handle {
        let grabbed = if f.north_locked {
            None
        } else {
            Some(NORTH_HANDLE_INDEX)
        };
        return (ToolFlags { active_handle: grabbed, ..f }, m, PressAction::Grab);
    }
    if helper_present && h.helper_lock {
        f.toggle_helper_pin(true);
        return (f, m, PressAction::HelperPin);
    }
    if helper_present && h.helper_handle {
        let double = match m.last_plus {
            Some(t) => is_double_click(t, now),
            None => false,
        };
        if double {
            return (
                ToolFlags { active_handle: None, ..f },
                ClickMemory { last_plus: None, ..m },
                PressAction::SnapHelper,
            );
        }
        return (
            ToolFlags { active_handle: Some(HELPER_HANDLE_INDEX), ..f },
            ClickMemory { last_plus: Some(now), ..m },
            PressAction::Grab,
        );
    }
    press_points(f, ClickMemory { last_plus: None, ..m }, h, helper_present, editor_open, box_visible, now)
}

/// A press of the left button at `now` (milliseconds), given what lies
/// under the cursor, whether the helper point exists, whether a distance is
/// being edited and whether the box path is shown. Locks, pins and the
/// dragged handle change here; the rest is asked of the caller.
pub fn left_press(
    f: &mut ToolFlags,
    m: &mut ClickMemory,
    h: &PressHits,
    helper_present: bool,
    editor_open: bool,
    box_visible: bool,
    now: u64,
) -> (a: PressAction)
    ensures
        (*final(f), *final(m), a) == spec_left_press(
            *old(f),
            *old(m),
            *h,
            helper_present,
            editor_open,
            box_visible,
            now,
        ),
{
    let (f2, m2, a) = press_values(*f, *m, h, helper_present, editor_open, box_visible, now);
    *f = f2;
    *m = m2;
    a
}

/// The angle labels under the cursor; a label that is not shown is never
/// under it.
#[derive(Clone, Copy, Debug)]
pub struct AngleLabelHits {
    pub north: bool,
    pub course: bool,
    pub helper_left: bool,
    pub helper_right: bool,
    pub helper_yellow: bool,
    pub helper_delta: bool,
}

/// The hidden angle labels after a click on the labels `h`: the first hit
/// of the helper's difference, yellow, right and left labels, the course label
/// and the North label is hidden; `None` when none is hit. The label of the
/// main angle is never hidden.
pub open spec fn spec_hide_angle_label(a: HiddenAnglePanels, h: AngleLabelHits) -> Option<HiddenAnglePanels> {
    if h.helper_delta {
        Some(HiddenAnglePanels { helper_delta: true, ..a })
    } else if h.helper_yellow {
        Some(HiddenAnglePanels { helper_yellow: true, ..a })
    } else if h.helper_right {
        Some(HiddenAnglePanels { helper_right: true, ..a })
    } else if h.helper_left {
        Some(HiddenAnglePanels { helper_left: true, ..a })
    } else if h.course {
        Some(HiddenAnglePanels { course: true, ..a })
    } else if h.north {
        Some(HiddenAnglePanels { north: true, ..a })
    } else {
        None
    }
}

/// Hides the first angle label that a click hits. Returns whether one was
/// hit.
pub fn hide_angle_label(a: &mut HiddenAnglePanels, h: &AngleLabelHits) -> (hit: bool)
    ensures
        hit == spec_hide_angle_label(*old(a), *h) is Some,
        hit ==> *final(a) == spec_hide_angle_label(*old(a), *h)->0,
        !hit ==> *final(a) == *old(a),
{
    if h.helper_delta {
        a.helper_delta = true;
    } else if h.helper_yellow {
        a.helper_yellow = true;
    } else if h.helper_right {
        a.helper_right = true;
    } else if h.helper_left {
        a.helper_left = true;
    } else if h.course {
        a.course = true;
    } else if h.north {
        a.north = true;
    } else {
        return false;
    }
    true
}

/// What the pointer tests found under the cursor at a press of the middle
/// button.
#[derive(Clone, Copy, Debug)]
pub struct MiddleHits {
    /// The distance label under the cursor.
    pub distance_panel: Option<DistanceKind>,
    /// The label of the box path under the cursor.
    pub box_panel: Option<BoxPanelKind>,
    /// The angle labels under the cursor.
    pub angle_labels: AngleLabelHits,
    /// The lock button of the helper point.
    pub helper_lock: bool,
    /// The lock button of a red point (0 or 2).
    pub red_lock: Option<usize>,
    /// The lock button of the vertex.
    pub blue_lock: bool,
}

/// What a press of the middle button did, or asks of the caller.
#[derive(Clone, Copy, Debug, PartialEq, Eq, Structural)]
pub enum MiddleAction {
    /// A distance label was hidden; its edit, if it was being edited, ends.
    HideDistance { end_edit: bool },
    /// The label of the box path is to be hidden.
    HideBoxLabel(BoxPanelKind),
    /// An angle label was hidden.
    HideAngle,
    /// The helper pin was toggled.
    HelperPin,
    /// The pin of a red point was toggled.
    RedPin,
    /// The vertex pin was toggled.
    BluePin,
    /// Nothing happens.
    Nothing,
}

/// A press of the middle button: the flags, hidden angle labels and hidden
/// distance labels after it, and what it asks. Labels come first (distance,
/// box, angle), then the pin buttons (helper, red, vertex).
pub open spec fn spec_middle_press(
    f: ToolFlags,
    a: HiddenAnglePanels,
    d: HiddenDistancePanels,
    h: MiddleHits,
    helper_present: bool,
    editing: Option<DistanceKind>,
) -> (ToolFlags, HiddenAnglePanels, HiddenDistancePanels, MiddleAction) {
    if h.distance_panel is Some {
        let k = h.distance_panel->0;
        (f, a, d.with_hidden(k, true), MiddleAction::HideDistance { end_edit: editing == Some(k) })
    } else if h.box_panel is Some {
        (f, a, d, MiddleAction::HideBoxLabel(h.box_panel->0))
    } else if spec_hide_angle_label(a, h.angle_labels) is Some {
        (f, spec_hide_angle_label(a, h.angle_labels)->0, d, MiddleAction::HideAngle)
    } else if helper_present && h.helper_lock {
        (helper_pin_toggled(f, true), a, d, MiddleAction::HelperPin)
    } else if h.red_lock is Some {
        (red_pin_toggled(f, h.red_lock->0), a, d, MiddleAction::RedPin)
    } else if h.blue_lock {
        (blue_pin_toggled(f), a, d, MiddleAction::BluePin)
    } else {
        (f, a, d, MiddleAction::Nothing)
    }
}

fn middle_pins(f: &mut ToolFlags, h: &MiddleHits, helper_present: bool) -> (r: MiddleAction)
    ensures
        helper_present && h.helper_lock ==> *final(f) == helper_pin_toggled(*old(f), true) && r
            == MiddleAction::HelperPin,
        !(helper_present && h.helper_lock) && h.red_lock is Some ==> *final(f) == red_pin_toggled(
            *old(f),
            h.red_lock->0,
        ) && r == MiddleAction::RedPin,
        !(helper_present && h.helper_lock) && h.red_lock is None && h.blue_lock ==> *final(f)
            == blue_pin_toggled(*old(f)) && r == MiddleAction::BluePin,
        !(helper_present && h.helper_lock) && h.red_lock is None && !h.blue_lock ==> *final(f)
            == *old(f) && r == MiddleAction::Nothing,
{
    if helper_present && h.helper_lock {
        f.toggle_helper_pin(true);
        MiddleAction::HelperPin
    } else if let Some(i) = h.red_lock {
        f.toggle_red_pin(i);
        MiddleAction::RedPin
    } else if h.blue_lock {
        f.toggle_blue_pin();
        MiddleAction::BluePin
    } else {
        MiddleAction::Nothing
    }
}

fn middle_values(
    f: ToolFlags,
    a: HiddenAnglePanels,
    d: HiddenDistancePanels,
    h: &MiddleHits,
    helper_present: bool,
    editing: Option<DistanceKind>,
) -> (r: (ToolFlags, HiddenAnglePanels, HiddenDistancePanels, MiddleAction))
    ensures
        r == spec_middle_press(f, a, d, *h, helper_present, editing),
{
    if let Some(k) = h.distance_panel {
        let mut d2 = d;
        d2.hide_label(k);
        let end_edit = match editing {
            Some(e) => e == k,
            None => false,
        };
        return (f, a, d2, MiddleAction::HideDistance { end_edit });
    }
    if let Some(kind) = h.box_panel {
        return (f, a, d, MiddleAction::HideBoxLabel(kind));
    }
    let mut a2 = a;
    if hide_angle_label(&mut a2, &h.angle_labels) {
        return (f, a2, d, MiddleAction::HideAngle);
    }
    let mut f2 = f;
    let act = middle_pins(&mut f2, h, helper_present);
    (f2, a, d, act)
}

/// A press of the middle button, given what lies under the cursor, whether
/// the helper point exists and which distance is being edited, if any. Pins
/// and hidden labels change here; the rest is asked of the caller.
pub fn middle_press(
    f: &mut ToolFlags,
    angles: &mut HiddenAnglePanels,
    distances: &mut HiddenDistancePanels,
    h: &MiddleHits,
    helper_present: bool,
    editing: Option<DistanceKind>,
) -> (r: MiddleAction)
    ensures
        (*final(f), *final(angles), *final(distances), r) == spec_middle_press(
            *old(f),
            *old(angles),
            *old(distances),
            *h,
            helper_present,
            editing,
        ),
{
    let (f2, a2, d2, act) = middle_values(*f, *angles, *distances, h, helper_present, editing);
    *f = f2;
    *angles = a2;
    *distances = d2;
    act
}

/// What lies under the cursor when the wheel turns.
#[derive(Clone, Copy, Debug)]
pub struct WheelHits {
    /// The course label.
    pub course_label: bool,
    /// The North label.
    pub north_label: bool,
    /// A distance label.
    pub distance_label: bool,
    /// The lock button of the vertex.
    pub blue_lock: bool,
    /// The lock button of a red point (0 or 2).
    pub red_lock: Option<usize>,
    /// The label of the main angle.
    pub main_label: bool,
}

/// What a turn of the wheel acts on.
#[derive(Clone, Copy, Debug, PartialEq, Eq, Structural)]
pub enum WheelTarget {
    /// The course bearing turns.
    Course,
    /// North turns.
    North,
    /// The North label while North is locked: nothing turns.
    NorthLocked,
    /// A distance label: nothing turns.
    DistanceLabel,
    /// Both locks are closed: nothing turns.
    Frozen,
    /// The construction turns about the locked red point.
    RedPivot(usize),
    /// The red points turn about the vertex.
    RedSystem,
    /// The angle opens or closes.
    Angle,
    /// Nothing under the cursor.
    Nothing,
}

/// What a turn of the wheel acts on: the course and North labels first, then
/// the distance labels; with both locks closed nothing turns; with a red lock
/// closed, the vertex lock button or that red point's lock button turns the
/// construction about the red point; with the angle locked the vertex lock
/// button turns the red points; last the label of the angle.
pub open spec fn spec_wheel_target(f: ToolFlags, h: WheelHits) -> WheelTarget {
    if h.course_label {
        WheelTarget::Course
    } else if h.north_label {
        if f.north_locked {
            WheelTarget::NorthLocked
        } else {
            WheelTarget::North
        }
    } else if h.distance_label {
        WheelTarget::DistanceLabel
    } else if f.angle_locked && f.red_locked_index is Some {
        WheelTarget::Frozen
    } else if f.red_locked_index is Some && (h.blue_lock || h.red_lock == f.red_locked_index) {
        WheelTarget::RedPivot(f.red_locked_index->0)
    } else if f.angle_locked && h.blue_lock {
        WheelTarget::RedSystem
    } else if h.main_label {
        WheelTarget::Angle
    } else {
        WheelTarget::Nothing
    }
}

/// What a turn of the wheel acts on.
pub fn wheel_target(f: &ToolFlags, h: &WheelHits) -> (t: WheelTarget)
    ensures
        t == spec_wheel_target(*f, *h),
{
    if h.course_label {
        return WheelTarget::Course;
    }
    if h.north_label {
        return if f.north_locked {
            WheelTarget::NorthLocked
        } else {
            WheelTarget::North
        };
    }
    if h.distance_label {
        return WheelTarget::DistanceLabel;
    }
    if f.both_locks_closed() {
        return WheelTarget::Frozen;
    }
    if let Some(r) = f.red_locked_index {
        let over_active = match h.red_lock {
            Some(i) => i == r,
            None => false,
        };
        if h.blue_lock || over_active {
            // With the angle lock also closed this was caught above.
            return if f.angle_locked {
                WheelTarget::Frozen
            } else {
                WheelTarget::RedPivot(r)
            };
        }
    }
    if f.angle_locked && h.blue_lock {
        return WheelTarget::RedSystem;
    }
    if h.main_label {
        WheelTarget::Angle
    } else {
        WheelTarget::Nothing
    }
}

/// The running totals of wheel movement, one per thing the wheel turns.
#[derive(Clone, Copy, Debug, PartialEq, Eq, Structural)]
pub enum WheelTotal {
    Angle,
    Rotation,
    North,
    Course,
}

/// The total that a turn of the wheel on `t` adds to, if any.
pub open spec fn spec_receiving_total(t: WheelTarget) -> Option<WheelTotal> {
    match t {
        WheelTarget::Course => Some(WheelTotal::Course),
        WheelTarget::North => Some(WheelTotal::North),
        WheelTarget::RedPivot(_) => Some(WheelTotal::Rotation),
        WheelTarget::RedSystem => Some(WheelTotal::Rotation),
        WheelTarget::Angle => Some(WheelTotal::Angle),
        _ => None,
    }
}

/// Whether a turn of the wheel on `t` sets total `k` back to zero: every
/// total other than the receiving one is cleared, except that a distance
/// label clears only North, and both locks closed or a turn about a lock
/// leave the course total.
pub open spec fn spec_clears_total(t: WheelTarget, k: WheelTotal) -> bool {
    match t {
        WheelTarget::Course => k != WheelTotal::Course,
        WheelTarget::North => k != WheelTotal::North,
        WheelTarget::NorthLocked => true,
        WheelTarget::DistanceLabel => k == WheelTotal::North,
        WheelTarget::Frozen => k != WheelTotal::Course,
        WheelTarget::RedPivot(_) => k == WheelTotal::North || k == WheelTotal::Angle,
        WheelTarget::RedSystem => k == WheelTotal::North || k == WheelTotal::Angle,
        WheelTarget::Angle => k == WheelTotal::North || k == WheelTotal::Rotation,
        WheelTarget::Nothing => true,
    }
}

impl WheelTarget {
    /// The total that a turn of the wheel adds to, if any.
    pub fn receiving_total(&self) -> (r: Option<WheelTotal>)
        ensures
            r == spec_receiving_total(*self),
    {
        match self {
            WheelTarget::Course => Some(WheelTotal::Course),
            WheelTarget::North => Some(WheelTotal::North),
            WheelTarget::RedPivot(_) => Some(WheelTotal::Rotation),
            WheelTarget::RedSystem => Some(WheelTotal::Rotation),
            WheelTarget::Angle => Some(WheelTotal::Angle),
            _ => None,
        }
    }

    /// Whether the turn sets total `k` back to zero.
    pub fn clears_total(&self, k: WheelTotal) -> (b: bool)
        ensures
            b == spec_clears_total(*self, k),
    {
        match self {
            WheelTarget::Course => k != WheelTotal::Course,
            WheelTarget::North => k != WheelTotal::North,
            WheelTarget::NorthLocked => true,
            WheelTarget::DistanceLabel => k == WheelTotal::North,
            WheelTarget::Frozen => k != WheelTotal::Course,
            WheelTarget::RedPivot(_) => k == WheelTotal::North || k == WheelTotal::Angle,
            WheelTarget::RedSystem => k == WheelTotal::North || k == WheelTotal::Angle,
            WheelTarget::Angle => k == WheelTotal::North || k == WheelTotal::Rotation,
            WheelTarget::Nothing => true,
        }
    }
}

/// With both locks closed the wheel turns nothing, whatever lies under the
/// cursor besides the course, North and distance labels.
pub proof fn lemma_locked_wheel_turns_nothing(f: ToolFlags, h: WheelHits)
    requires
        f.angle_locked,
        f.red_locked_index is Some,
        !h.course_label,
        !h.north_label,
    ensures
        spec_receiving_total(spec_wheel_target(f, h)) is None,
{
}

/// The total that a turn adds to is never cleared by it.
pub proof fn lemma_receiving_total_kept(t: WheelTarget)
    ensures
        spec_receiving_total(t) matches Some(k) ==> !spec_clears_total(t, k),
{
}

/// A key pressed on the keyboard.
#[derive(Clone, Debug)]
pub enum KeyInput {
    Enter,
    Escape,
    Backspace,
    /// A key that types text.
    Text(String),
    /// Any other key.
    Other,
}

/// What a key press asks.
#[derive(Clone, Copy, Debug, PartialEq, Eq, Structural)]
pub enum KeyAction {
    /// The typed distance is applied.
    CommitEdit,
    /// The edit is dropped.
    CancelEdit,
    /// The last typed character is removed.
    BackspaceEdit,
    /// The text is typed into the edit.
    AppendEdit,
    /// The program ends.
    Exit,
    /// The points go back to their starting places.
    ResetPoints,
    /// The angle lock is toggled.
    ToggleAngleLock,
    /// Clicks pass through the window, or stop passing through.
    ToggleClickThrough,
    Nothing,
}

/// Whether `t` is the one character `lower` or `upper`.
pub open spec fn is_letter_key(t: Seq<char>, lower: char, upper: char) -> bool {
    t == seq![lower] || t == seq![upper]
}

/// What a key press asks: while a distance is edited, Enter, Escape,
/// Backspace and typed text act on the edit and nothing else; otherwise
/// Escape ends the program and R, L and T (either case) reset the points,
/// toggle the angle lock and toggle click-through.
pub open spec fn spec_key_action(key: KeyInput, editing: bool) -> KeyAction {
    if editing {
        match key {
            KeyInput::Enter => KeyAction::CommitEdit,
            KeyInput::Escape => KeyAction::CancelEdit,
            KeyInput::Backspace => KeyAction::BackspaceEdit,
            KeyInput::Text(_) => KeyAction::AppendEdit,
            KeyInput::Other => KeyAction::Nothing,
        }
    } else {
        match key {
            KeyInput::Escape => KeyAction::Exit,
            KeyInput::Text(t) => if is_letter_key(t@, 'r', 'R') {
                KeyAction::ResetPoints
            } else if is_letter_key(t@, 'l', 'L') {
                KeyAction::ToggleAngleLock
            } else if is_letter_key(t@, 't', 'T') {
                KeyAction::ToggleClickThrough
            } else {
                KeyAction::Nothing
            },
            _ => KeyAction::Nothing,
        }
    }
}

/// Whether `t` is the one character `lower` or `upper`.
fn letter_key(t: &str, lower: char, upper: char) -> (b: bool)
    ensures
        b == is_letter_key(t@, lower, upper),
{
    if t.unicode_len() != 1 {
        return false;
    }
    let c = t.get_char(0);
    let b = c == lower || c == upper;
    proof {
        if b {
            if c == lower {
                assert(t@ =~= seq![lower]);
            } else {
                assert(t@ =~= seq![upper]);
            }
        }
    }
    b
}

/// What a key press asks, given whether a distance is being edited.
pub fn key_action(key: &KeyInput, editing: bool) -> (a: KeyAction)
    ensures
        a == spec_key_action(*key, editing),
{
    if editing {
        match key {
            KeyInput::Enter => KeyAction::CommitEdit,
            KeyInput::Escape => KeyAction::CancelEdit,
            KeyInput::Backspace => KeyAction::BackspaceEdit,
            KeyInput::Text(_) => KeyAction::AppendEdit,
            KeyInput::Other => KeyAction::Nothing,
        }
    } else {
        match key {
            KeyInput::Escape => KeyAction::Exit,
            KeyInput::Text(t) => {
                if letter_key(t.as_str(), 'r', 'R') {
                    KeyAction::ResetPoints
                } else if letter_key(t.as_str(), 'l', 'L') {
                    KeyAction::ToggleAngleLock
                } else if letter_key(t.as_str(), 't', 'T') {
                    KeyAction::ToggleClickThrough
                } else {
                    KeyAction::Nothing
                }
            },
            _ => KeyAction::Nothing,
        }
    }
}

/// What a command chosen in the context menu asks.
#[derive(Clone, Copy, Debug, PartialEq, Eq, Structural)]
pub enum MenuAction {
    /// A feature is toggled with `ToolFlags::toggle_feature`.
    Feature(u32),
    /// The window is minimized.
    Minimize,
    /// The program ends.
    Close,
    Nothing,
}

/// Whether `command` toggles a feature.
pub open spec fn is_feature_command(command: u32) -> bool {
    command == MENU_BISECTOR || command == MENU_PLUS || command == MENU_PLUS_DEGREES
        || command == MENU_INVERSION || command == MENU_HYPOTENUSE || command == MENU_FRONT_PLUS
        || command == MENU_DISTANCE_PLUS || command == MENU_COURSE_PLUS || command == MENU_XTK_PLUS
        || command == MENU_BOX_PLUS || command == MENU_NORTH_PLUS
}

/// What a command chosen in the context menu asks.
pub fn menu_action(command: u32) -> (a: MenuAction)
    ensures
        a == (if is_feature_command(command) {
            MenuAction::Feature(command)
        } else if command == MENU_MINIMIZE {
            MenuAction::Minimize
        } else if command == MENU_CLOSE {
            MenuAction::Close
        } else {
            MenuAction::Nothing
        }),
{
    if command == MENU_BISECTOR || command == MENU_PLUS || command == MENU_PLUS_DEGREES
        || command == MENU_INVERSION || command == MENU_HYPOTENUSE || command == MENU_FRONT_PLUS
        || command == MENU_DISTANCE_PLUS || command == MENU_COURSE_PLUS || command == MENU_XTK_PLUS
        || command == MENU_BOX_PLUS || command == MENU_NORTH_PLUS {
        MenuAction::Feature(command)
    } else if command == MENU_MINIMIZE {
        MenuAction::Minimize
    } else if command == MENU_CLOSE {
        MenuAction::Close
    } else {
        MenuAction::Nothing
    }
}

/// Whether point `i` of the construction (0 to 2) is pinned to the screen.
pub open spec fn spec_point_pinned(f: ToolFlags, i: usize) -> bool {
    if i == 1 {
        f.blue_pinned
    } else {
        spec_red_point_pinned(f, i)
    }
}

/// A press of the left button never grabs a pinned point of the
/// construction, nor a locked North arrow (a red point under the cursor is
/// one of the two red points).
pub proof fn lemma_press_grabs_nothing_pinned(
    f: ToolFlags,
    m: ClickMemory,
    h: PressHits,
    helper_present: bool,
    editor_open: bool,
    box_visible: bool,
    now: u64,
)
    requires
        h.red_point matches Some(i) ==> i == 0 || i == 2,
    ensures
        ({
            let r = spec_left_press(f, m, h, helper_present, editor_open, box_visible, now);
            r.2 == PressAction::Grab && r.0.active_handle is Some ==> {
                let i = r.0.active_handle->0;
                &&& i < 3 ==> !spec_point_pinned(r.0, i)
                &&& i == NORTH_HANDLE_INDEX ==> !r.0.north_locked
            }
        }),
{
    reveal(spec_press_points);
    reveal(spec_press_red);
    reveal(spec_press_distance);
    reveal(spec_press_rest);
}

/// How dragging a handle moves the construction.
#[derive(Clone, Copy, Debug, PartialEq, Eq, Structural)]
pub enum DragMode {
    /// North points at the cursor.
    NorthArrow,
    /// The vertex and the other red point turn about the locked red point.
    PivotAbout(usize),
    /// The whole construction moves with the vertex; the helper point too
    /// when `helper_follows`.
    Translate { helper_follows: bool },
    /// The helper point follows the cursor.
    Helper,
    /// Both rays keep their directions and take the cursor's distance.
    CommonLength,
    /// The dragged red point follows the cursor; the other keeps its
    /// direction and takes the same distance.
    FreeRay,
    /// The dragged red point follows the cursor; the other keeps the locked
    /// angle to it.
    LockedAngle,
    /// Nothing moves.
    Blocked,
}

/// How dragging handle `index` moves the construction: North while shown and
/// unlocked; the vertex turns about a locked red point while the angle is
/// unlocked, and otherwise carries everything along unless a point is pinned;
/// the helper point unless pinned; a red point, unless one is pinned, keeps
/// both directions with both locks closed, moves freely with the angle
/// unlocked, and otherwise keeps the locked angle.
pub open spec fn spec_drag_mode(f: ToolFlags, index: usize) -> DragMode {
    if index == NORTH_HANDLE_INDEX {
        if f.north_visible && !f.north_locked {
            DragMode::NorthArrow
        } else {
            DragMode::Blocked
        }
    } else if index == 1 {
        if f.blue_pinned {
            DragMode::Blocked
        } else if f.red_locked_index is Some && !f.angle_locked {
            let r = f.red_locked_index->0;
            if spec_red_point_pinned(f, if r == 0 { 2usize } else { 0usize }) {
                DragMode::Blocked
            } else {
                DragMode::PivotAbout(r)
            }
        } else if f.left_red_pinned || f.right_red_pinned {
            DragMode::Blocked
        } else {
            DragMode::Translate { helper_follows: !f.helper_pinned }
        }
    } else if index == HELPER_HANDLE_INDEX {
        if f.helper_pinned {
            DragMode::Blocked
        } else {
            DragMode::Helper
        }
    } else if f.left_red_pinned || f.right_red_pinned {
        DragMode::Blocked
    } else if f.angle_locked && f.red_locked_index is Some {
        DragMode::CommonLength
    } else if !f.angle_locked {
        DragMode::FreeRay
    } else {
        DragMode::LockedAngle
    }
}

/// How dragging handle `index` moves the construction.
pub fn drag_mode(f: &ToolFlags, index: usize) -> (m: DragMode)
    ensures
        m == spec_drag_mode(*f, index),
{
    if index == NORTH_HANDLE_INDEX {
        return if f.north_follows() {
            DragMode::NorthArrow
        } else {
            DragMode::Blocked
        };
    }
    if index == 1 {
        if f.blue_pinned {
            return DragMode::Blocked;
        }
        if let Some(r) = f.red_locked_index {
            if !f.angle_locked {
                let other: usize = if r == 0 { 2 } else { 0 };
                return if f.red_point_pinned(other) {
                    DragMode::Blocked
                } else {
                    DragMode::PivotAbout(r)
                };
            }
        }
        return if f.any_red_pinned() {
            DragMode::Blocked
        } else {
            DragMode::Translate { helper_follows: !f.helper_pinned }
        };
    }
    if index == HELPER_HANDLE_INDEX {
        return if f.helper_pinned {
            DragMode::Blocked
        } else {
            DragMode::Helper
        };
    }
    if f.any_red_pinned() {
        DragMode::Blocked
    } else if f.both_locks_closed() {
        DragMode::CommonLength
    } else if !f.angle_locked {
        DragMode::FreeRay
    } else {
        DragMode::LockedAngle
    }
}

/// Dragging never moves a pinned point: a pinned vertex blocks its own drag
/// and a pinned red point blocks every drag of the red points and every
/// translation.
pub proof fn lemma_drag_respects_pins(f: ToolFlags, index: usize)
    ensures
        index == 1 && f.blue_pinned ==> spec_drag_mode(f, index) == DragMode::Blocked,
        (index == 0 || index == 2) && (f.left_red_pinned || f.right_red_pinned) ==> spec_drag_mode(
            f,
            index,
        ) == DragMode::Blocked,
        index == HELPER_HANDLE_INDEX && f.helper_pinned ==> spec_drag_mode(f, index)
            == DragMode::Blocked,
        spec_drag_mode(f, index) matches DragMode::Translate { .. } ==> !f.left_red_pinned
            && !f.right_red_pinned && !f.blue_pinned,
{
}

/// The label of the main angle is permanent: a middle click never hides it,
/// and hides at most one other label.
pub proof fn lemma_main_label_permanent(a: HiddenAnglePanels, h: AngleLabelHits)
    ensures
        spec_hide_angle_label(a, h) matches Some(b) ==> b.main == a.main && ({
            let changed = (if b.north != a.north { 1int } else { 0 }) + (if b.course != a.course {
                1int
            } else {
                0
            }) + (if b.helper_left != a.helper_left { 1int } else { 0 }) + (if b.helper_right
                != a.helper_right {
                1int
            } else {
                0
            }) + (if b.helper_yellow != a.helper_yellow { 1int } else { 0 }) + (if b.helper_delta
                != a.helper_delta {
                1int
            } else {
                0
            });
            changed <= 1
        }),
{
}

/// A turn of the wheel over a label reaches that label before anything else:
/// the course label turns the course, the North label turns North unless
/// North is locked, a distance label turns nothing.
pub proof fn lemma_wheel_labels_first(f: ToolFlags, h: WheelHits)
    ensures
        h.course_label ==> spec_wheel_target(f, h) == WheelTarget::Course,
        !h.course_label && h.north_label ==> spec_wheel_target(f, h) == (if f.north_locked {
            WheelTarget::NorthLocked
        } else {
            WheelTarget::North
        }),
        !h.course_label && !h.north_label && h.distance_label ==> spec_wheel_target(f, h)
            == WheelTarget::DistanceLabel,
{
}

/// With the lock of red point `r` closed and the angle unlocked, a turn of
/// the wheel over the vertex lock button or over the lock button of `r`
/// (and over no course, North or distance label) turns the construction
/// about `r`; over the lock button of the other red point it does not.
pub proof fn lemma_wheel_turns_about_locked_red(f: ToolFlags, h: WheelHits, r: usize)
    requires
        f.red_locked_index == Some(r),
        !f.angle_locked,
        !h.course_label,
        !h.north_label,
        !h.distance_label,
    ensures
        h.red_lock == Some(r) ==> spec_wheel_target(f, h) == WheelTarget::RedPivot(r),
        h.blue_lock ==> spec_wheel_target(f, h) == WheelTarget::RedPivot(r),
        !h.blue_lock && h.red_lock != Some(r) ==> spec_wheel_target(f, h) == (if h.main_label {
            WheelTarget::Angle
        } else {
            WheelTarget::Nothing
        }),
{
}

/// With the angle locked and no red lock, a turn over the vertex lock button
/// turns the red points about the vertex; with no lock closed at all, only
/// the label of the angle takes the wheel (after the course, North and
/// distance labels).
pub proof fn lemma_wheel_without_red_lock(f: ToolFlags, h: WheelHits)
    requires
        f.red_locked_index is None,
        !h.course_label,
        !h.north_label,
        !h.distance_label,
    ensures
        f.angle_locked && h.blue_lock ==> spec_wheel_target(f, h) == WheelTarget::RedSystem,
        !f.angle_locked ==> spec_wheel_target(f, h) == (if h.main_label {
            WheelTarget::Angle
        } else {
            WheelTarget::Nothing
        }),
{
}

/// What each way of dragging needs and moves. North follows the cursor only
/// while shown and unlocked. The vertex turns the construction about the
/// locked red point exactly when the angle is unlocked and neither the vertex
/// nor the other red point is pinned; it carries the construction along
/// exactly when no red lock turns it and none of the vertex and the red
/// points is pinned, taking the helper point along unless that is pinned.
/// The helper point moves unless pinned. A red point moves only when no red
/// point is pinned: keeping both directions with both locks closed, freely
/// with the angle unlocked, and keeping the locked angle otherwise.
pub proof fn lemma_drag_modes(f: ToolFlags, index: usize)
    ensures
        index == NORTH_HANDLE_INDEX ==> (spec_drag_mode(f, index) == DragMode::NorthArrow
            <==> f.north_visible && !f.north_locked),
        index == 1 ==> (spec_drag_mode(f, index) == DragMode::PivotAbout(0) <==> (
        f.red_locked_index == Some(0usize) && !f.angle_locked && !f.blue_pinned
            && !f.right_red_pinned)),
        index == 1 ==> (spec_drag_mode(f, index) == DragMode::PivotAbout(2) <==> (
        f.red_locked_index == Some(2usize) && !f.angle_locked && !f.blue_pinned
            && !f.left_red_pinned)),
        spec_drag_mode(f, index) matches DragMode::PivotAbout(r) ==> index == 1
            && f.red_locked_index == Some(r) && !f.angle_locked && !f.blue_pinned,
        index == 1 && (f.red_locked_index is None || f.angle_locked) ==> spec_drag_mode(f, index)
            == (if f.blue_pinned || f.left_red_pinned || f.right_red_pinned {
            DragMode::Blocked
        } else {
            DragMode::Translate { helper_follows: !f.helper_pinned }
        }),
        index == HELPER_HANDLE_INDEX ==> spec_drag_mode(f, index) == (if f.helper_pinned {
            DragMode::Blocked
        } else {
            DragMode::Helper
        }),
        index == 0 || index == 2 ==> spec_drag_mode(f, index) == (if f.left_red_pinned
            || f.right_red_pinned {
            DragMode::Blocked
        } else if f.angle_locked && f.red_locked_index is Some {
            DragMode::CommonLength
        } else if !f.angle_locked {
            DragMode::FreeRay
        } else {
            DragMode::LockedAngle
        }),
{
}

/// Whether a press at `now` follows the click remembered at `last` closely
/// enough to make a double click.
pub open spec fn follows_within_double_click(last: Option<u64>, now: u64) -> bool {
    last matches Some(t) && now <= t + DOUBLE_CLICK_MS
}

/// While North is shown, a press on its lock button toggles the North lock
/// and changes nothing else; a press on its head grabs it unless it is
/// locked.
pub proof fn lemma_press_on_north(
    f: ToolFlags,
    m: ClickMemory,
    h: PressHits,
    helper_present: bool,
    editor_open: bool,
    box_visible: bool,
    now: u64,
)
    requires
        f.north_visible,
    ensures
        ({
            let r = spec_left_press(f, m, h, helper_present, editor_open, box_visible, now);
            &&& h.north_lock ==> r.2 == PressAction::NorthLock && r.0 == (ToolFlags {
                north_locked: !f.north_locked,
                ..f
            }) && r.1 == m
            &&& !h.north_lock && h.north_handle ==> r.2 == PressAction::Grab && r.0 == (ToolFlags {
                active_handle: if f.north_locked {
                    None
                } else {
                    Some(NORTH_HANDLE_INDEX)
                },
                ..f
            }) && r.1 == m
        }),
{
}

/// With a helper point present and the North arrow not hit, a press on the
/// helper's lock button toggles the helper pin (a helper point that becomes
/// pinned stops being dragged) and changes nothing else; a press on the
/// helper point itself is a double click when it comes within
/// `DOUBLE_CLICK_MS` of the last one on it, which snaps the helper point and
/// forgets that click, and otherwise grabs the helper point and remembers
/// the click.
pub proof fn lemma_press_on_helper(
    f: ToolFlags,
    m: ClickMemory,
    h: PressHits,
    editor_open: bool,
    box_visible: bool,
    now: u64,
)
    requires
        !(f.north_visible && (h.north_lock || h.north_handle)),
    ensures
        ({
            let r = spec_left_press(f, m, h, true, editor_open, box_visible, now);
            &&& h.helper_lock ==> r.2 == PressAction::HelperPin && r.1 == m && r.0 == (ToolFlags {
                helper_pinned: !f.helper_pinned,
                active_handle: if !f.helper_pinned && f.active_handle == Some(HELPER_HANDLE_INDEX) {
                    None
                } else {
                    f.active_handle
                },
                ..f
            })
            &&& !h.helper_lock && h.helper_handle && follows_within_double_click(m.last_plus, now)
                ==> r.2 == PressAction::SnapHelper && r.0 == (ToolFlags { active_handle: None, ..f })
                && r.1 == (ClickMemory { last_plus: None, ..m })
            &&& !h.helper_lock && h.helper_handle && !follows_within_double_click(m.last_plus, now)
                ==> r.2 == PressAction::Grab && r.0 == (ToolFlags {
                active_handle: Some(HELPER_HANDLE_INDEX),
                ..f
            }) && r.1 == (ClickMemory { last_plus: Some(now), ..m })
        }),
{
}

/// A press that hits neither the shown North arrow nor a present helper
/// point forgets the last click on the helper point. On a red point it grabs
/// nothing when that point is pinned; otherwise it is a double click when it
/// comes within `DOUBLE_CLICK_MS` of the last click on the same red point,
/// which snaps the hypotenuse and forgets that click, and else grabs the
/// point and remembers the click. The flags change in nothing but the
/// dragged handle.
pub proof fn lemma_press_on_red_point(
    f: ToolFlags,
    m: ClickMemory,
    h: PressHits,
    helper_present: bool,
    editor_open: bool,
    box_visible: bool,
    now: u64,
    i: usize,
)
    requires
        !(f.north_visible && (h.north_lock || h.north_handle)),
        !(helper_present && (h.helper_lock || h.helper_handle)),
        h.red_point == Some(i),
    ensures
        ({
            let r = spec_left_press(f, m, h, helper_present, editor_open, box_visible, now);
            let pinned = (i == 0 && f.left_red_pinned) || (i == 2 && f.right_red_pinned);
            let double = m.last_red matches Some((j, t)) && j == i && now <= t + DOUBLE_CLICK_MS;
            &&& pinned ==> r.2 == PressAction::Grab && r.0 == (ToolFlags { active_handle: None, ..f })
                && r.1 == (ClickMemory { last_plus: None, ..m })
            &&& !pinned && double ==> r.2 == PressAction::SnapHypotenuse && r.0 == (ToolFlags {
                active_handle: None,
                ..f
            }) && r.1 == (ClickMemory { last_plus: None, last_red: None, ..m })
            &&& !pinned && !double ==> r.2 == PressAction::Grab && r.0 == (ToolFlags {
                active_handle: Some(i),
                ..f
            }) && r.1 == (ClickMemory { last_plus: None, last_red: Some((i, now)), ..m })
        }),
{
    reveal(spec_press_points);
    reveal(spec_press_red);
}

/// A press on a distance label (and on none of the shown North arrow, a
/// present helper point and the red points) changes no flag; it begins the
/// edit of that distance when it comes within `DOUBLE_CLICK_MS` of the last
/// click on the same label, and otherwise remembers the click.
pub proof fn lemma_press_on_distance_label(
    f: ToolFlags,
    m: ClickMemory,
    h: PressHits,
    helper_present: bool,
    editor_open: bool,
    box_visible: bool,
    now: u64,
    k: DistanceKind,
)
    requires
        !(f.north_visible && (h.north_lock || h.north_handle)),
        !(helper_present && (h.helper_lock || h.helper_handle)),
        h.red_point is None,
        h.distance_panel == Some(k),
    ensures
        ({
            let r = spec_left_press(f, m, h, helper_present, editor_open, box_visible, now);
            let double = m.last_distance matches Some((k2, t)) && k2 == k && now <= t
                + DOUBLE_CLICK_MS;
            &&& r.0 == f
            &&& double ==> r.2 == PressAction::BeginDistanceEdit(k) && r.1 == (ClickMemory {
                last_plus: None,
                last_red: None,
                last_distance: None,
            })
            &&& !double ==> r.2 == PressAction::NoteDistanceClick && r.1 == (ClickMemory {
                last_plus: None,
                last_red: None,
                last_distance: Some((k, now)),
            })
        }),
{
    reveal(spec_press_points);
    reveal(spec_press_distance);
}

/// A press on none of the shown North arrow, a present helper point, the red
/// points and the distance labels forgets the last clicks on the helper and
/// red points. An open edit is committed and nothing else happens. Otherwise
/// a red lock button toggles that lock, unless the point is pinned, and
/// reports the angle lock; the vertex lock button toggles the angle lock
/// unless the vertex is pinned, and reports the new state.
pub proof fn lemma_press_on_locks(
    f: ToolFlags,
    m: ClickMemory,
    h: PressHits,
    helper_present: bool,
    editor_open: bool,
    box_visible: bool,
    now: u64,
)
    requires
        !(f.north_visible && (h.north_lock || h.north_handle)),
        !(helper_present && (h.helper_lock || h.helper_handle)),
        h.red_point is None,
        h.distance_panel is None,
    ensures
        ({
            let r = spec_left_press(f, m, h, helper_present, editor_open, box_visible, now);
            &&& r.1 == (ClickMemory { last_plus: None, last_red: None, ..m })
            &&& editor_open ==> r.0 == f && r.2 == PressAction::CommitDistanceEdit
            &&& !editor_open && h.red_lock == Some(0usize) ==> r.2 == PressAction::RedLock(
                if f.left_red_pinned {
                    None
                } else {
                    Some(f.angle_locked)
                },
            ) && r.0 == (if f.left_red_pinned {
                f
            } else {
                ToolFlags {
                    red_locked_index: if f.red_locked_index == Some(0usize) {
                        None
                    } else {
                        Some(0usize)
                    },
                    ..f
                }
            })
            &&& !editor_open && h.red_lock == Some(2usize) ==> r.2 == PressAction::RedLock(
                if f.right_red_pinned {
                    None
                } else {
                    Some(f.angle_locked)
                },
            ) && r.0 == (if f.right_red_pinned {
                f
            } else {
                ToolFlags {
                    red_locked_index: if f.red_locked_index == Some(2usize) {
                        None
                    } else {
                        Some(2usize)
                    },
                    ..f
                }
            })
            &&& !editor_open && h.red_lock is None && h.blue_lock ==> r.2 == PressAction::AngleLock(
                if f.blue_pinned {
                    None
                } else {
                    Some(!f.angle_locked)
                },
            ) && r.0 == (if f.blue_pinned {
                f
            } else {
                ToolFlags { angle_locked: !f.angle_locked, ..f }
            })
        }),
{
    reveal(spec_press_points);
    reveal(spec_press_rest);
}

/// A press on nothing that the earlier laws cover, with no edit open and no
/// lock button hit, sets the dragged handle to the one under the cursor and
/// changes no other flag; with no handle there it may add a point to the
/// shown box path when it misses the labels, and otherwise drags the window
/// unless a point is pinned to the screen.
pub proof fn lemma_press_on_handles(
    f: ToolFlags,
    m: ClickMemory,
    h: PressHits,
    helper_present: bool,
    box_visible: bool,
    now: u64,
)
    requires
        !(f.north_visible && (h.north_lock || h.north_handle)),
        !(helper_present && (h.helper_lock || h.helper_handle)),
        h.red_point is None,
        h.distance_panel is None,
        h.red_lock is None,
        !h.blue_lock,
    ensures
        ({
            let r = spec_left_press(f, m, h, helper_present, false, box_visible, now);
            let grabbed = spec_handle_at(f, helper_present, h.handles);
            let pinned = f.blue_pinned || f.left_red_pinned || f.right_red_pinned
                || f.helper_pinned;
            &&& r.0 == (ToolFlags { active_handle: grabbed, ..f })
            &&& r.1 == (ClickMemory { last_plus: None, last_red: None, ..m })
            &&& r.2 == (if grabbed is Some {
                PressAction::Grab
            } else if box_visible && !h.over_angle_panel && !h.over_box_panel {
                PressAction::BoxPoint { drag: !pinned }
            } else if !pinned {
                PressAction::Drag
            } else {
                PressAction::Nothing
            })
        }),
{
    reveal(spec_press_points);
    reveal(spec_press_rest);
}

/// The handle that a press grabs was hit and is free to move: North only
/// while shown and unlocked, the helper point only when present and
/// unpinned, a point of the construction only when unpinned; and when none
/// is grabbed, no hit handle was free. North comes before the helper point,
/// and the helper point before the three points, taken left to right.
pub proof fn lemma_handle_at_grabs_free_hit(f: ToolFlags, helper_present: bool, h: HandleHits)
    ensures
        ({
            let north_free = f.north_visible && !f.north_locked && h.north;
            let helper_free = helper_present && !f.helper_pinned && h.helper;
            let left_free = h.points[0] && !f.left_red_pinned;
            let vertex_free = h.points[1] && !f.blue_pinned;
            let right_free = h.points[2] && !f.right_red_pinned;
            let r = spec_handle_at(f, helper_present, h);
            &&& r == Some(NORTH_HANDLE_INDEX) <==> north_free
            &&& r == Some(HELPER_HANDLE_INDEX) <==> !north_free && helper_free
            &&& r == Some(0usize) <==> !north_free && !helper_free && left_free
            &&& r == Some(1usize) <==> !north_free && !helper_free && !left_free && vertex_free
            &&& r == Some(2usize) <==> !north_free && !helper_free && !left_free && !vertex_free
                && right_free
            &&& r is None <==> !north_free && !helper_free && !left_free && !vertex_free
                && !right_free
        }),
{
}

/// A middle click on a distance label hides that label, and no other, and
/// ends its edit exactly when it is the distance being edited; the flags and
/// the angle labels stay as they were. On the label of the box path it only
/// asks for that label to be hidden.
pub proof fn lemma_middle_press_labels(
    f: ToolFlags,
    a: HiddenAnglePanels,
    d: HiddenDistancePanels,
    h: MiddleHits,
    helper_present: bool,
    editing: Option<DistanceKind>,
)
    ensures
        ({
            let r = spec_middle_press(f, a, d, h, helper_present, editing);
            &&& h.distance_panel matches Some(k) ==> {
                &&& r.0 == f && r.1 == a
                &&& r.2.is_hidden(k)
                &&& forall|k2: DistanceKind| k2 != k ==> r.2.is_hidden(k2) == d.is_hidden(k2)
                &&& r.3 == MiddleAction::HideDistance { end_edit: editing == Some(k) }
            }
            &&& h.distance_panel is None && h.box_panel is Some ==> r.0 == f && r.1 == a && r.2 == d
                && r.3 == MiddleAction::HideBoxLabel(h.box_panel->0)
        }),
{
}

/// A middle click that hits no label toggles a pin: the helper's lock button
/// (with a helper point present) toggles the helper pin, a red point's lock
/// button that point's pin, the vertex lock button the vertex pin; toggling
/// the pin of a construction point also lets go of the dragged handle. The
/// hidden labels stay as they were, and with no button hit nothing changes.
pub proof fn lemma_middle_press_pins(
    f: ToolFlags,
    a: HiddenAnglePanels,
    d: HiddenDistancePanels,
    h: MiddleHits,
    helper_present: bool,
    editing: Option<DistanceKind>,
)
    requires
        h.distance_panel is None,
        h.box_panel is None,
        !h.angle_labels.north,
        !h.angle_labels.course,
        !h.angle_labels.helper_left,
        !h.angle_labels.helper_right,
        !h.angle_labels.helper_yellow,
        !h.angle_labels.helper_delta,
    ensures
        ({
            let r = spec_middle_press(f, a, d, h, helper_present, editing);
            let helper_hit = helper_present && h.helper_lock;
            &&& r.1 == a && r.2 == d
            &&& helper_hit ==> r.3 == MiddleAction::HelperPin && r.0 == (ToolFlags {
                helper_pinned: !f.helper_pinned,
                active_handle: if !f.helper_pinned && f.active_handle == Some(HELPER_HANDLE_INDEX) {
                    None
                } else {
                    f.active_handle
                },
                ..f
            })
            &&& !helper_hit && h.red_lock == Some(0usize) ==> r.3 == MiddleAction::RedPin && r.0 == (
            ToolFlags { left_red_pinned: !f.left_red_pinned, active_handle: None, ..f })
            &&& !helper_hit && h.red_lock == Some(2usize) ==> r.3 == MiddleAction::RedPin && r.0 == (
            ToolFlags { right_red_pinned: !f.right_red_pinned, active_handle: None, ..f })
            &&& !helper_hit && h.red_lock is None && h.blue_lock ==> r.3 == MiddleAction::BluePin
                && r.0 == (ToolFlags { blue_pinned: !f.blue_pinned, active_handle: None, ..f })
            &&& !helper_hit && h.red_lock is None && !h.blue_lock ==> r.3 == MiddleAction::Nothing
                && r.0 == f
        }),
{
}

} // verus!
