//! Which features of the protractor are shown, which points are pinned to the
//! screen, and which locks are closed: the rules by which the user toggles
//! them.
use vstd::prelude::*;
use crate::distance::{DistanceKind, HiddenDistancePanels};
use crate::menu::{
    ContextMenuState, MENU_BISECTOR, MENU_BOX_PLUS, MENU_COURSE_PLUS, MENU_DISTANCE_PLUS,
    MENU_FRONT_PLUS, MENU_HYPOTENUSE, MENU_INVERSION, MENU_NORTH_PLUS, MENU_PLUS, MENU_PLUS_DEGREES,
    MENU_XTK_PLUS,
};

verus! {

/// The handle index of the helper point (the vertex and red points are 0 to 2).
pub const HELPER_HANDLE_INDEX: usize = 3;

/// The features, pins and locks of the protractor.
#[derive(Clone, Copy, Debug)]
pub struct ToolFlags {
    pub angle_locked: bool,
    /// The red point (0 or 2) about which the angle turns, if any.
    pub red_locked_index: Option<usize>,
    pub bisector_visible: bool,
    pub plus_degrees_visible: bool,
    pub inverted: bool,
    pub hypotenuse_visible: bool,
    pub front_plus_visible: bool,
    pub xtk_visible: bool,
    pub distance_visible: bool,
    pub north_visible: bool,
    pub north_locked: bool,
    pub course_visible: bool,
    pub blue_pinned: bool,
    pub left_red_pinned: bool,
    pub right_red_pinned: bool,
    pub helper_pinned: bool,
    /// The handle being dragged, if any.
    pub active_handle: Option<usize>,
}

/// Whether red point `index` is pinned: 0 is the left one, 2 the right one.
pub open spec fn spec_red_point_pinned(f: ToolFlags, index: usize) -> bool {
    if index == 0 {
        f.left_red_pinned
    } else if index == 2 {
        f.right_red_pinned
    } else {
        false
    }
}

/// The flags that say which features are shown are the same in both.
pub open spec fn same_features(a: ToolFlags, b: ToolFlags) -> bool {
    &&& a.bisector_visible == b.bisector_visible
    &&& a.plus_degrees_visible == b.plus_degrees_visible
    &&& a.inverted == b.inverted
    &&& a.hypotenuse_visible == b.hypotenuse_visible
    &&& a.front_plus_visible == b.front_plus_visible
    &&& a.xtk_visible == b.xtk_visible
    &&& a.distance_visible == b.distance_visible
    &&& a.north_visible == b.north_visible
    &&& a.course_visible == b.course_visible
}

/// The red-point lock after the lock of red point `index` is toggled: it is
/// opened when it held that point, otherwise moved to that point.
pub open spec fn toggled_red_lock(locked: Option<usize>, index: usize) -> Option<usize> {
    if locked == Some(index) {
        None
    } else {
        Some(index)
    }
}

/// The flags after the helper pin is toggled: nothing changes without a
/// helper point; a newly pinned helper point stops being dragged.
pub open spec fn helper_pin_toggled(f: ToolFlags, helper_present: bool) -> ToolFlags {
    if !helper_present {
        f
    } else {
        let pinned = !f.helper_pinned;
        ToolFlags {
            helper_pinned: pinned,
            active_handle: if pinned && f.active_handle == Some(HELPER_HANDLE_INDEX) {
                None
            } else {
                f.active_handle
            },
            ..f
        }
    }
}

/// The flags after the vertex pin is toggled: nothing is dragged afterwards.
pub open spec fn blue_pin_toggled(f: ToolFlags) -> ToolFlags {
    ToolFlags { blue_pinned: !f.blue_pinned, active_handle: None, ..f }
}

/// The flags after the pin of red point `index` is toggled; an index other
/// than 0 or 2 changes nothing.
pub open spec fn red_pin_toggled(f: ToolFlags, index: usize) -> ToolFlags {
    if index == 0 {
        ToolFlags { left_red_pinned: !f.left_red_pinned, active_handle: None, ..f }
    } else if index == 2 {
        ToolFlags { right_red_pinned: !f.right_red_pinned, active_handle: None, ..f }
    } else {
        f
    }
}

/// Whether the lock of red point `index` can be toggled: the index names a
/// red point and that point is not pinned.
pub open spec fn red_lock_allowed(f: ToolFlags, index: usize) -> bool {
    (index == 0 || index == 2) && !spec_red_point_pinned(f, index)
}

/// The flags after the lock of red point `index` is toggled.
pub open spec fn red_lock_toggled(f: ToolFlags, index: usize) -> ToolFlags {
    if red_lock_allowed(f, index) {
        ToolFlags { red_locked_index: toggled_red_lock(f.red_locked_index, index), ..f }
    } else {
        f
    }
}

/// The flags after the angle lock is toggled; a pinned vertex keeps it.
pub open spec fn angle_lock_toggled(f: ToolFlags) -> ToolFlags {
    if f.blue_pinned {
        f
    } else {
        ToolFlags { angle_locked: !f.angle_locked, ..f }
    }
}

/// The flags after the North lock is toggled; it only moves while North is
/// shown.
pub open spec fn north_lock_toggled(f: ToolFlags) -> ToolFlags {
    if f.north_visible {
        ToolFlags { north_locked: !f.north_locked, ..f }
    } else {
        f
    }
}

/// The angle labels that the user has hidden by clicking them.
#[derive(Clone, Copy, Debug, Default)]
pub struct HiddenAnglePanels {
    pub main: bool,
    pub north: bool,
    pub course: bool,
    pub helper_left: bool,
    pub helper_right: bool,
    pub helper_yellow: bool,
    pub helper_delta: bool,
}

/// Which angle labels are drawn, besides the label of the main angle, which
/// always is.
#[derive(Clone, Copy, Debug)]
pub struct ShownAngleLabels {
    pub course: bool,
    pub north: bool,
    pub helper_left: bool,
    pub helper_right: bool,
    pub helper_yellow: bool,
    pub helper_delta: bool,
}

/// Which angle labels are drawn: the course label with course and North
/// shown and a helper point; the North label with North and the bisector
/// shown; the helper's left, right and yellow labels with a helper point and
/// degrees shown (the yellow one with the bisector too); its difference label
/// with a helper point; each only while the user has not hidden it.
pub open spec fn spec_shown_angle_labels(f: ToolFlags, h: HiddenAnglePanels, helper_present: bool) -> ShownAngleLabels {
    ShownAngleLabels {
        course: f.course_visible && f.north_visible && !h.course && helper_present,
        north: f.north_visible && f.bisector_visible && !h.north,
        helper_left: helper_present && f.plus_degrees_visible && !h.helper_left,
        helper_right: helper_present && f.plus_degrees_visible && !h.helper_right,
        helper_yellow: helper_present && f.plus_degrees_visible && f.bisector_visible && !h.helper_yellow,
        helper_delta: helper_present && !h.helper_delta,
    }
}

/// The hidden angle labels with the four labels of the helper point shown.
pub open spec fn helper_labels_shown(h: HiddenAnglePanels) -> HiddenAnglePanels {
    HiddenAnglePanels {
        helper_left: false,
        helper_right: false,
        helper_yellow: false,
        helper_delta: false,
        ..h
    }
}

impl HiddenAnglePanels {
    /// Shows the four labels of the helper point again.
    pub fn reset_helper(&mut self)
        ensures
            *final(self) == helper_labels_shown(*old(self)),
    {
        self.helper_left = false;
        self.helper_right = false;
        self.helper_yellow = false;
        self.helper_delta = false;
    }
}

/// What becomes of the helper point.
#[derive(Clone, Copy, Debug, PartialEq, Eq, Structural)]
pub enum HelperChange {
    Keep,
    /// A helper point is placed at its default position.
    Create,
    /// The helper point is taken away.
    Remove,
}

/// What a toggled feature asks of the rest of the program, beyond the flags
/// and hidden labels that it changed itself.
#[derive(Clone, Copy, Debug)]
pub struct FeatureEffect {
    /// The command was a feature of the menu: the window is fitted, the
    /// settings saved and the window redrawn.
    pub handled: bool,
    pub helper: HelperChange,
    /// A distance being edited is dropped.
    pub end_distance_edit: bool,
    /// The scale is calibrated so that the base measures 1000 metres.
    pub calibrate_distance: bool,
    /// Every length label of the box path is shown again.
    pub show_box_distance_labels: bool,
    /// Every bearing label of the box path is shown again.
    pub show_box_bearing_labels: bool,
    /// The box path is shown or hidden (see `BoxPath::toggle_visible`).
    pub toggle_box: bool,
}

/// A handled command that asks nothing more.
pub open spec fn plain_effect() -> FeatureEffect {
    FeatureEffect {
        handled: true,
        helper: HelperChange::Keep,
        end_distance_edit: false,
        calibrate_distance: false,
        show_box_distance_labels: false,
        show_box_bearing_labels: false,
        toggle_box: false,
    }
}

/// Whether turning a feature on places a helper point (see `new_helper`).
fn helper_to_place(turned_on: bool, helper_present: bool) -> (h: HelperChange)
    ensures
        h == new_helper(turned_on, helper_present),
{
    if turned_on && !helper_present {
        HelperChange::Create
    } else {
        HelperChange::Keep
    }
}

/// A handled command that asks nothing more.
fn plain_feature_effect() -> (e: FeatureEffect)
    ensures
        e == plain_effect(),
{
    FeatureEffect {
        handled: true,
        helper: HelperChange::Keep,
        end_distance_edit: false,
        calibrate_distance: false,
        show_box_distance_labels: false,
        show_box_bearing_labels: false,
        toggle_box: false,
    }
}

/// The flags after the helper point is added or taken away; taking it away
/// turns off the features that need it.
pub open spec fn helper_point_toggled(f: ToolFlags, helper_present: bool) -> ToolFlags {
    if helper_present {
        ToolFlags {
            distance_visible: false,
            course_visible: false,
            xtk_visible: false,
            helper_pinned: false,
            ..f
        }
    } else {
        ToolFlags { helper_pinned: false, ..f }
    }
}

/// What adding or taking away the helper point asks.
pub open spec fn helper_point_effect(helper_present: bool) -> FeatureEffect {
    FeatureEffect {
        helper: if helper_present {
            HelperChange::Remove
        } else {
            HelperChange::Create
        },
        end_distance_edit: helper_present,
        ..plain_effect()
    }
}

/// What turning the distance labels on or off asks: turning them off drops
/// the edit; turning them on places a helper point if there is none and
/// calibrates the scale.
pub open spec fn distance_mode_effect(f: ToolFlags, helper_present: bool) -> FeatureEffect {
    FeatureEffect {
        helper: if !f.distance_visible && !helper_present {
            HelperChange::Create
        } else {
            HelperChange::Keep
        },
        end_distance_edit: f.distance_visible,
        calibrate_distance: !f.distance_visible,
        show_box_distance_labels: true,
        ..plain_effect()
    }
}

/// A feature that needs the helper point places one when it is turned on
/// and there is none.
pub open spec fn new_helper(turned_on: bool, helper_present: bool) -> HelperChange {
    if turned_on && !helper_present {
        HelperChange::Create
    } else {
        HelperChange::Keep
    }
}

/// The flags, hidden angle labels, hidden distance labels and effect after
/// the menu command `command`.
pub open spec fn feature_toggled(
    f: ToolFlags,
    a: HiddenAnglePanels,
    d: HiddenDistancePanels,
    helper_present: bool,
    command: u32,
) -> (ToolFlags, HiddenAnglePanels, HiddenDistancePanels, FeatureEffect) {
    if command == MENU_BISECTOR {
        (
            ToolFlags { bisector_visible: !f.bisector_visible, ..f },
            HiddenAnglePanels { north: false, helper_yellow: false, ..a },
            d,
            plain_effect(),
        )
    } else if command == MENU_PLUS {
        (
            helper_point_toggled(f, helper_present),
            HiddenAnglePanels { course: false, ..helper_labels_shown(a) },
            HiddenDistancePanels::none_hidden(),
            helper_point_effect(helper_present),
        )
    } else if command == MENU_PLUS_DEGREES {
        (
            ToolFlags { plus_degrees_visible: !f.plus_degrees_visible, ..f },
            helper_labels_shown(a),
            d,
            FeatureEffect { show_box_bearing_labels: true, ..plain_effect() },
        )
    } else if command == MENU_INVERSION {
        (ToolFlags { inverted: !f.inverted, ..f }, a, d, plain_effect())
    } else if command == MENU_HYPOTENUSE {
        (
            ToolFlags { hypotenuse_visible: !f.hypotenuse_visible, ..f },
            a,
            d.with_hidden(DistanceKind::Hypotenuse, false),
            plain_effect(),
        )
    } else if command == MENU_FRONT_PLUS {
        (
            ToolFlags { front_plus_visible: !f.front_plus_visible, ..f },
            a,
            d.with_hidden(DistanceKind::FrontLeft, false).with_hidden(DistanceKind::FrontRight, false),
            plain_effect(),
        )
    } else if command == MENU_DISTANCE_PLUS {
        (
            ToolFlags { distance_visible: !f.distance_visible, ..f },
            a,
            HiddenDistancePanels::none_hidden(),
            distance_mode_effect(f, helper_present),
        )
    } else if command == MENU_COURSE_PLUS {
        (
            ToolFlags {
                course_visible: !f.course_visible,
                north_visible: if !f.course_visible { true } else { f.north_visible },
                ..f
            },
            HiddenAnglePanels { course: false, ..a },
            d,
            FeatureEffect { helper: new_helper(!f.course_visible, helper_present), ..plain_effect() },
        )
    } else if command == MENU_XTK_PLUS {
        (
            ToolFlags { xtk_visible: !f.xtk_visible, ..f },
            a,
            d,
            FeatureEffect { helper: new_helper(!f.xtk_visible, helper_present), ..plain_effect() },
        )
    } else if command == MENU_BOX_PLUS {
        (f, a, d, FeatureEffect { toggle_box: true, ..plain_effect() })
    } else if command == MENU_NORTH_PLUS {
        (
            ToolFlags {
                north_visible: !f.north_visible,
                course_visible: if f.north_visible { false } else { f.course_visible },
                ..f
            },
            HiddenAnglePanels { north: false, course: false, ..a },
            d,
            plain_effect(),
        )
    } else {
        (f, a, d, FeatureEffect { handled: false, ..plain_effect() })
    }
}

impl ToolFlags {
    /// Whether red point `index` is pinned to the screen.
    pub fn red_point_pinned(&self, index: usize) -> (b: bool)
        ensures
            b == spec_red_point_pinned(*self, index),
    {
        if index == 0 {
            self.left_red_pinned
        } else if index == 2 {
            self.right_red_pinned
        } else {
            false
        }
    }

    /// Whether a red point is pinned.
    pub fn any_red_pinned(&self) -> (b: bool)
        ensures
            b == (self.left_red_pinned || self.right_red_pinned),
    {
        self.left_red_pinned || self.right_red_pinned
    }

    /// Whether any point is pinned to the screen.
    pub fn any_screen_pin(&self) -> (b: bool)
        ensures
            b == (self.blue_pinned || self.left_red_pinned || self.right_red_pinned
                || self.helper_pinned),
    {
        self.blue_pinned || self.any_red_pinned() || self.helper_pinned
    }

    /// Whether the angle lock and a red-point lock are both closed, which
    /// freezes the red system.
    pub fn both_locks_closed(&self) -> (b: bool)
        ensures
            b == (self.angle_locked && self.red_locked_index is Some),
    {
        self.angle_locked && self.red_locked_index.is_some()
    }

    /// Whether the red system may not be rebuilt or rotated: both locks are
    /// closed, or a red point is pinned.
    pub fn red_system_frozen(&self) -> (b: bool)
        ensures
            b == ((self.angle_locked && self.red_locked_index is Some) || self.left_red_pinned
                || self.right_red_pinned),
    {
        self.both_locks_closed() || self.any_red_pinned()
    }

    /// Pins or unpins the helper point, if there is one. Returns whether
    /// anything changed.
    pub fn toggle_helper_pin(&mut self, helper_present: bool) -> (changed: bool)
        ensures
            changed == helper_present,
            *final(self) == helper_pin_toggled(*old(self), helper_present),
    {
        if !helper_present {
            return false;
        }
        self.helper_pinned = !self.helper_pinned;
        if self.helper_pinned && self.active_handle == Some(HELPER_HANDLE_INDEX) {
            self.active_handle = None;
        }
        true
    }

    /// Pins or unpins the vertex.
    pub fn toggle_blue_pin(&mut self)
        ensures
            *final(self) == blue_pin_toggled(*old(self)),
    {
        self.blue_pinned = !self.blue_pinned;
        self.active_handle = None;
    }

    /// Pins or unpins red point `index` (0 or 2). Returns whether anything
    /// changed.
    pub fn toggle_red_pin(&mut self, index: usize) -> (changed: bool)
        ensures
            changed == (index == 0 || index == 2),
            *final(self) == red_pin_toggled(*old(self), index),
    {
        if index == 0 {
            self.left_red_pinned = !self.left_red_pinned;
        } else if index == 2 {
            self.right_red_pinned = !self.right_red_pinned;
        } else {
            return false;
        }
        self.active_handle = None;
        true
    }

    /// Opens or closes the lock of red point `index` (0 or 2), which replaces
    /// the lock of the other red point; a pinned red point cannot be locked or
    /// unlocked. Returns `None` when nothing changed, otherwise whether the
    /// angle lock is closed (the locked angle is then taken from the current
    /// geometry).
    pub fn toggle_red_lock(&mut self, index: usize) -> (r: Option<bool>)
        ensures
            r == (if red_lock_allowed(*old(self), index) {
                Some(old(self).angle_locked)
            } else {
                None::<bool>
            }),
            *final(self) == red_lock_toggled(*old(self), index),
    {
        if index != 0 && index != 2 {
            return None;
        }
        if self.red_point_pinned(index) {
            return None;
        }
        self.red_locked_index = if self.red_locked_index == Some(index) {
            None
        } else {
            Some(index)
        };
        Some(self.angle_locked)
    }

    /// Opens or closes the angle lock, unless the vertex is pinned. Returns
    /// `None` when nothing changed, otherwise whether the lock is now closed
    /// (the locked angle is then taken from the current geometry).
    pub fn toggle_angle_lock(&mut self) -> (r: Option<bool>)
        ensures
            r == (if old(self).blue_pinned {
                None::<bool>
            } else {
                Some(!old(self).angle_locked)
            }),
            *final(self) == angle_lock_toggled(*old(self)),
    {
        if self.blue_pinned {
            return None;
        }
        self.angle_locked = !self.angle_locked;
        Some(self.angle_locked)
    }

    /// Opens or closes the North lock, while North is shown. Returns whether
    /// anything changed.
    pub fn toggle_north_lock(&mut self) -> (changed: bool)
        ensures
            changed == old(self).north_visible,
            *final(self) == north_lock_toggled(*old(self)),
    {
        if !self.north_visible {
            return false;
        }
        self.north_locked = !self.north_locked;
        true
    }

    /// Adds the helper point, or takes it away together with the features
    /// that need it; the helper's labels, the course label and every
    /// distance label are shown again.
    pub fn toggle_helper_point(
        &mut self,
        angles: &mut HiddenAnglePanels,
        distances: &mut HiddenDistancePanels,
        helper_present: bool,
    ) -> (effect: FeatureEffect)
        ensures
            *final(self) == helper_point_toggled(*old(self), helper_present),
            *final(angles) == (HiddenAnglePanels { course: false, ..helper_labels_shown(*old(angles)) }),
            *final(distances) == HiddenDistancePanels::none_hidden(),
            effect == helper_point_effect(helper_present),
    {
        angles.reset_helper();
        angles.course = false;
        distances.clear_all();
        if helper_present {
            self.distance_visible = false;
            self.course_visible = false;
            self.xtk_visible = false;
        }
        self.helper_pinned = false;
        FeatureEffect {
            handled: true,
            helper: if helper_present {
                HelperChange::Remove
            } else {
                HelperChange::Create
            },
            end_distance_edit: helper_present,
            calibrate_distance: false,
            show_box_distance_labels: false,
            show_box_bearing_labels: false,
            toggle_box: false,
        }
    }

    /// Turns the distance labels on or off; every distance label is shown
    /// again.
    pub fn toggle_distance_mode(
        &mut self,
        distances: &mut HiddenDistancePanels,
        helper_present: bool,
    ) -> (effect: FeatureEffect)
        ensures
            *final(self) == (ToolFlags { distance_visible: !old(self).distance_visible, ..*old(self) }),
            *final(distances) == HiddenDistancePanels::none_hidden(),
            effect == distance_mode_effect(*old(self), helper_present),
    {
        distances.clear_all();
        let turning_on = !self.distance_visible;
        self.distance_visible = turning_on;
        FeatureEffect {
            handled: true,
            helper: if turning_on && !helper_present {
                HelperChange::Create
            } else {
                HelperChange::Keep
            },
            end_distance_edit: !turning_on,
            calibrate_distance: turning_on,
            show_box_distance_labels: true,
            show_box_bearing_labels: false,
            toggle_box: false,
        }
    }

    /// Carries out the feature command `command` of the context menu.
    pub fn toggle_feature(
        &mut self,
        angles: &mut HiddenAnglePanels,
        distances: &mut HiddenDistancePanels,
        helper_present: bool,
        command: u32,
    ) -> (effect: FeatureEffect)
        ensures
            (*final(self), *final(angles), *final(distances), effect) == feature_toggled(
                *old(self),
                *old(angles),
                *old(distances),
                helper_present,
                command,
            ),
    {
        if command == MENU_BISECTOR {
            self.toggle_bisector(angles)
        } else if command == MENU_PLUS {
            self.toggle_helper_point(angles, distances, helper_present)
        } else if command == MENU_PLUS_DEGREES {
            self.toggle_plus_degrees(angles)
        } else if command == MENU_INVERSION {
            self.inverted = !self.inverted;
            plain_feature_effect()
        } else if command == MENU_HYPOTENUSE {
            self.toggle_hypotenuse(distances)
        } else if command == MENU_FRONT_PLUS {
            self.toggle_front_plus(distances)
        } else if command == MENU_DISTANCE_PLUS {
            self.toggle_distance_mode(distances, helper_present)
        } else if command == MENU_COURSE_PLUS {
            self.toggle_course(angles, helper_present)
        } else if command == MENU_XTK_PLUS {
            self.xtk_visible = !self.xtk_visible;
            FeatureEffect { helper: helper_to_place(self.xtk_visible, helper_present), ..plain_feature_effect() }
        } else if command == MENU_BOX_PLUS {
            FeatureEffect { toggle_box: true, ..plain_feature_effect() }
        } else if command == MENU_NORTH_PLUS {
            self.toggle_north(angles)
        } else {
            FeatureEffect { handled: false, ..plain_feature_effect() }
        }
    }

    fn toggle_course(&mut self, angles: &mut HiddenAnglePanels, helper_present: bool) -> (effect: FeatureEffect)
        ensures
            *final(self) == (ToolFlags {
                course_visible: !old(self).course_visible,
                north_visible: if !old(self).course_visible { true } else { old(self).north_visible },
                ..*old(self)
            }),
            *final(angles) == (HiddenAnglePanels { course: false, ..*old(angles) }),
            effect == (FeatureEffect {
                helper: new_helper(!old(self).course_visible, helper_present),
                ..plain_effect()
            }),
    {
        angles.course = false;
        self.course_visible = !self.course_visible;
        if self.course_visible {
            self.north_visible = true;
        }
        FeatureEffect { helper: helper_to_place(self.course_visible, helper_present), ..plain_feature_effect() }
    }

    fn toggle_north(&mut self, angles: &mut HiddenAnglePanels) -> (effect: FeatureEffect)
        ensures
            *final(self) == (ToolFlags {
                north_visible: !old(self).north_visible,
                course_visible: if old(self).north_visible { false } else { old(self).course_visible },
                ..*old(self)
            }),
            *final(angles) == (HiddenAnglePanels { north: false, course: false, ..*old(angles) }),
            effect == plain_effect(),
    {
        angles.north = false;
        angles.course = false;
        self.north_visible = !self.north_visible;
        if !self.north_visible {
            self.course_visible = false;
        }
        plain_feature_effect()
    }

    fn toggle_bisector(&mut self, angles: &mut HiddenAnglePanels) -> (effect: FeatureEffect)
        ensures
            *final(self) == (ToolFlags { bisector_visible: !old(self).bisector_visible, ..*old(self) }),
            *final(angles) == (HiddenAnglePanels { north: false, helper_yellow: false, ..*old(angles) }),
            effect == plain_effect(),
    {
        self.bisector_visible = !self.bisector_visible;
        angles.north = false;
        angles.helper_yellow = false;
        plain_feature_effect()
    }

    fn toggle_plus_degrees(&mut self, angles: &mut HiddenAnglePanels) -> (effect: FeatureEffect)
        ensures
            *final(self) == (ToolFlags { plus_degrees_visible: !old(self).plus_degrees_visible, ..*old(self) }),
            *final(angles) == helper_labels_shown(*old(angles)),
            effect == (FeatureEffect { show_box_bearing_labels: true, ..plain_effect() }),
    {
        angles.reset_helper();
        self.plus_degrees_visible = !self.plus_degrees_visible;
        FeatureEffect { show_box_bearing_labels: true, ..plain_feature_effect() }
    }

    fn toggle_hypotenuse(&mut self, distances: &mut HiddenDistancePanels) -> (effect: FeatureEffect)
        ensures
            *final(self) == (ToolFlags { hypotenuse_visible: !old(self).hypotenuse_visible, ..*old(self) }),
            *final(distances) == old(distances).with_hidden(DistanceKind::Hypotenuse, false),
            effect == plain_effect(),
    {
        self.hypotenuse_visible = !self.hypotenuse_visible;
        distances.show_label(DistanceKind::Hypotenuse);
        plain_feature_effect()
    }

    fn toggle_front_plus(&mut self, distances: &mut HiddenDistancePanels) -> (effect: FeatureEffect)
        ensures
            *final(self) == (ToolFlags { front_plus_visible: !old(self).front_plus_visible, ..*old(self) }),
            *final(distances) == old(distances).with_hidden(DistanceKind::FrontLeft, false).with_hidden(
                DistanceKind::FrontRight,
                false,
            ),
            effect == plain_effect(),
    {
        self.front_plus_visible = !self.front_plus_visible;
        distances.show_label(DistanceKind::FrontLeft);
        distances.show_label(DistanceKind::FrontRight);
        plain_feature_effect()
    }

    /// Which angle labels are drawn.
    pub fn shown_angle_labels(&self, hidden: &HiddenAnglePanels, helper_present: bool) -> (s: ShownAngleLabels)
        ensures
            s == spec_shown_angle_labels(*self, *hidden, helper_present),
    {
        ShownAngleLabels {
            course: self.course_visible && self.north_visible && !hidden.course && helper_present,
            north: self.north_visible && self.bisector_visible && !hidden.north,
            helper_left: helper_present && self.plus_degrees_visible && !hidden.helper_left,
            helper_right: helper_present && self.plus_degrees_visible && !hidden.helper_right,
            helper_yellow: helper_present && self.plus_degrees_visible && self.bisector_visible
                && !hidden.helper_yellow,
            helper_delta: helper_present && !hidden.helper_delta,
        }
    }

    /// Whether North turns along when the construction turns: it is shown and
    /// not locked.
    pub fn north_follows(&self) -> (b: bool)
        ensures
            b == (self.north_visible && !self.north_locked),
    {
        self.north_visible && !self.north_locked
    }

    /// Whether the construction may turn about red point `index` (0 or 2):
    /// not both locks closed, and neither the vertex nor the other red point
    /// pinned.
    pub fn may_pivot_about(&self, index: usize) -> (b: bool)
        ensures
            b == ((index == 0 || index == 2) && !(self.angle_locked && self.red_locked_index is Some)
                && !self.blue_pinned && !spec_red_point_pinned(
                *self,
                if index == 0 {
                    2usize
                } else {
                    0usize
                },
            )),
    {
        if index != 0 && index != 2 {
            return false;
        }
        let other: usize = if index == 0 { 2 } else { 0 };
        !self.both_locks_closed() && !self.blue_pinned && !self.red_point_pinned(other)
    }

    /// Releases every pin, as when the points are reset.
    pub fn clear_pins(&mut self)
        ensures
            *final(self) == (ToolFlags {
                blue_pinned: false,
                left_red_pinned: false,
                right_red_pinned: false,
                helper_pinned: false,
                ..*old(self)
            }),
    {
        self.blue_pinned = false;
        self.left_red_pinned = false;
        self.right_red_pinned = false;
        self.helper_pinned = false;
    }

    /// The check marks of the context menu; the Plus entry is checked while
    /// the helper point exists.
    pub fn context_menu_state(&self, helper_present: bool) -> (s: ContextMenuState)
        ensures
            s.bisector == self.bisector_visible,
            s.plus == helper_present,
            s.plus_degrees == self.plus_degrees_visible,
            s.inversion == self.inverted,
            s.hypotenuse == self.hypotenuse_visible,
            s.front_plus == self.front_plus_visible,
            s.distance_plus == self.distance_visible,
    {
        ContextMenuState {
            bisector: self.bisector_visible,
            plus: helper_present,
            plus_degrees: self.plus_degrees_visible,
            inversion: self.inverted,
            hypotenuse: self.hypotenuse_visible,
            front_plus: self.front_plus_visible,
            distance_plus: self.distance_visible,
        }
    }
}

/// Toggling the lock of the same red point twice gives back the lock as it
/// was, when it was open or held that point.
pub proof fn lemma_red_lock_toggles_back(f: ToolFlags, index: usize)
    requires
        red_lock_allowed(f, index),
        f.red_locked_index is None || f.red_locked_index == Some(index),
    ensures
        red_lock_toggled(red_lock_toggled(f, index), index) == f,
{
}

/// Toggling the angle lock twice, or the North lock twice, gives back the
/// flags as they were.
pub proof fn lemma_locks_toggle_back(f: ToolFlags)
    ensures
        angle_lock_toggled(angle_lock_toggled(f)) == f,
        north_lock_toggled(north_lock_toggled(f)) == f,
{
}

/// Toggling the vertex pin twice gives back the flags as they were, except
/// that nothing is being dragged any more.
pub proof fn lemma_blue_pin_toggles_back(f: ToolFlags)
    ensures
        blue_pin_toggled(blue_pin_toggled(f)) == (ToolFlags { active_handle: None, ..f }),
{
}

/// Toggling the pin of a red point twice gives back the flags as they were,
/// except that nothing is being dragged any more.
pub proof fn lemma_red_pin_toggles_back(f: ToolFlags, index: usize)
    requires
        index == 0 || index == 2,
    ensures
        red_pin_toggled(red_pin_toggled(f, index), index) == (ToolFlags { active_handle: None, ..f }),
{
}

/// Toggling the helper pin twice gives back the flags as they were, except
/// that a dragged helper point may have been let go.
pub proof fn lemma_helper_pin_toggles_back(f: ToolFlags, helper_present: bool)
    ensures
        ({
            let g = helper_pin_toggled(helper_pin_toggled(f, helper_present), helper_present);
            &&& g.helper_pinned == f.helper_pinned
            &&& (g.active_handle == f.active_handle || g.active_handle is None)
            &&& g == (ToolFlags { active_handle: g.active_handle, ..f })
        }),
{
}

/// Pins, locks and handles never change which features are shown.
pub proof fn lemma_toggles_keep_features(f: ToolFlags, index: usize, helper_present: bool)
    ensures
        same_features(f, helper_pin_toggled(f, helper_present)),
        same_features(f, blue_pin_toggled(f)),
        same_features(f, red_pin_toggled(f, index)),
        same_features(f, red_lock_toggled(f, index)),
        same_features(f, angle_lock_toggled(f)),
        same_features(f, north_lock_toggled(f)),
{
}

/// Choosing a feature of the menu twice, other than Plus, gives back the
/// flags as they were; a command that is not a feature changes nothing.
pub proof fn lemma_feature_toggles_back(
    f: ToolFlags,
    a: HiddenAnglePanels,
    d: HiddenDistancePanels,
    helper_present: bool,
    command: u32,
)
    ensures
        command != MENU_PLUS && command != MENU_COURSE_PLUS && command != MENU_NORTH_PLUS ==> ({
            let once = feature_toggled(f, a, d, helper_present, command);
            feature_toggled(once.0, once.1, once.2, helper_present, command).0 == f
        }),
        !(command == MENU_BISECTOR || command == MENU_PLUS || command == MENU_PLUS_DEGREES
            || command == MENU_INVERSION || command == MENU_HYPOTENUSE || command == MENU_FRONT_PLUS
            || command == MENU_DISTANCE_PLUS || command == MENU_COURSE_PLUS || command == MENU_XTK_PLUS
            || command == MENU_BOX_PLUS || command == MENU_NORTH_PLUS) ==> feature_toggled(
            f,
            a,
            d,
            helper_present,
            command,
        )
            == (f, a, d, FeatureEffect { handled: false, ..plain_effect() }),
{
}

/// Taking the helper point away turns off every feature that needs it, and
/// leaves it unpinned.
pub proof fn lemma_helper_removal_clears_dependents(
    f: ToolFlags,
    a: HiddenAnglePanels,
    d: HiddenDistancePanels,
)
    ensures
        ({
            let after = feature_toggled(f, a, d, true, MENU_PLUS);
            &&& !after.0.distance_visible
            &&& !after.0.course_visible
            &&& !after.0.xtk_visible
            &&& !after.0.helper_pinned
            &&& after.3.helper == HelperChange::Remove
            &&& after.3.end_distance_edit
        }),
{
}

/// Each command of the menu turns its own feature on or off and no other
/// one, with these ties: turning the course on shows North, hiding North
/// hides the course, and taking the helper point away turns off what needs
/// it. No command touches a lock, the pins of the vertex and the red points,
/// or the dragged handle; only Plus changes the helper pin, which it clears.
/// Turning the distance labels on calibrates the scale, and a feature that
/// needs the helper point places one when it is turned on and there is none.
pub proof fn lemma_feature_command_flips_its_feature(
    f: ToolFlags,
    a: HiddenAnglePanels,
    d: HiddenDistancePanels,
    helper_present: bool,
    command: u32,
)
    ensures
        ({
            let r = feature_toggled(f, a, d, helper_present, command);
            let g = r.0;
            let e = r.3;
            &&& g.angle_locked == f.angle_locked && g.red_locked_index == f.red_locked_index
                && g.north_locked == f.north_locked && g.blue_pinned == f.blue_pinned
                && g.left_red_pinned == f.left_red_pinned && g.right_red_pinned
                == f.right_red_pinned && g.active_handle == f.active_handle
            &&& command != MENU_PLUS ==> g.helper_pinned == f.helper_pinned
            &&& command == MENU_BISECTOR ==> g == (ToolFlags {
                bisector_visible: !f.bisector_visible,
                ..f
            })
            &&& command == MENU_PLUS_DEGREES ==> g == (ToolFlags {
                plus_degrees_visible: !f.plus_degrees_visible,
                ..f
            })
            &&& command == MENU_INVERSION ==> g == (ToolFlags { inverted: !f.inverted, ..f })
            &&& command == MENU_HYPOTENUSE ==> g == (ToolFlags {
                hypotenuse_visible: !f.hypotenuse_visible,
                ..f
            })
            &&& command == MENU_FRONT_PLUS ==> g == (ToolFlags {
                front_plus_visible: !f.front_plus_visible,
                ..f
            })
            &&& command == MENU_XTK_PLUS ==> g == (ToolFlags { xtk_visible: !f.xtk_visible, ..f })
                && e.helper == (if !f.xtk_visible && !helper_present {
                HelperChange::Create
            } else {
                HelperChange::Keep
            })
            &&& command == MENU_DISTANCE_PLUS ==> g == (ToolFlags {
                distance_visible: !f.distance_visible,
                ..f
            }) && e.calibrate_distance == !f.distance_visible && e.end_distance_edit
                == f.distance_visible && e.helper == (if !f.distance_visible && !helper_present {
                HelperChange::Create
            } else {
                HelperChange::Keep
            })
            &&& command == MENU_BOX_PLUS ==> g == f && e.toggle_box
            &&& command == MENU_COURSE_PLUS ==> g == (ToolFlags {
                course_visible: !f.course_visible,
                north_visible: f.north_visible || !f.course_visible,
                ..f
            }) && e.helper == (if !f.course_visible && !helper_present {
                HelperChange::Create
            } else {
                HelperChange::Keep
            })
            &&& command == MENU_NORTH_PLUS ==> g == (ToolFlags {
                north_visible: !f.north_visible,
                course_visible: f.course_visible && !f.north_visible,
                ..f
            })
            &&& command == MENU_PLUS && !helper_present ==> g == (ToolFlags {
                helper_pinned: false,
                ..f
            }) && e.helper == HelperChange::Create
            &&& command == MENU_PLUS && helper_present ==> g == (ToolFlags {
                distance_visible: false,
                course_visible: false,
                xtk_visible: false,
                helper_pinned: false,
                ..f
            }) && e.helper == HelperChange::Remove
            &&& e.handled == (command == MENU_BISECTOR || command == MENU_PLUS || command
                == MENU_PLUS_DEGREES || command == MENU_INVERSION || command == MENU_HYPOTENUSE
                || command == MENU_FRONT_PLUS || command == MENU_DISTANCE_PLUS || command
                == MENU_COURSE_PLUS || command == MENU_XTK_PLUS || command == MENU_BOX_PLUS
                || command == MENU_NORTH_PLUS)
        }),
{
}

} // verus!
