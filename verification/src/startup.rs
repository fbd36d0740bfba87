//! The flags at start-up: read from the settings file, or the defaults when
//! there is none, and made consistent.
use vstd::prelude::*;
use crate::features::ToolFlags;
use crate::settings::SettingsRecord;

verus! {

impl ToolFlags {
    /// The flags with no settings file: only the bisector shown, nothing
    /// pinned or locked, nothing dragged.
    pub fn initial() -> (f: ToolFlags)
        ensures
            f == (ToolFlags {
                angle_locked: false,
                red_locked_index: None,
                bisector_visible: true,
                plus_degrees_visible: false,
                inverted: false,
                hypotenuse_visible: false,
                front_plus_visible: false,
                xtk_visible: false,
                distance_visible: false,
                north_visible: false,
                north_locked: false,
                course_visible: false,
                blue_pinned: false,
                left_red_pinned: false,
                right_red_pinned: false,
                helper_pinned: false,
                active_handle: None,
            }),
    {
        ToolFlags {
            angle_locked: false,
            red_locked_index: None,
            bisector_visible: true,
            plus_degrees_visible: false,
            inverted: false,
            hypotenuse_visible: false,
            front_plus_visible: false,
            xtk_visible: false,
            distance_visible: false,
            north_visible: false,
            north_locked: false,
            course_visible: false,
            blue_pinned: false,
            left_red_pinned: false,
            right_red_pinned: false,
            helper_pinned: false,
            active_handle: None,
        }
    }

    /// The flags that a settings file holds, nothing dragged.
    pub fn from_record(r: &SettingsRecord) -> (f: ToolFlags)
        ensures
            f == (ToolFlags {
                angle_locked: r.angle_locked,
                red_locked_index: r.red_locked_index,
                bisector_visible: r.bisector_visible,
                plus_degrees_visible: r.plus_degrees_visible,
                inverted: r.inverted,
                hypotenuse_visible: r.hypotenuse_visible,
                front_plus_visible: r.front_plus_visible,
                xtk_visible: r.xtk_visible,
                distance_visible: r.distance_visible,
                north_visible: r.north_visible,
                north_locked: r.north_locked,
                course_visible: r.course_visible,
                blue_pinned: r.blue_pinned,
                left_red_pinned: r.left_red_pinned,
                right_red_pinned: r.right_red_pinned,
                helper_pinned: r.helper_pinned,
                active_handle: None,
            }),
    {
        ToolFlags {
            angle_locked: r.angle_locked,
            red_locked_index: r.red_locked_index,
            bisector_visible: r.bisector_visible,
            plus_degrees_visible: r.plus_degrees_visible,
            inverted: r.inverted,
            hypotenuse_visible: r.hypotenuse_visible,
            front_plus_visible: r.front_plus_visible,
            xtk_visible: r.xtk_visible,
            distance_visible: r.distance_visible,
            north_visible: r.north_visible,
            north_locked: r.north_locked,
            course_visible: r.course_visible,
            blue_pinned: r.blue_pinned,
            left_red_pinned: r.left_red_pinned,
            right_red_pinned: r.right_red_pinned,
            helper_pinned: r.helper_pinned,
            active_handle: None,
        }
    }

    /// At start-up the course needs North and a helper point: with the course
    /// shown, North is shown too. Returns whether a helper point must be
    /// placed.
    pub fn settle_course(&mut self, helper_present: bool) -> (needs_helper: bool)
        ensures
            needs_helper == (old(self).course_visible && !helper_present),
            *final(self) == (if old(self).course_visible {
                ToolFlags { north_visible: true, ..*old(self) }
            } else {
                *old(self)
            }),
    {
        if self.course_visible {
            self.north_visible = true;
            !helper_present
        } else {
            false
        }
    }
}

} // verus!
