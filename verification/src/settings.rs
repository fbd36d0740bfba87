//! The settings file: a whitespace-separated list of tokens, headed by a
//! format version (1 to 11). Each version holds its own fields in its own
//! order; fields that a version lacks take their defaults.
//!
//! Coordinates and angles are floating-point numbers; the library keeps them as
//! the tokens that hold them, and the caller reads them as numbers.
use vstd::prelude::*;
use crate::scan::{
    decimal_text, flag_text, i32_token, is_token, lemma_decimal_text, lemma_flag_text,
    lemma_separated_tokens, lemma_signed_text, parse_i32, parse_u32, parse_u8, separated,
    signed_decimal, signed_text, split_whitespace, string_views, u32_token, u8_token,
    whitespace_tokens, TokenWriter, is_space,
};

verus! {

/// The newest format version, the one that `format_settings` writes.
pub const SETTINGS_VERSION: u32 = 11;

/// A field of the settings file.
#[derive(Clone, Copy, Debug)]
pub enum SettingsField {
    P0x,
    P0y,
    P1x,
    P1y,
    P2x,
    P2y,
    HelperEnabled,
    HelperX,
    HelperY,
    AngleLocked,
    LockedAngle,
    RedLock,
    Bisector,
    PlusDegrees,
    Inverted,
    Hypotenuse,
    FrontPlus,
    Xtk,
    Distance,
    MetersPerPixel,
    North,
    NorthAngle,
    NorthLocked,
    Course,
    BluePin,
    LeftRedPin,
    RightRedPin,
    HelperPin,
    WindowX,
    WindowY,
}

/// How a field's token is read.
pub enum FieldKind {
    /// A `u8`; non-zero means set.
    Flag,
    /// A `u8` naming the locked red point: 1 for the left one, 2 for the right one.
    RedLockCode,
    /// A floating-point number, read by the caller.
    Float,
    /// An `i32`.
    Coordinate,
}

/// The kind of each field.
pub open spec fn field_kind(f: SettingsField) -> FieldKind {
    match f {
        SettingsField::P0x | SettingsField::P0y | SettingsField::P1x | SettingsField::P1y
        | SettingsField::P2x | SettingsField::P2y | SettingsField::HelperX
        | SettingsField::HelperY | SettingsField::LockedAngle | SettingsField::MetersPerPixel
        | SettingsField::NorthAngle => FieldKind::Float,
        SettingsField::RedLock => FieldKind::RedLockCode,
        SettingsField::WindowX | SettingsField::WindowY => FieldKind::Coordinate,
        _ => FieldKind::Flag,
    }
}

/// The number of fields that follow the version token in each version.
pub open spec fn field_count(v: u32) -> nat {
    if v == 1 { 10 }
    else if v == 2 { 13 }
    else if v == 3 { 18 }
    else if v == 4 { 20 }
    else if v == 5 { 21 }
    else if v == 6 { 22 }
    else if v == 7 { 24 }
    else if v == 8 { 27 }
    else if v == 9 { 28 }
    else if v == 10 { 29 }
    else if v == 11 { 30 }
    else { 0 }
}

/// Where field `f` stands in version `v`, counted from the token after the
/// version; `None` when the version has no such field or is unknown.
pub open spec fn settings_slot(v: u32, f: SettingsField) -> Option<nat> {
    let x: nat = if v == 11 { 1 } else { 0 };
    if v < 1 || v > 11 {
        None
    } else {
        match f {
            SettingsField::P0x => Some(0),
            SettingsField::P0y => Some(1),
            SettingsField::P1x => Some(2),
            SettingsField::P1y => Some(3),
            SettingsField::P2x => Some(4),
            SettingsField::P2y => Some(5),
            SettingsField::HelperEnabled => if v >= 2 { Some(6) } else { None },
            SettingsField::HelperX => if v >= 2 { Some(7) } else { None },
            SettingsField::HelperY => if v >= 2 { Some(8) } else { None },
            SettingsField::AngleLocked => if v == 1 { Some(6) } else { Some(9) },
            SettingsField::LockedAngle => if v == 1 { Some(7) } else { Some(10) },
            SettingsField::RedLock => if v >= 5 { Some(11) } else { None },
            SettingsField::Bisector => if v == 3 || v == 4 { Some(11) } else if v >= 5 { Some(12) } else { None },
            SettingsField::PlusDegrees => if v == 3 || v == 4 { Some(12) } else if v >= 5 { Some(13) } else { None },
            SettingsField::Inverted => if v == 3 || v == 4 { Some(13) } else if v >= 5 { Some(14) } else { None },
            SettingsField::Hypotenuse => if v == 3 || v == 4 { Some(14) } else if v >= 5 { Some(15) } else { None },
            SettingsField::FrontPlus => if v == 3 || v == 4 { Some(15) } else if v >= 5 { Some(16) } else { None },
            SettingsField::Xtk => if v == 11 { Some(17) } else { None },
            SettingsField::Distance => if v == 4 { Some(16) } else if v >= 5 { Some(17 + x) } else { None },
            SettingsField::MetersPerPixel => if v == 4 { Some(17) } else if v >= 5 { Some(18 + x) } else { None },
            SettingsField::North => if v >= 6 { Some(19 + x) } else { None },
            SettingsField::NorthAngle => if v >= 7 { Some(20 + x) } else { None },
            SettingsField::NorthLocked => if v >= 7 { Some(21 + x) } else { None },
            SettingsField::Course => if v >= 9 { Some(22 + x) } else { None },
            SettingsField::BluePin => if v == 8 { Some(22) } else if v >= 9 { Some(23 + x) } else { None },
            SettingsField::LeftRedPin => if v == 8 { Some(23) } else if v >= 9 { Some(24 + x) } else { None },
            SettingsField::RightRedPin => if v == 8 { Some(24) } else if v >= 9 { Some(25 + x) } else { None },
            SettingsField::HelperPin => if v >= 10 { Some(26 + x) } else { None },
            SettingsField::WindowX => Some((field_count(v) - 2) as nat),
            SettingsField::WindowY => Some((field_count(v) - 1) as nat),
        }
    }
}

/// The token is readable as a value of the field's kind.
pub open spec fn field_token_ok(f: SettingsField, t: Seq<char>) -> bool {
    match field_kind(f) {
        FieldKind::Flag | FieldKind::RedLockCode => u8_token(t) is Some,
        FieldKind::Coordinate => i32_token(t) is Some,
        FieldKind::Float => true,
    }
}

/// The field, where version `v` has it, has a token and that token is readable.
pub open spec fn field_ok_at(toks: Seq<Seq<char>>, v: u32, f: SettingsField) -> bool {
    match settings_slot(v, f) {
        Some(k) => 1 + k < toks.len() && field_token_ok(f, toks[1 + k as int]),
        None => true,
    }
}

/// Every field of version `v` has a readable token.
pub open spec fn settings_tokens_ok(toks: Seq<Seq<char>>, v: u32) -> bool {
    forall|f: SettingsField| field_ok_at(toks, v, f)
}

/// The token of a field that the version has.
pub open spec fn token_at(toks: Seq<Seq<char>>, v: u32, f: SettingsField) -> Seq<char> {
    toks[1 + settings_slot(v, f)->0 as int]
}

/// A flag field: its token read as a `u8` is non-zero, or `default` when the
/// version has no such field.
pub open spec fn flag_at(toks: Seq<Seq<char>>, v: u32, f: SettingsField, default: bool) -> bool {
    match settings_slot(v, f) {
        Some(k) => u8_token(toks[1 + k as int])->0 != 0,
        None => default,
    }
}

/// A floating-point field: its token, or `None` when the version has no such
/// field (the default applies).
pub open spec fn float_at(toks: Seq<Seq<char>>, v: u32, f: SettingsField) -> Option<Seq<char>> {
    match settings_slot(v, f) {
        Some(k) => Some(toks[1 + k as int]),
        None => None,
    }
}

/// The red point that a lock code names: 1 the left one (index 0), 2 the right
/// one (index 2), any other code none.
pub open spec fn red_lock_index(code: u8) -> Option<usize> {
    if code == 1 {
        Some(0)
    } else if code == 2 {
        Some(2)
    } else {
        None
    }
}

/// The code that names a locked red point: the inverse of `red_lock_index`,
/// 0 for anything else.
pub open spec fn red_lock_code(index: Option<usize>) -> u8 {
    match index {
        Some(i) => if i == 0 { 1 } else if i == 2 { 2 } else { 0 },
        None => 0,
    }
}

/// The contents of a settings file, with floating-point values as their tokens.
pub struct SettingsModel {
    pub version: u32,
    pub points: Seq<(Seq<char>, Seq<char>)>,
    pub helper: Option<(bool, Seq<char>, Seq<char>)>,
    pub angle_locked: bool,
    pub locked_signed_angle: Seq<char>,
    pub red_locked_index: Option<usize>,
    pub bisector_visible: bool,
    pub plus_degrees_visible: bool,
    pub inverted: bool,
    pub hypotenuse_visible: bool,
    pub front_plus_visible: bool,
    pub xtk_visible: bool,
    pub distance_visible: bool,
    pub meters_per_pixel: Option<Seq<char>>,
    pub north_visible: bool,
    pub north_angle: Option<Seq<char>>,
    pub north_locked: bool,
    pub course_visible: bool,
    pub blue_pinned: bool,
    pub left_red_pinned: bool,
    pub right_red_pinned: bool,
    pub helper_pinned: bool,
    pub window_x: i32,
    pub window_y: i32,
}

/// The settings that the tokens of a version-`v` file hold, every field
/// present being readable.
pub open spec fn settings_model(toks: Seq<Seq<char>>, v: u32) -> SettingsModel {
    let helper_enabled = flag_at(toks, v, SettingsField::HelperEnabled, false);
    let front = flag_at(toks, v, SettingsField::FrontPlus, false);
    SettingsModel {
        version: v,
        points: seq![
            (token_at(toks, v, SettingsField::P0x), token_at(toks, v, SettingsField::P0y)),
            (token_at(toks, v, SettingsField::P1x), token_at(toks, v, SettingsField::P1y)),
            (token_at(toks, v, SettingsField::P2x), token_at(toks, v, SettingsField::P2y)),
        ],
        helper: if settings_slot(v, SettingsField::HelperEnabled) is Some {
            Some(
                (
                    helper_enabled,
                    token_at(toks, v, SettingsField::HelperX),
                    token_at(toks, v, SettingsField::HelperY),
                ),
            )
        } else {
            None
        },
        angle_locked: flag_at(toks, v, SettingsField::AngleLocked, false),
        locked_signed_angle: token_at(toks, v, SettingsField::LockedAngle),
        red_locked_index: match settings_slot(v, SettingsField::RedLock) {
            Some(k) => red_lock_index(u8_token(toks[1 + k as int])->0),
            None => None,
        },
        bisector_visible: flag_at(toks, v, SettingsField::Bisector, true),
        // version 2 shows the degree labels exactly when the helper is on
        plus_degrees_visible: flag_at(toks, v, SettingsField::PlusDegrees, helper_enabled),
        inverted: flag_at(toks, v, SettingsField::Inverted, false),
        hypotenuse_visible: flag_at(toks, v, SettingsField::Hypotenuse, false),
        front_plus_visible: front,
        // before version 11 the transverse line was part of Front +
        xtk_visible: flag_at(toks, v, SettingsField::Xtk, if v >= 9 { front } else { false }),
        distance_visible: flag_at(toks, v, SettingsField::Distance, false),
        meters_per_pixel: float_at(toks, v, SettingsField::MetersPerPixel),
        north_visible: flag_at(toks, v, SettingsField::North, false),
        north_angle: float_at(toks, v, SettingsField::NorthAngle),
        north_locked: flag_at(toks, v, SettingsField::NorthLocked, false),
        course_visible: flag_at(toks, v, SettingsField::Course, false),
        blue_pinned: flag_at(toks, v, SettingsField::BluePin, false),
        left_red_pinned: flag_at(toks, v, SettingsField::LeftRedPin, false),
        right_red_pinned: flag_at(toks, v, SettingsField::RightRedPin, false),
        helper_pinned: flag_at(toks, v, SettingsField::HelperPin, false),
        window_x: i32_token(token_at(toks, v, SettingsField::WindowX))->0,
        window_y: i32_token(token_at(toks, v, SettingsField::WindowY))->0,
    }
}

/// What a settings file's tokens hold: `None` unless the first token is a
/// known version and every field of that version has a readable token.
pub open spec fn settings_from_tokens(toks: Seq<Seq<char>>) -> Option<SettingsModel> {
    if toks.len() == 0 {
        None
    } else {
        match u32_token(toks[0]) {
            Some(v) => if 1 <= v <= 11 && settings_tokens_ok(toks, v) {
                Some(settings_model(toks, v))
            } else {
                None
            },
            None => None,
        }
    }
}

/// A point as the tokens of its two coordinates.
#[derive(Clone, Debug)]
pub struct PointTokens {
    pub x: String,
    pub y: String,
}

/// The helper point: whether it is shown, and the tokens of its coordinates
/// (which a file holds whether or not it is shown).
#[derive(Clone, Debug)]
pub struct HelperTokens {
    pub enabled: bool,
    pub x: String,
    pub y: String,
}

/// The contents of a settings file, floating-point values kept as tokens.
#[derive(Clone, Debug)]
pub struct SettingsRecord {
    pub version: u32,
    pub points: Vec<PointTokens>,
    pub helper: Option<HelperTokens>,
    pub angle_locked: bool,
    pub locked_signed_angle: String,
    pub red_locked_index: Option<usize>,
    pub bisector_visible: bool,
    pub plus_degrees_visible: bool,
    pub inverted: bool,
    pub hypotenuse_visible: bool,
    pub front_plus_visible: bool,
    pub xtk_visible: bool,
    pub distance_visible: bool,
    /// `None`: the file predates this field.
    pub meters_per_pixel: Option<String>,
    pub north_visible: bool,
    /// `None`: the file predates this field.
    pub north_angle: Option<String>,
    pub north_locked: bool,
    pub course_visible: bool,
    pub blue_pinned: bool,
    pub left_red_pinned: bool,
    pub right_red_pinned: bool,
    pub helper_pinned: bool,
    pub window_x: i32,
    pub window_y: i32,
}

/// The characters of an optional string.
pub open spec fn opt_view(s: Option<String>) -> Option<Seq<char>> {
    match s {
        Some(t) => Some(t@),
        None => None,
    }
}

impl View for SettingsRecord {
    type V = SettingsModel;

    open spec fn view(&self) -> SettingsModel {
        SettingsModel {
            version: self.version,
            points: self.points@.map_values(|p: PointTokens| (p.x@, p.y@)),
            helper: match self.helper {
                Some(h) => Some((h.enabled, h.x@, h.y@)),
                None => None,
            },
            angle_locked: self.angle_locked,
            locked_signed_angle: self.locked_signed_angle@,
            red_locked_index: self.red_locked_index,
            bisector_visible: self.bisector_visible,
            plus_degrees_visible: self.plus_degrees_visible,
            inverted: self.inverted,
            hypotenuse_visible: self.hypotenuse_visible,
            front_plus_visible: self.front_plus_visible,
            xtk_visible: self.xtk_visible,
            distance_visible: self.distance_visible,
            meters_per_pixel: opt_view(self.meters_per_pixel),
            north_visible: self.north_visible,
            north_angle: opt_view(self.north_angle),
            north_locked: self.north_locked,
            course_visible: self.course_visible,
            blue_pinned: self.blue_pinned,
            left_red_pinned: self.left_red_pinned,
            right_red_pinned: self.right_red_pinned,
            helper_pinned: self.helper_pinned,
            window_x: self.window_x,
            window_y: self.window_y,
        }
    }
}

/// Where field `f` stands in version `v` (see `settings_slot`).
pub fn settings_slot_of(v: u32, f: SettingsField) -> (r: Option<usize>)
    ensures
        r matches Some(k) ==> settings_slot(v, f) == Some(k as nat),
        r is None ==> settings_slot(v, f) is None,
{
    let x: usize = if v == 11 { 1 } else { 0 };
    let count: usize = if v == 1 { 10 }
        else if v == 2 { 13 }
        else if v == 3 { 18 }
        else if v == 4 { 20 }
        else if v == 5 { 21 }
        else if v == 6 { 22 }
        else if v == 7 { 24 }
        else if v == 8 { 27 }
        else if v == 9 { 28 }
        else if v == 10 { 29 }
        else { 30 };
    if v < 1 || v > 11 {
        return None;
    }
    match f {
        SettingsField::P0x => Some(0),
        SettingsField::P0y => Some(1),
        SettingsField::P1x => Some(2),
        SettingsField::P1y => Some(3),
        SettingsField::P2x => Some(4),
        SettingsField::P2y => Some(5),
        SettingsField::HelperEnabled => if v >= 2 { Some(6) } else { None },
        SettingsField::HelperX => if v >= 2 { Some(7) } else { None },
        SettingsField::HelperY => if v >= 2 { Some(8) } else { None },
        SettingsField::AngleLocked => if v == 1 { Some(6) } else { Some(9) },
        SettingsField::LockedAngle => if v == 1 { Some(7) } else { Some(10) },
        SettingsField::RedLock => if v >= 5 { Some(11) } else { None },
        SettingsField::Bisector => if v == 3 || v == 4 { Some(11) } else if v >= 5 { Some(12) } else { None },
        SettingsField::PlusDegrees => if v == 3 || v == 4 { Some(12) } else if v >= 5 { Some(13) } else { None },
        SettingsField::Inverted => if v == 3 || v == 4 { Some(13) } else if v >= 5 { Some(14) } else { None },
        SettingsField::Hypotenuse => if v == 3 || v == 4 { Some(14) } else if v >= 5 { Some(15) } else { None },
        SettingsField::FrontPlus => if v == 3 || v == 4 { Some(15) } else if v >= 5 { Some(16) } else { None },
        SettingsField::Xtk => if v == 11 { Some(17) } else { None },
        SettingsField::Distance => if v == 4 { Some(16) } else if v >= 5 { Some(17 + x) } else { None },
        SettingsField::MetersPerPixel => if v == 4 { Some(17) } else if v >= 5 { Some(18 + x) } else { None },
        SettingsField::North => if v >= 6 { Some(19 + x) } else { None },
        SettingsField::NorthAngle => if v >= 7 { Some(20 + x) } else { None },
        SettingsField::NorthLocked => if v >= 7 { Some(21 + x) } else { None },
        SettingsField::Course => if v >= 9 { Some(22 + x) } else { None },
        SettingsField::BluePin => if v == 8 { Some(22) } else if v >= 9 { Some(23 + x) } else { None },
        SettingsField::LeftRedPin => if v == 8 { Some(23) } else if v >= 9 { Some(24 + x) } else { None },
        SettingsField::RightRedPin => if v == 8 { Some(24) } else if v >= 9 { Some(25 + x) } else { None },
        SettingsField::HelperPin => if v >= 10 { Some(26 + x) } else { None },
        SettingsField::WindowX => Some(count - 2),
        SettingsField::WindowY => Some(count - 1),
    }
}

/// Whether field `f` of version `v`, where the version has it, has a readable
/// token.
fn field_ok(tokens: &Vec<String>, v: u32, f: SettingsField) -> (ok: bool)
    ensures
        ok == field_ok_at(string_views(tokens@), v, f),
{
    match settings_slot_of(v, f) {
        Some(k) => {
            if tokens.len() == 0 || k >= tokens.len() - 1 {
                return false;
            }
            let t = tokens[k + 1].as_str();
            match f {
                SettingsField::WindowX | SettingsField::WindowY => parse_i32(t).is_some(),
                SettingsField::P0x | SettingsField::P0y | SettingsField::P1x | SettingsField::P1y
                | SettingsField::P2x | SettingsField::P2y | SettingsField::HelperX
                | SettingsField::HelperY | SettingsField::LockedAngle
                | SettingsField::MetersPerPixel | SettingsField::NorthAngle => true,
                _ => parse_u8(t).is_some(),
            }
        },
        None => true,
    }
}

/// Whether every field of version `v` has a readable token.
fn fields_ok(tokens: &Vec<String>, v: u32) -> (ok: bool)
    ensures
        ok == settings_tokens_ok(string_views(tokens@), v),
{
    let ghost toks = string_views(tokens@);
    let ok0 = field_ok(tokens, v, SettingsField::P0x);
    let ok1 = field_ok(tokens, v, SettingsField::P0y);
    let ok2 = field_ok(tokens, v, SettingsField::P1x);
    let ok3 = field_ok(tokens, v, SettingsField::P1y);
    let ok4 = field_ok(tokens, v, SettingsField::P2x);
    let ok5 = field_ok(tokens, v, SettingsField::P2y);
    let ok6 = field_ok(tokens, v, SettingsField::HelperEnabled);
    let ok7 = field_ok(tokens, v, SettingsField::HelperX);
    let ok8 = field_ok(tokens, v, SettingsField::HelperY);
    let ok9 = field_ok(tokens, v, SettingsField::AngleLocked);
    let ok10 = field_ok(tokens, v, SettingsField::LockedAngle);
    let ok11 = field_ok(tokens, v, SettingsField::RedLock);
    let ok12 = field_ok(tokens, v, SettingsField::Bisector);
    let ok13 = field_ok(tokens, v, SettingsField::PlusDegrees);
    let ok14 = field_ok(tokens, v, SettingsField::Inverted);
    let ok15 = field_ok(tokens, v, SettingsField::Hypotenuse);
    let ok16 = field_ok(tokens, v, SettingsField::FrontPlus);
    let ok17 = field_ok(tokens, v, SettingsField::Xtk);
    let ok18 = field_ok(tokens, v, SettingsField::Distance);
    let ok19 = field_ok(tokens, v, SettingsField::MetersPerPixel);
    let ok20 = field_ok(tokens, v, SettingsField::North);
    let ok21 = field_ok(tokens, v, SettingsField::NorthAngle);
    let ok22 = field_ok(tokens, v, SettingsField::NorthLocked);
    let ok23 = field_ok(tokens, v, SettingsField::Course);
    let ok24 = field_ok(tokens, v, SettingsField::BluePin);
    let ok25 = field_ok(tokens, v, SettingsField::LeftRedPin);
    let ok26 = field_ok(tokens, v, SettingsField::RightRedPin);
    let ok27 = field_ok(tokens, v, SettingsField::HelperPin);
    let ok28 = field_ok(tokens, v, SettingsField::WindowX);
    let ok29 = field_ok(tokens, v, SettingsField::WindowY);
    let ok = ok0 && ok1 && ok2 && ok3 && ok4 && ok5 && ok6 && ok7 && ok8 && ok9 && ok10 && ok11 && ok12 && ok13 && ok14 && ok15 && ok16 && ok17 && ok18 && ok19 && ok20 && ok21 && ok22 && ok23 && ok24 && ok25 && ok26 && ok27 && ok28 && ok29;
    proof {
        if ok {
            assert forall|f: SettingsField| field_ok_at(toks, v, f) by {
                match f {
                SettingsField::P0x => {},
                SettingsField::P0y => {},
                SettingsField::P1x => {},
                SettingsField::P1y => {},
                SettingsField::P2x => {},
                SettingsField::P2y => {},
                SettingsField::HelperEnabled => {},
                SettingsField::HelperX => {},
                SettingsField::HelperY => {},
                SettingsField::AngleLocked => {},
                SettingsField::LockedAngle => {},
                SettingsField::RedLock => {},
                SettingsField::Bisector => {},
                SettingsField::PlusDegrees => {},
                SettingsField::Inverted => {},
                SettingsField::Hypotenuse => {},
                SettingsField::FrontPlus => {},
                SettingsField::Xtk => {},
                SettingsField::Distance => {},
                SettingsField::MetersPerPixel => {},
                SettingsField::North => {},
                SettingsField::NorthAngle => {},
                SettingsField::NorthLocked => {},
                SettingsField::Course => {},
                SettingsField::BluePin => {},
                SettingsField::LeftRedPin => {},
                SettingsField::RightRedPin => {},
                SettingsField::HelperPin => {},
                SettingsField::WindowX => {},
                SettingsField::WindowY => {},
                }
            }
        }
    }
    ok
}

/// The value of a flag field whose token, if version `v` has the field, is
/// readable.
fn flag_value(tokens: &Vec<String>, v: u32, f: SettingsField, default: bool) -> (b: bool)
    requires
        field_kind(f) == FieldKind::Flag,
        field_ok_at(string_views(tokens@), v, f),
    ensures
        b == flag_at(string_views(tokens@), v, f, default),
{
    match settings_slot_of(v, f) {
        Some(k) => match parse_u8(tokens[k + 1].as_str()) {
            Some(b) => b != 0,
            None => default,
        },
        None => default,
    }
}

/// The token of a floating-point field that version `v` has.
fn float_token(tokens: &Vec<String>, v: u32, f: SettingsField) -> (t: String)
    requires
        field_kind(f) == FieldKind::Float,
        field_ok_at(string_views(tokens@), v, f),
        settings_slot(v, f) is Some,
    ensures
        t@ == token_at(string_views(tokens@), v, f),
{
    match settings_slot_of(v, f) {
        Some(k) => tokens[k + 1].clone(),
        None => String::new(),
    }
}

/// The token of a floating-point field, `None` when version `v` lacks it.
fn optional_float_token(tokens: &Vec<String>, v: u32, f: SettingsField) -> (t: Option<String>)
    requires
        field_kind(f) == FieldKind::Float,
        field_ok_at(string_views(tokens@), v, f),
    ensures
        opt_view(t) == float_at(string_views(tokens@), v, f),
{
    match settings_slot_of(v, f) {
        Some(k) => Some(tokens[k + 1].clone()),
        None => None,
    }
}

/// The red point that the red-lock field names (none when version `v` lacks it).
fn red_lock_value(tokens: &Vec<String>, v: u32) -> (r: Option<usize>)
    requires
        field_ok_at(string_views(tokens@), v, SettingsField::RedLock),
    ensures
        r == (match settings_slot(v, SettingsField::RedLock) {
            Some(k) => red_lock_index(u8_token(string_views(tokens@)[1 + k as int])->0),
            None => None,
        }),
{
    match settings_slot_of(v, SettingsField::RedLock) {
        Some(k) => match parse_u8(tokens[k + 1].as_str()) {
            Some(code) => if code == 1 { Some(0) } else if code == 2 { Some(2) } else { None },
            None => None,
        },
        None => None,
    }
}

/// The value of a coordinate field.
fn coordinate_value(tokens: &Vec<String>, v: u32, f: SettingsField) -> (c: i32)
    requires
        field_kind(f) == FieldKind::Coordinate,
        field_ok_at(string_views(tokens@), v, f),
        settings_slot(v, f) is Some,
    ensures
        c == i32_token(token_at(string_views(tokens@), v, f))->0,
{
    match settings_slot_of(v, f) {
        Some(k) => match parse_i32(tokens[k + 1].as_str()) {
            Some(c) => c,
            None => 0,
        },
        None => 0,
    }
}

/// The three points of a file whose fields are all readable.
fn points_value(tokens: &Vec<String>, v: u32) -> (points: Vec<PointTokens>)
    requires
        1 <= v <= 11,
        settings_tokens_ok(string_views(tokens@), v),
    ensures
        points@.map_values(|p: PointTokens| (p.x@, p.y@)) == settings_model(
            string_views(tokens@),
            v,
        ).points,
{
    let ghost toks = string_views(tokens@);
    assert(field_ok_at(toks, v, SettingsField::P0x));
    assert(field_ok_at(toks, v, SettingsField::P0y));
    assert(field_ok_at(toks, v, SettingsField::P1x));
    assert(field_ok_at(toks, v, SettingsField::P1y));
    assert(field_ok_at(toks, v, SettingsField::P2x));
    assert(field_ok_at(toks, v, SettingsField::P2y));
    let mut points: Vec<PointTokens> = Vec::new();
    points.push(PointTokens {
        x: float_token(tokens, v, SettingsField::P0x),
        y: float_token(tokens, v, SettingsField::P0y),
    });
    points.push(PointTokens {
        x: float_token(tokens, v, SettingsField::P1x),
        y: float_token(tokens, v, SettingsField::P1y),
    });
    points.push(PointTokens {
        x: float_token(tokens, v, SettingsField::P2x),
        y: float_token(tokens, v, SettingsField::P2y),
    });
    assert(points@.map_values(|p: PointTokens| (p.x@, p.y@)) =~= settings_model(toks, v).points);
    points
}

/// The helper point of a file whose fields are all readable (none before
/// version 2).
fn helper_value(tokens: &Vec<String>, v: u32) -> (h: Option<HelperTokens>)
    requires
        1 <= v <= 11,
        settings_tokens_ok(string_views(tokens@), v),
    ensures
        (match h {
            Some(h) => Some((h.enabled, h.x@, h.y@)),
            None => None,
        }) == settings_model(string_views(tokens@), v).helper,
{
    let ghost toks = string_views(tokens@);
    assert(field_ok_at(toks, v, SettingsField::HelperEnabled));
    assert(field_ok_at(toks, v, SettingsField::HelperX));
    assert(field_ok_at(toks, v, SettingsField::HelperY));
    if v >= 2 {
        Some(HelperTokens {
            enabled: flag_value(tokens, v, SettingsField::HelperEnabled, false),
            x: float_token(tokens, v, SettingsField::HelperX),
            y: float_token(tokens, v, SettingsField::HelperY),
        })
    } else {
        None
    }
}

/// Reads the settings held by the tokens of a settings file.
pub fn parse_settings(tokens: &Vec<String>) -> (r: Option<SettingsRecord>)
    ensures
        match r {
            Some(rec) => settings_from_tokens(string_views(tokens@)) == Some(rec@)
                && rec.points@.len() == 3,
            None => settings_from_tokens(string_views(tokens@)) is None,
        },
{
    let ghost toks = string_views(tokens@);
    if tokens.len() == 0 {
        return None;
    }
    let v = match parse_u32(tokens[0].as_str()) {
        Some(v) => v,
        None => return None,
    };
    if v < 1 || v > 11 || !fields_ok(tokens, v) {
        return None;
    }
    let ghost m = settings_model(toks, v);
    assert(toks[0] == tokens@[0]@);
    assert(u32_token(toks[0]) == Some(v));
    assert(field_ok_at(toks, v, SettingsField::HelperEnabled));
    assert(field_ok_at(toks, v, SettingsField::AngleLocked));
    assert(field_ok_at(toks, v, SettingsField::LockedAngle));
    assert(field_ok_at(toks, v, SettingsField::RedLock));
    assert(field_ok_at(toks, v, SettingsField::Bisector));
    assert(field_ok_at(toks, v, SettingsField::PlusDegrees));
    assert(field_ok_at(toks, v, SettingsField::Inverted));
    assert(field_ok_at(toks, v, SettingsField::Hypotenuse));
    assert(field_ok_at(toks, v, SettingsField::FrontPlus));
    assert(field_ok_at(toks, v, SettingsField::Xtk));
    assert(field_ok_at(toks, v, SettingsField::Distance));
    assert(field_ok_at(toks, v, SettingsField::MetersPerPixel));
    assert(field_ok_at(toks, v, SettingsField::North));
    assert(field_ok_at(toks, v, SettingsField::NorthAngle));
    assert(field_ok_at(toks, v, SettingsField::NorthLocked));
    assert(field_ok_at(toks, v, SettingsField::Course));
    assert(field_ok_at(toks, v, SettingsField::BluePin));
    assert(field_ok_at(toks, v, SettingsField::LeftRedPin));
    assert(field_ok_at(toks, v, SettingsField::RightRedPin));
    assert(field_ok_at(toks, v, SettingsField::HelperPin));
    assert(field_ok_at(toks, v, SettingsField::WindowX));
    assert(field_ok_at(toks, v, SettingsField::WindowY));
    let helper_enabled = flag_value(tokens, v, SettingsField::HelperEnabled, false);
    let front_plus_visible = flag_value(tokens, v, SettingsField::FrontPlus, false);
    let xtk_default = if v >= 9 { front_plus_visible } else { false };
    let rec = SettingsRecord {
        version: v,
        points: points_value(tokens, v),
        helper: helper_value(tokens, v),
        angle_locked: flag_value(tokens, v, SettingsField::AngleLocked, false),
        locked_signed_angle: float_token(tokens, v, SettingsField::LockedAngle),
        red_locked_index: red_lock_value(tokens, v),
        bisector_visible: flag_value(tokens, v, SettingsField::Bisector, true),
        plus_degrees_visible: flag_value(tokens, v, SettingsField::PlusDegrees, helper_enabled),
        inverted: flag_value(tokens, v, SettingsField::Inverted, false),
        hypotenuse_visible: flag_value(tokens, v, SettingsField::Hypotenuse, false),
        front_plus_visible,
        xtk_visible: flag_value(tokens, v, SettingsField::Xtk, xtk_default),
        distance_visible: flag_value(tokens, v, SettingsField::Distance, false),
        meters_per_pixel: optional_float_token(tokens, v, SettingsField::MetersPerPixel),
        north_visible: flag_value(tokens, v, SettingsField::North, false),
        north_angle: optional_float_token(tokens, v, SettingsField::NorthAngle),
        north_locked: flag_value(tokens, v, SettingsField::NorthLocked, false),
        course_visible: flag_value(tokens, v, SettingsField::Course, false),
        blue_pinned: flag_value(tokens, v, SettingsField::BluePin, false),
        left_red_pinned: flag_value(tokens, v, SettingsField::LeftRedPin, false),
        right_red_pinned: flag_value(tokens, v, SettingsField::RightRedPin, false),
        helper_pinned: flag_value(tokens, v, SettingsField::HelperPin, false),
        window_x: coordinate_value(tokens, v, SettingsField::WindowX),
        window_y: coordinate_value(tokens, v, SettingsField::WindowY),
    };
    assert(rec@ == m);
    assert(rec.points@.len() == rec@.points.len());
    Some(rec)
}

/// Reads the settings held by the text of a settings file.
pub fn load_settings_text(text: &str) -> (r: Option<SettingsRecord>)
    ensures
        match r {
            Some(rec) => settings_from_tokens(whitespace_tokens(text@)) == Some(rec@)
                && rec.points@.len() == 3,
            None => settings_from_tokens(whitespace_tokens(text@)) is None,
        },
{
    let tokens = split_whitespace(text);
    parse_settings(&tokens)
}

/// The tokens that `format_settings` writes, in order: the version, then every
/// field in its version-11 place.
#[verifier::opaque]
pub open spec fn save_tokens(m: SettingsModel) -> Seq<Seq<char>> {
    let h = m.helper->0;
    seq![
        decimal_text(11),
        m.points[0].0, m.points[0].1,
        m.points[1].0, m.points[1].1,
        m.points[2].0, m.points[2].1,
        flag_text(h.0), h.1, h.2,
        flag_text(m.angle_locked),
        m.locked_signed_angle,
        decimal_text(red_lock_code(m.red_locked_index) as nat),
        flag_text(m.bisector_visible),
        flag_text(m.plus_degrees_visible),
        flag_text(m.inverted),
        flag_text(m.hypotenuse_visible),
        flag_text(m.front_plus_visible),
        flag_text(m.xtk_visible),
        flag_text(m.distance_visible),
        m.meters_per_pixel->0,
        flag_text(m.north_visible),
        m.north_angle->0,
        flag_text(m.north_locked),
        flag_text(m.course_visible),
        flag_text(m.blue_pinned),
        flag_text(m.left_red_pinned),
        flag_text(m.right_red_pinned),
        flag_text(m.helper_pinned),
        signed_text(m.window_x as int), signed_text(m.window_y as int),
    ]
}

/// The character after each token: a point's two coordinates, and the window
/// position's, share a line; every other token ends its line.
#[verifier::opaque]
pub open spec fn save_seps() -> Seq<char> {
    seq![
        '\n', ' ', '\n', ' ', '\n', ' ', '\n', '\n', ' ', '\n', '\n', '\n', '\n', '\n', '\n', '\n',
        '\n', '\n', '\n', '\n', '\n', '\n', '\n', '\n', '\n', '\n', '\n', '\n', '\n', ' ', '\n',
    ]
}

/// The text of a settings file written from `m`.
pub open spec fn settings_text(m: SettingsModel) -> Seq<char> {
    separated(save_tokens(m), save_seps())
}

/// What `format_settings` needs: three points, the helper's tokens, every
/// floating-point value present, and every kept token a token.
pub open spec fn settings_saveable(m: SettingsModel) -> bool {
    &&& m.points.len() == 3
    &&& forall|i: int| 0 <= i < 3 ==> is_token(#[trigger] m.points[i].0) && is_token(m.points[i].1)
    &&& m.helper matches Some(h) && is_token(h.1) && is_token(h.2)
    &&& is_token(m.locked_signed_angle)
    &&& m.meters_per_pixel matches Some(t) && is_token(t)
    &&& m.north_angle matches Some(t) && is_token(t)
}

/// Writes the version and the three points.
fn write_points(w: &mut TokenWriter, r: &SettingsRecord)
    requires
        old(w).wf(),
        r.points@.len() == 3,
        r.helper is Some,
        r.meters_per_pixel is Some,
        r.north_angle is Some,
        old(w).toks@ == save_tokens(r@).take(0),
        old(w).seps@ == save_seps().take(0),
    ensures
        final(w).wf(),
        final(w).toks@ == save_tokens(r@).take(7),
        final(w).seps@ == save_seps().take(7),
{
    proof {
        lemma_save_tokens_at(r@);
        lemma_save_seps_at();
        assert(r@.points[0] == (r.points@[0].x@, r.points@[0].y@));
        assert(r@.points[1] == (r.points@[1].x@, r.points@[1].y@));
        assert(r@.points[2] == (r.points@[2].x@, r.points@[2].y@));
    }
    w.emit_u32(11, '\n');
    proof { lemma_take_push(save_tokens(r@), 0); lemma_take_push(save_seps(), 0); }
    w.emit_text(r.points[0].x.as_str(), ' ');
    proof { lemma_take_push(save_tokens(r@), 1); lemma_take_push(save_seps(), 1); }
    w.emit_text(r.points[0].y.as_str(), '\n');
    proof { lemma_take_push(save_tokens(r@), 2); lemma_take_push(save_seps(), 2); }
    w.emit_text(r.points[1].x.as_str(), ' ');
    proof { lemma_take_push(save_tokens(r@), 3); lemma_take_push(save_seps(), 3); }
    w.emit_text(r.points[1].y.as_str(), '\n');
    proof { lemma_take_push(save_tokens(r@), 4); lemma_take_push(save_seps(), 4); }
    w.emit_text(r.points[2].x.as_str(), ' ');
    proof { lemma_take_push(save_tokens(r@), 5); lemma_take_push(save_seps(), 5); }
    w.emit_text(r.points[2].y.as_str(), '\n');
    proof { lemma_take_push(save_tokens(r@), 6); lemma_take_push(save_seps(), 6); }
}

/// Writes the helper point and the angle and red-point locks.
fn write_helper_and_lock(w: &mut TokenWriter, r: &SettingsRecord)
    requires
        old(w).wf(),
        r.points@.len() == 3,
        r.helper is Some,
        r.meters_per_pixel is Some,
        r.north_angle is Some,
        old(w).toks@ == save_tokens(r@).take(7),
        old(w).seps@ == save_seps().take(7),
    ensures
        final(w).wf(),
        final(w).toks@ == save_tokens(r@).take(13),
        final(w).seps@ == save_seps().take(13),
{
    proof {
        lemma_save_tokens_at(r@);
        lemma_save_seps_at();
        assert(r@.points[0] == (r.points@[0].x@, r.points@[0].y@));
        assert(r@.points[1] == (r.points@[1].x@, r.points@[1].y@));
        assert(r@.points[2] == (r.points@[2].x@, r.points@[2].y@));
    }
    let h = match &r.helper { Some(h) => h, None => return };
    let code: u32 = match r.red_locked_index {
        Some(i) => if i == 0 { 1 } else if i == 2 { 2 } else { 0 },
        None => 0,
    };
    w.emit_flag(h.enabled, '\n');
    proof { lemma_take_push(save_tokens(r@), 7); lemma_take_push(save_seps(), 7); }
    w.emit_text(h.x.as_str(), ' ');
    proof { lemma_take_push(save_tokens(r@), 8); lemma_take_push(save_seps(), 8); }
    w.emit_text(h.y.as_str(), '\n');
    proof { lemma_take_push(save_tokens(r@), 9); lemma_take_push(save_seps(), 9); }
    w.emit_flag(r.angle_locked, '\n');
    proof { lemma_take_push(save_tokens(r@), 10); lemma_take_push(save_seps(), 10); }
    w.emit_text(r.locked_signed_angle.as_str(), '\n');
    proof { lemma_take_push(save_tokens(r@), 11); lemma_take_push(save_seps(), 11); }
    w.emit_u32(code, '\n');
    proof { lemma_take_push(save_tokens(r@), 12); lemma_take_push(save_seps(), 12); }
}

/// Writes the display flags.
fn write_display_flags(w: &mut TokenWriter, r: &SettingsRecord)
    requires
        old(w).wf(),
        r.points@.len() == 3,
        r.helper is Some,
        r.meters_per_pixel is Some,
        r.north_angle is Some,
        old(w).toks@ == save_tokens(r@).take(13),
        old(w).seps@ == save_seps().take(13),
    ensures
        final(w).wf(),
        final(w).toks@ == save_tokens(r@).take(20),
        final(w).seps@ == save_seps().take(20),
{
    proof {
        lemma_save_tokens_at(r@);
        lemma_save_seps_at();
        assert(r@.points[0] == (r.points@[0].x@, r.points@[0].y@));
        assert(r@.points[1] == (r.points@[1].x@, r.points@[1].y@));
        assert(r@.points[2] == (r.points@[2].x@, r.points@[2].y@));
    }
    w.emit_flag(r.bisector_visible, '\n');
    proof { lemma_take_push(save_tokens(r@), 13); lemma_take_push(save_seps(), 13); }
    w.emit_flag(r.plus_degrees_visible, '\n');
    proof { lemma_take_push(save_tokens(r@), 14); lemma_take_push(save_seps(), 14); }
    w.emit_flag(r.inverted, '\n');
    proof { lemma_take_push(save_tokens(r@), 15); lemma_take_push(save_seps(), 15); }
    w.emit_flag(r.hypotenuse_visible, '\n');
    proof { lemma_take_push(save_tokens(r@), 16); lemma_take_push(save_seps(), 16); }
    w.emit_flag(r.front_plus_visible, '\n');
    proof { lemma_take_push(save_tokens(r@), 17); lemma_take_push(save_seps(), 17); }
    w.emit_flag(r.xtk_visible, '\n');
    proof { lemma_take_push(save_tokens(r@), 18); lemma_take_push(save_seps(), 18); }
    w.emit_flag(r.distance_visible, '\n');
    proof { lemma_take_push(save_tokens(r@), 19); lemma_take_push(save_seps(), 19); }
}

/// Writes the scale, the North direction and the pins.
fn write_scale_north_and_pins(w: &mut TokenWriter, r: &SettingsRecord)
    requires
        old(w).wf(),
        r.points@.len() == 3,
        r.helper is Some,
        r.meters_per_pixel is Some,
        r.north_angle is Some,
        old(w).toks@ == save_tokens(r@).take(20),
        old(w).seps@ == save_seps().take(20),
    ensures
        final(w).wf(),
        final(w).toks@ == save_tokens(r@).take(29),
        final(w).seps@ == save_seps().take(29),
{
    proof {
        lemma_save_tokens_at(r@);
        lemma_save_seps_at();
        assert(r@.points[0] == (r.points@[0].x@, r.points@[0].y@));
        assert(r@.points[1] == (r.points@[1].x@, r.points@[1].y@));
        assert(r@.points[2] == (r.points@[2].x@, r.points@[2].y@));
    }
    let mpp = match &r.meters_per_pixel { Some(t) => t, None => return };
    let north = match &r.north_angle { Some(t) => t, None => return };
    w.emit_text(mpp.as_str(), '\n');
    proof { lemma_take_push(save_tokens(r@), 20); lemma_take_push(save_seps(), 20); }
    w.emit_flag(r.north_visible, '\n');
    proof { lemma_take_push(save_tokens(r@), 21); lemma_take_push(save_seps(), 21); }
    w.emit_text(north.as_str(), '\n');
    proof { lemma_take_push(save_tokens(r@), 22); lemma_take_push(save_seps(), 22); }
    w.emit_flag(r.north_locked, '\n');
    proof { lemma_take_push(save_tokens(r@), 23); lemma_take_push(save_seps(), 23); }
    w.emit_flag(r.course_visible, '\n');
    proof { lemma_take_push(save_tokens(r@), 24); lemma_take_push(save_seps(), 24); }
    w.emit_flag(r.blue_pinned, '\n');
    proof { lemma_take_push(save_tokens(r@), 25); lemma_take_push(save_seps(), 25); }
    w.emit_flag(r.left_red_pinned, '\n');
    proof { lemma_take_push(save_tokens(r@), 26); lemma_take_push(save_seps(), 26); }
    w.emit_flag(r.right_red_pinned, '\n');
    proof { lemma_take_push(save_tokens(r@), 27); lemma_take_push(save_seps(), 27); }
    w.emit_flag(r.helper_pinned, '\n');
    proof { lemma_take_push(save_tokens(r@), 28); lemma_take_push(save_seps(), 28); }
}

/// Writes the window position.
fn write_window(w: &mut TokenWriter, r: &SettingsRecord)
    requires
        old(w).wf(),
        r.points@.len() == 3,
        r.helper is Some,
        r.meters_per_pixel is Some,
        r.north_angle is Some,
        old(w).toks@ == save_tokens(r@).take(29),
        old(w).seps@ == save_seps().take(29),
    ensures
        final(w).wf(),
        final(w).toks@ == save_tokens(r@).take(31),
        final(w).seps@ == save_seps().take(31),
{
    proof {
        lemma_save_tokens_at(r@);
        lemma_save_seps_at();
        assert(r@.points[0] == (r.points@[0].x@, r.points@[0].y@));
        assert(r@.points[1] == (r.points@[1].x@, r.points@[1].y@));
        assert(r@.points[2] == (r.points@[2].x@, r.points@[2].y@));
    }
    w.emit_i32(r.window_x, ' ');
    proof { lemma_take_push(save_tokens(r@), 29); lemma_take_push(save_seps(), 29); }
    w.emit_i32(r.window_y, '\n');
    proof { lemma_take_push(save_tokens(r@), 30); lemma_take_push(save_seps(), 30); }
}

/// Writes the settings in the newest format (version 11), one field or one
/// coordinate pair per line.
pub fn format_settings(r: &SettingsRecord) -> (text: String)
    requires
        r.points@.len() == 3,
        r.helper is Some,
        r.meters_per_pixel is Some,
        r.north_angle is Some,
    ensures
        text@ == settings_text(r@),
{
    let mut w = TokenWriter::new();
    proof {
        assert(save_tokens(r@).take(0) =~= Seq::<Seq<char>>::empty());
        assert(save_seps().take(0) =~= Seq::<char>::empty());
    }
    write_points(&mut w, r);
    write_helper_and_lock(&mut w, r);
    write_display_flags(&mut w, r);
    write_scale_north_and_pins(&mut w, r);
    write_window(&mut w, r);
    proof {
        lemma_save_tokens_at(r@);
        lemma_save_seps_at();
        assert(save_tokens(r@).take(31) =~= save_tokens(r@));
        assert(save_seps().take(31) =~= save_seps());
        w.lemma_text();
    }
    w.text
}

/// The separators that `format_settings` writes, one by one.
proof fn lemma_save_seps_at()
    ensures
        save_seps().len() == 31,
        forall|k: int| 0 <= k < 31 ==> #[trigger] save_seps()[k] == (if k == 1 || k == 3 || k == 5
            || k == 8 || k == 29 { ' ' } else { '\n' }),
{
    reveal(save_seps);
    let s = save_seps();
    assert forall|k: int| 0 <= k < 31 implies #[trigger] s[k] == (if k == 1 || k == 3 || k == 5
        || k == 8 || k == 29 { ' ' } else { '\n' }) by {
        assert(s =~= seq![
            '\n', ' ', '\n', ' ', '\n', ' ', '\n', '\n', ' ', '\n', '\n', '\n', '\n', '\n', '\n', '\n',
            '\n', '\n', '\n', '\n', '\n', '\n', '\n', '\n', '\n', '\n', '\n', '\n', '\n', ' ', '\n',
        ]);
    }
}

/// Taking one more element of a sequence.
proof fn lemma_take_push<A>(s: Seq<A>, k: int)
    requires
        0 <= k < s.len(),
    ensures
        s.take(k).push(s[k]) == s.take(k + 1),
{
    assert(s.take(k).push(s[k]) =~= s.take(k + 1));
}

/// The tokens that `format_settings` writes, one by one.
proof fn lemma_save_tokens_at(m: SettingsModel)
    requires
        m.helper is Some,
    ensures
        ({
            let t = save_tokens(m);
            let h = m.helper->0;
            &&& t.len() == 31
            &&& t[0] == decimal_text(11)
            &&& t[1] == m.points[0].0
            &&& t[2] == m.points[0].1
            &&& t[3] == m.points[1].0
            &&& t[4] == m.points[1].1
            &&& t[5] == m.points[2].0
            &&& t[6] == m.points[2].1
            &&& t[7] == flag_text(h.0)
            &&& t[8] == h.1
            &&& t[9] == h.2
            &&& t[10] == flag_text(m.angle_locked)
            &&& t[11] == m.locked_signed_angle
            &&& t[12] == decimal_text(red_lock_code(m.red_locked_index) as nat)
            &&& t[13] == flag_text(m.bisector_visible)
            &&& t[14] == flag_text(m.plus_degrees_visible)
            &&& t[15] == flag_text(m.inverted)
            &&& t[16] == flag_text(m.hypotenuse_visible)
            &&& t[17] == flag_text(m.front_plus_visible)
            &&& t[18] == flag_text(m.xtk_visible)
            &&& t[19] == flag_text(m.distance_visible)
            &&& t[20] == m.meters_per_pixel->0
            &&& t[21] == flag_text(m.north_visible)
            &&& t[22] == m.north_angle->0
            &&& t[23] == flag_text(m.north_locked)
            &&& t[24] == flag_text(m.course_visible)
            &&& t[25] == flag_text(m.blue_pinned)
            &&& t[26] == flag_text(m.left_red_pinned)
            &&& t[27] == flag_text(m.right_red_pinned)
            &&& t[28] == flag_text(m.helper_pinned)
            &&& t[29] == signed_text(m.window_x as int)
            &&& t[30] == signed_text(m.window_y as int)
        }),
{
    reveal(save_tokens);
}

/// Every token that `format_settings` writes for saveable settings is a token.
proof fn lemma_save_tokens_are_tokens(m: SettingsModel)
    requires
        settings_saveable(m),
    ensures
        forall|k: int| 0 <= k < save_tokens(m).len() ==> is_token(#[trigger] save_tokens(m)[k]),
{
    let h = m.helper->0;
    lemma_save_tokens_at(m);
    lemma_decimal_text(11);
    lemma_decimal_text(red_lock_code(m.red_locked_index) as nat);
    lemma_flag_text(h.0);
    lemma_flag_text(m.angle_locked);
    lemma_flag_text(m.bisector_visible);
    lemma_flag_text(m.plus_degrees_visible);
    lemma_flag_text(m.inverted);
    lemma_flag_text(m.hypotenuse_visible);
    lemma_flag_text(m.front_plus_visible);
    lemma_flag_text(m.xtk_visible);
    lemma_flag_text(m.distance_visible);
    lemma_flag_text(m.north_visible);
    lemma_flag_text(m.north_locked);
    lemma_flag_text(m.course_visible);
    lemma_flag_text(m.blue_pinned);
    lemma_flag_text(m.left_red_pinned);
    lemma_flag_text(m.right_red_pinned);
    lemma_flag_text(m.helper_pinned);
    lemma_signed_text(m.window_x as int);
    lemma_signed_text(m.window_y as int);
    assert(is_token(m.points[0].0) && is_token(m.points[0].1));
    assert(is_token(m.points[1].0) && is_token(m.points[1].1));
    assert(is_token(m.points[2].0) && is_token(m.points[2].1));
}

/// Every field of version 11 has a readable token among those that
/// `format_settings` writes.
proof fn lemma_save_tokens_ok(m: SettingsModel)
    requires
        m.helper is Some,
    ensures
        settings_tokens_ok(save_tokens(m), 11),
{
    let toks = save_tokens(m);
    let h = m.helper->0;
    lemma_save_tokens_at(m);
    assert forall|f: SettingsField| field_ok_at(toks, 11, f) by {
        match f {
                SettingsField::P0x => {},
                SettingsField::P0y => {},
                SettingsField::P1x => {},
                SettingsField::P1y => {},
                SettingsField::P2x => {},
                SettingsField::P2y => {},
                SettingsField::HelperEnabled => { lemma_flag_text(h.0); },
                SettingsField::HelperX => {},
                SettingsField::HelperY => {},
                SettingsField::AngleLocked => { lemma_flag_text(m.angle_locked); },
                SettingsField::LockedAngle => {},
                SettingsField::RedLock => { lemma_decimal_text(red_lock_code(m.red_locked_index) as nat); },
                SettingsField::Bisector => { lemma_flag_text(m.bisector_visible); },
                SettingsField::PlusDegrees => { lemma_flag_text(m.plus_degrees_visible); },
                SettingsField::Inverted => { lemma_flag_text(m.inverted); },
                SettingsField::Hypotenuse => { lemma_flag_text(m.hypotenuse_visible); },
                SettingsField::FrontPlus => { lemma_flag_text(m.front_plus_visible); },
                SettingsField::Xtk => { lemma_flag_text(m.xtk_visible); },
                SettingsField::Distance => { lemma_flag_text(m.distance_visible); },
                SettingsField::MetersPerPixel => {},
                SettingsField::North => { lemma_flag_text(m.north_visible); },
                SettingsField::NorthAngle => {},
                SettingsField::NorthLocked => { lemma_flag_text(m.north_locked); },
                SettingsField::Course => { lemma_flag_text(m.course_visible); },
                SettingsField::BluePin => { lemma_flag_text(m.blue_pinned); },
                SettingsField::LeftRedPin => { lemma_flag_text(m.left_red_pinned); },
                SettingsField::RightRedPin => { lemma_flag_text(m.right_red_pinned); },
                SettingsField::HelperPin => { lemma_flag_text(m.helper_pinned); },
                SettingsField::WindowX => { lemma_signed_text(m.window_x as int); },
                SettingsField::WindowY => { lemma_signed_text(m.window_y as int); },
        }
    }
}

/// The version, points, helper and locks read back from what
/// `format_settings` writes.
proof fn lemma_read_back_head(m: SettingsModel)
    requires
        settings_saveable(m),
        m.red_locked_index is None || m.red_locked_index == Some(0usize) || m.red_locked_index
            == Some(2usize),
    ensures
        ({
            let got = settings_model(save_tokens(m), 11);
            &&& got.version == 11
            &&& got.points == m.points
            &&& got.helper == m.helper
            &&& got.angle_locked == m.angle_locked
            &&& got.locked_signed_angle == m.locked_signed_angle
            &&& got.red_locked_index == m.red_locked_index
        }),
{
    let toks = save_tokens(m);
    let h = m.helper->0;
    lemma_save_tokens_at(m);
    assert(u8_token(toks[7])->0 != 0 <==> h.0) by { lemma_flag_text(h.0); }
    assert(u8_token(toks[10])->0 != 0 <==> m.angle_locked) by { lemma_flag_text(m.angle_locked); }
    assert(red_lock_index(u8_token(toks[12])->0) == m.red_locked_index) by {
        lemma_decimal_text(red_lock_code(m.red_locked_index) as nat);
    }
    let got = settings_model(toks, 11);
    assert(got.points =~= m.points);
}

/// The display flags and the scale read back from what `format_settings`
/// writes.
proof fn lemma_read_back_features(m: SettingsModel)
    requires
        settings_saveable(m),
        m.red_locked_index is None || m.red_locked_index == Some(0usize) || m.red_locked_index
            == Some(2usize),
    ensures
        ({
            let got = settings_model(save_tokens(m), 11);
            &&& got.bisector_visible == m.bisector_visible
            &&& got.plus_degrees_visible == m.plus_degrees_visible
            &&& got.inverted == m.inverted
            &&& got.hypotenuse_visible == m.hypotenuse_visible
            &&& got.front_plus_visible == m.front_plus_visible
            &&& got.xtk_visible == m.xtk_visible
            &&& got.distance_visible == m.distance_visible
            &&& got.meters_per_pixel == m.meters_per_pixel
        }),
{
    let toks = save_tokens(m);
    lemma_save_tokens_at(m);
    assert(u8_token(toks[13])->0 != 0 <==> m.bisector_visible) by { lemma_flag_text(m.bisector_visible); }
    assert(u8_token(toks[14])->0 != 0 <==> m.plus_degrees_visible) by { lemma_flag_text(m.plus_degrees_visible); }
    assert(u8_token(toks[15])->0 != 0 <==> m.inverted) by { lemma_flag_text(m.inverted); }
    assert(u8_token(toks[16])->0 != 0 <==> m.hypotenuse_visible) by { lemma_flag_text(m.hypotenuse_visible); }
    assert(u8_token(toks[17])->0 != 0 <==> m.front_plus_visible) by { lemma_flag_text(m.front_plus_visible); }
    assert(u8_token(toks[18])->0 != 0 <==> m.xtk_visible) by { lemma_flag_text(m.xtk_visible); }
    assert(u8_token(toks[19])->0 != 0 <==> m.distance_visible) by { lemma_flag_text(m.distance_visible); }
}

/// The North, pin and window fields read back from what `format_settings`
/// writes.
proof fn lemma_read_back_tail(m: SettingsModel)
    requires
        settings_saveable(m),
        m.red_locked_index is None || m.red_locked_index == Some(0usize) || m.red_locked_index
            == Some(2usize),
    ensures
        ({
            let got = settings_model(save_tokens(m), 11);
            &&& got.north_visible == m.north_visible
            &&& got.north_angle == m.north_angle
            &&& got.north_locked == m.north_locked
            &&& got.course_visible == m.course_visible
            &&& got.blue_pinned == m.blue_pinned
            &&& got.left_red_pinned == m.left_red_pinned
            &&& got.right_red_pinned == m.right_red_pinned
            &&& got.helper_pinned == m.helper_pinned
            &&& got.window_x == m.window_x
            &&& got.window_y == m.window_y
        }),
{
    let toks = save_tokens(m);
    lemma_save_tokens_at(m);
    assert(u8_token(toks[21])->0 != 0 <==> m.north_visible) by { lemma_flag_text(m.north_visible); }
    assert(u8_token(toks[23])->0 != 0 <==> m.north_locked) by { lemma_flag_text(m.north_locked); }
    assert(u8_token(toks[24])->0 != 0 <==> m.course_visible) by { lemma_flag_text(m.course_visible); }
    assert(u8_token(toks[25])->0 != 0 <==> m.blue_pinned) by { lemma_flag_text(m.blue_pinned); }
    assert(u8_token(toks[26])->0 != 0 <==> m.left_red_pinned) by { lemma_flag_text(m.left_red_pinned); }
    assert(u8_token(toks[27])->0 != 0 <==> m.right_red_pinned) by { lemma_flag_text(m.right_red_pinned); }
    assert(u8_token(toks[28])->0 != 0 <==> m.helper_pinned) by { lemma_flag_text(m.helper_pinned); }
    assert(i32_token(toks[29]) == Some(m.window_x)) by { lemma_signed_text(m.window_x as int); }
    assert(i32_token(toks[30]) == Some(m.window_y)) by { lemma_signed_text(m.window_y as int); }
}

/// The tokens that `format_settings` writes read back, field by field.
proof fn lemma_save_tokens_read(m: SettingsModel)
    requires
        settings_saveable(m),
        m.red_locked_index is None || m.red_locked_index == Some(0usize) || m.red_locked_index
            == Some(2usize),
    ensures
        settings_from_tokens(save_tokens(m)) == Some(SettingsModel { version: 11, ..m }),
{
    let toks = save_tokens(m);
    lemma_save_tokens_at(m);
    lemma_save_tokens_ok(m);
    assert(u32_token(toks[0]) == Some(11u32)) by { lemma_decimal_text(11); }
    lemma_read_back_head(m);
    lemma_read_back_features(m);
    lemma_read_back_tail(m);
    let got = settings_model(toks, 11);
    assert(got == SettingsModel { version: 11, ..m });
}

/// Saving then loading: the text that `format_settings` writes for settings
/// with well-formed tokens reads back as the same settings, now marked as the
/// newest version. (A lock code other than the two red points is written as
/// "no lock", so the law leaves such an index out.)
pub proof fn lemma_settings_roundtrip(m: SettingsModel)
    requires
        settings_saveable(m),
        m.red_locked_index is None || m.red_locked_index == Some(0usize) || m.red_locked_index
            == Some(2usize),
    ensures
        settings_from_tokens(whitespace_tokens(settings_text(m))) == Some(
            SettingsModel { version: 11, ..m },
        ),
{
    let toks = save_tokens(m);
    let seps = save_seps();
    lemma_save_tokens_at(m);
    lemma_save_tokens_are_tokens(m);
    lemma_save_seps_at();
    assert forall|k: int| 0 <= k < seps.len() implies is_space(#[trigger] seps[k]) by {
        assert(seps[k] == ' ' || seps[k] == '\n');
    }
    lemma_separated_tokens(toks, seps);
    lemma_save_tokens_read(m);
}

/// Every field of a file whose tokens are all readable has its token, and
/// that token is readable.
proof fn lemma_every_field_ok(toks: Seq<Seq<char>>, v: u32)
    requires
        settings_tokens_ok(toks, v),
    ensures
        field_ok_at(toks, v, SettingsField::P0x),
        field_ok_at(toks, v, SettingsField::P0y),
        field_ok_at(toks, v, SettingsField::P1x),
        field_ok_at(toks, v, SettingsField::P1y),
        field_ok_at(toks, v, SettingsField::P2x),
        field_ok_at(toks, v, SettingsField::P2y),
        field_ok_at(toks, v, SettingsField::HelperEnabled),
        field_ok_at(toks, v, SettingsField::HelperX),
        field_ok_at(toks, v, SettingsField::HelperY),
        field_ok_at(toks, v, SettingsField::AngleLocked),
        field_ok_at(toks, v, SettingsField::LockedAngle),
        field_ok_at(toks, v, SettingsField::RedLock),
        field_ok_at(toks, v, SettingsField::Bisector),
        field_ok_at(toks, v, SettingsField::PlusDegrees),
        field_ok_at(toks, v, SettingsField::Inverted),
        field_ok_at(toks, v, SettingsField::Hypotenuse),
        field_ok_at(toks, v, SettingsField::FrontPlus),
        field_ok_at(toks, v, SettingsField::Xtk),
        field_ok_at(toks, v, SettingsField::Distance),
        field_ok_at(toks, v, SettingsField::MetersPerPixel),
        field_ok_at(toks, v, SettingsField::North),
        field_ok_at(toks, v, SettingsField::NorthAngle),
        field_ok_at(toks, v, SettingsField::NorthLocked),
        field_ok_at(toks, v, SettingsField::Course),
        field_ok_at(toks, v, SettingsField::BluePin),
        field_ok_at(toks, v, SettingsField::LeftRedPin),
        field_ok_at(toks, v, SettingsField::RightRedPin),
        field_ok_at(toks, v, SettingsField::HelperPin),
        field_ok_at(toks, v, SettingsField::WindowX),
        field_ok_at(toks, v, SettingsField::WindowY),
{
}

/// Whether a flag token is set: it reads as a non-zero `u8`.
pub open spec fn set_flag(t: Seq<char>) -> bool {
    u8_token(t) matches Some(b) && b != 0
}

/// The red point that a lock token names: `1` the left one, `2` the right
/// one, anything else none.
pub open spec fn locked_red_point(t: Seq<char>) -> Option<usize> {
    if u8_token(t) == Some(1u8) {
        Some(0usize)
    } else if u8_token(t) == Some(2u8) {
        Some(2usize)
    } else {
        None
    }
}

/// Where the fields of a version-1 file stand: after the version token come the six point
/// coordinates, then the angle lock, the locked angle, the window x and the window y, one token
/// each; a field that the version lacks takes its default, and tokens after the last field are
/// not read.
pub proof fn lemma_layout_version_1(toks: Seq<Seq<char>>)
    requires
        toks.len() > 0,
        u32_token(toks[0]) == Some(1u32),
        settings_from_tokens(toks) is Some,
    ensures
        toks.len() >= 11,
        ({
            let m = settings_from_tokens(toks)->0;
            &&& m.version == 1u32
            &&& m.points == seq![(toks[1], toks[2]), (toks[3], toks[4]), (toks[5], toks[6])]
            &&& m.helper is None
            &&& m.locked_signed_angle == toks[8]
            &&& m.red_locked_index == None::<usize>
            &&& m.angle_locked == set_flag(toks[7])
            &&& m.bisector_visible == true
            &&& m.plus_degrees_visible == false
            &&& m.inverted == false
            &&& m.hypotenuse_visible == false
            &&& m.front_plus_visible == false
            &&& m.xtk_visible == false
            &&& m.distance_visible == false
            &&& m.north_visible == false
            &&& m.north_locked == false
            &&& m.course_visible == false
            &&& m.blue_pinned == false
            &&& m.left_red_pinned == false
            &&& m.right_red_pinned == false
            &&& m.helper_pinned == false
            &&& m.meters_per_pixel == None::<Seq<char>>
            &&& m.north_angle == None::<Seq<char>>
            &&& i32_token(toks[9]) == Some(m.window_x)
            &&& i32_token(toks[10]) == Some(m.window_y)
        }),
{
    lemma_every_field_ok(toks, u32_token(toks[0])->0);
}

/// Where the fields of a version-2 file stand: after the version token come the six point
/// coordinates, then the helper switch, the helper x, the helper y, the angle lock, the locked
/// angle, the window x and the window y, one token each; a field that the version lacks takes
/// its default, and tokens after the last field are not read.
pub proof fn lemma_layout_version_2(toks: Seq<Seq<char>>)
    requires
        toks.len() > 0,
        u32_token(toks[0]) == Some(2u32),
        settings_from_tokens(toks) is Some,
    ensures
        toks.len() >= 14,
        ({
            let m = settings_from_tokens(toks)->0;
            &&& m.version == 2u32
            &&& m.points == seq![(toks[1], toks[2]), (toks[3], toks[4]), (toks[5], toks[6])]
            &&& m.helper == Some((set_flag(toks[7]), toks[8], toks[9]))
            &&& m.locked_signed_angle == toks[11]
            &&& m.red_locked_index == None::<usize>
            &&& m.angle_locked == set_flag(toks[10])
            &&& m.bisector_visible == true
            &&& m.plus_degrees_visible == set_flag(toks[7])
            &&& m.inverted == false
            &&& m.hypotenuse_visible == false
            &&& m.front_plus_visible == false
            &&& m.xtk_visible == false
            &&& m.distance_visible == false
            &&& m.north_visible == false
            &&& m.north_locked == false
            &&& m.course_visible == false
            &&& m.blue_pinned == false
            &&& m.left_red_pinned == false
            &&& m.right_red_pinned == false
            &&& m.helper_pinned == false
            &&& m.meters_per_pixel == None::<Seq<char>>
            &&& m.north_angle == None::<Seq<char>>
            &&& i32_token(toks[12]) == Some(m.window_x)
            &&& i32_token(toks[13]) == Some(m.window_y)
        }),
{
    lemma_every_field_ok(toks, u32_token(toks[0])->0);
}

/// Where the fields of a version-3 file stand: after the version token come the six point
/// coordinates, then the helper switch, the helper x, the helper y, the angle lock, the locked
/// angle, the bisector flag, the degree-label flag, the inversion flag, the hypotenuse flag,
/// the Front + flag, the window x and the window y, one token each; a field that the version
/// lacks takes its default, and tokens after the last field are not read.
pub proof fn lemma_layout_version_3(toks: Seq<Seq<char>>)
    requires
        toks.len() > 0,
        u32_token(toks[0]) == Some(3u32),
        settings_from_tokens(toks) is Some,
    ensures
        toks.len() >= 19,
        ({
            let m = settings_from_tokens(toks)->0;
            &&& m.version == 3u32
            &&& m.points == seq![(toks[1], toks[2]), (toks[3], toks[4]), (toks[5], toks[6])]
            &&& m.helper == Some((set_flag(toks[7]), toks[8], toks[9]))
            &&& m.locked_signed_angle == toks[11]
            &&& m.red_locked_index == None::<usize>
            &&& m.angle_locked == set_flag(toks[10])
            &&& m.bisector_visible == set_flag(toks[12])
            &&& m.plus_degrees_visible == set_flag(toks[13])
            &&& m.inverted == set_flag(toks[14])
            &&& m.hypotenuse_visible == set_flag(toks[15])
            &&& m.front_plus_visible == set_flag(toks[16])
            &&& m.xtk_visible == false
            &&& m.distance_visible == false
            &&& m.north_visible == false
            &&& m.north_locked == false
            &&& m.course_visible == false
            &&& m.blue_pinned == false
            &&& m.left_red_pinned == false
            &&& m.right_red_pinned == false
            &&& m.helper_pinned == false
            &&& m.meters_per_pixel == None::<Seq<char>>
            &&& m.north_angle == None::<Seq<char>>
            &&& i32_token(toks[17]) == Some(m.window_x)
            &&& i32_token(toks[18]) == Some(m.window_y)
        }),
{
    lemma_every_field_ok(toks, u32_token(toks[0])->0);
}

/// Where the fields of a version-4 file stand: after the version token come the six point
/// coordinates, then the helper switch, the helper x, the helper y, the angle lock, the locked
/// angle, the bisector flag, the degree-label flag, the inversion flag, the hypotenuse flag,
/// the Front + flag, the distance flag, the scale, the window x and the window y, one token
/// each; a field that the version lacks takes its default, and tokens after the last field are
/// not read.
pub proof fn lemma_layout_version_4(toks: Seq<Seq<char>>)
    requires
        toks.len() > 0,
        u32_token(toks[0]) == Some(4u32),
        settings_from_tokens(toks) is Some,
    ensures
        toks.len() >= 21,
        ({
            let m = settings_from_tokens(toks)->0;
            &&& m.version == 4u32
            &&& m.points == seq![(toks[1], toks[2]), (toks[3], toks[4]), (toks[5], toks[6])]
            &&& m.helper == Some((set_flag(toks[7]), toks[8], toks[9]))
            &&& m.locked_signed_angle == toks[11]
            &&& m.red_locked_index == None::<usize>
            &&& m.angle_locked == set_flag(toks[10])
            &&& m.bisector_visible == set_flag(toks[12])
            &&& m.plus_degrees_visible == set_flag(toks[13])
            &&& m.inverted == set_flag(toks[14])
            &&& m.hypotenuse_visible == set_flag(toks[15])
            &&& m.front_plus_visible == set_flag(toks[16])
            &&& m.xtk_visible == false
            &&& m.distance_visible == set_flag(toks[17])
            &&& m.north_visible == false
            &&& m.north_locked == false
            &&& m.course_visible == false
            &&& m.blue_pinned == false
            &&& m.left_red_pinned == false
            &&& m.right_red_pinned == false
            &&& m.helper_pinned == false
            &&& m.meters_per_pixel == Some(toks[18])
            &&& m.north_angle == None::<Seq<char>>
            &&& i32_token(toks[19]) == Some(m.window_x)
            &&& i32_token(toks[20]) == Some(m.window_y)
        }),
{
    lemma_every_field_ok(toks, u32_token(toks[0])->0);
}

/// Where the fields of a version-5 file stand: after the version token come the six point
/// coordinates, then the helper switch, the helper x, the helper y, the angle lock, the locked
/// angle, the locked red point, the bisector flag, the degree-label flag, the inversion flag,
/// the hypotenuse flag, the Front + flag, the distance flag, the scale, the window x and the
/// window y, one token each; a field that the version lacks takes its default, and tokens after
/// the last field are not read.
pub proof fn lemma_layout_version_5(toks: Seq<Seq<char>>)
    requires
        toks.len() > 0,
        u32_token(toks[0]) == Some(5u32),
        settings_from_tokens(toks) is Some,
    ensures
        toks.len() >= 22,
        ({
            let m = settings_from_tokens(toks)->0;
            &&& m.version == 5u32
            &&& m.points == seq![(toks[1], toks[2]), (toks[3], toks[4]), (toks[5], toks[6])]
            &&& m.helper == Some((set_flag(toks[7]), toks[8], toks[9]))
            &&& m.locked_signed_angle == toks[11]
            &&& m.red_locked_index == locked_red_point(toks[12])
            &&& m.angle_locked == set_flag(toks[10])
            &&& m.bisector_visible == set_flag(toks[13])
            &&& m.plus_degrees_visible == set_flag(toks[14])
            &&& m.inverted == set_flag(toks[15])
            &&& m.hypotenuse_visible == set_flag(toks[16])
            &&& m.front_plus_visible == set_flag(toks[17])
            &&& m.xtk_visible == false
            &&& m.distance_visible == set_flag(toks[18])
            &&& m.north_visible == false
            &&& m.north_locked == false
            &&& m.course_visible == false
            &&& m.blue_pinned == false
            &&& m.left_red_pinned == false
            &&& m.right_red_pinned == false
            &&& m.helper_pinned == false
            &&& m.meters_per_pixel == Some(toks[19])
            &&& m.north_angle == None::<Seq<char>>
            &&& i32_token(toks[20]) == Some(m.window_x)
            &&& i32_token(toks[21]) == Some(m.window_y)
        }),
{
    lemma_every_field_ok(toks, u32_token(toks[0])->0);
}

/// Where the fields of a version-6 file stand: after the version token come the six point
/// coordinates, then the helper switch, the helper x, the helper y, the angle lock, the locked
/// angle, the locked red point, the bisector flag, the degree-label flag, the inversion flag,
/// the hypotenuse flag, the Front + flag, the distance flag, the scale, the North flag, the
/// window x and the window y, one token each; a field that the version lacks takes its default,
/// and tokens after the last field are not read.
pub proof fn lemma_layout_version_6(toks: Seq<Seq<char>>)
    requires
        toks.len() > 0,
        u32_token(toks[0]) == Some(6u32),
        settings_from_tokens(toks) is Some,
    ensures
        toks.len() >= 23,
        ({
            let m = settings_from_tokens(toks)->0;
            &&& m.version == 6u32
            &&& m.points == seq![(toks[1], toks[2]), (toks[3], toks[4]), (toks[5], toks[6])]
            &&& m.helper == Some((set_flag(toks[7]), toks[8], toks[9]))
            &&& m.locked_signed_angle == toks[11]
            &&& m.red_locked_index == locked_red_point(toks[12])
            &&& m.angle_locked == set_flag(toks[10])
            &&& m.bisector_visible == set_flag(toks[13])
            &&& m.plus_degrees_visible == set_flag(toks[14])
            &&& m.inverted == set_flag(toks[15])
            &&& m.hypotenuse_visible == set_flag(toks[16])
            &&& m.front_plus_visible == set_flag(toks[17])
            &&& m.xtk_visible == false
            &&& m.distance_visible == set_flag(toks[18])
            &&& m.north_visible == set_flag(toks[20])
            &&& m.north_locked == false
            &&& m.course_visible == false
            &&& m.blue_pinned == false
            &&& m.left_red_pinned == false
            &&& m.right_red_pinned == false
            &&& m.helper_pinned == false
            &&& m.meters_per_pixel == Some(toks[19])
            &&& m.north_angle == None::<Seq<char>>
            &&& i32_token(toks[21]) == Some(m.window_x)
            &&& i32_token(toks[22]) == Some(m.window_y)
        }),
{
    lemma_every_field_ok(toks, u32_token(toks[0])->0);
}

/// Where the fields of a version-7 file stand: after the version token come the six point
/// coordinates, then the helper switch, the helper x, the helper y, the angle lock, the locked
/// angle, the locked red point, the bisector flag, the degree-label flag, the inversion flag,
/// the hypotenuse flag, the Front + flag, the distance flag, the scale, the North flag, the
/// North angle, the North lock, the window x and the window y, one token each; a field that the
/// version lacks takes its default, and tokens after the last field are not read.
pub proof fn lemma_layout_version_7(toks: Seq<Seq<char>>)
    requires
        toks.len() > 0,
        u32_token(toks[0]) == Some(7u32),
        settings_from_tokens(toks) is Some,
    ensures
        toks.len() >= 25,
        ({
            let m = settings_from_tokens(toks)->0;
            &&& m.version == 7u32
            &&& m.points == seq![(toks[1], toks[2]), (toks[3], toks[4]), (toks[5], toks[6])]
            &&& m.helper == Some((set_flag(toks[7]), toks[8], toks[9]))
            &&& m.locked_signed_angle == toks[11]
            &&& m.red_locked_index == locked_red_point(toks[12])
            &&& m.angle_locked == set_flag(toks[10])
            &&& m.bisector_visible == set_flag(toks[13])
            &&& m.plus_degrees_visible == set_flag(toks[14])
            &&& m.inverted == set_flag(toks[15])
            &&& m.hypotenuse_visible == set_flag(toks[16])
            &&& m.front_plus_visible == set_flag(toks[17])
            &&& m.xtk_visible == false
            &&& m.distance_visible == set_flag(toks[18])
            &&& m.north_visible == set_flag(toks[20])
            &&& m.north_locked == set_flag(toks[22])
            &&& m.course_visible == false
            &&& m.blue_pinned == false
            &&& m.left_red_pinned == false
            &&& m.right_red_pinned == false
            &&& m.helper_pinned == false
            &&& m.meters_per_pixel == Some(toks[19])
            &&& m.north_angle == Some(toks[21])
            &&& i32_token(toks[23]) == Some(m.window_x)
            &&& i32_token(toks[24]) == Some(m.window_y)
        }),
{
    lemma_every_field_ok(toks, u32_token(toks[0])->0);
}

/// Where the fields of a version-8 file stand: after the version token come the six point
/// coordinates, then the helper switch, the helper x, the helper y, the angle lock, the locked
/// angle, the locked red point, the bisector flag, the degree-label flag, the inversion flag,
/// the hypotenuse flag, the Front + flag, the distance flag, the scale, the North flag, the
/// North angle, the North lock, the vertex pin, the left red pin, the right red pin, the window
/// x and the window y, one token each; a field that the version lacks takes its default, and
/// tokens after the last field are not read.
pub proof fn lemma_layout_version_8(toks: Seq<Seq<char>>)
    requires
        toks.len() > 0,
        u32_token(toks[0]) == Some(8u32),
        settings_from_tokens(toks) is Some,
    ensures
        toks.len() >= 28,
        ({
            let m = settings_from_tokens(toks)->0;
            &&& m.version == 8u32
            &&& m.points == seq![(toks[1], toks[2]), (toks[3], toks[4]), (toks[5], toks[6])]
            &&& m.helper == Some((set_flag(toks[7]), toks[8], toks[9]))
            &&& m.locked_signed_angle == toks[11]
            &&& m.red_locked_index == locked_red_point(toks[12])
            &&& m.angle_locked == set_flag(toks[10])
            &&& m.bisector_visible == set_flag(toks[13])
            &&& m.plus_degrees_visible == set_flag(toks[14])
            &&& m.inverted == set_flag(toks[15])
            &&& m.hypotenuse_visible == set_flag(toks[16])
            &&& m.front_plus_visible == set_flag(toks[17])
            &&& m.xtk_visible == false
            &&& m.distance_visible == set_flag(toks[18])
            &&& m.north_visible == set_flag(toks[20])
            &&& m.north_locked == set_flag(toks[22])
            &&& m.course_visible == false
            &&& m.blue_pinned == set_flag(toks[23])
            &&& m.left_red_pinned == set_flag(toks[24])
            &&& m.right_red_pinned == set_flag(toks[25])
            &&& m.helper_pinned == false
            &&& m.meters_per_pixel == Some(toks[19])
            &&& m.north_angle == Some(toks[21])
            &&& i32_token(toks[26]) == Some(m.window_x)
            &&& i32_token(toks[27]) == Some(m.window_y)
        }),
{
    lemma_every_field_ok(toks, u32_token(toks[0])->0);
}

/// Where the fields of a version-9 file stand: after the version token come the six point
/// coordinates, then the helper switch, the helper x, the helper y, the angle lock, the locked
/// angle, the locked red point, the bisector flag, the degree-label flag, the inversion flag,
/// the hypotenuse flag, the Front + flag, the distance flag, the scale, the North flag, the
/// North angle, the North lock, the course flag, the vertex pin, the left red pin, the right
/// red pin, the window x and the window y, one token each; a field that the version lacks takes
/// its default, and tokens after the last field are not read.
pub proof fn lemma_layout_version_9(toks: Seq<Seq<char>>)
    requires
        toks.len() > 0,
        u32_token(toks[0]) == Some(9u32),
        settings_from_tokens(toks) is Some,
    ensures
        toks.len() >= 29,
        ({
            let m = settings_from_tokens(toks)->0;
            &&& m.version == 9u32
            &&& m.points == seq![(toks[1], toks[2]), (toks[3], toks[4]), (toks[5], toks[6])]
            &&& m.helper == Some((set_flag(toks[7]), toks[8], toks[9]))
            &&& m.locked_signed_angle == toks[11]
            &&& m.red_locked_index == locked_red_point(toks[12])
            &&& m.angle_locked == set_flag(toks[10])
            &&& m.bisector_visible == set_flag(toks[13])
            &&& m.plus_degrees_visible == set_flag(toks[14])
            &&& m.inverted == set_flag(toks[15])
            &&& m.hypotenuse_visible == set_flag(toks[16])
            &&& m.front_plus_visible == set_flag(toks[17])
            &&& m.xtk_visible == set_flag(toks[17])
            &&& m.distance_visible == set_flag(toks[18])
            &&& m.north_visible == set_flag(toks[20])
            &&& m.north_locked == set_flag(toks[22])
            &&& m.course_visible == set_flag(toks[23])
            &&& m.blue_pinned == set_flag(toks[24])
            &&& m.left_red_pinned == set_flag(toks[25])
            &&& m.right_red_pinned == set_flag(toks[26])
            &&& m.helper_pinned == false
            &&& m.meters_per_pixel == Some(toks[19])
            &&& m.north_angle == Some(toks[21])
            &&& i32_token(toks[27]) == Some(m.window_x)
            &&& i32_token(toks[28]) == Some(m.window_y)
        }),
{
    lemma_every_field_ok(toks, u32_token(toks[0])->0);
}

/// Where the fields of a version-10 file stand: after the version token come the six point
/// coordinates, then the helper switch, the helper x, the helper y, the angle lock, the locked
/// angle, the locked red point, the bisector flag, the degree-label flag, the inversion flag,
/// the hypotenuse flag, the Front + flag, the distance flag, the scale, the North flag, the
/// North angle, the North lock, the course flag, the vertex pin, the left red pin, the right
/// red pin, the helper pin, the window x and the window y, one token each; a field that the
/// version lacks takes its default, and tokens after the last field are not read.
pub proof fn lemma_layout_version_10(toks: Seq<Seq<char>>)
    requires
        toks.len() > 0,
        u32_token(toks[0]) == Some(10u32),
        settings_from_tokens(toks) is Some,
    ensures
        toks.len() >= 30,
        ({
            let m = settings_from_tokens(toks)->0;
            &&& m.version == 10u32
            &&& m.points == seq![(toks[1], toks[2]), (toks[3], toks[4]), (toks[5], toks[6])]
            &&& m.helper == Some((set_flag(toks[7]), toks[8], toks[9]))
            &&& m.locked_signed_angle == toks[11]
            &&& m.red_locked_index == locked_red_point(toks[12])
            &&& m.angle_locked == set_flag(toks[10])
            &&& m.bisector_visible == set_flag(toks[13])
            &&& m.plus_degrees_visible == set_flag(toks[14])
            &&& m.inverted == set_flag(toks[15])
            &&& m.hypotenuse_visible == set_flag(toks[16])
            &&& m.front_plus_visible == set_flag(toks[17])
            &&& m.xtk_visible == set_flag(toks[17])
            &&& m.distance_visible == set_flag(toks[18])
            &&& m.north_visible == set_flag(toks[20])
            &&& m.north_locked == set_flag(toks[22])
            &&& m.course_visible == set_flag(toks[23])
            &&& m.blue_pinned == set_flag(toks[24])
            &&& m.left_red_pinned == set_flag(toks[25])
            &&& m.right_red_pinned == set_flag(toks[26])
            &&& m.helper_pinned == set_flag(toks[27])
            &&& m.meters_per_pixel == Some(toks[19])
            &&& m.north_angle == Some(toks[21])
            &&& i32_token(toks[28]) == Some(m.window_x)
            &&& i32_token(toks[29]) == Some(m.window_y)
        }),
{
    lemma_every_field_ok(toks, u32_token(toks[0])->0);
}

/// Where the fields of a version-11 file stand: after the version token come the six point
/// coordinates, then the helper switch, the helper x, the helper y, the angle lock, the locked
/// angle, the locked red point, the bisector flag, the degree-label flag, the inversion flag,
/// the hypotenuse flag, the Front + flag, the cross-track flag, the distance flag, the scale,
/// the North flag, the North angle, the North lock, the course flag, the vertex pin, the left
/// red pin, the right red pin, the helper pin, the window x and the window y, one token each; a
/// field that the version lacks takes its default, and tokens after the last field are not
/// read.
pub proof fn lemma_layout_version_11(toks: Seq<Seq<char>>)
    requires
        toks.len() > 0,
        u32_token(toks[0]) == Some(11u32),
        settings_from_tokens(toks) is Some,
    ensures
        toks.len() >= 31,
        ({
            let m = settings_from_tokens(toks)->0;
            &&& m.version == 11u32
            &&& m.points == seq![(toks[1], toks[2]), (toks[3], toks[4]), (toks[5], toks[6])]
            &&& m.helper == Some((set_flag(toks[7]), toks[8], toks[9]))
            &&& m.locked_signed_angle == toks[11]
            &&& m.red_locked_index == locked_red_point(toks[12])
            &&& m.angle_locked == set_flag(toks[10])
            &&& m.bisector_visible == set_flag(toks[13])
            &&& m.plus_degrees_visible == set_flag(toks[14])
            &&& m.inverted == set_flag(toks[15])
            &&& m.hypotenuse_visible == set_flag(toks[16])
            &&& m.front_plus_visible == set_flag(toks[17])
            &&& m.xtk_visible == set_flag(toks[18])
            &&& m.distance_visible == set_flag(toks[19])
            &&& m.north_visible == set_flag(toks[21])
            &&& m.north_locked == set_flag(toks[23])
            &&& m.course_visible == set_flag(toks[24])
            &&& m.blue_pinned == set_flag(toks[25])
            &&& m.left_red_pinned == set_flag(toks[26])
            &&& m.right_red_pinned == set_flag(toks[27])
            &&& m.helper_pinned == set_flag(toks[28])
            &&& m.meters_per_pixel == Some(toks[20])
            &&& m.north_angle == Some(toks[22])
            &&& i32_token(toks[29]) == Some(m.window_x)
            &&& i32_token(toks[30]) == Some(m.window_y)
        }),
{
    lemma_every_field_ok(toks, u32_token(toks[0])->0);
}

} // verus!
