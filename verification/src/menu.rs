//! The context menu: its command identifiers, its entries for a given feature
//! state, and the UTF-16 text that the Windows menu takes.
use vstd::prelude::*;
use vstd::string::StrSliceExecFns;

verus! {

pub const MENU_MINIMIZE: u32 = 1;
pub const MENU_CLOSE: u32 = 2;
pub const MENU_BISECTOR: u32 = 10;
pub const MENU_PLUS: u32 = 11;
pub const MENU_PLUS_DEGREES: u32 = 12;
pub const MENU_INVERSION: u32 = 13;
pub const MENU_HYPOTENUSE: u32 = 14;
pub const MENU_FRONT_PLUS: u32 = 15;
pub const MENU_DISTANCE_PLUS: u32 = 16;
/// Shows or hides the course bearing; the context menu does not offer it.
pub const MENU_COURSE_PLUS: u32 = 17;
/// Shows or hides the line from the helper point to the bisector; the context
/// menu does not offer it.
pub const MENU_XTK_PLUS: u32 = 18;
/// Shows or hides the box path; the context menu does not offer it.
pub const MENU_BOX_PLUS: u32 = 19;
/// Shows or hides North; the context menu does not offer it.
pub const MENU_NORTH_PLUS: u32 = 20;

/// Which features are on, as the menu's check marks show them.
#[derive(Clone, Copy, Debug, Default)]
pub struct ContextMenuState {
    pub bisector: bool,
    pub plus: bool,
    pub plus_degrees: bool,
    pub inversion: bool,
    pub hypotenuse: bool,
    pub front_plus: bool,
    pub distance_plus: bool,
}

/// An entry of the context menu.
#[derive(Clone, Debug)]
pub enum MenuEntry {
    /// A feature that the entry turns on or off, checked when it is on.
    Toggle { id: u32, label: String, checked: bool },
    /// A line between groups of entries.
    Separator,
    /// A plain command.
    Command { id: u32, label: String },
}

/// An entry as plain values: identifier (0 for the separator), label, check mark.
pub open spec fn entry_view(e: MenuEntry) -> (u32, Seq<char>, bool) {
    match e {
        MenuEntry::Toggle { id, label, checked } => (id, label@, checked),
        MenuEntry::Separator => (0, Seq::empty(), false),
        MenuEntry::Command { id, label } => (id, label@, false),
    }
}

/// The entries of the menu: the seven feature toggles in order, a separator,
/// then Minimize and Close.
pub open spec fn spec_menu_entries(s: ContextMenuState) -> Seq<(u32, Seq<char>, bool)> {
    seq![
        (MENU_BISECTOR, "Бісектриса"@, s.bisector),
        (MENU_PLUS, "Плюс"@, s.plus),
        (MENU_PLUS_DEGREES, "+ градуси"@, s.plus_degrees),
        (MENU_INVERSION, "Інверсія"@, s.inversion),
        (MENU_HYPOTENUSE, "Гіпотенуза"@, s.hypotenuse),
        (MENU_FRONT_PLUS, "Фронт +"@, s.front_plus),
        (MENU_DISTANCE_PLUS, "Дистанція +"@, s.distance_plus),
        (0u32, Seq::empty(), false),
        (MENU_MINIMIZE, "Згорнути"@, false),
        (MENU_CLOSE, "Закрити"@, false),
    ]
}

/// The entries of the context menu for the given feature state.
pub fn context_menu_entries(s: ContextMenuState) -> (entries: Vec<MenuEntry>)
    ensures
        entries@.map_values(|e: MenuEntry| entry_view(e)) == spec_menu_entries(s),
{
    let mut entries: Vec<MenuEntry> = Vec::new();
    entries.push(MenuEntry::Toggle { id: MENU_BISECTOR, label: "Бісектриса".to_owned(), checked: s.bisector });
    entries.push(MenuEntry::Toggle { id: MENU_PLUS, label: "Плюс".to_owned(), checked: s.plus });
    entries.push(MenuEntry::Toggle { id: MENU_PLUS_DEGREES, label: "+ градуси".to_owned(), checked: s.plus_degrees });
    entries.push(MenuEntry::Toggle { id: MENU_INVERSION, label: "Інверсія".to_owned(), checked: s.inversion });
    entries.push(MenuEntry::Toggle { id: MENU_HYPOTENUSE, label: "Гіпотенуза".to_owned(), checked: s.hypotenuse });
    entries.push(MenuEntry::Toggle { id: MENU_FRONT_PLUS, label: "Фронт +".to_owned(), checked: s.front_plus });
    entries.push(MenuEntry::Toggle { id: MENU_DISTANCE_PLUS, label: "Дистанція +".to_owned(), checked: s.distance_plus });
    entries.push(MenuEntry::Separator);
    entries.push(MenuEntry::Command { id: MENU_MINIMIZE, label: "Згорнути".to_owned() });
    entries.push(MenuEntry::Command { id: MENU_CLOSE, label: "Закрити".to_owned() });
    assert(entries@.map_values(|e: MenuEntry| entry_view(e)) =~= spec_menu_entries(s));
    entries
}

/// The command that the menu returned: `None` when the menu was dismissed
/// (the raw result is 0).
pub fn selected_command(raw: i32) -> (cmd: Option<u32>)
    ensures
        raw == 0 ==> cmd is None,
        raw != 0 ==> cmd == Some(raw as u32),
{
    if raw == 0 {
        None
    } else {
        Some(raw as u32)
    }
}

/// The UTF-16 code units of one character: one unit below U+10000, otherwise
/// a high and a low surrogate.
pub open spec fn utf16_units(c: char) -> Seq<u16> {
    let u = c as u32;
    if u < 0x10000 {
        seq![u as u16]
    } else {
        let v = (u - 0x10000) as int;
        seq![(0xD800 + v / 1024) as u16, (0xDC00 + v % 1024) as u16]
    }
}

/// The UTF-16 encoding of a character sequence.
pub open spec fn encode_utf16(s: Seq<char>) -> Seq<u16>
    decreases s.len(),
{
    if s.len() == 0 {
        Seq::empty()
    } else {
        encode_utf16(s.drop_last()) + utf16_units(s.last())
    }
}

/// The UTF-16 code units of `text` followed by a terminating 0, as the
/// Windows API takes text.
pub fn wide(text: &str) -> (units: Vec<u16>)
    ensures
        units@ == encode_utf16(text@).push(0),
{
    let n = text.unicode_len();
    let mut units: Vec<u16> = Vec::new();
    let mut i: usize = 0;
    while i < n
        invariant
            n == text@.len(),
            i <= n,
            units@ == encode_utf16(text@.take(i as int)),
        decreases n - i,
    {
        let c = text.get_char(i);
        let ghost before = units@;
        assert(text@.take(i + 1).drop_last() =~= text@.take(i as int));
        assert(text@.take(i + 1).last() == c);
        let u = c as u32;
        proof {
            assert(u <= 0x10FFFF) by {
                vstd::utf8::char_is_scalar(c);
            }
        }
        if u < 0x10000 {
            units.push(u as u16);
        } else {
            let v = u - 0x10000;
            units.push((0xD800 + v / 1024) as u16);
            units.push((0xDC00 + v % 1024) as u16);
        }
        assert(units@ =~= before + utf16_units(c));
        i = i + 1;
    }
    assert(text@.take(n as int) =~= text@);
    units.push(0);
    units
}

} // verus!
