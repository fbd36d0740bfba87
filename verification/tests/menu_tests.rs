use protractor_plus::menu::{
    context_menu_entries, selected_command, wide, ContextMenuState, MenuEntry, MENU_BISECTOR,
    MENU_CLOSE, MENU_DISTANCE_PLUS, MENU_FRONT_PLUS, MENU_HYPOTENUSE, MENU_INVERSION,
    MENU_MINIMIZE, MENU_PLUS, MENU_PLUS_DEGREES,
};

#[test]
fn menu_lists_the_toggles_then_the_commands() {
    let state = ContextMenuState { bisector: true, plus: false, plus_degrees: true, inversion: false, hypotenuse: true, front_plus: false, distance_plus: true };
    let entries = context_menu_entries(state);
    assert_eq!(entries.len(), 10);
    let toggles: Vec<(u32, String, bool)> = entries
        .iter()
        .filter_map(|e| match e {
            MenuEntry::Toggle { id, label, checked } => Some((*id, label.clone(), *checked)),
            _ => None,
        })
        .collect();
    assert_eq!(
        toggles,
        vec![
            (MENU_BISECTOR, "Бісектриса".to_string(), true),
            (MENU_PLUS, "Плюс".to_string(), false),
            (MENU_PLUS_DEGREES, "+ градуси".to_string(), true),
            (MENU_INVERSION, "Інверсія".to_string(), false),
            (MENU_HYPOTENUSE, "Гіпотенуза".to_string(), true),
            (MENU_FRONT_PLUS, "Фронт +".to_string(), false),
            (MENU_DISTANCE_PLUS, "Дистанція +".to_string(), true),
        ]
    );
    assert!(matches!(entries[7], MenuEntry::Separator));
    assert!(matches!(&entries[8], MenuEntry::Command { id, label } if *id == MENU_MINIMIZE && label == "Згорнути"));
    assert!(matches!(&entries[9], MenuEntry::Command { id, label } if *id == MENU_CLOSE && label == "Закрити"));
}

#[test]
fn command_ids() {
    assert_eq!((MENU_MINIMIZE, MENU_CLOSE, MENU_BISECTOR, MENU_DISTANCE_PLUS), (1, 2, 10, 16));
}

#[test]
fn wide_is_utf16_with_a_terminating_zero() {
    assert_eq!(wide(""), vec![0]);
    assert_eq!(wide("Ab"), vec![0x41, 0x62, 0]);
    for text in ["Бісектриса", "+ градуси", "x\u{1F600}y", "\u{FFFF}\u{10000}\u{10FFFF}"] {
        let mut expected: Vec<u16> = text.encode_utf16().collect();
        expected.push(0);
        assert_eq!(wide(text), expected, "{text}");
    }
}

#[test]
fn dismissed_menu_selects_nothing() {
    assert_eq!(selected_command(0), None);
    assert_eq!(selected_command(11), Some(11));
}
