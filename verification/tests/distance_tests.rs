use protractor_plus::distance::{shown_kinds, HiddenDistancePanels};
use protractor_plus::distance::{trim_fraction_zeros, visible_kinds, DistanceEditor, DistanceKind};
use protractor_plus::distance::DistanceKind::{Base, FrontLeft, FrontRight, Hypotenuse, LeftRay, RightRay};

#[test]
fn visible_kinds_follow_the_features() {
    assert_eq!(visible_kinds(false, false), vec![Base, LeftRay, RightRay]);
    assert_eq!(visible_kinds(true, false), vec![Base, LeftRay, RightRay, Hypotenuse]);
    assert_eq!(visible_kinds(false, true), vec![Base, LeftRay, RightRay, FrontLeft, FrontRight]);
    assert_eq!(
        visible_kinds(true, true),
        vec![Base, LeftRay, RightRay, Hypotenuse, FrontLeft, FrontRight]
    );
}

fn editor(buffer: &str) -> DistanceEditor {
    DistanceEditor::new(DistanceKind::Base, buffer.to_string())
}

#[test]
fn first_input_replaces_the_shown_value() {
    let mut e = editor("1000");
    assert!(e.replace_on_input);
    e.append_input("x");
    assert_eq!(e.buffer, "1000");
    assert!(e.replace_on_input);
    e.append_input("2");
    assert_eq!(e.buffer, "2");
    assert!(!e.replace_on_input);
    e.append_input("5,5.1a");
    assert_eq!(e.buffer, "25.51");
}

#[test]
fn only_one_separator_and_twelve_bytes() {
    let mut e = editor("");
    e.append_input("1.2.3,4");
    assert_eq!(e.buffer, "1.234");
    let mut e = editor("");
    e.append_input("1234567890123456");
    assert_eq!(e.buffer, "123456789012");
    e.append_input(".");
    assert_eq!(e.buffer, "123456789012");
    let mut e = editor("");
    e.append_input(",5");
    assert_eq!(e.buffer, ".5");
}

#[test]
fn backspace_clears_a_fresh_value_then_deletes_one_character() {
    let mut e = editor("12.5");
    e.backspace();
    assert_eq!(e.buffer, "");
    assert!(!e.replace_on_input);
    e.append_input("98");
    e.backspace();
    assert_eq!(e.buffer, "9");
    e.backspace();
    e.backspace();
    assert_eq!(e.buffer, "");
}

#[test]
fn normalized_buffer_reads_commas_as_points() {
    let e = DistanceEditor { kind: DistanceKind::Hypotenuse, buffer: "3,25".into(), replace_on_input: false };
    assert_eq!(e.normalized_buffer(), "3.25");
    assert_eq!(e.normalized_buffer().parse::<f32>().unwrap(), 3.25);
}

#[test]
fn label_ends_with_the_metre_sign() {
    assert_eq!(editor("12.5").label(), "12.5м");
    assert_eq!(editor("").label(), "м");
}

#[test]
fn trim_fraction_zeros_drops_trailing_zeros_and_point() {
    assert_eq!(trim_fraction_zeros("12.50"), "12.5");
    assert_eq!(trim_fraction_zeros("0.10"), "0.1");
    assert_eq!(trim_fraction_zeros("7.00"), "7");
    assert_eq!(trim_fraction_zeros("3.14"), "3.14");
    assert_eq!(trim_fraction_zeros(""), "");
}

#[test]
fn non_ascii_buffers_count_bytes() {
    let mut e = DistanceEditor { kind: DistanceKind::Base, buffer: "ммммм1".into(), replace_on_input: false };
    // 11 bytes: one more digit fits
    e.append_input("23");
    assert_eq!(e.buffer, "ммммм12");
}

#[test]
fn shown_kinds_skip_hidden_labels() {
    let mut hidden = HiddenDistancePanels::default();
    hidden.hide_label(DistanceKind::LeftRay);
    hidden.hide_label(DistanceKind::FrontLeft);
    assert_eq!(
        shown_kinds(true, true, &hidden),
        vec![DistanceKind::Base, DistanceKind::RightRay, DistanceKind::Hypotenuse, DistanceKind::FrontRight]
    );
    assert_eq!(shown_kinds(false, false, &HiddenDistancePanels::default()).len(), 3);
}
