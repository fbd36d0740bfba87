use protractor_plus::box_path::{
    box_point_at, is_close_target, label_hidden, segment, segment_count, AnglePanelLayout, BoxClick, BoxPanel, BoxPanelKind,
    BoxPanelLayout, BoxPath,
};
use protractor_plus::box_state::{format_box_state, parse_box_state, FloatClass, MAX_BOX_POINTS};
use protractor_plus::scan::split_whitespace;
use protractor_plus::settings::PointTokens;

fn classify(token: &str) -> FloatClass {
    match token.parse::<f32>() {
        Ok(v) if v.is_finite() => FloatClass::Finite,
        Ok(_) => FloatClass::NonFinite,
        Err(_) => FloatClass::Invalid,
    }
}

fn load(text: &str) -> protractor_plus::box_state::BoxSavedState {
    let tokens = split_whitespace(text);
    let classes: Vec<FloatClass> = tokens.iter().map(|t| classify(t)).collect();
    parse_box_state(&tokens, &classes)
}

fn coords(state: &protractor_plus::box_state::BoxSavedState) -> Vec<(String, String)> {
    state.points.iter().map(|p| (p.x.clone(), p.y.clone())).collect()
}

fn point(x: &str, y: &str) -> PointTokens {
    PointTokens { x: x.to_string(), y: y.to_string() }
}

#[test]
fn loads_a_closed_locked_path() {
    let s = load("2\n1\n1\n3\n1 1\n2.5 2\n3 -3\n1\n0\n1\n");
    assert!(s.visible);
    assert!(s.closed);
    assert_eq!(coords(&s), vec![("1".into(), "1".into()), ("2.5".into(), "2".into()), ("3".into(), "-3".into())]);
    assert_eq!(s.locked, vec![true, false, true]);
}

#[test]
fn version_1_has_no_lock_flags() {
    let s = load("1 1 0 2 1 1 2 2 1 1");
    assert_eq!(s.points.len(), 2);
    assert_eq!(s.locked, vec![false, false]);
    assert!(!s.closed);
}

#[test]
fn a_non_finite_point_is_skipped_and_the_path_opens() {
    let s = load("2 1 1 3 1 1 inf 2 3 3 1 1");
    assert_eq!(coords(&s), vec![("1".into(), "1".into()), ("3".into(), "3".into())]);
    assert!(!s.closed);
    // the lock flags follow the kept points: two are read
    assert_eq!(s.locked, vec![true, true]);
}

#[test]
fn unreadable_files_give_an_empty_hidden_path() {
    for text in ["", "3 1 1 1 1 1", "x", "2 1 1 2 1 1 zz 2", "2 1 1 3 1 1 2 2"] {
        let s = load(text);
        assert!(!s.visible && !s.closed && s.points.is_empty() && s.locked.is_empty(), "{text}");
    }
}

#[test]
fn missing_or_bad_flags_count_as_unset_and_count_is_capped() {
    let s = load("2 x");
    assert!(!s.visible && s.points.is_empty());
    let mut text = String::from("2 1 0 99");
    for i in 0..12 {
        text.push_str(&format!(" {i} {i}"));
    }
    let s = load(&text);
    assert_eq!(s.points.len(), MAX_BOX_POINTS);
    assert_eq!(s.points[9].x, "9");
    // lock flags are read from the tokens after the ten records: "10 10 11 11 ..."
    assert_eq!(s.locked.len(), 10);
    assert!(s.locked[0]);
}

#[test]
fn format_writes_the_version_2_layout() {
    let points = vec![point("1", "2"), point("3.5", "-4"), point("5", "6")];
    let text = format_box_state(true, true, &points, &vec![false, true]);
    assert_eq!(text, "2\n1\n1\n3\n1 2\n3.5 -4\n5 6\n0\n1\n0\n");
    let open = format_box_state(false, true, &points[..2].to_vec(), &vec![]);
    assert_eq!(open, "2\n0\n0\n2\n1 2\n3.5 -4\n0\n0\n");
}

#[test]
fn saving_then_loading_a_path_keeps_it() {
    let points: Vec<PointTokens> = (0..12).map(|i| point(&format!("{i}.5"), &format!("-{i}"))).collect();
    let locked: Vec<bool> = (0..12).map(|i| i % 3 == 0).collect();
    let text = format_box_state(true, true, &points, &locked);
    let back = load(&text);
    assert!(back.visible && back.closed);
    assert_eq!(back.points.len(), 10);
    for i in 0..10 {
        assert_eq!(back.points[i].x, points[i].x);
        assert_eq!(back.points[i].y, points[i].y);
        assert_eq!(back.locked[i], locked[i]);
    }
}

#[test]
fn segments_of_open_and_closed_paths() {
    let pts = vec![10, 20, 30];
    assert_eq!(segment_count(&Vec::<i32>::new(), true), 0);
    assert_eq!(segment_count(&vec![1], true), 0);
    assert_eq!(segment_count(&vec![1, 2], true), 1);
    assert_eq!(segment_count(&pts, false), 2);
    assert_eq!(segment_count(&pts, true), 3);
    assert_eq!(segment(&pts, false, 1), Some((20, 30)));
    assert_eq!(segment(&pts, false, 2), None);
    assert_eq!(segment(&pts, true, 2), Some((30, 10)));
}

fn path(points: Vec<i32>) -> BoxPath<i32> {
    BoxPath { visible: true, closed: false, points, hidden_distance: 5, hidden_bearing: 3 }
}

#[test]
fn clicks_add_close_or_are_consumed() {
    let mut p = path(vec![1, 2]);
    assert_eq!(p.add_or_close(9, Some(0)), BoxClick::Consumed);
    assert_eq!(p.points, vec![1, 2]);
    assert_eq!(p.hidden_distance, 5);
    assert_eq!(p.add_or_close(3, None), BoxClick::Added);
    assert_eq!(p.points, vec![1, 2, 3]);
    assert_eq!((p.hidden_distance, p.hidden_bearing), (0, 0));
    assert_eq!(p.add_or_close(7, Some(1)), BoxClick::Consumed);
    p.hidden_bearing = 4;
    assert_eq!(p.add_or_close(7, Some(0)), BoxClick::Closed);
    assert!(p.closed);
    assert_eq!(p.hidden_bearing, 0);
    assert_eq!(p.add_or_close(8, None), BoxClick::NotHandled);
    let mut hidden = path(vec![]);
    hidden.visible = false;
    assert_eq!(hidden.add_or_close(1, None), BoxClick::NotHandled);
    let mut full = path((0..10).collect());
    assert_eq!(full.add_or_close(11, None), BoxClick::Consumed);
    assert_eq!(full.points.len(), 10);
}

#[test]
fn deleting_points_opens_and_hides_the_path() {
    let mut p = path(vec![1, 2, 3]);
    p.closed = true;
    assert!(!p.delete_point(3));
    assert!(p.closed && p.hidden_distance == 5);
    assert!(p.delete_point(1));
    assert_eq!(p.points, vec![1, 3]);
    assert!(!p.closed && p.visible);
    assert_eq!((p.hidden_distance, p.hidden_bearing), (0, 0));
    assert!(p.delete_point(0));
    assert!(p.delete_point(0));
    assert!(p.points.is_empty());
    assert!(!p.visible);
}

#[test]
fn toggling_shows_all_labels() {
    let mut p = path(vec![1]);
    p.toggle_visible();
    assert!(!p.visible);
    assert_eq!((p.hidden_distance, p.hidden_bearing), (0, 0));
}

#[test]
fn hiding_a_label_sets_its_bit() {
    let mut p = path(vec![1, 2]);
    p.hidden_distance = 0;
    p.hide_panel(BoxPanelKind::Distance(3));
    assert_eq!(p.hidden_distance, 8);
    assert!(label_hidden(p.hidden_distance, 3));
    assert!(!label_hidden(p.hidden_distance, 2));
    p.hide_panel(BoxPanelKind::Bearing(0));
    assert_eq!(p.hidden_bearing, 3);
}

#[test]
fn layout_rects_in_order() {
    let layout = BoxPanelLayout {
        panels: vec![
            BoxPanel { kind: BoxPanelKind::Distance(0), rect: (1, 2), text: "1м".into() },
            BoxPanel { kind: BoxPanelKind::Bearing(0), rect: (3, 4), text: "90°".into() },
        ],
    };
    assert_eq!(layout.rects(), vec![(1, 2), (3, 4)]);
    assert!(BoxPanelLayout::<(i32, i32)>::new().rects().is_empty());
}

#[test]
fn angle_layout_rects_skip_hidden_labels() {
    let mut l: AnglePanelLayout<u8> = AnglePanelLayout::new();
    assert!(l.rects().is_empty());
    l.main = Some(1);
    l.course = Some(3);
    l.helper_delta = Some(7);
    assert_eq!(l.rects(), vec![1, 3, 7]);
}

#[test]
fn hit_test_finds_first_label() {
    let mut layout: BoxPanelLayout<(i32, i32)> = BoxPanelLayout::new();
    layout.panels.push(BoxPanel { kind: BoxPanelKind::Distance(0), rect: (0, 10), text: "5м".to_string() });
    layout.panels.push(BoxPanel { kind: BoxPanelKind::Bearing(0), rect: (5, 15), text: "90°".to_string() });
    let at = |x: i32| move |r: (i32, i32)| r.0 <= x && x <= r.1;
    assert_eq!(layout.hit_test(&at(7)), Some(BoxPanelKind::Distance(0)));
    assert_eq!(layout.hit_test(&at(12)), Some(BoxPanelKind::Bearing(0)));
    assert_eq!(layout.hit_test(&at(20)), None);
}

#[test]
fn box_point_hits_and_close_target() {
    let points = vec![3, 8, 8];
    assert_eq!(box_point_at(&points, &|p: i32| p == 8), Some(1));
    assert_eq!(box_point_at(&points, &|p: i32| p == 4), None);
    assert!(is_close_target(3, Some(0)));
    assert!(!is_close_target(2, Some(0)));
    assert!(!is_close_target(3, Some(1)));
}

#[test]
fn a_path_without_records_keeps_its_flags() {
    for text in ["2 1", "2 1 0", "2 1 1 0", "1 1"] {
        let s = load(text);
        assert!(s.visible, "{text}");
        assert!(!s.closed && s.points.is_empty() && s.locked.is_empty(), "{text}");
    }
}
