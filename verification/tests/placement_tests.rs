use protractor_plus::box_path::{segment_labels, BoxPanelKind};
use protractor_plus::placement::{group_clear, placement_shift, resolve_angle_panel, resolve_group, TRIED_PLACEMENTS};

// A label here is an interval [start, end) on a line, in half steps.
fn overlaps(a: (i32, i32), b: (i32, i32)) -> bool {
    a.0 < b.1 && b.0 < a.1
}

fn shift(r: (i32, i32), dx: i32, _dy: i32) -> (i32, i32) {
    (r.0 + dx, r.1 + dx)
}

#[test]
fn placement_offsets_in_order() {
    assert_eq!(placement_shift(0), (0, 0));
    assert_eq!(placement_shift(1), (0, -2));
    assert_eq!(placement_shift(2), (0, 2));
    assert_eq!(placement_shift(3), (-2, 0));
    assert_eq!(placement_shift(4), (2, 0));
    assert_eq!(placement_shift(9), (-3, 0));
    assert_eq!(placement_shift(10), (3, 0));
    assert_eq!(placement_shift(11), (0, -4));
    assert_eq!(placement_shift(240), (72, 0));
    assert_eq!(placement_shift(TRIED_PLACEMENTS), (0, 50));
}

#[test]
fn group_clear_checks_every_pair() {
    let group = vec![(0, 2), (10, 12)];
    assert!(group_clear(&group, &vec![(3, 9)], &overlaps));
    assert!(!group_clear(&group, &vec![(3, 9), (11, 20)], &overlaps));
    assert!(group_clear(&group, &vec![], &overlaps));
}

#[test]
fn resolve_group_keeps_a_clear_group() {
    let preferred = vec![(0, 4)];
    assert_eq!(resolve_group(&preferred, &vec![(10, 20)], &overlaps, &shift), preferred);
}

#[test]
fn resolve_group_takes_first_clear_shift() {
    // Placements 1 and 2 move vertically (no change on the line), placement 3
    // moves left by 2 half steps, which clears (2, 6).
    let preferred = vec![(4, 8)];
    assert_eq!(resolve_group(&preferred, &vec![(6, 10)], &overlaps, &shift), vec![(2, 6)]);
}

#[test]
fn resolve_group_falls_back_when_nothing_clears() {
    let preferred = vec![(0, 4)];
    let wall = vec![(-1000, 1000)];
    // The fallback moves 25 steps down, which leaves the line unchanged.
    assert_eq!(resolve_group(&preferred, &wall, &overlaps, &shift), vec![(0, 4)]);
}

#[test]
fn segment_labels_follow_masks() {
    assert_eq!(
        segment_labels(2, true, true, 0, 0),
        vec![BoxPanelKind::Distance(2), BoxPanelKind::Bearing(2)]
    );
    assert_eq!(segment_labels(2, true, true, 0b100, 0), vec![BoxPanelKind::Bearing(2)]);
    assert_eq!(segment_labels(2, true, true, 0, 0b100), vec![BoxPanelKind::Distance(2)]);
    assert_eq!(segment_labels(1, false, true, 0, 0b1), vec![BoxPanelKind::Bearing(1)]);
    assert!(segment_labels(1, false, false, 0, 0).is_empty());
}

// Only move 7 (left) changes a label on the line; move 6 of ring 19, the
// fallback, marks the label by moving it far right.
fn angle_shift(r: (i32, i32), ring: u32, k: u32) -> (i32, i32) {
    if k == 7 {
        (r.0 - 2 * ring as i32, r.1 - 2 * ring as i32)
    } else if ring == 19 && k == 6 {
        (r.0 + 1000, r.1 + 1000)
    } else {
        r
    }
}

#[test]
fn angle_label_stays_when_clear() {
    assert_eq!(resolve_angle_panel((0, 4), &vec![(10, 20)], &overlaps, &angle_shift), (0, 4));
}

#[test]
fn angle_label_takes_first_clear_move() {
    // Ring 1 move 7 gives (2, 6), still touching (5, 10); ring 2 move 7 gives (0, 4).
    assert_eq!(resolve_angle_panel((4, 8), &vec![(5, 10)], &overlaps, &angle_shift), (0, 4));
}

#[test]
fn angle_label_falls_back_down() {
    let wall = vec![(-1000, 1000)];
    assert_eq!(resolve_angle_panel((0, 4), &wall, &overlaps, &angle_shift), (1000, 1004));
}
