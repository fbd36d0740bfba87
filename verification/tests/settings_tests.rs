use protractor_plus::scan::split_whitespace;
use protractor_plus::settings::{
    format_settings, load_settings_text, parse_settings, HelperTokens, PointTokens,
    SettingsRecord, SETTINGS_VERSION,
};

const V11: &str = "11\n1 2\n3 4\n5 6\n1\n7 8\n0\n0.5\n2\n1\n0\n1\n0\n1\n0\n1\n0.25\n1\n-1.5\n0\n1\n0\n1\n0\n1\n-10 20\n";

fn pts(r: &SettingsRecord) -> Vec<(String, String)> {
    r.points.iter().map(|p| (p.x.clone(), p.y.clone())).collect()
}

#[test]
fn loads_every_field_of_version_11() {
    let r = load_settings_text(V11).expect("version 11 loads");
    assert_eq!(r.version, 11);
    assert_eq!(pts(&r), vec![("1".into(), "2".into()), ("3".into(), "4".into()), ("5".into(), "6".into())]);
    let h = r.helper.as_ref().unwrap();
    assert!(h.enabled);
    assert_eq!((h.x.as_str(), h.y.as_str()), ("7", "8"));
    assert!(!r.angle_locked);
    assert_eq!(r.locked_signed_angle, "0.5");
    assert_eq!(r.red_locked_index, Some(2));
    assert!(r.bisector_visible);
    assert!(!r.plus_degrees_visible);
    assert!(r.inverted);
    assert!(!r.hypotenuse_visible);
    assert!(r.front_plus_visible);
    assert!(!r.xtk_visible);
    assert!(r.distance_visible);
    assert_eq!(r.meters_per_pixel.as_deref(), Some("0.25"));
    assert!(r.north_visible);
    assert_eq!(r.north_angle.as_deref(), Some("-1.5"));
    assert!(!r.north_locked);
    assert!(r.course_visible);
    assert!(!r.blue_pinned);
    assert!(r.left_red_pinned);
    assert!(!r.right_red_pinned);
    assert!(r.helper_pinned);
    assert_eq!((r.window_x, r.window_y), (-10, 20));
}

#[test]
fn format_writes_version_11_text() {
    let r = load_settings_text(V11).unwrap();
    assert_eq!(format_settings(&r), V11);
    assert_eq!(SETTINGS_VERSION, 11);
}

#[test]
fn version_1_takes_defaults() {
    let r = load_settings_text("1 10 20 30 40 50 60 1 0.25 5 6").unwrap();
    assert_eq!(r.version, 1);
    assert_eq!(pts(&r)[2], ("50".to_string(), "60".to_string()));
    assert!(r.helper.is_none());
    assert!(r.angle_locked);
    assert_eq!(r.locked_signed_angle, "0.25");
    assert_eq!(r.red_locked_index, None);
    assert!(r.bisector_visible);
    assert!(!r.plus_degrees_visible);
    assert!(!r.inverted && !r.hypotenuse_visible && !r.front_plus_visible && !r.xtk_visible);
    assert!(!r.distance_visible);
    assert!(r.meters_per_pixel.is_none());
    assert!(r.north_angle.is_none());
    assert!(!r.north_visible && !r.north_locked && !r.course_visible);
    assert!(!r.blue_pinned && !r.left_red_pinned && !r.right_red_pinned && !r.helper_pinned);
    assert_eq!((r.window_x, r.window_y), (5, 6));
}

#[test]
fn version_2_shows_degrees_with_the_helper() {
    let r = load_settings_text("2 1 2 3 4 5 6 1 7 8 0 0.1 9 9").unwrap();
    assert!(r.helper.as_ref().unwrap().enabled);
    assert!(r.plus_degrees_visible);
    let r = load_settings_text("2 1 2 3 4 5 6 0 7 8 0 0.1 9 9").unwrap();
    assert!(!r.helper.as_ref().unwrap().enabled);
    assert_eq!(r.helper.as_ref().unwrap().x, "7");
    assert!(!r.plus_degrees_visible);
}

#[test]
fn version_5_reads_the_red_lock_code() {
    let base = |code: &str| format!("5 1 2 3 4 5 6 1 7 8 1 0.1 {code} 1 1 0 0 1 1 2.5 3 4");
    assert_eq!(load_settings_text(&base("1")).unwrap().red_locked_index, Some(0));
    assert_eq!(load_settings_text(&base("2")).unwrap().red_locked_index, Some(2));
    assert_eq!(load_settings_text(&base("7")).unwrap().red_locked_index, None);
    let r = load_settings_text(&base("2")).unwrap();
    assert_eq!(r.meters_per_pixel.as_deref(), Some("2.5"));
    assert!(r.distance_visible);
    assert_eq!((r.window_x, r.window_y), (3, 4));
}

#[test]
fn versions_9_and_10_keep_the_transverse_line_with_front_plus() {
    // v9: ... front, distance, mpp, north, north angle, north locked, course, blue, left, right, window
    let v9 = "9 1 2 3 4 5 6 0 0 0 0 0 0 1 1 0 0 1 1 0.5 0 0 0 0 0 0 0 1 2";
    let r = load_settings_text(v9).unwrap();
    assert!(r.front_plus_visible);
    assert!(r.xtk_visible);
    assert!(!r.helper_pinned);
    let v10 = "10 1 2 3 4 5 6 0 0 0 0 0 0 1 1 0 0 0 1 0.5 0 0 0 0 0 0 0 1 1 2";
    let r = load_settings_text(v10).unwrap();
    assert!(!r.front_plus_visible);
    assert!(!r.xtk_visible);
    assert!(r.helper_pinned);
}

#[test]
fn unreadable_files_give_none() {
    assert!(load_settings_text("").is_none());
    assert!(load_settings_text("abc 1 2").is_none());
    assert!(load_settings_text("12 1 2 3 4 5 6 1 0.1 2 3").is_none());
    assert!(load_settings_text("0 1 2 3 4 5 6 1 0.1 2 3").is_none());
    // missing window y
    assert!(load_settings_text("1 10 20 30 40 50 60 1 0.25 5").is_none());
    // flag that is not a u8
    assert!(load_settings_text("1 10 20 30 40 50 60 x 0.25 5 6").is_none());
    assert!(load_settings_text("1 10 20 30 40 50 60 256 0.25 5 6").is_none());
    // window coordinate that is not an i32
    assert!(load_settings_text("1 10 20 30 40 50 60 1 0.25 5 6.5").is_none());
}

#[test]
fn extra_tokens_are_ignored_and_float_tokens_are_kept_as_written() {
    let r = load_settings_text("1 a b c d e f 0 nan -3 4 extra tokens").unwrap();
    assert_eq!(pts(&r)[0], ("a".to_string(), "b".to_string()));
    assert_eq!(r.locked_signed_angle, "nan");
    assert_eq!((r.window_x, r.window_y), (-3, 4));
}

#[test]
fn parse_settings_reads_tokens() {
    let tokens = split_whitespace(V11);
    let r = parse_settings(&tokens).unwrap();
    assert_eq!(r.window_x, -10);
}

#[test]
fn saving_then_loading_gives_the_same_settings() {
    let record = SettingsRecord {
        version: 4,
        points: vec![
            PointTokens { x: "140".into(), y: "280".into() },
            PointTokens { x: "320.5".into(), y: "230".into() },
            PointTokens { x: "-500".into(), y: "1e3".into() },
        ],
        helper: Some(HelperTokens { enabled: false, x: "0".into(), y: "0".into() }),
        angle_locked: true,
        locked_signed_angle: "-0.7853982".into(),
        red_locked_index: Some(0),
        bisector_visible: false,
        plus_degrees_visible: true,
        inverted: false,
        hypotenuse_visible: true,
        front_plus_visible: false,
        xtk_visible: true,
        distance_visible: false,
        meters_per_pixel: Some("3.25".into()),
        north_visible: true,
        north_angle: Some("-1.5707964".into()),
        north_locked: true,
        course_visible: false,
        blue_pinned: true,
        left_red_pinned: false,
        right_red_pinned: true,
        helper_pinned: false,
        window_x: i32::MIN,
        window_y: i32::MAX,
    };
    let text = format_settings(&record);
    let back = load_settings_text(&text).unwrap();
    assert_eq!(back.version, 11);
    assert_eq!(format_settings(&back), text);
    assert_eq!(pts(&back), pts(&record));
    assert_eq!(back.red_locked_index, Some(0));
    assert_eq!(back.window_x, i32::MIN);
    assert_eq!(back.window_y, i32::MAX);
    assert!(back.xtk_visible && !back.bisector_visible && back.plus_degrees_visible);
}
