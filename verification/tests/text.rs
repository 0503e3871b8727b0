use image_ops::build_info::{version_str, BuildInfo};
use image_ops::text::{
    contains_line_feed, half_steps, place_line, place_lines, split_lines, wrap_text,
};
use image_ops::{LineMeasure, PlacedLine};

fn lines(text: &str) -> Vec<String> {
    split_lines(text)
}

fn measure(width: i32, offset: i32) -> LineMeasure {
    LineMeasure { width, offset }
}

#[test]
fn lines_are_split_at_line_feeds() {
    assert_eq!(lines("one\ntwo\nthree"), vec!["one", "two", "three"]);
    assert_eq!(lines("one"), vec!["one"]);
    assert_eq!(lines(""), Vec::<String>::new());
}

#[test]
fn last_line_feed_ends_the_last_line() {
    assert_eq!(lines("one\ntwo\n"), vec!["one", "two"]);
    assert_eq!(lines("\n"), vec![""]);
    assert_eq!(lines("a\n\n"), vec!["a", ""]);
}

#[test]
fn empty_lines_are_lines() {
    assert_eq!(lines("a\n\nb"), vec!["a", "", "b"]);
    assert_eq!(lines("\n\nb"), vec!["", "", "b"]);
}

#[test]
fn carriage_return_before_line_feed_is_dropped() {
    assert_eq!(lines("a\r\nb\r\n"), vec!["a", "b"]);
    assert_eq!(lines("a\rb\nc"), vec!["a\rb", "c"]);
    assert_eq!(lines("a\r"), vec!["a\r"]);
    assert_eq!(lines("a\r\r\nb"), vec!["a\r", "b"]);
}

#[test]
fn lines_agree_with_std() {
    for text in ["", "x", "x\n", "\nx", "a\r\nb", "é\nü\r\n\n", "tab\tbed\n \n"] {
        let want: Vec<String> = text.lines().map(|l| l.to_string()).collect();
        assert_eq!(lines(text), want);
    }
}

#[test]
fn line_feed_is_found() {
    assert!(contains_line_feed("a\nb"));
    assert!(contains_line_feed("\n"));
    assert!(!contains_line_feed("a\rb"));
    assert!(!contains_line_feed(""));
}

#[test]
fn text_is_wrapped_to_the_width() {
    let text = "Memory safety without garbage collection.".to_string();
    assert_eq!(wrap_text(text, Some(15)), "Memory safety\nwithout garbage\ncollection.");
}

#[test]
fn text_without_a_width_is_kept() {
    let text = "Memory safety without garbage collection.".to_string();
    assert_eq!(wrap_text(text.clone(), None), text);
}

#[test]
fn text_with_a_line_feed_is_kept() {
    let text = "Memory safety without\ngarbage collection.".to_string();
    assert_eq!(wrap_text(text.clone(), Some(5)), text);
}

#[test]
fn half_steps_centre_the_block() {
    assert_eq!(half_steps(0, 1), 0);
    assert_eq!(half_steps(0, 2), -1);
    assert_eq!(half_steps(1, 2), 1);
    assert_eq!(half_steps(0, 3), -2);
    assert_eq!(half_steps(1, 3), 0);
    assert_eq!(half_steps(2, 3), 2);
    assert_eq!(half_steps(0, 0x7fff_ffff), -0x7fff_fffe);
    for count in 1..6usize {
        for index in 0..count {
            assert_eq!(half_steps(index, count) + half_steps(count - 1 - index, count), 0);
        }
    }
}

#[test]
fn single_line_is_centred_on_the_midpoint() {
    assert_eq!(place_line((100, 50), measure(40, 0)), Some((80, 50)));
    assert_eq!(place_line((100, 50), measure(41, 0)), Some((80, 50)));
    assert_eq!(place_line((100, 50), measure(1, 0)), Some((100, 50)));
    assert_eq!(place_line((0, 0), measure(7, -3)), Some((-3, -3)));
    assert_eq!(place_line((-10, 5), measure(0, 12)), Some((-10, 17)));
    assert_eq!(place_line((10, 0), measure(-5, 0)), Some((12, 0)));
    let places = place_lines(&lines("hello"), &vec![measure(41, 0)], (100, 50)).unwrap();
    assert_eq!(places, vec![PlacedLine { index: 0, x: 80, y: 50 }]);
}

#[test]
fn each_line_is_centred_by_its_own_width() {
    let measures = vec![measure(10, -20), measure(30, 0), measure(21, 20)];
    let places = place_lines(&lines("a\nbbb\ncc"), &measures, (50, 100)).unwrap();
    assert_eq!(
        places,
        vec![
            PlacedLine { index: 0, x: 45, y: 80 },
            PlacedLine { index: 1, x: 35, y: 100 },
            PlacedLine { index: 2, x: 40, y: 120 },
        ]
    );
}

#[test]
fn empty_lines_are_skipped_and_not_renumbered() {
    let measures = vec![measure(10, -20), measure(999, 0), measure(20, 20)];
    let places = place_lines(&lines("a\n\ncc"), &measures, (50, 100)).unwrap();
    assert_eq!(
        places,
        vec![PlacedLine { index: 0, x: 45, y: 80 }, PlacedLine { index: 2, x: 40, y: 120 }]
    );
    let none = place_lines(&lines("\n\n"), &vec![measure(1, 1), measure(1, 1)], (0, 0)).unwrap();
    assert!(none.is_empty());
}

#[test]
fn measures_must_be_one_for_each_line() {
    assert_eq!(place_lines(&lines("a\nb"), &vec![measure(1, 1)], (0, 0)), None);
    assert_eq!(place_lines(&lines("\na"), &vec![measure(1, 1)], (0, 0)), None);
    assert_eq!(
        place_lines(&lines("a"), &vec![measure(2, 1), measure(9, 9)], (0, 0)),
        Some(vec![PlacedLine { index: 0, x: -1, y: 1 }])
    );
}

#[test]
fn empty_lines_need_no_measure() {
    assert_eq!(place_lines(&lines(""), &Vec::new(), (0, 0)), Some(Vec::new()));
    assert_eq!(place_lines(&lines("\n\n"), &Vec::new(), (0, 0)), Some(Vec::new()));
    assert_eq!(place_lines(&lines(""), &vec![measure(1, 1)], (i32::MAX, 0)), Some(Vec::new()));
    assert_eq!(
        place_lines(&lines("a\n\n"), &vec![measure(4, 0)], (10, 10)),
        Some(vec![PlacedLine { index: 0, x: 8, y: 10 }])
    );
}

#[test]
fn lines_out_of_reach_are_refused() {
    assert_eq!(place_line((i32::MAX, 0), measure(0, 0)), None);
    assert_eq!(place_line((0, i32::MIN), measure(0, 0)), None);
    assert_eq!(place_line((0, 0x4000_0000), measure(0, 1)), None);
    assert_eq!(place_line((0, 0x4000_0000), measure(0, 0)), Some((0, 0x4000_0000)));
    assert_eq!(place_line((-0x4000_0000, 0), measure(1, 0)), Some((-0x4000_0000, 0)));
    assert_eq!(place_line((-0x4000_0000, 0), measure(2, 0)), None);
    assert_eq!(place_line((0, 0), measure(i32::MIN, i32::MAX)), None);
    assert_eq!(place_lines(&lines("a"), &vec![measure(0, i32::MAX)], (0, 1)), None);
    let skipped = place_lines(&lines("\na"), &vec![measure(0, i32::MAX), measure(2, 3)], (0, 1));
    assert_eq!(skipped, Some(vec![PlacedLine { index: 1, x: -1, y: 4 }]));
}

fn info() -> BuildInfo {
    BuildInfo {
        pkg_version: "1.2.3".to_string(),
        git_commit_hash: Some("0123456789abcdef0123456789abcdef01234567".to_string()),
        debug: false,
        cfg_os: "linux".to_string(),
        cfg_target_arch: "x86_64".to_string(),
        cfg_pointer_width: "64".to_string(),
        rustc_version: "rustc 1.80.0".to_string(),
        built_time_utc: "Mon, 01 Jan 2024 00:00:00 +0000".to_string(),
    }
}

#[test]
fn version_line() {
    assert_eq!(
        version_str(&info()),
        "Version 1.2.3 (012345678), built for linux x86_64 64-bit using rustc 1.80.0 at Mon, 01 Jan 2024 00:00:00 +0000"
    );
}

#[test]
fn version_line_of_a_debug_build_without_commit() {
    let mut i = info();
    i.debug = true;
    i.git_commit_hash = None;
    assert_eq!(
        version_str(&i),
        "Version 1.2.3 (Unknown commit) (debug), built for linux x86_64 64-bit using rustc 1.80.0 at Mon, 01 Jan 2024 00:00:00 +0000"
    );
}

#[test]
fn version_line_of_a_hash_that_is_not_ascii() {
    let mut i = info();
    i.git_commit_hash = Some("1234567\u{e9}9abc".to_string());
    assert!(version_str(&i).starts_with("Version 1.2.3 (1234567\u{e9}), built for "));
}

#[test]
fn version_line_of_a_nine_character_hash() {
    let mut i = info();
    i.git_commit_hash = Some("abcdef012".to_string());
    assert!(version_str(&i).starts_with("Version 1.2.3 (abcdef012), built for "));
}
