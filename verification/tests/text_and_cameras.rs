use studio_effects::camera::{find_best_camera, position_of, should_switch_camera};
use studio_effects::text::{
    chars_of, contains, join_entries, parse_camera_list, same_text, trimmed_range, white_space,
};

fn strings(items: &[&str]) -> Vec<String> {
    items.iter().map(|s| s.to_string()).collect()
}

#[test]
fn white_space_matches_std() {
    for c in [' ', '\t', '\n', '\u{85}', '\u{a0}', '\u{2003}', '\u{3000}', 'a', ',', '\u{200b}', '0'] {
        assert_eq!(white_space(c), c.is_whitespace(), "{:?}", c);
    }
}

#[test]
fn chars_of_keeps_unicode() {
    assert_eq!(chars_of("é/dev"), vec!['é', '/', 'd', 'e', 'v']);
    assert_eq!(chars_of(""), Vec::<char>::new());
}

#[test]
fn same_text_compares_characters() {
    assert!(same_text("freeze", "freeze"));
    assert!(!same_text("freeze", "Freeze"));
    assert!(!same_text("freeze", "freez"));
    assert!(same_text("", ""));
}

#[test]
fn contains_finds_substrings() {
    assert!(contains("replace_and_blur", "replace"));
    assert!(contains("blur_replace", "replace"));
    assert!(!contains("blur", "replace"));
    assert!(!contains("repl", "replace"));
    assert!(contains("anything", ""));
    assert!(contains("", ""));
}

#[test]
fn trimmed_range_skips_white_space() {
    let v = chars_of("  ab c \t");
    assert_eq!(trimmed_range(&v, 0, v.len()), (2, 6));
    let w = chars_of("   ");
    let (lo, hi) = trimmed_range(&w, 0, 3);
    assert_eq!(lo, hi);
}

#[test]
fn parse_camera_list_splits_trims_and_drops_empty() {
    assert_eq!(
        parse_camera_list(" /dev/video0 , ,/dev/video2,\t"),
        strings(&["/dev/video0", "/dev/video2"])
    );
    assert_eq!(parse_camera_list(""), Vec::<String>::new());
    assert_eq!(parse_camera_list(",,,"), Vec::<String>::new());
    assert_eq!(parse_camera_list("a b"), strings(&["a b"]));
}

#[test]
fn parse_camera_list_agrees_with_std() {
    for text in ["/dev/video0, /dev/video2", " x ,y,, z ", "\u{3000}cam\u{a0}", "one"] {
        let expected: Vec<String> =
            text.split(',').map(|s| s.trim().to_string()).filter(|s| !s.is_empty()).collect();
        assert_eq!(parse_camera_list(text), expected);
    }
}

#[test]
fn join_entries_separates_items() {
    assert_eq!(join_entries(&strings(&["/dev/video0", "/dev/video2"]), ", "), "/dev/video0, /dev/video2");
    assert_eq!(join_entries(&strings(&["only"]), ", "), "only");
    assert_eq!(join_entries(&Vec::new(), ", "), "");
}

#[test]
fn camera_list_round_trip_on_examples() {
    let list = strings(&["/dev/video0", "/dev/video2", "usb cam"]);
    assert_eq!(parse_camera_list(&join_entries(&list, ", ")), list);
    let empty: Vec<String> = Vec::new();
    assert_eq!(parse_camera_list(&join_entries(&empty, ", ")), empty);
    // An entry holding a comma does not survive.
    let odd = strings(&["a,b"]);
    assert_ne!(parse_camera_list(&join_entries(&odd, ", ")), odd);
}

#[test]
fn find_best_camera_picks_first_available() {
    assert_eq!(find_best_camera(&vec![false, true, true]), Some(1));
    assert_eq!(find_best_camera(&vec![true, false]), Some(0));
    assert_eq!(find_best_camera(&vec![false, false]), None);
    assert_eq!(find_best_camera(&vec![]), None);
}

#[test]
fn position_of_finds_first_occurrence() {
    let p = strings(&["a", "b", "a"]);
    assert_eq!(position_of(&p, &"a".to_string()), Some(0));
    assert_eq!(position_of(&p, &"b".to_string()), Some(1));
    assert_eq!(position_of(&p, &"c".to_string()), None);
}

#[test]
fn switch_when_higher_priority_camera_appears() {
    let p = strings(&["/dev/video0", "/dev/video2", "/dev/video4"]);
    let current = "/dev/video2".to_string();
    assert!(should_switch_camera(&p, &current, &vec![true, true, false]));
    assert!(!should_switch_camera(&p, &current, &vec![false, true, true]));
    // A camera behind the current one never causes a switch.
    assert!(!should_switch_camera(&p, &current, &vec![false, false, true]));
}

#[test]
fn no_switch_for_best_camera() {
    let p = strings(&["/dev/video0", "/dev/video2"]);
    assert!(!should_switch_camera(&p, &"/dev/video0".to_string(), &vec![true, true]));
}

#[test]
fn unlisted_camera_switches_when_any_listed_is_available() {
    let p = strings(&["/dev/video0", "/dev/video2"]);
    let current = "/dev/video9".to_string();
    assert!(should_switch_camera(&p, &current, &vec![false, true]));
    assert!(!should_switch_camera(&p, &current, &vec![false, false]));
}
