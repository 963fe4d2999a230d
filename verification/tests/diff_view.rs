//! The rendered line diff and the diff view's sizing rules.

use hw_checker::diffview::{diff_lines, display_size, first_diff_index, DiffLine};

#[test]
fn differing_lines_are_signed() {
    let d = diff_lines("a\n", "b\n");
    let signs: Vec<char> = d.iter().map(|l| l.sign).collect();
    assert_eq!(signs, vec!['-', '+']);
    assert_eq!(d[0].text, "a\n\u{23ce}");
    assert_eq!(d[1].text, "b\n\u{23ce}");
}

#[test]
fn equal_texts_diff_to_common_lines_only() {
    let d = diff_lines("a\nb\n", "a\nb\n");
    assert_eq!(d.len(), 2);
    assert!(d.iter().all(|l| l.sign == ' '));
}

#[test]
fn a_line_without_newline_gets_one_back() {
    let d = diff_lines("a", "a");
    assert_eq!(d.len(), 1);
    assert_eq!(d[0].sign, ' ');
    assert_eq!(d[0].text, "a\n");
}

#[test]
fn display_size_caps_long_diffs_with_a_marker_line() {
    assert_eq!(display_size(0), 0);
    assert_eq!(display_size(5), 5);
    assert_eq!(display_size(10000), 10000);
    assert_eq!(display_size(10001), 10001);
    assert_eq!(display_size(50000), 10001);
}

#[test]
fn first_difference_is_scrolled_to() {
    let line = |sign: char| DiffLine { sign, text: String::from("x\n") };
    assert_eq!(first_diff_index(&vec![line(' '), line(' '), line('+')]), 2);
    assert_eq!(first_diff_index(&vec![line('-'), line(' ')]), 0);
    assert_eq!(first_diff_index(&vec![line(' '), line(' ')]), 0);
    assert_eq!(first_diff_index(&Vec::new()), 0);
}
