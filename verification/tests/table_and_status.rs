//! The job table, the status model, numerals and the checkstyle tally.

use hw_checker::checkstyle::{tally_text, ErrorTally};
use hw_checker::numfmt::{parse_usize, two_digit_string, usize_to_string};
use hw_checker::status::{
    failed, score, status_from_string, status_to_string, Status,
};
use hw_checker::table::{count_tests, get_list_index, Test};
use hw_checker::textutil::{chars_of, contains_chars, split_lines};

fn job(id: usize, status: Status, weight: usize) -> Test {
    Test {
        id,
        name: format!("test-{}", id),
        status,
        log: String::new(),
        time_normal_millis: 0,
        time_valgrind_millis: 0,
        timeout: 1000,
        test_score: weight,
    }
}

fn table(shape: &[usize]) -> Vec<Vec<Test>> {
    let mut groups = Vec::new();
    for len in shape {
        let mut group = Vec::new();
        for i in 0..*len {
            group.push(job(i, Status::Fail, 5));
        }
        groups.push(group);
    }
    groups
}

#[test]
fn locate_walks_cumulative_group_lengths() {
    let lists = table(&[2, 3, 1]);
    assert_eq!(count_tests(&lists), 6);
    assert_eq!(get_list_index(&lists, 0), (0, 0));
    assert_eq!(get_list_index(&lists, 1), (1, 0));
    assert_eq!(get_list_index(&lists, 2), (0, 1));
    assert_eq!(get_list_index(&lists, 4), (2, 1));
    assert_eq!(get_list_index(&lists, 5), (0, 2));
}

#[test]
fn locate_out_of_range_defaults_to_origin() {
    let lists = table(&[2, 3, 1]);
    assert_eq!(get_list_index(&lists, 6), (0, 0));
    assert_eq!(get_list_index(&lists, 1000), (0, 0));
}

#[test]
fn locate_results_reflatten_to_their_index() {
    let lists = table(&[2, 3, 1]);
    for index in 0..6usize {
        let (local, group) = get_list_index(&lists, index);
        let flattened: usize = lists[..group].iter().map(|g| g.len()).sum::<usize>() + local;
        assert_eq!(flattened, index);
        assert!(local < lists[group].len());
    }
}

#[test]
fn status_strings_round_trip() {
    let all = [
        Status::Starting,
        Status::Running,
        Status::Timeout,
        Status::Crashed,
        Status::MemLeaks,
        Status::SetupError,
        Status::Fail,
        Status::Pass { score: 7 },
        Status::Pass { score: 120 },
    ];
    for s in all {
        let text = status_to_string(&s);
        assert_eq!(status_from_string(text.as_str()), s);
    }
}

#[test]
fn status_strings_match_the_convention() {
    assert_eq!(status_to_string(&Status::Timeout), "TIMEOUT");
    assert_eq!(status_to_string(&Status::Crashed), "CRASHED");
    assert_eq!(status_to_string(&Status::MemLeaks), "MEMLEAKS");
    assert_eq!(status_to_string(&Status::SetupError), "ERROR");
    assert_eq!(status_to_string(&Status::Starting), "STARTING");
    assert_eq!(status_to_string(&Status::Running), "RUNNING");
    assert_eq!(status_to_string(&Status::Fail), "0");
    assert_eq!(status_to_string(&Status::Pass { score: 10 }), "10");
}

#[test]
fn stored_numerals_parse_as_scores() {
    assert_eq!(status_from_string("7"), Status::Pass { score: 7 });
    assert_eq!(status_from_string("007"), Status::Pass { score: 7 });
    assert_eq!(status_from_string("0"), Status::Fail);
    assert_eq!(status_from_string("00"), Status::Fail);
    // A pass worth zero points renders as "0" and reads back as a mismatch.
    assert_eq!(status_from_string(status_to_string(&Status::Pass { score: 0 }).as_str()),
        Status::Fail);
}

#[test]
fn unrecognized_status_text_counts_as_mismatch() {
    assert_eq!(status_from_string(""), Status::Fail);
    assert_eq!(status_from_string("DONE"), Status::Fail);
    assert_eq!(status_from_string("-3"), Status::Fail);
    assert_eq!(status_from_string("3.5"), Status::Fail);
    assert_eq!(status_from_string("99999999999999999999999999"), Status::Fail);
}

#[test]
fn score_extraction_is_derived_from_the_variant() {
    assert_eq!(score(&Status::Pass { score: 12 }), 12);
    assert_eq!(score(&Status::Fail), 0);
    assert_eq!(score(&Status::Timeout), 0);
    assert_eq!(score(&Status::MemLeaks), 0);
}

#[test]
fn failed_covers_every_error_and_the_mismatch() {
    assert!(failed(&Status::Fail));
    assert!(failed(&Status::Timeout));
    assert!(failed(&Status::Crashed));
    assert!(failed(&Status::MemLeaks));
    assert!(failed(&Status::SetupError));
    assert!(!failed(&Status::Starting));
    assert!(!failed(&Status::Running));
    assert!(!failed(&Status::Pass { score: 3 }));
}

#[test]
fn numerals_format_without_leading_zeros() {
    assert_eq!(usize_to_string(0), "0");
    assert_eq!(usize_to_string(7), "7");
    assert_eq!(usize_to_string(10), "10");
    assert_eq!(usize_to_string(12345), "12345");
}

#[test]
fn ids_are_zero_padded_to_two_digits() {
    assert_eq!(two_digit_string(0), "00");
    assert_eq!(two_digit_string(9), "09");
    assert_eq!(two_digit_string(10), "10");
    assert_eq!(two_digit_string(123), "123");
}

#[test]
fn numeral_parsing_rejects_non_numerals() {
    assert_eq!(parse_usize("42"), Some(42));
    assert_eq!(parse_usize("0"), Some(0));
    assert_eq!(parse_usize(""), None);
    assert_eq!(parse_usize("4x2"), None);
    assert_eq!(parse_usize(" 42"), None);
    assert_eq!(parse_usize("184467440737095516160"), None);
}

#[test]
fn tally_counts_one_marker_per_line() {
    let report = "src/a.c:1: CHECK something\nnothing here\nsrc/a.c:2: WARNING style\nsrc/a.c:3: ERROR bad\nsrc/a.c:4: ERROR worse\n";
    let t = tally_text(report);
    assert_eq!(t, ErrorTally { check: 1, warning: 1, error: 2 });
}

#[test]
fn tally_precedence_check_wins_over_warning_and_error() {
    let t = tally_text("CHECK with WARNING and ERROR on one line\n");
    assert_eq!(t, ErrorTally { check: 1, warning: 0, error: 0 });
    let t = tally_text("WARNING with ERROR\n");
    assert_eq!(t, ErrorTally { check: 0, warning: 1, error: 0 });
}

#[test]
fn tally_of_clean_report_is_zero() {
    let t = tally_text("all fine\nno problems at all\n");
    assert_eq!(t, ErrorTally { check: 0, warning: 0, error: 0 });
    let t = tally_text("");
    assert_eq!(t, ErrorTally { check: 0, warning: 0, error: 0 });
}

#[test]
fn substring_search_finds_inner_matches() {
    let hay = chars_of("abcWARNINGdef");
    assert!(contains_chars(&hay, &chars_of("WARNING")));
    assert!(contains_chars(&hay, &chars_of("abc")));
    assert!(contains_chars(&hay, &chars_of("")));
    assert!(!contains_chars(&hay, &chars_of("WARNINGS")));
    assert!(!contains_chars(&chars_of("ab"), &chars_of("abc")));
}

#[test]
fn lines_split_on_newlines_without_trailing_empty() {
    let lines = split_lines(&chars_of("a\nbb\n\nc"));
    let texts: Vec<String> = lines.iter().map(|l| l.iter().collect()).collect();
    assert_eq!(texts, vec!["a".to_string(), "bb".to_string(), "".to_string(), "c".to_string()]);
    let lines = split_lines(&chars_of("a\n"));
    assert_eq!(lines.len(), 1);
    assert!(split_lines(&chars_of("")).is_empty());
}
