use batchalign_core::bug_reports::{
    bug_report_not_found, bug_report_path, invalid_bug_report, is_report_file, newest_first_order, newest_reports,
};
use batchalign_core::error::ServerError;

#[test]
fn reports_are_json_files() {
    assert!(is_report_file("/reports/2024-01-01-align.json"));
    assert!(!is_report_file("/reports/notes.txt"));
    assert!(!is_report_file("/reports/.json"));
    assert!(!is_report_file("/reports/README"));
}

#[test]
fn newest_first_is_stable_among_equal_times() {
    assert_eq!(newest_first_order(&vec![10, 30, 20, 30, 10]), vec![1, 3, 2, 0, 4]);
    assert_eq!(newest_first_order(&vec![]), Vec::<usize>::new());
}

#[test]
fn listing_keeps_newest_reports_up_to_limit() {
    let entries = vec![
        (100, "/r/a.json".to_string()),
        (300, "/r/b.txt".to_string()),
        (200, "/r/c.json".to_string()),
        (200, "/r/d.json".to_string()),
        (50, "/r/e.json".to_string()),
    ];
    assert_eq!(
        newest_reports(&entries, 3),
        vec!["/r/c.json".to_string(), "/r/d.json".to_string(), "/r/a.json".to_string()]
    );
    assert_eq!(newest_reports(&entries, 50).len(), 4);
    assert!(newest_reports(&entries, 0).is_empty());
}

#[test]
fn report_lookup_path_and_errors() {
    assert_eq!(bug_report_path("/r", "abc"), "/r/abc.json");
    assert_eq!(bug_report_not_found("abc"), ServerError::FileNotFound("Bug report abc not found".to_string()));
    assert_eq!(invalid_bug_report("EOF"), ServerError::Validation("Invalid bug report JSON: EOF".to_string()));
}
