use reddit_ingest::decode::DecodeError;
use reddit_ingest::diagnostics::{
    debug_comment, debug_submission, error_report, locate_field_line, render_report, split_text,
};

#[test]
fn splits_text_into_lines() {
    let lines = split_text("a\nbb\n\nccc");
    assert_eq!(lines, vec!["a", "bb", "", "ccc"]);
    assert_eq!(split_text(""), Vec::<String>::new());
    assert_eq!(split_text("one"), vec!["one"]);
    assert_eq!(split_text("one\n"), vec!["one"]);
}

#[test]
fn report_windows_three_lines_each_side() {
    let lines: Vec<String> = (1..=10).map(|i| format!("line{}", i)).collect();
    let report = render_report(&lines, 5);
    assert_eq!(
        report,
        vec![
            "-2: line2",
            "-3: line3",
            "-4: line4",
            ">5: line5",
            "+6: line6",
            "+7: line7",
            "+8: line8",
        ]
    );
}

#[test]
fn report_clips_at_the_edges() {
    let lines: Vec<String> = (1..=3).map(|i| format!("l{}", i)).collect();
    let report = render_report(&lines, 1);
    assert_eq!(report, vec![">1: l1", "+2: l2", "+3: l3"]);
}

#[test]
fn finds_the_line_holding_a_field() {
    let lines = split_text("{\n  \"author\": 5,\n  \"body\": \"x\"\n}");
    assert_eq!(locate_field_line(&lines, "\"author\""), Some(2));
    assert_eq!(locate_field_line(&lines, "\"missing\""), None);
}

#[test]
fn submission_report_points_at_the_bad_field() {
    // Valid JSON, but the score is a string: the report must carry the
    // error marker on the line that shows the field.
    let line = "{\"author\":\"alice\",\"created_utc\":1,\"edited\":false,\"id\":\"abc\",\"is_self\":true,\"media\":null,\"media_embed\":{},\"num_comments\":5,\"over_18\":false,\"permalink\":\"/p\",\"retrieved_on\":1,\"score\":\"bad\",\"selftext\":\"s\",\"subreddit\":\"t\",\"title\":\"t\",\"url\":\"u\"}";
    let report = debug_submission(line);
    assert!(!report.is_empty());
    let marked: Vec<&String> = report.iter().filter(|l| l.starts_with('>')).collect();
    assert_eq!(marked.len(), 1);
    assert!(marked[0].contains("\"score\""));
}

#[test]
fn error_report_centers_on_the_named_field() {
    let pretty = "{\n  \"author\": \"a\",\n  \"body\": \"b\",\n  \"score\": \"bad\"\n}";
    let err = DecodeError::WrongType { name: "score".to_string() };
    let report = error_report(pretty, &err);
    assert_eq!(
        report,
        vec!["-1: {", "-2:   \"author\": \"a\",", "-3:   \"body\": \"b\",", ">4:   \"score\": \"bad\"", "+5: }"]
    );

    let syntax = DecodeError::Syntax { line: 2, column: 3, message: "bad".to_string() };
    let report2 = error_report("a\nb\nc", &syntax);
    assert_eq!(report2, vec!["-1: a", ">2: b", "+3: c"]);
}

#[test]
fn clean_lines_yield_no_report() {
    let line = "{\"author\":\"alice\",\"created_utc\":1,\"edited\":false,\"id\":\"abc\",\"is_self\":true,\"media\":null,\"media_embed\":{},\"num_comments\":5,\"over_18\":false,\"permalink\":\"/p\",\"retrieved_on\":1,\"score\":9,\"selftext\":\"s\",\"subreddit\":\"t\",\"title\":\"t\",\"url\":\"u\"}";
    assert_eq!(debug_submission(line), Vec::<String>::new());
}

#[test]
fn comment_report_mentions_invalid_json() {
    let report = debug_comment("not json at all");
    assert_eq!(report.len(), 1);
    assert!(report[0].contains("not valid JSON"));
}
