use reddit_ingest::db_comments::DBRedditComment;
use reddit_ingest::db_submission::DBRedditSubmission;
use reddit_ingest::db_submission_small::DBRedditSubmissionSmall;
use reddit_ingest::decode::DecodeError;
use reddit_ingest::raw_comment::RedditComment;
use reddit_ingest::raw_submission::RedditSubmission;

fn submission_line(subreddit: &str, id: &str, created: &str, edited: &str, retrieved: &str) -> String {
    format!(
        "{{\"author\":\"alice\",\"created_utc\":{},\"edited\":{},\"id\":\"{}\",\"is_self\":true,\"media\":null,\"media_embed\":{{}},\"num_comments\":5,\"over_18\":false,\"permalink\":\"/r/test/{}\",\"retrieved_on\":{},\"score\":42,\"selftext\":\"hello\",\"subreddit\":\"{}\",\"title\":\"A title\",\"url\":\"http://example.com\"}}",
        created, edited, id, id, retrieved, subreddit
    )
}

fn comment_line(subreddit: &str, id: &str, parent: &str) -> String {
    format!(
        "{{\"author\":\"bob\",\"body\":\"text\",\"created_utc\":\"1334567890\",\"edited\":false,\"gilded\":0,\"id\":\"{}\",\"link_id\":\"t3_abc\",{}\"retrieved_on\":1427552178,\"score\":7,\"subreddit\":\"{}\",\"subreddit_id\":\"t5_x\"}}",
        id, parent, subreddit
    )
}

#[test]
fn decodes_a_full_submission() {
    let line = submission_line("AskReddit", "abc12", "1301000000", "false", "\"1427552178\"");
    let rec = RedditSubmission::decode(&line).unwrap();
    assert_eq!(rec.author, "alice");
    assert_eq!(rec.id, "abc12");
    assert_eq!(rec.subreddit, "AskReddit");
    assert_eq!(rec.num_comments, 5);
    assert_eq!(rec.score, 42);
    assert!(rec.is_self);
    let row = DBRedditSubmission::from(&rec);
    assert_eq!(row.created_utc, 1301000000);
    assert_eq!(row.edited, 0, "boolean timestamp encoding normalizes to epoch zero");
    assert_eq!(row.retrieved_on, 1427552178, "numeric-string timestamp parses");
    assert_eq!(row.domain, "", "missing domain defaults to empty");
    assert!(!row.stickied, "missing stickied defaults to false");
}

#[test]
fn float_timestamps_reduce_to_whole_seconds() {
    let line = submission_line("a", "id1", "1301000000.75", "1234.5", "256.0");
    let rec = RedditSubmission::decode(&line).unwrap();
    let row = DBRedditSubmission::from(&rec);
    assert_eq!(row.created_utc, 1301000000);
    assert_eq!(row.edited, 1234);
    assert_eq!(row.retrieved_on, 256);
}

#[test]
fn unparseable_numeric_string_defaults_to_epoch_zero() {
    let line = submission_line("a", "id1", "\"not-a-number\"", "0", "1");
    let rec = RedditSubmission::decode(&line).unwrap();
    let row = DBRedditSubmission::from(&rec);
    assert_eq!(row.created_utc, 0);
}

#[test]
fn summary_row_reduces_the_record() {
    let line = submission_line("AskReddit", "abc12", "1301000000", "false", "1");
    let rec = RedditSubmission::decode(&line).unwrap();
    let small = DBRedditSubmissionSmall::from(&rec);
    assert_eq!(small.author, "alice");
    assert_eq!(small.created_utc, 1301000000);
    assert_eq!(small.id, "abc12");
    assert_eq!(small.subreddit, "AskReddit");
}

#[test]
fn unknown_field_is_rejected() {
    let line = submission_line("a", "id1", "0", "0", "1").replace("\"author\"", "\"flurb\"");
    match RedditSubmission::decode(&line) {
        Err(DecodeError::UnknownField { name }) => assert_eq!(name, "flurb"),
        other => panic!("expected an unknown-field error, got {:?}", other.is_ok()),
    }
}

#[test]
fn missing_required_field_is_rejected() {
    // Drop the author field entirely.
    let line = submission_line("a", "id1", "0", "0", "1").replace("\"author\":\"alice\",", "");
    match RedditSubmission::decode(&line) {
        Err(DecodeError::MissingField { name }) => assert_eq!(name, "author"),
        other => panic!("expected a missing-field error, got {:?}", other.is_ok()),
    }
}

#[test]
fn wrong_field_shape_is_rejected() {
    let line = submission_line("a", "id1", "0", "0", "1").replace("\"score\":42", "\"score\":\"42\"");
    match RedditSubmission::decode(&line) {
        Err(DecodeError::WrongType { name }) => assert_eq!(name, "score"),
        other => panic!("expected a wrong-type error, got {:?}", other.is_ok()),
    }
}

#[test]
fn out_of_range_counter_is_rejected() {
    let line = submission_line("a", "id1", "0", "0", "1")
        .replace("\"num_comments\":5", "\"num_comments\":3000000000");
    assert!(matches!(
        RedditSubmission::decode(&line),
        Err(DecodeError::WrongType { .. })
    ));
}

#[test]
fn non_object_line_is_rejected() {
    assert!(matches!(RedditSubmission::decode("[1,2]"), Err(DecodeError::NotObject)));
}

#[test]
fn malformed_json_reports_its_position() {
    match RedditSubmission::decode("{\"author\": oops") {
        Err(DecodeError::Syntax { line, column, message }) => {
            assert_eq!(line, 1);
            assert!(column > 0);
            assert!(!message.is_empty());
        },
        other => panic!("expected a syntax error, got {:?}", other.is_ok()),
    }
}

#[test]
fn decodes_a_comment_with_string_parent() {
    let line = comment_line("AskReddit", "c1", "\"parent_id\":\"t1_xyz\",");
    let rec = RedditComment::decode(&line).unwrap();
    let row = DBRedditComment::from(&rec);
    assert_eq!(row.author, "bob");
    assert_eq!(row.parent_id, "t1_xyz");
    assert_eq!(row.created_utc, 1334567890, "numeric-string timestamp parses");
    assert_eq!(row.edited, 0, "boolean encoding normalizes to epoch zero");
    assert_eq!(row.retrieved_on, 1427552178, "integer timestamp passes through");
    assert_eq!(row.score, 7);
}

#[test]
fn legacy_integer_parent_becomes_a_placeholder() {
    let line = comment_line("a", "c2", "\"parent_id\":42,");
    let rec = RedditComment::decode(&line).unwrap();
    let row = DBRedditComment::from(&rec);
    assert_eq!(row.parent_id, "unknown-42");

    let negative = comment_line("a", "c3", "\"parent_id\":-7,");
    let rec2 = RedditComment::decode(&negative).unwrap();
    assert_eq!(DBRedditComment::from(&rec2).parent_id, "unknown--7");
}

#[test]
fn absent_parent_normalizes_to_empty() {
    let line = comment_line("a", "c4", "");
    let rec = RedditComment::decode(&line).unwrap();
    assert_eq!(DBRedditComment::from(&rec).parent_id, "");

    let null_parent = comment_line("a", "c5", "\"parent_id\":null,");
    let rec2 = RedditComment::decode(&null_parent).unwrap();
    assert_eq!(DBRedditComment::from(&rec2).parent_id, "");
}

#[test]
fn comment_rejects_unknown_fields_too() {
    let line = comment_line("a", "c6", "\"zzzz\":1,");
    match RedditComment::decode(&line) {
        Err(DecodeError::UnknownField { name }) => assert_eq!(name, "zzzz"),
        other => panic!("expected an unknown-field error, got {:?}", other.is_ok()),
    }
}

#[test]
fn optional_fields_may_be_null_or_absent() {
    let line = submission_line("a", "id9", "0", "0", "1")
        .replace("\"is_self\":true", "\"is_self\":true,\"domain\":null,\"stickied\":null");
    let rec = RedditSubmission::decode(&line).unwrap();
    assert!(rec.domain.is_none());
    assert!(rec.stickied.is_none());
}
