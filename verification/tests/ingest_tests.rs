use reddit_ingest::db_comments::DBRedditComment;
use reddit_ingest::db_submission::DBRedditSubmission;
use reddit_ingest::db_submission_small::DBRedditSubmissionSmall;
use reddit_ingest::engine::MemTable;
use reddit_ingest::ingest::{
    classify_file, com_consume_line, consume_file_lines, ingest_submission, sub_consume_line,
    FileKind,
};
use reddit_ingest::progress::{FileProgress, TotalProgress};
use reddit_ingest::raw_submission::RedditSubmission;
use reddit_ingest::route::{route_submission, AllowList, SubmissionRoute};

fn submission_line(subreddit: &str, id: &str) -> String {
    format!(
        "{{\"author\":\"alice\",\"created_utc\":1301000000,\"edited\":false,\"id\":\"{}\",\"is_self\":true,\"media\":null,\"media_embed\":{{}},\"num_comments\":5,\"over_18\":false,\"permalink\":\"/r/test/{}\",\"retrieved_on\":1427552178,\"score\":42,\"selftext\":\"hello\",\"subreddit\":\"{}\",\"title\":\"A title\",\"url\":\"http://example.com\"}}",
        id, id, subreddit
    )
}

fn comment_line(subreddit: &str, id: &str) -> String {
    format!(
        "{{\"author\":\"bob\",\"body\":\"text\",\"created_utc\":1334567890,\"edited\":false,\"gilded\":0,\"id\":\"{}\",\"link_id\":\"t3_abc\",\"parent_id\":\"t1_xyz\",\"retrieved_on\":1427552178,\"score\":7,\"subreddit\":\"{}\",\"subreddit_id\":\"t5_x\"}}",
        id, subreddit
    )
}

fn allow(names: &[&str]) -> AllowList {
    let owned: Vec<String> = names.iter().map(|s| s.to_string()).collect();
    AllowList::new(&owned)
}

#[test]
fn classifies_files_by_the_marker() {
    assert_eq!(classify_file("dumps/RS_2011-01.zst"), FileKind::Submission);
    assert_eq!(classify_file("dumps/RC_2011-01.zst"), FileKind::Comment);
    assert_eq!(classify_file("whatever"), FileKind::Comment);
}

#[test]
fn routing_is_case_insensitive_membership() {
    let list = allow(&["AskReddit", "rust"]);
    assert_eq!(route_submission("ASKREDDIT", &list, false), SubmissionRoute::FullTable);
    assert_eq!(route_submission("askreddit", &list, true), SubmissionRoute::FullTable);
    assert_eq!(route_submission("pics", &list, true), SubmissionRoute::SummaryTable);
    assert_eq!(route_submission("pics", &list, false), SubmissionRoute::Nowhere);
}

#[test]
fn allow_listed_submission_lands_in_the_full_table_only() {
    let list = allow(&["AskReddit"]);
    let rec = RedditSubmission::decode(&submission_line("askREDDIT", "s1")).unwrap();
    let mut subs: MemTable<DBRedditSubmission> = MemTable::new();
    let mut sums: MemTable<DBRedditSubmissionSmall> = MemTable::new();
    ingest_submission(&rec, &list, true, &mut subs, &mut sums);
    assert_eq!(subs.row_count(), 1);
    assert_eq!(sums.row_count(), 0);
}

#[test]
fn outside_submission_lands_in_the_summary_table_when_toggled() {
    let list = allow(&["AskReddit"]);
    let rec = RedditSubmission::decode(&submission_line("pics", "s2")).unwrap();
    let mut subs: MemTable<DBRedditSubmission> = MemTable::new();
    let mut sums: MemTable<DBRedditSubmissionSmall> = MemTable::new();
    ingest_submission(&rec, &list, true, &mut subs, &mut sums);
    assert_eq!(subs.row_count(), 0);
    assert_eq!(sums.row_count(), 1);
    assert_eq!(sums.get("s2").unwrap().subreddit, "pics");
}

#[test]
fn outside_submission_goes_nowhere_with_the_toggle_off() {
    let list = allow(&["AskReddit"]);
    let rec = RedditSubmission::decode(&submission_line("pics", "s3")).unwrap();
    let mut subs: MemTable<DBRedditSubmission> = MemTable::new();
    let mut sums: MemTable<DBRedditSubmissionSmall> = MemTable::new();
    ingest_submission(&rec, &list, false, &mut subs, &mut sums);
    assert_eq!(subs.row_count(), 0);
    assert_eq!(sums.row_count(), 0);
}

#[test]
fn nul_padded_lines_decode() {
    let list = allow(&["test"]);
    let padded = format!("\0\0{}", submission_line("test", "s4"));
    let mut subs: MemTable<DBRedditSubmission> = MemTable::new();
    let mut sums: MemTable<DBRedditSubmissionSmall> = MemTable::new();
    assert!(sub_consume_line(&padded, &list, false, &mut subs, &mut sums).is_ok());
    assert_eq!(subs.row_count(), 1);
}

#[test]
fn comment_lines_route_by_membership() {
    let list = allow(&["rust"]);
    let mut coms: MemTable<DBRedditComment> = MemTable::new();
    assert!(com_consume_line(&comment_line("RUST", "c1"), &list, &mut coms).is_ok());
    assert!(com_consume_line(&comment_line("pics", "c2"), &list, &mut coms).is_ok());
    assert_eq!(coms.row_count(), 1);
    assert!(coms.contains_key("c1"));
}

// A compressed file of two lines, the first a valid allow-listed
// submission, the second malformed JSON: exactly one row lands, and the
// run stops with a fault naming the second line.
#[test]
fn file_with_a_malformed_second_line_stops_after_one_row() {
    let list = allow(&["test"]);
    let lines = vec![submission_line("test", "s1"), "{broken".to_string()];
    let mut progress = TotalProgress::new(10);
    let mut subs: MemTable<DBRedditSubmission> = MemTable::new();
    let mut sums: MemTable<DBRedditSubmissionSmall> = MemTable::new();
    let mut coms: MemTable<DBRedditComment> = MemTable::new();
    let r = consume_file_lines(
        &mut progress,
        "RS_2011-01.zst",
        &lines,
        &list,
        false,
        &mut subs,
        &mut sums,
        &mut coms,
    );
    let fault = r.err().unwrap();
    assert_eq!(fault.index, 1, "the fault names the second line");
    assert_eq!(subs.row_count(), 1, "exactly one row was inserted");
    assert_eq!(progress.total_lines_file("RS_2011-01.zst"), 1);
    assert!(!progress.is_file_done("RS_2011-01.zst"));
}

// A checkpoint of five consumed lines on a ten-line file: the rerun
// processes only lines six through ten and then marks the file done.
#[test]
fn resume_processes_only_the_remaining_lines() {
    let fname = "RS_2012-05.zst";
    let mut entry = FileProgress::new(fname);
    entry.total_lines = 5;
    let mut progress = TotalProgress::from_parts(vec![entry], 100).unwrap();
    let lines: Vec<String> = (1..=10).map(|i| submission_line("test", &format!("id{}", i))).collect();
    let list = allow(&["test"]);
    let mut subs: MemTable<DBRedditSubmission> = MemTable::new();
    let mut sums: MemTable<DBRedditSubmissionSmall> = MemTable::new();
    let mut coms: MemTable<DBRedditComment> = MemTable::new();
    let r = consume_file_lines(
        &mut progress,
        fname,
        &lines,
        &list,
        false,
        &mut subs,
        &mut sums,
        &mut coms,
    );
    assert_eq!(r.ok().unwrap(), 5, "exactly lines 6..10 were processed");
    assert_eq!(subs.row_count(), 5);
    for i in 6..=10 {
        assert!(subs.contains_key(&format!("id{}", i)));
    }
    for i in 1..=5 {
        assert!(!subs.contains_key(&format!("id{}", i)), "line {} stays skipped", i);
    }
    assert_eq!(progress.total_lines_file(fname), 10);
    assert!(progress.is_file_done(fname));
}

// Rerunning a file against a store that already holds its rows adds
// nothing: the checkpoint skips what was consumed, and the idempotent
// insert absorbs any overlap.
#[test]
fn rerun_after_a_crash_adds_no_rows() {
    let fname = "RS_2013-01.zst";
    let lines: Vec<String> = (1..=4).map(|i| submission_line("test", &format!("r{}", i))).collect();
    let list = allow(&["test"]);
    let mut subs: MemTable<DBRedditSubmission> = MemTable::new();
    let mut sums: MemTable<DBRedditSubmissionSmall> = MemTable::new();
    let mut coms: MemTable<DBRedditComment> = MemTable::new();

    // First run inserted everything, but the crash lost the last
    // checkpoint flushes: the persisted store will say only two lines
    // were consumed.
    let full_run = consume_file_lines(
        &mut TotalProgress::new(100),
        fname,
        &lines,
        &list,
        false,
        &mut subs,
        &mut sums,
        &mut coms,
    );
    assert_eq!(full_run.ok().unwrap(), 4);
    assert_eq!(subs.row_count(), 4);

    let mut stale = FileProgress::new(fname);
    stale.total_lines = 2;
    let mut progress2 = TotalProgress::from_parts(vec![stale], 100).unwrap();
    let rerun = consume_file_lines(
        &mut progress2,
        fname,
        &lines,
        &list,
        false,
        &mut subs,
        &mut sums,
        &mut coms,
    );
    assert_eq!(rerun.ok().unwrap(), 2, "only the unconsumed tail is reprocessed");
    assert_eq!(subs.row_count(), 4, "reprocessed lines add no rows");
    assert!(progress2.is_file_done(fname));
}

#[test]
fn a_finished_file_is_not_touched_again() {
    let fname = "RS_done.zst";
    let mut entry = FileProgress::new(fname);
    entry.total_lines = 3;
    entry.is_done = true;
    let mut progress = TotalProgress::from_parts(vec![entry], 100).unwrap();
    let lines = vec![submission_line("test", "x1")];
    let list = allow(&["test"]);
    let mut subs: MemTable<DBRedditSubmission> = MemTable::new();
    let mut sums: MemTable<DBRedditSubmissionSmall> = MemTable::new();
    let mut coms: MemTable<DBRedditComment> = MemTable::new();
    let r = consume_file_lines(
        &mut progress,
        fname,
        &lines,
        &list,
        false,
        &mut subs,
        &mut sums,
        &mut coms,
    );
    assert_eq!(r.ok().unwrap(), 0);
    assert_eq!(subs.row_count(), 0);
    assert_eq!(progress.total_lines_file(fname), 3);
}

#[test]
fn comment_files_fill_the_comment_table() {
    let fname = "RC_2011-01.zst";
    let lines = vec![comment_line("rust", "cc1"), comment_line("pics", "cc2")];
    let list = allow(&["rust"]);
    let mut progress = TotalProgress::new(100);
    let mut subs: MemTable<DBRedditSubmission> = MemTable::new();
    let mut sums: MemTable<DBRedditSubmissionSmall> = MemTable::new();
    let mut coms: MemTable<DBRedditComment> = MemTable::new();
    let r = consume_file_lines(
        &mut progress,
        fname,
        &lines,
        &list,
        true,
        &mut subs,
        &mut sums,
        &mut coms,
    );
    assert_eq!(r.ok().unwrap(), 2);
    assert_eq!(coms.row_count(), 1);
    assert_eq!(subs.row_count(), 0);
    assert_eq!(sums.row_count(), 0);
    assert!(progress.is_file_done(fname));
}
