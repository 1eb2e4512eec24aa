use reddit_ingest::progress::{FileProgress, TotalProgress};

#[test]
fn registers_files_once() {
    let mut p = TotalProgress::new(100);
    p.add_file("a.zst");
    p.add_file("a.zst");
    assert_eq!(p.entries().len(), 1);
    assert_eq!(p.total_lines_file("a.zst"), 0);
    assert!(!p.is_file_done("a.zst"));
}

#[test]
fn flushes_on_every_nth_line() {
    let mut p = TotalProgress::new(2);
    p.add_file("f");
    assert!(!p.update_file("f", "aa"), "line 1 of 2 is no flush point");
    assert!(p.update_file("f", "bbb"), "line 2 of 2 is a flush point");
    assert!(!p.update_file("f", "c"));
    assert!(p.update_file("f", "dd"));
    assert_eq!(p.total_lines_file("f"), 4);
}

#[test]
fn counts_bytes_read() {
    let mut p = TotalProgress::new(10);
    p.add_file("f");
    p.update_file("f", "aa");
    p.update_file("f", "bbb");
    let entry = &p.entries()[0];
    assert_eq!(entry.1.total_read, 5);
    assert_eq!(entry.1.total_lines, 2);
}

#[test]
fn finishing_keeps_the_counters() {
    let mut p = TotalProgress::new(3);
    p.add_file("f");
    p.update_file("f", "x");
    p.finish_file("f");
    assert!(p.is_file_done("f"));
    assert_eq!(p.total_lines_file("f"), 1);
}

#[test]
fn rebuilds_from_persisted_entries() {
    let mut early = FileProgress::new("f");
    early.total_lines = 2;
    let mut late = FileProgress::new("f");
    late.total_lines = 5;
    let other = FileProgress::new("g");
    let p = TotalProgress::from_parts(vec![early, other, late], 7).unwrap();
    assert_eq!(p.total_lines_file("f"), 5, "a later entry for the same file wins");
    assert_eq!(p.total_lines_file("g"), 0);
    assert_eq!(p.frequency(), 7);
    assert_eq!(p.entries().len(), 2);
}

#[test]
fn reporting_ticks_fall_on_the_cadence() {
    assert!(!TotalProgress::report_due(1, 3));
    assert!(!TotalProgress::report_due(2, 3));
    assert!(TotalProgress::report_due(3, 3));
    assert!(TotalProgress::report_due(6, 3));
    assert!(TotalProgress::report_due(5, 1));
}

#[test]
fn a_zero_cadence_is_rejected() {
    assert!(TotalProgress::from_parts(Vec::new(), 0).is_none());
}
