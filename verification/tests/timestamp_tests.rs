use reddit_ingest::cfg::{Config, DatabaseConfig, Ingestion, Parser};
use reddit_ingest::raw_comment::ParentId;
use reddit_ingest::raw_object::AnyTimestamp;

// One case per timestamp encoding: the normalized UTC instant in epoch
// seconds must match, and the boolean encoding is epoch zero.
#[test]
fn every_timestamp_encoding_normalizes() {
    assert_eq!(AnyTimestamp::Integer(1234567890).epoch_seconds(), 1234567890);
    assert_eq!(AnyTimestamp::Integer(-5).epoch_seconds(), -5);
    assert_eq!(AnyTimestamp::Text("1334567890".to_string()).epoch_seconds(), 1334567890);
    assert_eq!(AnyTimestamp::Text("junk".to_string()).epoch_seconds(), 0);
    assert_eq!(AnyTimestamp::Text("".to_string()).epoch_seconds(), 0);
    assert_eq!(AnyTimestamp::FloatSecs(1301000000).epoch_seconds(), 1301000000);
    assert_eq!(AnyTimestamp::Flag(false).epoch_seconds(), 0);
    assert_eq!(AnyTimestamp::Flag(true).epoch_seconds(), 0);
}

#[test]
fn parent_references_normalize() {
    assert_eq!(ParentId::Text("t1_abc".to_string()).normalized(), "t1_abc");
    assert_eq!(ParentId::Int(12345).normalized(), "unknown-12345");
    assert_eq!(ParentId::Int(0).normalized(), "unknown-0");
    assert_eq!(ParentId::Int(-3).normalized(), "unknown--3");
}

fn config(log_frequency: u64, workers: u64, qsize: u64, qdone: u64) -> Config {
    Config {
        target_folder: "/data".to_string(),
        log_frequency,
        subreddit_list: vec!["AskReddit".to_string()],
        log_file: "run.log".to_string(),
        database: DatabaseConfig {
            host: "localhost".to_string(),
            port: 5432,
            user: "ingest".to_string(),
            password: "pw".to_string(),
            database: "archive".to_string(),
        },
        ingestion: Ingestion { push_summarized_db: false, qsize_jobs_done: qdone },
        parser: Parser { num_workers: workers, qsize_to_parse: qsize },
    }
}

#[test]
fn configuration_counts_must_be_positive() {
    assert!(config(100, 4, 64, 8).usable());
    assert!(!config(0, 4, 64, 8).usable());
    assert!(!config(100, 0, 64, 8).usable());
    assert!(!config(100, 4, 0, 8).usable());
    assert!(!config(100, 4, 64, 0).usable());
}
