use reddit_ingest::db_comments::DBRedditComment;
use reddit_ingest::engine::{insert_record, InsertStrategy, MemTable};

#[test]
fn ignore_duplicates_is_idempotent() {
    let mut table: MemTable<u64> = MemTable::new();
    table.insert("k1".to_string(), 10, InsertStrategy::InsertIgnore);
    table.insert("k1".to_string(), 20, InsertStrategy::InsertIgnore);
    assert_eq!(table.row_count(), 1, "the same key twice yields exactly one row");
    assert_eq!(table.get("k1"), Some(&10), "the first record stays");
}

#[test]
fn upsert_reflects_the_second_record() {
    let mut table: MemTable<u64> = MemTable::new();
    table.insert("k1".to_string(), 10, InsertStrategy::InsertUpdate);
    table.insert("k1".to_string(), 20, InsertStrategy::InsertUpdate);
    assert_eq!(table.row_count(), 1, "the same key twice yields exactly one row");
    assert_eq!(table.get("k1"), Some(&20), "the second record's fields win");
}

#[test]
fn distinct_keys_accumulate() {
    let mut table: MemTable<u64> = MemTable::new();
    table.insert("a".to_string(), 1, InsertStrategy::InsertIgnore);
    table.insert("b".to_string(), 2, InsertStrategy::InsertIgnore);
    assert_eq!(table.row_count(), 2);
    assert_eq!(table.get("a"), Some(&1));
    assert_eq!(table.get("b"), Some(&2));
    assert_eq!(table.get("c"), None);
    assert!(table.contains_key("a"));
    assert!(!table.contains_key("c"));
}

#[test]
fn upsert_with_skip_is_a_configuration_error() {
    let mut table: MemTable<u64> = MemTable::new();
    let r = insert_record(&mut table, "k".to_string(), 1, InsertStrategy::InsertUpdate, true);
    assert!(r.is_err());
    assert_eq!(table.row_count(), 0, "a rejected insert changes nothing");
}

fn comment_row(id: &str, score: i64) -> DBRedditComment {
    DBRedditComment {
        author: "a".to_string(),
        body: "b".to_string(),
        created_utc: 0,
        edited: 0,
        id: id.to_string(),
        link_id: "l".to_string(),
        parent_id: String::new(),
        permalink: String::new(),
        retrieved_on: 0,
        score,
        subreddit: "s".to_string(),
    }
}

#[test]
fn comment_table_refuses_an_upsert() {
    let mut table: MemTable<DBRedditComment> = MemTable::new();
    let refused = DBRedditComment::insert_row(
        &mut table,
        "c1".to_string(),
        comment_row("c1", 1),
        InsertStrategy::InsertUpdate,
        false,
    );
    assert!(refused.is_err());
    assert_eq!(table.row_count(), 0, "a refused upsert changes nothing");

    let accepted = DBRedditComment::insert_row(
        &mut table,
        "c1".to_string(),
        comment_row("c1", 1),
        InsertStrategy::InsertIgnore,
        true,
    );
    assert!(accepted.is_ok());
    assert_eq!(table.row_count(), 1);
}

#[test]
fn skip_if_exists_returns_early_on_a_hit() {
    let mut table: MemTable<u64> = MemTable::new();
    table.insert("k".to_string(), 1, InsertStrategy::InsertIgnore);
    let r = insert_record(&mut table, "k".to_string(), 9, InsertStrategy::InsertIgnore, true);
    assert!(r.is_ok());
    assert_eq!(table.get("k"), Some(&1));
    let r2 = insert_record(&mut table, "k2".to_string(), 9, InsertStrategy::InsertIgnore, true);
    assert!(r2.is_ok());
    assert_eq!(table.get("k2"), Some(&9));
}
