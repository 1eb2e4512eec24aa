use reddit_ingest::db_comments::DBRedditComment;
use reddit_ingest::db_object::DBTable;
use reddit_ingest::db_submission::DBRedditSubmission;
use reddit_ingest::db_submission_small::DBRedditSubmissionSmall;
use reddit_ingest::engine::InsertStrategy;
use reddit_ingest::schema::{create_table_sql, diff_schema, SchemaFinding};

fn cols(pairs: &[(&str, &str)]) -> Vec<(String, String)> {
    pairs.iter().map(|(n, t)| (n.to_string(), t.to_string())).collect()
}

#[test]
fn drift_yields_exactly_the_two_findings() {
    let expected = vec![("foo", "text"), ("score", "bigint"), ("id", "text")];
    let live = cols(&[("score", "text"), ("id", "text")]);
    let findings = diff_schema(&live, &expected);
    assert_eq!(findings.len(), 2);
    match &findings[0] {
        SchemaFinding::TypeMismatch { column, live_type, expected_type } => {
            assert_eq!(column, "score");
            assert_eq!(live_type, "text");
            assert_eq!(expected_type, "bigint");
        },
        _ => panic!("expected the type mismatch first"),
    }
    match &findings[1] {
        SchemaFinding::MissingColumn { column } => assert_eq!(column, "foo"),
        _ => panic!("expected the missing column second"),
    }
}

#[test]
fn matching_schemas_yield_no_findings() {
    let expected = DBRedditSubmissionSmall::sql_types();
    let live = cols(&[
        ("author", "text"),
        ("created_utc", "timestamp with time zone"),
        ("id", "text"),
        ("subreddit", "text"),
    ]);
    assert_eq!(diff_schema(&live, &expected).len(), 0);
}

#[test]
fn an_extra_live_column_is_reported() {
    let expected = vec![("id", "text")];
    let live = cols(&[("id", "text"), ("leftover", "text")]);
    let findings = diff_schema(&live, &expected);
    assert_eq!(findings.len(), 1);
    assert!(matches!(&findings[0], SchemaFinding::UnexpectedColumn { column } if column == "leftover"));
}

#[test]
fn creation_statement_is_exact() {
    let sql = create_table_sql("submissions_small", &DBRedditSubmissionSmall::sql_types());
    assert_eq!(
        sql,
        "CREATE TABLE submissions_small (author text, created_utc timestamp with time zone, id text, subreddit text);"
    );
}

#[test]
fn table_names_and_post_create_statements() {
    assert_eq!(DBRedditSubmission::table_name(), "submissions");
    assert_eq!(DBRedditComment::table_name(), "comments");
    assert_eq!(DBRedditSubmissionSmall::table_name(), "submissions_small");
    assert_eq!(
        DBRedditSubmission::post_create_sql().unwrap(),
        "ALTER TABLE submissions ADD PRIMARY KEY (id)"
    );
    assert_eq!(
        DBRedditComment::post_create_sql().unwrap(),
        "ALTER TABLE comments ADD PRIMARY KEY (id)"
    );
    assert!(DBRedditSubmissionSmall::post_create_sql().is_none());
}

#[test]
fn insert_statements_are_exact() {
    assert_eq!(
        DBRedditSubmission::insert_sql(InsertStrategy::InsertIgnore),
        "INSERT INTO submissions (author, created_utc, domain, edited, id, is_self, num_comments, permalink, retrieved_on, score, selftext, stickied, subreddit, title, url) VALUES ($1, $2, $3, $4, $5, $6, $7, $8, $9, $10, $11, $12, $13, $14, $15) ON CONFLICT DO NOTHING"
    );
    assert!(
        DBRedditSubmission::insert_sql(InsertStrategy::InsertUpdate)
            .ends_with("title = $14, url = $15")
    );
    assert_eq!(
        DBRedditComment::insert_sql(InsertStrategy::InsertIgnore).unwrap(),
        "INSERT INTO comments (author, body, created_utc, edited, id, link_id, parent_id, permalink, retrieved_on, score, subreddit) VALUES ($1, $2, $3, $4, $5, $6, $7, $8, $9, $10, $11) ON CONFLICT DO NOTHING"
    );
    assert!(DBRedditComment::insert_sql(InsertStrategy::InsertUpdate).is_none());
    assert_eq!(
        DBRedditSubmissionSmall::insert_sql(),
        "INSERT INTO submissions_small (author, created_utc, id, subreddit) VALUES ($1, $2, $3, $4) ON CONFLICT DO NOTHING"
    );
    assert_eq!(DBRedditSubmission::exists_sql(), "SELECT * FROM submissions WHERE id = $1");
    assert_eq!(DBRedditComment::exists_sql(), "SELECT * FROM comments WHERE id = $1");
}

#[test]
fn declared_columns_match_the_expected_schemas() {
    let subs = DBRedditSubmission::sql_types();
    assert_eq!(subs.len(), 16);
    assert_eq!(subs[0], ("author", "text"));
    assert_eq!(subs[9], ("score", "bigint"));
    let coms = DBRedditComment::sql_types();
    assert_eq!(coms.len(), 11);
    assert_eq!(coms[9], ("score", "integer"));
}
