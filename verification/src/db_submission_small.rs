//! The reduced submission summary row, for records outside the
//! allow-list when the summary table is switched on.

use crate::db_object::DBTable;
use crate::raw_submission::RedditSubmission;
use vstd::prelude::*;
use vstd::string::StringExecFns;

verus! {

pub struct DBRedditSubmissionSmall {
    pub author: String,
    /// Epoch seconds; the wall-clock type is the storage boundary's job.
    pub created_utc: i64,
    pub id: String,
    pub subreddit: String,
}

impl DBRedditSubmissionSmall {
    /// Reduces a raw submission to the summary columns.
    pub fn from(s: &RedditSubmission) -> (r: Self)
        ensures
            r.author@ == s.author@,
            r.created_utc == s.created_utc.spec_epoch(),
            r.id@ == s.id@,
            r.subreddit@ == s.subreddit@,
    {
        DBRedditSubmissionSmall {
            author: s.author.clone(),
            created_utc: s.created_utc.epoch_seconds(),
            id: s.id.clone(),
            subreddit: s.subreddit.clone(),
        }
    }

    /// The summary insert is always "do nothing on conflict", whatever
    /// the configured strategy.
    pub fn insert_sql() -> (r: String)
        ensures
            r@ == (
            "INSERT INTO submissions_small (author, created_utc, id, subreddit) VALUES ($1, $2, $3, $4) ON CONFLICT DO NOTHING")@,
    {
        String::from_str(
            "INSERT INTO submissions_small (author, created_utc, id, subreddit) VALUES ($1, $2, $3, $4) ON CONFLICT DO NOTHING",
        )
    }
}

impl DBTable for DBRedditSubmissionSmall {
    open spec fn spec_table_name() -> Seq<char> {
        ("submissions_small")@
    }

    open spec fn spec_sql_types() -> Seq<(Seq<char>, Seq<char>)> {
        seq![
            (("author")@, ("text")@),
            (("created_utc")@, ("timestamp with time zone")@),
            (("id")@, ("text")@),
            (("subreddit")@, ("text")@),
        ]
    }

    open spec fn spec_post_create_sql() -> Option<Seq<char>> {
        None
    }

    fn table_name() -> (r: &'static str) {
        "submissions_small"
    }

    fn sql_types() -> (r: Vec<(&'static str, &'static str)>) {
        let mut t: Vec<(&'static str, &'static str)> = Vec::new();
        t.push(("author", "text"));
        t.push(("created_utc", "timestamp with time zone"));
        t.push(("id", "text"));
        t.push(("subreddit", "text"));
        proof {
            assert(t.deep_view() =~= Self::spec_sql_types());
        }
        t
    }

    fn post_create_sql() -> (r: Option<String>) {
        None
    }
}

} // verus!
