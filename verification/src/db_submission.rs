//! The canonical full-record submission row: every timestamp already
//! normalized to epoch seconds, every optional raw field defaulted the
//! way the store expects.

use crate::db_object::DBTable;
use crate::engine::InsertStrategy;
use crate::raw_submission::RedditSubmission;
use vstd::prelude::*;
use vstd::string::StringExecFns;

verus! {

#[derive(Clone)]
pub struct DBRedditSubmission {
    pub author: String,
    /// Epoch seconds; the wall-clock type is the storage boundary's job.
    pub created_utc: i64,
    pub domain: String,
    pub edited: i64,
    pub id: String,
    pub is_self: bool,
    pub num_comments: i32,
    pub permalink: String,
    pub retrieved_on: i64,
    pub score: i64,
    pub selftext: String,
    pub stickied: bool,
    pub subreddit: String,
    pub title: String,
    pub url: String,
}

impl DBRedditSubmission {
    /// Canonicalizes a raw submission: timestamps are normalized to epoch
    /// seconds, a missing domain becomes the empty string, a missing
    /// stickied flag becomes `false`, and the rest carries over.
    pub fn from(s: &RedditSubmission) -> (r: Self)
        ensures
            r.author@ == s.author@,
            r.created_utc == s.created_utc.spec_epoch(),
            r.domain@ == (match s.domain {
                Some(d) => d@,
                None => Seq::<char>::empty(),
            }),
            r.edited == s.edited.spec_epoch(),
            r.id@ == s.id@,
            r.is_self == s.is_self,
            r.num_comments == s.num_comments,
            r.permalink@ == s.permalink@,
            r.retrieved_on == s.retrieved_on.spec_epoch(),
            r.score == s.score,
            r.selftext@ == s.selftext@,
            r.stickied == (match s.stickied {
                Some(b) => b,
                None => false,
            }),
            r.subreddit@ == s.subreddit@,
            r.title@ == s.title@,
            r.url@ == s.url@,
    {
        DBRedditSubmission {
            author: s.author.clone(),
            created_utc: s.created_utc.epoch_seconds(),
            domain: match &s.domain {
                Some(d) => d.clone(),
                None => String::new(),
            },
            edited: s.edited.epoch_seconds(),
            id: s.id.clone(),
            is_self: s.is_self,
            num_comments: s.num_comments,
            permalink: s.permalink.clone(),
            retrieved_on: s.retrieved_on.epoch_seconds(),
            score: s.score,
            selftext: s.selftext.clone(),
            stickied: match s.stickied {
                Some(b) => b,
                None => false,
            },
            subreddit: s.subreddit.clone(),
            title: s.title.clone(),
            url: s.url.clone(),
        }
    }

    /// The insert statement for the chosen strategy: "do nothing on
    /// conflict" for `InsertIgnore`, an overwrite of every non-key column
    /// for `InsertUpdate`.
    pub open spec fn spec_insert_sql(strategy: InsertStrategy) -> Seq<char> {
        match strategy {
            InsertStrategy::InsertIgnore => (
            "INSERT INTO submissions (author, created_utc, domain, edited, id, is_self, num_comments, permalink, retrieved_on, score, selftext, stickied, subreddit, title, url) VALUES ($1, $2, $3, $4, $5, $6, $7, $8, $9, $10, $11, $12, $13, $14, $15) ON CONFLICT DO NOTHING")@,
            InsertStrategy::InsertUpdate => (
            "INSERT INTO submissions (author, created_utc, domain, edited, id, is_self, num_comments, permalink, retrieved_on, score, selftext, stickied, subreddit, title, url) VALUES ($1, $2, $3, $4, $5, $6, $7, $8, $9, $10, $11, $12, $13, $14, $15) ON CONFLICT (id) DO UPDATE SET author = $1, created_utc = $2, domain = $3, edited = $4, is_self = $6, num_comments = $7, permalink = $8, retrieved_on = $9, score = $10, selftext = $11, stickied = $12, subreddit = $13, title = $14, url = $15")@,
        }
    }

    pub fn insert_sql(strategy: InsertStrategy) -> (r: String)
        ensures
            r@ == Self::spec_insert_sql(strategy),
    {
        match strategy {
            InsertStrategy::InsertIgnore => String::from_str(
                "INSERT INTO submissions (author, created_utc, domain, edited, id, is_self, num_comments, permalink, retrieved_on, score, selftext, stickied, subreddit, title, url) VALUES ($1, $2, $3, $4, $5, $6, $7, $8, $9, $10, $11, $12, $13, $14, $15) ON CONFLICT DO NOTHING",
            ),
            InsertStrategy::InsertUpdate => String::from_str(
                "INSERT INTO submissions (author, created_utc, domain, edited, id, is_self, num_comments, permalink, retrieved_on, score, selftext, stickied, subreddit, title, url) VALUES ($1, $2, $3, $4, $5, $6, $7, $8, $9, $10, $11, $12, $13, $14, $15) ON CONFLICT (id) DO UPDATE SET author = $1, created_utc = $2, domain = $3, edited = $4, is_self = $6, num_comments = $7, permalink = $8, retrieved_on = $9, score = $10, selftext = $11, stickied = $12, subreddit = $13, title = $14, url = $15",
            ),
        }
    }

    /// The point lookup the skip-if-exists path runs first.
    pub fn exists_sql() -> (r: String)
        ensures
            r@ == ("SELECT * FROM submissions WHERE id = $1")@,
    {
        String::from_str("SELECT * FROM submissions WHERE id = $1")
    }
}

impl DBTable for DBRedditSubmission {
    open spec fn spec_table_name() -> Seq<char> {
        ("submissions")@
    }

    open spec fn spec_sql_types() -> Seq<(Seq<char>, Seq<char>)> {
        seq![
            (("author")@, ("text")@),
            (("created_utc")@, ("timestamp with time zone")@),
            (("domain")@, ("text")@),
            (("edited")@, ("timestamp with time zone")@),
            (("id")@, ("text")@),
            (("is_self")@, ("boolean")@),
            (("num_comments")@, ("integer")@),
            (("permalink")@, ("text")@),
            (("retrieved_on")@, ("timestamp with time zone")@),
            (("score")@, ("bigint")@),
            (("selftext")@, ("text")@),
            (("stickied")@, ("boolean")@),
            (("subreddit")@, ("text")@),
            (("subreddit_id")@, ("text")@),
            (("title")@, ("text")@),
            (("url")@, ("text")@),
        ]
    }

    open spec fn spec_post_create_sql() -> Option<Seq<char>> {
        Some(("ALTER TABLE submissions ADD PRIMARY KEY (id)")@)
    }

    fn table_name() -> (r: &'static str) {
        "submissions"
    }

    fn sql_types() -> (r: Vec<(&'static str, &'static str)>) {
        let mut t: Vec<(&'static str, &'static str)> = Vec::new();
        t.push(("author", "text"));
        t.push(("created_utc", "timestamp with time zone"));
        t.push(("domain", "text"));
        t.push(("edited", "timestamp with time zone"));
        t.push(("id", "text"));
        t.push(("is_self", "boolean"));
        t.push(("num_comments", "integer"));
        t.push(("permalink", "text"));
        t.push(("retrieved_on", "timestamp with time zone"));
        t.push(("score", "bigint"));
        t.push(("selftext", "text"));
        t.push(("stickied", "boolean"));
        t.push(("subreddit", "text"));
        t.push(("subreddit_id", "text"));
        t.push(("title", "text"));
        t.push(("url", "text"));
        proof {
            assert(t.deep_view() =~= Self::spec_sql_types());
        }
        t
    }

    fn post_create_sql() -> (r: Option<String>) {
        Some(String::from_str("ALTER TABLE submissions ADD PRIMARY KEY (id)"))
    }
}

} // verus!
