//! The canonical comment row: timestamps normalized to epoch seconds,
//! the flexible parent reference flattened to its placeholder string.

use crate::db_object::DBTable;
use crate::engine::{insert_record, spec_apply, InsertStrategy, MemTable, StrategyConflict};
use crate::raw_comment::{ParentId, RedditComment};
use vstd::prelude::*;
use vstd::string::StringExecFns;

verus! {

#[derive(Clone)]
pub struct DBRedditComment {
    pub author: String,
    pub body: String,
    /// Epoch seconds; the wall-clock type is the storage boundary's job.
    pub created_utc: i64,
    pub edited: i64,
    pub id: String,
    pub link_id: String,
    pub parent_id: String,
    pub permalink: String,
    pub retrieved_on: i64,
    pub score: i64,
    pub subreddit: String,
}

impl DBRedditComment {
    /// Canonicalizes a raw comment: timestamps normalized to epoch
    /// seconds, the parent reference normalized to its string form (empty
    /// when absent), a missing permalink defaulted to the empty string.
    pub fn from(c: &RedditComment) -> (r: Self)
        ensures
            r.author@ == c.author@,
            r.body@ == c.body@,
            r.created_utc == c.created_utc.spec_epoch(),
            r.edited == c.edited.spec_epoch(),
            r.id@ == c.id@,
            r.link_id@ == c.link_id@,
            r.parent_id@ == (match c.parent_id {
                Some(p) => p.spec_normalized(),
                None => Seq::<char>::empty(),
            }),
            r.permalink@ == (match c.permalink {
                Some(p) => p@,
                None => Seq::<char>::empty(),
            }),
            r.retrieved_on == c.retrieved_on.spec_epoch(),
            r.score == c.score,
            r.subreddit@ == c.subreddit@,
    {
        DBRedditComment {
            author: c.author.clone(),
            body: c.body.clone(),
            created_utc: c.created_utc.epoch_seconds(),
            edited: c.edited.epoch_seconds(),
            id: c.id.clone(),
            link_id: c.link_id.clone(),
            parent_id: match &c.parent_id {
                Some(p) => p.normalized(),
                None => String::new(),
            },
            permalink: match &c.permalink {
                Some(p) => p.clone(),
                None => String::new(),
            },
            retrieved_on: c.retrieved_on.epoch_seconds(),
            score: c.score,
            subreddit: c.subreddit.clone(),
        }
    }

    /// The insert statement for the chosen strategy. The comment table
    /// only supports "do nothing on conflict"; an upsert has no statement
    /// here.
    pub open spec fn spec_insert_sql(strategy: InsertStrategy) -> Option<Seq<char>> {
        match strategy {
            InsertStrategy::InsertIgnore => Some(
                (
                "INSERT INTO comments (author, body, created_utc, edited, id, link_id, parent_id, permalink, retrieved_on, score, subreddit) VALUES ($1, $2, $3, $4, $5, $6, $7, $8, $9, $10, $11) ON CONFLICT DO NOTHING")@,
            ),
            InsertStrategy::InsertUpdate => None,
        }
    }

    pub fn insert_sql(strategy: InsertStrategy) -> (r: Option<String>)
        ensures
            (match r {
                Some(s) => Self::spec_insert_sql(strategy) == Some(s@),
                None => Self::spec_insert_sql(strategy) is None,
            }),
    {
        match strategy {
            InsertStrategy::InsertIgnore => Some(
                String::from_str(
                    "INSERT INTO comments (author, body, created_utc, edited, id, link_id, parent_id, permalink, retrieved_on, score, subreddit) VALUES ($1, $2, $3, $4, $5, $6, $7, $8, $9, $10, $11) ON CONFLICT DO NOTHING",
                ),
            ),
            InsertStrategy::InsertUpdate => None,
        }
    }

    /// One insert into the comment table. Upserting is reserved for the
    /// full-record table: the comment shape has no upsert statement
    /// (`insert_sql` yields none), so that strategy is refused here and
    /// the table is left alone.
    pub fn insert_row(
        table: &mut MemTable<DBRedditComment>,
        key: String,
        row: DBRedditComment,
        strategy: InsertStrategy,
        skip_if_exists: bool,
    ) -> (r: Result<(), StrategyConflict>)
        requires
            old(table).wf(),
        ensures
            final(table).wf(),
            r is Err <==> strategy == InsertStrategy::InsertUpdate,
            r is Ok ==> final(table)@ == spec_apply(old(table)@, key@, row, strategy),
            r is Err ==> final(table)@ == old(table)@,
    {
        if strategy == InsertStrategy::InsertUpdate {
            return Err(StrategyConflict {  });
        }
        match insert_record(table, key, row, strategy, skip_if_exists) {
            Ok(()) => Ok(()),
            Err(c) => {
                proof {
                    assert(false);
                }
                Err(c)
            },
        }
    }

    /// The point lookup the skip-if-exists path runs first.
    pub fn exists_sql() -> (r: String)
        ensures
            r@ == ("SELECT * FROM comments WHERE id = $1")@,
    {
        String::from_str("SELECT * FROM comments WHERE id = $1")
    }
}

impl DBTable for DBRedditComment {
    open spec fn spec_table_name() -> Seq<char> {
        ("comments")@
    }

    open spec fn spec_sql_types() -> Seq<(Seq<char>, Seq<char>)> {
        seq![
            (("author")@, ("text")@),
            (("body")@, ("text")@),
            (("created_utc")@, ("timestamp with time zone")@),
            (("edited")@, ("timestamp with time zone")@),
            (("id")@, ("text")@),
            (("link_id")@, ("text")@),
            (("parent_id")@, ("text")@),
            (("permalink")@, ("text")@),
            (("retrieved_on")@, ("timestamp with time zone")@),
            (("score")@, ("integer")@),
            (("subreddit")@, ("text")@),
        ]
    }

    open spec fn spec_post_create_sql() -> Option<Seq<char>> {
        Some(("ALTER TABLE comments ADD PRIMARY KEY (id)")@)
    }

    fn table_name() -> (r: &'static str) {
        "comments"
    }

    fn sql_types() -> (r: Vec<(&'static str, &'static str)>) {
        let mut t: Vec<(&'static str, &'static str)> = Vec::new();
        t.push(("author", "text"));
        t.push(("body", "text"));
        t.push(("created_utc", "timestamp with time zone"));
        t.push(("edited", "timestamp with time zone"));
        t.push(("id", "text"));
        t.push(("link_id", "text"));
        t.push(("parent_id", "text"));
        t.push(("permalink", "text"));
        t.push(("retrieved_on", "timestamp with time zone"));
        t.push(("score", "integer"));
        t.push(("subreddit", "text"));
        proof {
            assert(t.deep_view() =~= Self::spec_sql_types());
        }
        t
    }

    fn post_create_sql() -> (r: Option<String>) {
        Some(String::from_str("ALTER TABLE comments ADD PRIMARY KEY (id)"))
    }
}

} // verus!
