//! The insert layer's write semantics. A persisted table is modeled as a
//! map from primary key to row; the two write strategies are the two ways
//! one insert can act on it, matching the store's "do nothing on
//! conflict" and "overwrite on conflict" clauses. The laws that make
//! resume safe — reinsertion changes nothing under `InsertIgnore`, an
//! upsert leaves the second record — are proved here, and `MemTable` is
//! an executable table with exactly these semantics.

use vstd::prelude::*;

verus! {

/// The two write strategies: insert with "do nothing on conflict", or
/// upsert overwriting every non-key column.
#[derive(Clone, Copy, PartialEq, Eq, Structural, Debug)]
pub enum InsertStrategy {
    InsertIgnore,
    InsertUpdate,
}

/// What one insert does to a keyed table.
pub open spec fn spec_apply<T>(
    m: Map<Seq<char>, T>,
    key: Seq<char>,
    row: T,
    strategy: InsertStrategy,
) -> Map<Seq<char>, T> {
    match strategy {
        InsertStrategy::InsertIgnore => if m.dom().contains(key) {
            m
        } else {
            m.insert(key, row)
        },
        InsertStrategy::InsertUpdate => m.insert(key, row),
    }
}

/// Inserting the same record twice under `InsertIgnore` leaves exactly
/// what one insert leaves: one row under the record's key.
pub proof fn lemma_ignore_duplicates_idempotent<T>(m: Map<Seq<char>, T>, key: Seq<char>, row: T)
    ensures
        spec_apply(
            spec_apply(m, key, row, InsertStrategy::InsertIgnore),
            key,
            row,
            InsertStrategy::InsertIgnore,
        ) == spec_apply(m, key, row, InsertStrategy::InsertIgnore),
        spec_apply(m, key, row, InsertStrategy::InsertIgnore).dom() == m.dom().insert(key),
{
    let once = spec_apply(m, key, row, InsertStrategy::InsertIgnore);
    assert(once.dom().contains(key));
    assert(once.dom() =~= m.dom().insert(key));
}

/// Reprocessing a record whose key the table already holds adds nothing
/// under `InsertIgnore`: what makes replaying checkpointed lines after a
/// crash safe.
pub proof fn lemma_reinsert_absorbed<T>(m: Map<Seq<char>, T>, key: Seq<char>, row: T)
    requires
        m.dom().contains(key),
    ensures
        spec_apply(m, key, row, InsertStrategy::InsertIgnore) == m,
{
}

/// Upserting twice under one key leaves one row carrying the second
/// record's fields.
pub proof fn lemma_upsert_takes_second<T>(m: Map<Seq<char>, T>, key: Seq<char>, r1: T, r2: T)
    ensures
        spec_apply(
            spec_apply(m, key, r1, InsertStrategy::InsertUpdate),
            key,
            r2,
            InsertStrategy::InsertUpdate,
        ) == spec_apply(m, key, r2, InsertStrategy::InsertUpdate),
        spec_apply(m, key, r2, InsertStrategy::InsertUpdate)[key] == r2,
        spec_apply(m, key, r2, InsertStrategy::InsertUpdate).dom() == m.dom().insert(key),
{
    assert(m.insert(key, r1).insert(key, r2) =~= m.insert(key, r2));
    assert(m.insert(key, r2).dom() =~= m.dom().insert(key));
}

/// The map a row list denotes: later rows win, though under unique keys
/// there is nothing to win.
pub open spec fn entries_map<T>(rows: Seq<(String, T)>) -> Map<Seq<char>, T>
    decreases rows.len(),
{
    if rows.len() == 0 {
        Map::empty()
    } else {
        entries_map(rows.drop_last()).insert(rows.last().0@, rows.last().1)
    }
}

pub open spec fn unique_keys<T>(rows: Seq<(String, T)>) -> bool {
    forall|i: int, j: int|
        0 <= i < j < rows.len() ==> (#[trigger] rows[i]).0@ != (#[trigger] rows[j]).0@
}

proof fn lemma_entries_has<T>(rows: Seq<(String, T)>, i: int)
    requires
        0 <= i < rows.len(),
    ensures
        entries_map(rows).dom().contains(rows[i].0@),
    decreases rows.len(),
{
    if i < rows.len() - 1 {
        lemma_entries_has(rows.drop_last(), i);
    }
}

proof fn lemma_entries_absent<T>(rows: Seq<(String, T)>, k: Seq<char>)
    requires
        forall|i: int| 0 <= i < rows.len() ==> (#[trigger] rows[i]).0@ != k,
    ensures
        !entries_map(rows).dom().contains(k),
    decreases rows.len(),
{
    if rows.len() > 0 {
        lemma_entries_absent(rows.drop_last(), k);
    }
}

proof fn lemma_entries_value<T>(rows: Seq<(String, T)>, i: int)
    requires
        unique_keys(rows),
        0 <= i < rows.len(),
    ensures
        entries_map(rows)[rows[i].0@] == rows[i].1,
    decreases rows.len(),
{
    if i < rows.len() - 1 {
        assert(unique_keys(rows.drop_last()));
        lemma_entries_value(rows.drop_last(), i);
        assert(rows[i].0@ != rows.last().0@);
    }
}

proof fn lemma_entries_finite<T>(rows: Seq<(String, T)>)
    ensures
        entries_map(rows).dom().finite(),
    decreases rows.len(),
{
    if rows.len() > 0 {
        lemma_entries_finite(rows.drop_last());
    }
}

proof fn lemma_entries_len<T>(rows: Seq<(String, T)>)
    requires
        unique_keys(rows),
    ensures
        entries_map(rows).dom().finite(),
        entries_map(rows).dom().len() == rows.len(),
    decreases rows.len(),
{
    lemma_entries_finite(rows);
    if rows.len() > 0 {
        let p = rows.drop_last();
        assert(unique_keys(p));
        lemma_entries_len(p);
        assert(forall|i: int| 0 <= i < p.len() ==> (#[trigger] p[i]).0@ != rows.last().0@);
        lemma_entries_absent(p, rows.last().0@);
    }
}

proof fn lemma_entries_update<T>(rows: Seq<(String, T)>, i: int, p: (String, T))
    requires
        unique_keys(rows),
        0 <= i < rows.len(),
        p.0@ == rows[i].0@,
    ensures
        entries_map(rows.update(i, p)) == entries_map(rows).insert(p.0@, p.1),
    decreases rows.len(),
{
    let upd = rows.update(i, p);
    if i == rows.len() - 1 {
        assert(upd.drop_last() =~= rows.drop_last());
        assert(upd.last() == p);
        assert(entries_map(rows.drop_last()).insert(rows.last().0@, rows.last().1).insert(
            p.0@,
            p.1,
        ) =~= entries_map(rows.drop_last()).insert(p.0@, p.1));
    } else {
        assert(unique_keys(rows.drop_last()));
        assert(upd.drop_last() =~= rows.drop_last().update(i, p));
        assert(upd.last() == rows.last());
        lemma_entries_update(rows.drop_last(), i, p);
        assert(p.0@ != rows.last().0@);
        assert(entries_map(rows.drop_last()).insert(p.0@, p.1).insert(
            rows.last().0@,
            rows.last().1,
        ) =~= entries_map(rows.drop_last()).insert(rows.last().0@, rows.last().1).insert(
            p.0@,
            p.1,
        ));
    }
}

/// An in-memory keyed table with the store's write semantics; it backs
/// the engine's tests and carries the laws down to executable code.
pub struct MemTable<T> {
    rows: Vec<(String, T)>,
}

impl<T> View for MemTable<T> {
    type V = Map<Seq<char>, T>;

    closed spec fn view(&self) -> Map<Seq<char>, T> {
        entries_map(self.rows@)
    }
}

impl<T> MemTable<T> {
    pub closed spec fn wf(self) -> bool {
        unique_keys(self.rows@)
    }

    pub fn new() -> (r: Self)
        ensures
            r.wf(),
            r@ == Map::<Seq<char>, T>::empty(),
    {
        MemTable { rows: Vec::new() }
    }

    /// The number of rows the table holds.
    pub fn row_count(&self) -> (r: usize)
        requires
            self.wf(),
        ensures
            r == self@.dom().len(),
    {
        proof {
            lemma_entries_len(self.rows@);
        }
        self.rows.len()
    }

    /// Index of the row under `key`, if the table holds one.
    fn find(&self, key: &str) -> (r: Option<usize>)
        ensures
            match r {
                Some(i) => i < self.rows@.len() && self.rows@[i as int].0@ == key@,
                None => forall|i: int|
                    0 <= i < self.rows@.len() ==> (#[trigger] self.rows@[i]).0@ != key@,
            },
    {
        let n = self.rows.len();
        let mut i: usize = 0;
        while i < n
            invariant
                n == self.rows@.len(),
                i <= n,
                forall|m: int| 0 <= m < i ==> (#[trigger] self.rows@[m]).0@ != key@,
            decreases n - i,
        {
            if crate::strutil::str_eq(self.rows[i].0.as_str(), key) {
                return Some(i);
            }
            i += 1;
        }
        None
    }

    /// Whether a row exists under `key`: the point lookup that the
    /// skip-if-exists path of the engine runs first.
    pub fn contains_key(&self, key: &str) -> (r: bool)
        ensures
            r == self@.dom().contains(key@),
    {
        match self.find(key) {
            Some(i) => {
                proof {
                    lemma_entries_has(self.rows@, i as int);
                }
                true
            },
            None => {
                proof {
                    lemma_entries_absent(self.rows@, key@);
                }
                false
            },
        }
    }

    /// The row under `key`, if any.
    pub fn get(&self, key: &str) -> (r: Option<&T>)
        requires
            self.wf(),
        ensures
            match r {
                Some(v) => self@.dom().contains(key@) && *v == self@[key@],
                None => !self@.dom().contains(key@),
            },
    {
        match self.find(key) {
            Some(i) => {
                proof {
                    lemma_entries_has(self.rows@, i as int);
                    lemma_entries_value(self.rows@, i as int);
                }
                Some(&self.rows[i].1)
            },
            None => {
                proof {
                    lemma_entries_absent(self.rows@, key@);
                }
                None
            },
        }
    }

    /// The rows themselves, for a caller that persists or walks the whole
    /// table.
    pub fn rows(&self) -> (r: &Vec<(String, T)>)
        ensures
            entries_map(r@) == self@,
            self.wf() ==> unique_keys(r@),
    {
        &self.rows
    }

    /// One insert under the chosen strategy: `InsertIgnore` leaves an
    /// existing row alone, `InsertUpdate` overwrites it.
    pub fn insert(&mut self, key: String, row: T, strategy: InsertStrategy)
        requires
            old(self).wf(),
        ensures
            final(self).wf(),
            final(self)@ == spec_apply(old(self)@, key@, row, strategy),
    {
        match self.find(key.as_str()) {
            Some(i) => {
                proof {
                    lemma_entries_has(self.rows@, i as int);
                }
                match strategy {
                    InsertStrategy::InsertIgnore => {},
                    InsertStrategy::InsertUpdate => {
                        proof {
                            lemma_entries_update(self.rows@, i as int, (key, row));
                        }
                        let ghost old_rows = self.rows@;
                        self.rows[i] = (key, row);
                        proof {
                            assert(forall|a: int, b: int|
                                0 <= a < b < self.rows@.len() ==> (#[trigger] self.rows@[a]).0@
                                    != (#[trigger] self.rows@[b]).0@) by {
                                assert(forall|a: int|
                                    0 <= a < self.rows@.len() && a != i ==> (#[trigger] self.rows@[a]).0@
                                        == old_rows[a].0@);
                            }
                        }
                    },
                }
            },
            None => {
                proof {
                    lemma_entries_absent(self.rows@, key@);
                    assert(self.rows@.push((key, row)).drop_last() =~= self.rows@);
                }
                self.rows.push((key, row));
            },
        }
    }
}

/// A strategy/skip pairing the configuration forbids: a point-lookup skip
/// makes no sense for a write that is meant to overwrite.
pub struct StrategyConflict {}

/// One insert as the engine runs it: the optional existence pre-check
/// first (an early return on a hit makes resuming a mostly-ingested file
/// cheap), then the strategy's write. `InsertUpdate` together with
/// `skip_if_exists` is a configuration error and does nothing.
pub fn insert_record<T>(
    table: &mut MemTable<T>,
    key: String,
    row: T,
    strategy: InsertStrategy,
    skip_if_exists: bool,
) -> (r: Result<(), StrategyConflict>)
    requires
        old(table).wf(),
    ensures
        final(table).wf(),
        r is Err <==> (strategy == InsertStrategy::InsertUpdate && skip_if_exists),
        r is Ok ==> final(table)@ == spec_apply(old(table)@, key@, row, strategy),
        r is Err ==> final(table)@ == old(table)@,
{
    if strategy == InsertStrategy::InsertUpdate && skip_if_exists {
        return Err(StrategyConflict {});
    }
    if skip_if_exists && table.contains_key(key.as_str()) {
        return Ok(());
    }
    table.insert(key, row, strategy);
    Ok(())
}

} // verus!
