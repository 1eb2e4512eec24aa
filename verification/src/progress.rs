//! The checkpoint store: durable per-file progress that makes resume
//! possible. One entry per file holds the lines consumed, the bytes read
//! and a completion flag; the store is mutated only by the driver, and
//! every `log_frequency`-th progress tick asks the caller to flush it to
//! disk. A crash therefore loses at most `log_frequency - 1` lines of
//! already-processed state — safe, because the insert layer is
//! idempotent.

use crate::engine::{InsertStrategy, MemTable};
use vstd::prelude::*;
use vstd::string::StringSliceAdditionalSpecFns;

verus! {

/// Progress of reading one file.
pub struct FileProgress {
    pub total_lines: u64,
    pub total_read: u64,
    pub is_done: bool,
    pub fname: String,
}

impl FileProgress {
    pub fn new(fname: &str) -> (r: FileProgress)
        ensures
            r.total_lines == 0,
            r.total_read == 0,
            !r.is_done,
            r.fname@ == fname@,
    {
        FileProgress { total_lines: 0, total_read: 0, is_done: false, fname: fname.to_owned() }
    }
}

/// The map a list of file entries denotes, keyed by file name; a later
/// entry for the same name wins.
pub open spec fn parts_map(files: Seq<FileProgress>) -> Map<Seq<char>, FileProgress>
    decreases files.len(),
{
    if files.len() == 0 {
        Map::empty()
    } else {
        parts_map(files.drop_last()).insert(files.last().fname@, files.last())
    }
}

/// The total progress over every file seen so far.
pub struct TotalProgress {
    files: MemTable<FileProgress>,
    log_frequency: u64,
}

impl TotalProgress {
    /// The per-file entries, keyed by file name.
    pub closed spec fn files_map(self) -> Map<Seq<char>, FileProgress> {
        self.files@
    }

    /// How many progress ticks lie between two flushes.
    pub closed spec fn freq(self) -> u64 {
        self.log_frequency
    }

    pub closed spec fn wf(self) -> bool {
        &&& self.files.wf()
        &&& self.log_frequency >= 1
        &&& (forall|k: Seq<char>|
            #[trigger] self.files@.dom().contains(k) ==> self.files@[k].fname@ == k)
    }

    /// A fresh store with no files.
    pub fn new(log_frequency: u64) -> (r: TotalProgress)
        requires
            log_frequency >= 1,
        ensures
            r.wf(),
            r.files_map() == Map::<Seq<char>, FileProgress>::empty(),
            r.freq() == log_frequency,
    {
        TotalProgress { files: MemTable::new(), log_frequency }
    }

    /// Rebuilds a store from persisted entries, keyed by their file
    /// names; a later entry for the same name wins. `None` exactly when
    /// the flush cadence is zero, which no run can work with.
    pub fn from_parts(files: Vec<FileProgress>, log_frequency: u64) -> (r: Option<TotalProgress>)
        ensures
            r is Some <==> log_frequency >= 1,
            (match r {
                Some(t) => t.wf() && t.freq() == log_frequency && t.files_map() == parts_map(
                    files@,
                ),
                None => true,
            }),
    {
        if log_frequency < 1 {
            return None;
        }
        let ghost all = files@;
        let mut table: MemTable<FileProgress> = MemTable::new();
        let mut rest = files;
        let n = rest.len();
        let mut i: usize = 0;
        while i < n
            invariant
                n == rest@.len(),
                rest@ == all,
                i <= n,
                table.wf(),
                table@ == parts_map(all.take(i as int)),
                forall|k: Seq<char>| #[trigger] table@.dom().contains(k) ==> table@[k].fname@ == k,
            decreases n - i,
        {
            let fp = FileProgress {
                total_lines: rest[i].total_lines,
                total_read: rest[i].total_read,
                is_done: rest[i].is_done,
                fname: rest[i].fname.clone(),
            };
            let key = rest[i].fname.clone();
            proof {
                assert(all.take(i + 1).drop_last() =~= all.take(i as int));
                assert(all.take(i + 1).last() == all[i as int]);
                assert(fp == all[i as int]);
            }
            table.insert(key, fp, InsertStrategy::InsertUpdate);
            i += 1;
        }
        proof {
            assert(all.take(n as int) =~= all);
        }
        Some(TotalProgress { files: table, log_frequency })
    }

    /// Registers a file on first sight; a later registration of the same
    /// file changes nothing.
    pub fn add_file(&mut self, fname: &str)
        requires
            old(self).wf(),
        ensures
            final(self).wf(),
            final(self).freq() == old(self).freq(),
            old(self).files_map().dom().contains(fname@) ==> final(self).files_map() == old(
                self,
            ).files_map(),
            !old(self).files_map().dom().contains(fname@) ==> {
                &&& final(self).files_map().dom() =~= old(self).files_map().dom().insert(fname@)
                &&& (forall|k: Seq<char>|
                    k != fname@ && old(self).files_map().dom().contains(k)
                        ==> final(self).files_map()[k] == #[trigger] old(self).files_map()[k])
                &&& final(self).files_map()[fname@].total_lines == 0
                &&& final(self).files_map()[fname@].total_read == 0
                &&& !final(self).files_map()[fname@].is_done
                &&& final(self).files_map()[fname@].fname@ == fname@
            },
    {
        if self.files.contains_key(fname) {
            return ;
        }
        let fp = FileProgress::new(fname);
        self.files.insert(fname.to_owned(), fp, InsertStrategy::InsertIgnore);
    }

    /// One consumed line: bumps the file's line and byte counters and
    /// says whether this tick is a flush point — true on every
    /// `log_frequency`-th line of the file.
    pub fn update_file(&mut self, fname: &str, line: &str) -> (flush: bool)
        requires
            old(self).wf(),
            old(self).files_map().dom().contains(fname@),
            old(self).files_map()[fname@].total_lines < u64::MAX,
            old(self).files_map()[fname@].total_read + line.len() <= u64::MAX,
        ensures
            final(self).wf(),
            final(self).freq() == old(self).freq(),
            final(self).files_map().dom() =~= old(self).files_map().dom(),
            (forall|k: Seq<char>|
                k != fname@ && old(self).files_map().dom().contains(k)
                    ==> final(self).files_map()[k] == #[trigger] old(self).files_map()[k]),
            ({
                let fp = final(self).files_map()[fname@];
                let prev = old(self).files_map()[fname@];
                &&& fp.total_lines == prev.total_lines + 1
                &&& fp.total_read == prev.total_read + line.len()
                &&& fp.is_done == prev.is_done
                &&& fp.fname@ == fname@
            }),
            flush == (final(self).files_map()[fname@].total_lines % old(self).freq() == 0),
    {
        let prev_lines: u64;
        let prev_read: u64;
        let prev_done: bool;
        match self.files.get(fname) {
            Some(fp) => {
                prev_lines = fp.total_lines;
                prev_read = fp.total_read;
                prev_done = fp.is_done;
            },
            None => {
                return false;  // unreachable: the file is registered
            },
        }
        let nbytes = line.len() as u64;
        let fp = FileProgress {
            total_lines: prev_lines + 1,
            total_read: prev_read + nbytes,
            is_done: prev_done,
            fname: fname.to_owned(),
        };
        let new_lines = fp.total_lines;
        self.files.insert(fname.to_owned(), fp, InsertStrategy::InsertUpdate);
        new_lines % self.log_frequency == 0
    }

    /// Marks a file fully consumed; its counters stay.
    pub fn finish_file(&mut self, fname: &str)
        requires
            old(self).wf(),
            old(self).files_map().dom().contains(fname@),
        ensures
            final(self).wf(),
            final(self).freq() == old(self).freq(),
            final(self).files_map().dom() =~= old(self).files_map().dom(),
            (forall|k: Seq<char>|
                k != fname@ && old(self).files_map().dom().contains(k)
                    ==> final(self).files_map()[k] == #[trigger] old(self).files_map()[k]),
            ({
                let fp = final(self).files_map()[fname@];
                let prev = old(self).files_map()[fname@];
                &&& fp.total_lines == prev.total_lines
                &&& fp.total_read == prev.total_read
                &&& fp.is_done
                &&& fp.fname@ == fname@
            }),
    {
        let prev_lines: u64;
        let prev_read: u64;
        match self.files.get(fname) {
            Some(fp) => {
                prev_lines = fp.total_lines;
                prev_read = fp.total_read;
            },
            None => {
                return ;  // unreachable: the file is registered
            },
        }
        let fp = FileProgress {
            total_lines: prev_lines,
            total_read: prev_read,
            is_done: true,
            fname: fname.to_owned(),
        };
        self.files.insert(fname.to_owned(), fp, InsertStrategy::InsertUpdate);
    }

    /// The lines already consumed for a file.
    pub fn total_lines_file(&self, fname: &str) -> (r: u64)
        requires
            self.wf(),
            self.files_map().dom().contains(fname@),
        ensures
            r == self.files_map()[fname@].total_lines,
    {
        match self.files.get(fname) {
            Some(fp) => fp.total_lines,
            None => 0,  // unreachable: the file is registered
        }
    }

    /// Whether a file was fully consumed by an earlier run.
    pub fn is_file_done(&self, fname: &str) -> (r: bool)
        requires
            self.wf(),
            self.files_map().dom().contains(fname@),
        ensures
            r == self.files_map()[fname@].is_done,
    {
        match self.files.get(fname) {
            Some(fp) => fp.is_done,
            None => false,  // unreachable: the file is registered
        }
    }

    /// The flush cadence the store was made with.
    pub fn frequency(&self) -> (r: u64)
        ensures
            r == self.freq(),
    {
        self.log_frequency
    }

    /// Whether a completion count falls on a reporting tick: true on
    /// every `log_frequency`-th signal the driver receives back.
    pub fn report_due(total: u64, log_frequency: u64) -> (r: bool)
        requires
            log_frequency >= 1,
        ensures
            r == (total % log_frequency == 0),
    {
        total % log_frequency == 0
    }

    /// Every entry, for persistence.
    pub fn entries(&self) -> (r: &Vec<(String, FileProgress)>)
        ensures
            crate::engine::entries_map(r@) == self.files_map(),
    {
        self.files.rows()
    }
}

} // verus!
