//! The per-file ingestion logic: classify the file once from its name,
//! discard the lines an earlier run already consumed, and push every
//! remaining line through decode, routing and the idempotent insert,
//! ticking the checkpoint as it goes. The embedding application wraps
//! this in its processes and queues; every decision lives here.

use crate::db_comments::DBRedditComment;
use crate::db_submission::DBRedditSubmission;
use crate::db_submission_small::DBRedditSubmissionSmall;
use crate::decode::DecodeError;
use crate::engine::{insert_record, spec_apply, InsertStrategy, MemTable};
use crate::json::{json_obj, json_value};
use crate::progress::TotalProgress;
use crate::raw_comment::{comment_matches, decodable_comment, RedditComment};
use crate::raw_submission::{decodable_submission, submission_matches, RedditSubmission};
use crate::route::{route_comment, route_submission, AllowList, SubmissionRoute};
use crate::strutil::{lower_of, nul_stripped, spec_contains, str_contains, strip_nul};
use vstd::prelude::*;

verus! {

/// What a file holds, fixed once from its name: submissions carry the
/// `RS_` marker, everything else is comments.
#[derive(Clone, Copy, PartialEq, Eq, Structural, Debug)]
pub enum FileKind {
    Submission,
    Comment,
}

/// The kind a file name declares.
pub open spec fn file_kind_of(fname: Seq<char>) -> FileKind {
    if spec_contains(fname, ("RS_")@) {
        FileKind::Submission
    } else {
        FileKind::Comment
    }
}

pub fn classify_file(fname: &str) -> (r: FileKind)
    ensures
        r == file_kind_of(fname@),
{
    if str_contains(fname, "RS_") {
        FileKind::Submission
    } else {
        FileKind::Comment
    }
}

/// Whether a line of the given kind decodes, once its NUL padding is
/// stripped.
pub open spec fn line_decodable(kind: FileKind, l: Seq<char>) -> bool {
    match kind {
        FileKind::Submission => decodable_submission(nul_stripped(l)),
        FileKind::Comment => decodable_comment(nul_stripped(l)),
    }
}

/// The canonical full row of a raw submission, field by field.
pub open spec fn is_canonical_submission(row: DBRedditSubmission, s: RedditSubmission) -> bool {
    &&& row.author@ == s.author@
    &&& row.created_utc == s.created_utc.spec_epoch()
    &&& row.domain@ == (match s.domain {
        Some(d) => d@,
        None => Seq::<char>::empty(),
    })
    &&& row.edited == s.edited.spec_epoch()
    &&& row.id@ == s.id@
    &&& row.is_self == s.is_self
    &&& row.num_comments == s.num_comments
    &&& row.permalink@ == s.permalink@
    &&& row.retrieved_on == s.retrieved_on.spec_epoch()
    &&& row.score == s.score
    &&& row.selftext@ == s.selftext@
    &&& row.stickied == (match s.stickied {
        Some(b) => b,
        None => false,
    })
    &&& row.subreddit@ == s.subreddit@
    &&& row.title@ == s.title@
    &&& row.url@ == s.url@
}

/// The summary row of a raw submission, field by field.
pub open spec fn is_summary_row(row: DBRedditSubmissionSmall, s: RedditSubmission) -> bool {
    &&& row.author@ == s.author@
    &&& row.created_utc == s.created_utc.spec_epoch()
    &&& row.id@ == s.id@
    &&& row.subreddit@ == s.subreddit@
}

/// The canonical row of a raw comment, field by field.
pub open spec fn is_canonical_comment(row: DBRedditComment, c: RedditComment) -> bool {
    &&& row.author@ == c.author@
    &&& row.body@ == c.body@
    &&& row.created_utc == c.created_utc.spec_epoch()
    &&& row.edited == c.edited.spec_epoch()
    &&& row.id@ == c.id@
    &&& row.link_id@ == c.link_id@
    &&& row.parent_id@ == (match c.parent_id {
        Some(p) => p.spec_normalized(),
        None => Seq::<char>::empty(),
    })
    &&& row.permalink@ == (match c.permalink {
        Some(p) => p@,
        None => Seq::<char>::empty(),
    })
    &&& row.retrieved_on == c.retrieved_on.spec_epoch()
    &&& row.score == c.score
    &&& row.subreddit@ == c.subreddit@
}

/// What ingesting one decoded submission does to the two tables.
pub open spec fn submission_effect(
    rec: RedditSubmission,
    allow: AllowList,
    push_summarized: bool,
    subs0: Map<Seq<char>, DBRedditSubmission>,
    subs1: Map<Seq<char>, DBRedditSubmission>,
    sums0: Map<Seq<char>, DBRedditSubmissionSmall>,
    sums1: Map<Seq<char>, DBRedditSubmissionSmall>,
) -> bool {
    match crate::route::spec_route(
        allow.spec_contains(lower_of(rec.subreddit@)),
        push_summarized,
    ) {
        SubmissionRoute::FullTable => sums1 == sums0 && (exists|row: DBRedditSubmission|
            #![auto]
            is_canonical_submission(row, rec) && subs1 == spec_apply(
                subs0,
                rec.id@,
                row,
                InsertStrategy::InsertIgnore,
            )),
        SubmissionRoute::SummaryTable => subs1 == subs0 && (exists|row: DBRedditSubmissionSmall|
            #![auto]
            is_summary_row(row, rec) && sums1 == spec_apply(
                sums0,
                rec.id@,
                row,
                InsertStrategy::InsertIgnore,
            )),
        SubmissionRoute::Nowhere => subs1 == subs0 && sums1 == sums0,
    }
}

/// What ingesting one decoded comment does to the comment table.
pub open spec fn comment_effect(
    rec: RedditComment,
    allow: AllowList,
    coms0: Map<Seq<char>, DBRedditComment>,
    coms1: Map<Seq<char>, DBRedditComment>,
) -> bool {
    if allow.spec_contains(lower_of(rec.subreddit@)) {
        exists|row: DBRedditComment|
            #![auto]
            is_canonical_comment(row, rec) && coms1 == spec_apply(
                coms0,
                rec.id@,
                row,
                InsertStrategy::InsertIgnore,
            )
    } else {
        coms1 == coms0
    }
}

/// Routes one decoded submission and runs the insert its route asks for,
/// with the existence pre-check on (the resuming case).
pub fn ingest_submission(
    rec: &RedditSubmission,
    allow: &AllowList,
    push_summarized: bool,
    submissions: &mut MemTable<DBRedditSubmission>,
    summaries: &mut MemTable<DBRedditSubmissionSmall>,
)
    requires
        old(submissions).wf(),
        old(summaries).wf(),
    ensures
        final(submissions).wf(),
        final(summaries).wf(),
        submission_effect(
            *rec,
            *allow,
            push_summarized,
            old(submissions)@,
            final(submissions)@,
            old(summaries)@,
            final(summaries)@,
        ),
{
    match route_submission(rec.subreddit.as_str(), allow, push_summarized) {
        SubmissionRoute::FullTable => {
            let row = DBRedditSubmission::from(rec);
            let ghost grow = row;
            let key = rec.id.clone();
            match insert_record(
                submissions,
                key,
                row,
                InsertStrategy::InsertIgnore,
                true,
            ) {
                Ok(()) => {},
                Err(_) => {
                    proof {
                        assert(false);
                    }
                },
            }
            proof {
                assert(is_canonical_submission(grow, *rec) && submissions@ == spec_apply(
                    old(submissions)@,
                    rec.id@,
                    grow,
                    InsertStrategy::InsertIgnore,
                ));
            }
        },
        SubmissionRoute::SummaryTable => {
            let row = DBRedditSubmissionSmall::from(rec);
            let ghost grow = row;
            let key = rec.id.clone();
            match insert_record(summaries, key, row, InsertStrategy::InsertIgnore, true) {
                Ok(()) => {},
                Err(_) => {
                    proof {
                        assert(false);
                    }
                },
            }
            proof {
                assert(is_summary_row(grow, *rec) && summaries@ == spec_apply(
                    old(summaries)@,
                    rec.id@,
                    grow,
                    InsertStrategy::InsertIgnore,
                ));
            }
        },
        SubmissionRoute::Nowhere => {},
    }
}

/// Routes one decoded comment and runs the insert when it is
/// allow-listed, with the existence pre-check on.
pub fn ingest_comment(
    rec: &RedditComment,
    allow: &AllowList,
    comments: &mut MemTable<DBRedditComment>,
)
    requires
        old(comments).wf(),
    ensures
        final(comments).wf(),
        comment_effect(*rec, *allow, old(comments)@, final(comments)@),
{
    if route_comment(rec.subreddit.as_str(), allow) {
        let row = DBRedditComment::from(rec);
        let ghost grow = row;
        let key = rec.id.clone();
        match DBRedditComment::insert_row(comments, key, row, InsertStrategy::InsertIgnore, true) {
            Ok(()) => {},
            Err(_) => {
                proof {
                    assert(false);
                }
            },
        }
        proof {
            assert(is_canonical_comment(grow, *rec) && comments@ == spec_apply(
                old(comments)@,
                rec.id@,
                grow,
                InsertStrategy::InsertIgnore,
            ));
        }
    }
}

/// One raw submission line: strip the NUL padding, decode, route, insert.
/// The line is accepted exactly when its stripped text decodes; a decode
/// failure changes nothing and is handed up, where it is fatal. On
/// success the tables move by the effect of the record the line's named
/// content describes.
pub fn sub_consume_line(
    line: &str,
    allow: &AllowList,
    push_summarized: bool,
    submissions: &mut MemTable<DBRedditSubmission>,
    summaries: &mut MemTable<DBRedditSubmissionSmall>,
) -> (r: Result<(), DecodeError>)
    requires
        old(submissions).wf(),
        old(summaries).wf(),
    ensures
        final(submissions).wf(),
        final(summaries).wf(),
        r is Ok <==> decodable_submission(nul_stripped(line@)),
        r is Err ==> final(submissions)@ == old(submissions)@ && final(summaries)@ == old(
            summaries,
        )@,
        r is Ok ==> (exists|rec: RedditSubmission|
            #![auto]
            submission_matches(rec, json_obj(json_value(nul_stripped(line@))))
                && submission_effect(
                rec,
                *allow,
                push_summarized,
                old(submissions)@,
                final(submissions)@,
                old(summaries)@,
                final(summaries)@,
            )),
{
    let stripped = strip_nul(line);
    match RedditSubmission::decode(stripped.as_str()) {
        Ok(rec) => {
            ingest_submission(&rec, allow, push_summarized, submissions, summaries);
            proof {
                assert(submission_matches(rec, json_obj(json_value(nul_stripped(line@)))));
            }
            Ok(())
        },
        Err(e) => Err(e),
    }
}

/// One raw comment line: strip the NUL padding, decode, route, insert.
/// The line is accepted exactly when its stripped text decodes; a decode
/// failure changes nothing and is handed up, where it is fatal. On
/// success the table moves by the effect of the record the line's named
/// content describes.
pub fn com_consume_line(
    line: &str,
    allow: &AllowList,
    comments: &mut MemTable<DBRedditComment>,
) -> (r: Result<(), DecodeError>)
    requires
        old(comments).wf(),
    ensures
        final(comments).wf(),
        r is Ok <==> decodable_comment(nul_stripped(line@)),
        r is Err ==> final(comments)@ == old(comments)@,
        r is Ok ==> (exists|rec: RedditComment|
            #![auto]
            comment_matches(rec, json_obj(json_value(nul_stripped(line@)))) && comment_effect(
                rec,
                *allow,
                old(comments)@,
                final(comments)@,
            )),
{
    let stripped = strip_nul(line);
    match RedditComment::decode(stripped.as_str()) {
        Ok(rec) => {
            ingest_comment(&rec, allow, comments);
            proof {
                assert(comment_matches(rec, json_obj(json_value(nul_stripped(line@)))));
            }
            Ok(())
        },
        Err(e) => Err(e),
    }
}

/// What processing one raw line of the given kind does to the three
/// tables: the effect of the record the line's named content describes,
/// with the other kind's tables untouched.
pub open spec fn line_effect(
    kind: FileKind,
    l: Seq<char>,
    allow: AllowList,
    push_summarized: bool,
    subs0: Map<Seq<char>, DBRedditSubmission>,
    subs1: Map<Seq<char>, DBRedditSubmission>,
    sums0: Map<Seq<char>, DBRedditSubmissionSmall>,
    sums1: Map<Seq<char>, DBRedditSubmissionSmall>,
    coms0: Map<Seq<char>, DBRedditComment>,
    coms1: Map<Seq<char>, DBRedditComment>,
) -> bool {
    match kind {
        FileKind::Submission => coms1 == coms0 && (exists|rec: RedditSubmission|
            #![auto]
            submission_matches(rec, json_obj(json_value(nul_stripped(l)))) && submission_effect(
                rec,
                allow,
                push_summarized,
                subs0,
                subs1,
                sums0,
                sums1,
            )),
        FileKind::Comment => subs1 == subs0 && sums1 == sums0 && (exists|rec: RedditComment|
            #![auto]
            comment_matches(rec, json_obj(json_value(nul_stripped(l)))) && comment_effect(
                rec,
                allow,
                coms0,
                coms1,
            )),
    }
}

/// What processing the lines with index in `[i, j)` does to the tables:
/// the per-line effects, chained in order through intermediate states.
pub open spec fn lines_effect(
    kind: FileKind,
    ls: Seq<Seq<char>>,
    i: int,
    j: int,
    allow: AllowList,
    push_summarized: bool,
    subs0: Map<Seq<char>, DBRedditSubmission>,
    subs1: Map<Seq<char>, DBRedditSubmission>,
    sums0: Map<Seq<char>, DBRedditSubmissionSmall>,
    sums1: Map<Seq<char>, DBRedditSubmissionSmall>,
    coms0: Map<Seq<char>, DBRedditComment>,
    coms1: Map<Seq<char>, DBRedditComment>,
) -> bool
    decreases j - i,
{
    if i >= j {
        subs1 == subs0 && sums1 == sums0 && coms1 == coms0
    } else {
        exists|
            subs_m: Map<Seq<char>, DBRedditSubmission>,
            sums_m: Map<Seq<char>, DBRedditSubmissionSmall>,
            coms_m: Map<Seq<char>, DBRedditComment>,
        |
            {
                &&& #[trigger] line_effect(
                    kind,
                    ls[i],
                    allow,
                    push_summarized,
                    subs0,
                    subs_m,
                    sums0,
                    sums_m,
                    coms0,
                    coms_m,
                )
                &&& lines_effect(
                    kind,
                    ls,
                    i + 1,
                    j,
                    allow,
                    push_summarized,
                    subs_m,
                    subs1,
                    sums_m,
                    sums1,
                    coms_m,
                    coms1,
                )
            }
    }
}

proof fn lemma_lines_effect_snoc(
    kind: FileKind,
    ls: Seq<Seq<char>>,
    i: int,
    j: int,
    allow: AllowList,
    push_summarized: bool,
    subs0: Map<Seq<char>, DBRedditSubmission>,
    subs1: Map<Seq<char>, DBRedditSubmission>,
    subs2: Map<Seq<char>, DBRedditSubmission>,
    sums0: Map<Seq<char>, DBRedditSubmissionSmall>,
    sums1: Map<Seq<char>, DBRedditSubmissionSmall>,
    sums2: Map<Seq<char>, DBRedditSubmissionSmall>,
    coms0: Map<Seq<char>, DBRedditComment>,
    coms1: Map<Seq<char>, DBRedditComment>,
    coms2: Map<Seq<char>, DBRedditComment>,
)
    requires
        i <= j,
        lines_effect(kind, ls, i, j, allow, push_summarized, subs0, subs1, sums0, sums1, coms0, coms1),
        line_effect(kind, ls[j], allow, push_summarized, subs1, subs2, sums1, sums2, coms1, coms2),
    ensures
        lines_effect(
            kind,
            ls,
            i,
            j + 1,
            allow,
            push_summarized,
            subs0,
            subs2,
            sums0,
            sums2,
            coms0,
            coms2,
        ),
    decreases j - i,
{
    if i >= j {
        assert(line_effect(
            kind,
            ls[i],
            allow,
            push_summarized,
            subs0,
            subs2,
            sums0,
            sums2,
            coms0,
            coms2,
        ));
        assert(lines_effect(
            kind,
            ls,
            i + 1,
            j + 1,
            allow,
            push_summarized,
            subs2,
            subs2,
            sums2,
            sums2,
            coms2,
            coms2,
        ));
    } else {
        let (subs_m, sums_m, coms_m) = choose|
            subs_m: Map<Seq<char>, DBRedditSubmission>,
            sums_m: Map<Seq<char>, DBRedditSubmissionSmall>,
            coms_m: Map<Seq<char>, DBRedditComment>,
        |
            {
                &&& #[trigger] line_effect(
                    kind,
                    ls[i],
                    allow,
                    push_summarized,
                    subs0,
                    subs_m,
                    sums0,
                    sums_m,
                    coms0,
                    coms_m,
                )
                &&& lines_effect(
                    kind,
                    ls,
                    i + 1,
                    j,
                    allow,
                    push_summarized,
                    subs_m,
                    subs1,
                    sums_m,
                    sums1,
                    coms_m,
                    coms1,
                )
            };
        lemma_lines_effect_snoc(
            kind,
            ls,
            i + 1,
            j,
            allow,
            push_summarized,
            subs_m,
            subs1,
            subs2,
            sums_m,
            sums1,
            sums2,
            coms_m,
            coms1,
            coms2,
        );
    }
}

/// Why a run over a file aborted: the line at `index` (zero-based within
/// the file) could not be decoded. Such a failure is fatal to the whole
/// run: it signals an archive variant that needs human triage.
pub struct LineFault {
    pub index: u64,
    pub error: DecodeError,
}

/// The bytes held by the lines of `ls` with index in `[from, to)`, as
/// the progress counters measure them.
pub open spec fn bytes_between(ls: Seq<Seq<char>>, from: int, to: int) -> int
    decreases to - from,
{
    if from < 0 || from >= to || to > ls.len() {
        0
    } else {
        (vstd::utf8::encode_utf8(ls[from]).len() as usize) + bytes_between(ls, from + 1, to)
    }
}

proof fn lemma_bytes_nonneg(ls: Seq<Seq<char>>, from: int, to: int)
    ensures
        bytes_between(ls, from, to) >= 0,
    decreases to - from,
{
    if !(from < 0 || from >= to || to > ls.len()) {
        lemma_bytes_nonneg(ls, from + 1, to);
    }
}

proof fn lemma_bytes_split(ls: Seq<Seq<char>>, from: int, mid: int, to: int)
    requires
        0 <= from <= mid <= to <= ls.len(),
    ensures
        bytes_between(ls, from, to) == bytes_between(ls, from, mid) + bytes_between(ls, mid, to),
    decreases mid - from,
{
    if from < mid {
        lemma_bytes_split(ls, from + 1, mid, to);
    }
}

/// Runs one file's lines through the pipeline, resuming from the
/// checkpoint: the file is classified once from its name, every line
/// whose index is below the lines already consumed is discarded, and
/// each remaining line is decoded, routed and inserted, ticking the
/// checkpoint entry. A file the checkpoint marks done is not touched at
/// all. On success the file's entry holds every line and is marked done;
/// a decode failure stops at its line, counts only the lines before it,
/// and leaves the file unfinished.
pub fn consume_file_lines(
    progress: &mut TotalProgress,
    fname: &str,
    lines: &Vec<String>,
    allow: &AllowList,
    push_summarized: bool,
    submissions: &mut MemTable<DBRedditSubmission>,
    summaries: &mut MemTable<DBRedditSubmissionSmall>,
    comments: &mut MemTable<DBRedditComment>,
) -> (r: Result<u64, LineFault>)
    requires
        old(progress).wf(),
        old(submissions).wf(),
        old(summaries).wf(),
        old(comments).wf(),
        ({
            let m = old(progress).files_map();
            let start: int = if m.dom().contains(fname@) {
                m[fname@].total_lines as int
            } else {
                0
            };
            let read0: int = if m.dom().contains(fname@) {
                m[fname@].total_read as int
            } else {
                0
            };
            let n = lines@.len() as int;
            read0 + bytes_between(
                lines.deep_view(),
                if start <= n {
                    start
                } else {
                    n
                },
                n,
            ) <= u64::MAX
        }),
    ensures
        final(progress).wf(),
        final(progress).freq() == old(progress).freq(),
        final(submissions).wf(),
        final(summaries).wf(),
        final(comments).wf(),
        spec_contains(fname@, ("RS_")@) ==> final(comments)@ == old(comments)@,
        !spec_contains(fname@, ("RS_")@) ==> final(submissions)@ == old(submissions)@
            && final(summaries)@ == old(summaries)@,
        final(progress).files_map().dom() =~= old(progress).files_map().dom().insert(fname@),
        (forall|k: Seq<char>|
            k != fname@ && old(progress).files_map().dom().contains(k)
                ==> final(progress).files_map()[k] == #[trigger] old(progress).files_map()[k]),
        ({
            let m = old(progress).files_map();
            let done0 = m.dom().contains(fname@) && m[fname@].is_done;
            let start: int = if m.dom().contains(fname@) {
                m[fname@].total_lines as int
            } else {
                0
            };
            let read0: int = if m.dom().contains(fname@) {
                m[fname@].total_read as int
            } else {
                0
            };
            let n = lines@.len() as int;
            let p: int = if start <= n {
                n - start
            } else {
                0
            };
            let entry = final(progress).files_map()[fname@];
            &&& (done0 ==> r == Ok::<u64, LineFault>(0u64) && final(progress).files_map() == m
                && final(submissions)@ == old(submissions)@ && final(summaries)@ == old(
                summaries,
            )@ && final(comments)@ == old(comments)@)
            &&& (!done0 ==> (match r {
                Ok(c) => {
                    &&& c == p
                    &&& entry.total_lines == start + p
                    &&& entry.total_read == read0 + bytes_between(
                        lines.deep_view(),
                        if start <= n {
                            start
                        } else {
                            n
                        },
                        n,
                    )
                    &&& entry.is_done
                    &&& entry.fname@ == fname@
                    &&& (forall|j: int|
                        start <= j < n ==> line_decodable(
                            file_kind_of(fname@),
                            #[trigger] lines.deep_view()[j],
                        ))
                    &&& lines_effect(
                        file_kind_of(fname@),
                        lines.deep_view(),
                        if start <= n {
                            start
                        } else {
                            n
                        },
                        n,
                        *allow,
                        push_summarized,
                        old(submissions)@,
                        final(submissions)@,
                        old(summaries)@,
                        final(summaries)@,
                        old(comments)@,
                        final(comments)@,
                    )
                },
                Err(f) => {
                    &&& start <= f.index < n
                    &&& !line_decodable(file_kind_of(fname@), lines.deep_view()[f.index as int])
                    &&& (forall|j: int|
                        start <= j < f.index ==> line_decodable(
                            file_kind_of(fname@),
                            #[trigger] lines.deep_view()[j],
                        ))
                    &&& lines_effect(
                        file_kind_of(fname@),
                        lines.deep_view(),
                        start,
                        f.index as int,
                        *allow,
                        push_summarized,
                        old(submissions)@,
                        final(submissions)@,
                        old(summaries)@,
                        final(summaries)@,
                        old(comments)@,
                        final(comments)@,
                    )
                    &&& entry.total_lines == f.index
                    &&& entry.total_read == read0 + bytes_between(
                        lines.deep_view(),
                        start,
                        f.index as int,
                    )
                    &&& !entry.is_done
                },
            }))
        }),
{
    let ghost m0 = old(progress).files_map();
    let ghost ls = lines.deep_view();
    let kind = classify_file(fname);
    progress.add_file(fname);
    if progress.is_file_done(fname) {
        return Ok(0);
    }
    let start64 = progress.total_lines_file(fname);
    let ghost read0: int = if m0.dom().contains(fname@) {
        m0[fname@].total_read as int
    } else {
        0
    };
    let n = lines.len();
    let start_idx: usize = if start64 >= n as u64 {
        n
    } else {
        start64 as usize
    };
    let mut i: usize = start_idx;
    proof {
        lemma_bytes_nonneg(ls, start_idx as int, n as int);
        assert(lines_effect(
            kind,
            ls,
            start_idx as int,
            start_idx as int,
            *allow,
            push_summarized,
            submissions@,
            submissions@,
            summaries@,
            summaries@,
            comments@,
            comments@,
        ));
    }
    while i < n
        invariant
            n == lines@.len(),
            ls == lines.deep_view(),
            m0 == old(progress).files_map(),
            start64 == (if m0.dom().contains(fname@) {
                m0[fname@].total_lines
            } else {
                0u64
            }),
            read0 == (if m0.dom().contains(fname@) {
                m0[fname@].total_read as int
            } else {
                0int
            }),
            start_idx as int == (if start64 as int <= n as int {
                start64 as int
            } else {
                n as int
            }),
            start_idx <= i <= n,
            !(m0.dom().contains(fname@) && m0[fname@].is_done),
            progress.wf(),
            progress.freq() == old(progress).freq(),
            progress.files_map().dom() =~= m0.dom().insert(fname@),
            (forall|k: Seq<char>|
                k != fname@ && m0.dom().contains(k) ==> progress.files_map()[k]
                    == #[trigger] m0[k]),
            progress.files_map()[fname@].total_lines == start64 + (i - start_idx),
            progress.files_map()[fname@].total_read == read0 + bytes_between(
                ls,
                start_idx as int,
                i as int,
            ),
            !progress.files_map()[fname@].is_done,
            read0 + bytes_between(ls, start_idx as int, n as int) <= u64::MAX,
            submissions.wf(),
            summaries.wf(),
            comments.wf(),
            kind == FileKind::Submission ==> comments@ == old(comments)@,
            kind == FileKind::Comment ==> submissions@ == old(submissions)@ && summaries@ == old(
                summaries,
            )@,
            kind == file_kind_of(fname@),
            forall|j: int|
                start_idx <= j < i ==> line_decodable(kind, #[trigger] lines.deep_view()[j]),
            lines_effect(
                kind,
                ls,
                start_idx as int,
                i as int,
                *allow,
                push_summarized,
                old(submissions)@,
                submissions@,
                old(summaries)@,
                summaries@,
                old(comments)@,
                comments@,
            ),
        decreases n - i,
    {
        let ghost subs_pre = submissions@;
        let ghost sums_pre = summaries@;
        let ghost coms_pre = comments@;
        let outcome = match kind {
            FileKind::Submission => sub_consume_line(
                lines[i].as_str(),
                allow,
                push_summarized,
                submissions,
                summaries,
            ),
            FileKind::Comment => com_consume_line(lines[i].as_str(), allow, comments),
        };
        match outcome {
            Ok(()) => {},
            Err(e) => {
                return Err(LineFault { index: i as u64, error: e });
            },
        }
        proof {
            assert(ls[i as int] == lines@[i as int]@);
            assert(line_effect(
                kind,
                ls[i as int],
                *allow,
                push_summarized,
                subs_pre,
                submissions@,
                sums_pre,
                summaries@,
                coms_pre,
                comments@,
            ));
            lemma_lines_effect_snoc(
                kind,
                ls,
                start_idx as int,
                i as int,
                *allow,
                push_summarized,
                old(submissions)@,
                subs_pre,
                submissions@,
                old(summaries)@,
                sums_pre,
                summaries@,
                old(comments)@,
                coms_pre,
                comments@,
            );
            lemma_bytes_split(ls, start_idx as int, i as int, n as int);
            lemma_bytes_split(ls, i as int, i + 1, n as int);
            lemma_bytes_nonneg(ls, i + 1, n as int);
            lemma_bytes_split(ls, start_idx as int, i as int, i + 1);
        }
        let _ = progress.update_file(fname, lines[i].as_str());
        i += 1;
    }
    progress.finish_file(fname);
    Ok((n - start_idx) as u64)
}

} // verus!
