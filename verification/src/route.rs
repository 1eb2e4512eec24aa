//! Allow-list routing: membership of a record's lowercased subreddit
//! selects full-record persistence; outside the list a submission goes to
//! the summary table when that is switched on, and nowhere otherwise.

use crate::strutil::{lower_of, lowercase, str_eq};
use vstd::prelude::*;

verus! {

/// The set of lowercased subreddit names selected for full persistence.
#[derive(Clone)]
pub struct AllowList {
    names: Vec<String>,
}

impl AllowList {
    /// Membership of an (already lowercased) name.
    pub closed spec fn spec_contains(self, name: Seq<char>) -> bool {
        exists|i: int| 0 <= i < self.names@.len() && (#[trigger] self.names@[i])@ == name
    }

    /// Builds the list from the configured names, lowercasing each.
    pub fn new(raw: &Vec<String>) -> (r: AllowList)
        ensures
            forall|k: Seq<char>|
                #[trigger] r.spec_contains(k) <==> (exists|i: int|
                    0 <= i < raw@.len() && k == lower_of((#[trigger] raw@[i])@)),
    {
        let mut names: Vec<String> = Vec::new();
        let n = raw.len();
        let mut i: usize = 0;
        while i < n
            invariant
                n == raw@.len(),
                i <= n,
                names@.len() == i,
                forall|j: int| 0 <= j < i ==> (#[trigger] names@[j])@ == lower_of(raw@[j]@),
            decreases n - i,
        {
            names.push(lowercase(raw[i].as_str()));
            i += 1;
        }
        let list = AllowList { names };
        proof {
            assert forall|k: Seq<char>| #[trigger] list.spec_contains(k) implies (exists|m: int|
                0 <= m < raw@.len() && k == lower_of((#[trigger] raw@[m])@)) by {
                let j = choose|j: int|
                    0 <= j < list.names@.len() && (#[trigger] list.names@[j])@ == k;
                assert(k == lower_of(raw@[j]@));
            }
            assert forall|k: Seq<char>|
                (exists|m: int|
                    0 <= m < raw@.len() && k == lower_of(
                        (#[trigger] raw@[m])@,
                    )) implies #[trigger] list.spec_contains(k) by {
                let j = choose|j: int| 0 <= j < raw@.len() && k == lower_of(raw@[j]@);
                assert((list.names@[j])@ == k);
            }
        }
        list
    }

    /// Whether the lowercasing of `subreddit` is in the list.
    pub fn contains_lowered(&self, subreddit: &str) -> (r: bool)
        ensures
            r == self.spec_contains(lower_of(subreddit@)),
    {
        let lowered = lowercase(subreddit);
        let n = self.names.len();
        let mut i: usize = 0;
        while i < n
            invariant
                n == self.names@.len(),
                lowered@ == lower_of(subreddit@),
                i <= n,
                forall|j: int| 0 <= j < i ==> (#[trigger] self.names@[j])@ != lowered@,
            decreases n - i,
        {
            if str_eq(self.names[i].as_str(), lowered.as_str()) {
                return true;
            }
            i += 1;
        }
        false
    }
}

/// Where a submission is persisted.
#[derive(Clone, Copy, PartialEq, Eq, Structural, Debug)]
pub enum SubmissionRoute {
    FullTable,
    SummaryTable,
    Nowhere,
}

pub open spec fn spec_route(in_list: bool, push_summarized: bool) -> SubmissionRoute {
    if in_list {
        SubmissionRoute::FullTable
    } else if push_summarized {
        SubmissionRoute::SummaryTable
    } else {
        SubmissionRoute::Nowhere
    }
}

/// A submission whose lowercased subreddit is in the allow-list is
/// written in full; outside the list it goes only to the summary table
/// when that is switched on, and nowhere with it off.
pub fn route_submission(subreddit: &str, allow: &AllowList, push_summarized: bool) -> (r:
    SubmissionRoute)
    ensures
        r == spec_route(allow.spec_contains(lower_of(subreddit@)), push_summarized),
{
    if allow.contains_lowered(subreddit) {
        SubmissionRoute::FullTable
    } else if push_summarized {
        SubmissionRoute::SummaryTable
    } else {
        SubmissionRoute::Nowhere
    }
}

/// A comment is persisted exactly when its lowercased subreddit is in the
/// allow-list.
pub fn route_comment(subreddit: &str, allow: &AllowList) -> (r: bool)
    ensures
        r == allow.spec_contains(lower_of(subreddit@)),
{
    allow.contains_lowered(subreddit)
}

} // verus!
