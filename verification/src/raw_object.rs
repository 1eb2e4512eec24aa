//! The flexible timestamp union: across archive eras the same timestamp
//! field appears as an integer epoch, a numeric string, a float epoch, or
//! the literal boolean `false` meaning "never edited". Every variant is
//! normalized to whole epoch seconds before persistence.

use crate::numstr::{parse_i64, spec_parse_i64};
use vstd::prelude::*;

verus! {

pub enum AnyTimestamp {
    /// A plain integer epoch.
    Integer(i64),
    /// An epoch written as a decimal string; an unparseable one normalizes
    /// to epoch zero rather than aborting the record.
    Text(String),
    /// A float epoch; the fraction is cut at the decode boundary, so only
    /// the whole seconds reach this type.
    FloatSecs(i64),
    /// The literal boolean encoding, `false` standing for "never edited".
    Flag(bool),
}

impl AnyTimestamp {
    /// The normalized UTC instant of the timestamp, in epoch seconds.
    pub open spec fn spec_epoch(self) -> i64 {
        match self {
            AnyTimestamp::Integer(n) => n,
            AnyTimestamp::Text(s) => match spec_parse_i64(s@) {
                Option::Some(v) => v,
                Option::None => 0,
            },
            AnyTimestamp::FloatSecs(n) => n,
            AnyTimestamp::Flag(_) => 0,
        }
    }

    /// Normalizes the timestamp to epoch seconds: integers and whole float
    /// seconds pass through, a numeric string is parsed (zero when it does
    /// not parse), and the boolean encoding is epoch zero.
    pub fn epoch_seconds(&self) -> (r: i64)
        ensures
            r == self.spec_epoch(),
    {
        match self {
            AnyTimestamp::Integer(n) => *n,
            AnyTimestamp::Text(s) => match parse_i64(s.as_str()) {
                Some(v) => v,
                None => 0,
            },
            AnyTimestamp::FloatSecs(n) => *n,
            AnyTimestamp::Flag(_) => 0,
        }
    }
}

} // verus!
