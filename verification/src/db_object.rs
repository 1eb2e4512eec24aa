//! What a persisted shape declares about its table: the table's name, its
//! column/type list, and the statement run right after creation (the
//! primary key is declared there, deliberately kept out of the creation
//! statement itself).

use vstd::prelude::*;

verus! {

pub trait DBTable {
    spec fn spec_table_name() -> Seq<char>;

    spec fn spec_sql_types() -> Seq<(Seq<char>, Seq<char>)>;

    spec fn spec_post_create_sql() -> Option<Seq<char>>;

    fn table_name() -> (r: &'static str)
        ensures
            r@ == Self::spec_table_name(),
    ;

    fn sql_types() -> (r: Vec<(&'static str, &'static str)>)
        ensures
            r.deep_view() == Self::spec_sql_types(),
    ;

    fn post_create_sql() -> (r: Option<String>)
        ensures
            (match r {
                Some(s) => Self::spec_post_create_sql() == Some(s@),
                None => Self::spec_post_create_sql() is None,
            }),
    ;
}

} // verus!
