//! Schema reconciliation: the live table's column list is diffed against
//! the expected one in both directions. A column on only one side, or on
//! both with different types, is a finding. Findings are diagnostics
//! only: nothing here (or anywhere) alters a live table, and drift never
//! halts ingestion.

use crate::strutil::str_eq;
use vstd::prelude::*;
use vstd::string::StringExecFns;

verus! {

/// One drift finding.
pub enum SchemaFinding {
    /// A column both sides know, with different types.
    TypeMismatch { column: String, live_type: String, expected_type: String },
    /// A live column the expected schema does not know.
    UnexpectedColumn { column: String },
    /// An expected column the live table lacks.
    MissingColumn { column: String },
}

/// The view of a finding, over character sequences.
pub enum SchemaFindingV {
    TypeMismatch { column: Seq<char>, live_type: Seq<char>, expected_type: Seq<char> },
    UnexpectedColumn { column: Seq<char> },
    MissingColumn { column: Seq<char> },
}

impl View for SchemaFinding {
    type V = SchemaFindingV;

    open spec fn view(&self) -> SchemaFindingV {
        match self {
            SchemaFinding::TypeMismatch { column, live_type, expected_type } => (
            SchemaFindingV::TypeMismatch {
                column: column@,
                live_type: live_type@,
                expected_type: expected_type@,
            }),
            SchemaFinding::UnexpectedColumn { column } => (SchemaFindingV::UnexpectedColumn {
                column: column@,
            }),
            SchemaFinding::MissingColumn { column } => (SchemaFindingV::MissingColumn {
                column: column@,
            }),
        }
    }
}

impl DeepView for SchemaFinding {
    type V = SchemaFindingV;

    open spec fn deep_view(&self) -> SchemaFindingV {
        self.view()
    }
}

/// The type of the first column named `name`, if any; the diff matches
/// the first occurrence, like the scans it specifies.
pub open spec fn col_type(cols: Seq<(Seq<char>, Seq<char>)>, name: Seq<char>) -> Option<Seq<char>>
    decreases cols.len(),
{
    if cols.len() == 0 {
        None
    } else if cols[0].0 == name {
        Some(cols[0].1)
    } else {
        col_type(cols.drop_first(), name)
    }
}

/// The findings one live column contributes.
pub open spec fn head_finding(
    col: (Seq<char>, Seq<char>),
    expected: Seq<(Seq<char>, Seq<char>)>,
) -> Seq<SchemaFindingV> {
    match col_type(expected, col.0) {
        None => seq![SchemaFindingV::UnexpectedColumn { column: col.0 }],
        Some(t) => if t == col.1 {
            Seq::empty()
        } else {
            seq![
                SchemaFindingV::TypeMismatch {
                    column: col.0,
                    live_type: col.1,
                    expected_type: t,
                },
            ]
        },
    }
}

/// The findings the live side contributes, in live-column order.
pub open spec fn live_findings(
    live: Seq<(Seq<char>, Seq<char>)>,
    expected: Seq<(Seq<char>, Seq<char>)>,
) -> Seq<SchemaFindingV>
    decreases live.len(),
{
    if live.len() == 0 {
        Seq::empty()
    } else {
        head_finding(live[0], expected) + live_findings(live.drop_first(), expected)
    }
}

/// The findings the expected side contributes: its columns the live
/// table lacks, in expected-column order.
pub open spec fn missing_findings(
    expected: Seq<(Seq<char>, Seq<char>)>,
    live: Seq<(Seq<char>, Seq<char>)>,
) -> Seq<SchemaFindingV>
    decreases expected.len(),
{
    if expected.len() == 0 {
        Seq::empty()
    } else {
        (if col_type(live, expected[0].0) is None {
            seq![SchemaFindingV::MissingColumn { column: expected[0].0 }]
        } else {
            Seq::<SchemaFindingV>::empty()
        }) + missing_findings(expected.drop_first(), live)
    }
}

/// The full diff: live-side findings, then the missing columns.
pub open spec fn spec_diff(
    live: Seq<(Seq<char>, Seq<char>)>,
    expected: Seq<(Seq<char>, Seq<char>)>,
) -> Seq<SchemaFindingV> {
    live_findings(live, expected) + missing_findings(expected, live)
}

proof fn lemma_live_push(
    s: Seq<(Seq<char>, Seq<char>)>,
    x: (Seq<char>, Seq<char>),
    expected: Seq<(Seq<char>, Seq<char>)>,
)
    ensures
        live_findings(s.push(x), expected) == live_findings(s, expected) + head_finding(
            x,
            expected,
        ),
    decreases s.len(),
{
    if s.len() == 0 {
        assert(s.push(x)[0] == x);
        assert(s.push(x).drop_first() =~= s);
        assert(live_findings(s, expected) == Seq::<SchemaFindingV>::empty());
        assert(live_findings(s.push(x), expected) == head_finding(x, expected) + live_findings(
            s,
            expected,
        ));
        assert(live_findings(s.push(x), expected) =~= live_findings(s, expected) + head_finding(
            x,
            expected,
        ));
    } else {
        assert(s.push(x)[0] == s[0]);
        assert(s.push(x).drop_first() =~= s.drop_first().push(x));
        lemma_live_push(s.drop_first(), x, expected);
        assert(live_findings(s.push(x), expected) == head_finding(s[0], expected) + (
        live_findings(s.drop_first(), expected) + head_finding(x, expected)));
        assert(live_findings(s, expected) == head_finding(s[0], expected) + live_findings(
            s.drop_first(),
            expected,
        ));
        assert(live_findings(s.push(x), expected) =~= live_findings(s, expected) + head_finding(
            x,
            expected,
        ));
    }
}

proof fn lemma_missing_push(
    s: Seq<(Seq<char>, Seq<char>)>,
    x: (Seq<char>, Seq<char>),
    live: Seq<(Seq<char>, Seq<char>)>,
)
    ensures
        missing_findings(s.push(x), live) == missing_findings(s, live) + (if col_type(
            live,
            x.0,
        ) is None {
            seq![SchemaFindingV::MissingColumn { column: x.0 }]
        } else {
            Seq::<SchemaFindingV>::empty()
        }),
    decreases s.len(),
{
    let hx = if col_type(live, x.0) is None {
        seq![SchemaFindingV::MissingColumn { column: x.0 }]
    } else {
        Seq::<SchemaFindingV>::empty()
    };
    if s.len() == 0 {
        assert(s.push(x)[0] == x);
        assert(s.push(x).drop_first() =~= s);
        assert(missing_findings(s, live) == Seq::<SchemaFindingV>::empty());
        assert(missing_findings(s.push(x), live) == hx + missing_findings(s, live));
        assert(missing_findings(s.push(x), live) =~= missing_findings(s, live) + hx);
    } else {
        let hs = if col_type(live, s[0].0) is None {
            seq![SchemaFindingV::MissingColumn { column: s[0].0 }]
        } else {
            Seq::<SchemaFindingV>::empty()
        };
        assert(s.push(x)[0] == s[0]);
        assert(s.push(x).drop_first() =~= s.drop_first().push(x));
        lemma_missing_push(s.drop_first(), x, live);
        assert(missing_findings(s.push(x), live) == hs + (missing_findings(s.drop_first(), live)
            + hx));
        assert(missing_findings(s, live) == hs + missing_findings(s.drop_first(), live));
        assert(missing_findings(s.push(x), live) =~= missing_findings(s, live) + hx);
    }
}

/// Looks up `name` in an expected column list.
fn expected_type_of(expected: &Vec<(&'static str, &'static str)>, name: &str) -> (r: Option<
    &'static str,
>)
    ensures
        (match r {
            Some(t) => col_type(expected.deep_view(), name@) == Some(t@),
            None => col_type(expected.deep_view(), name@) is None,
        }),
{
    let n = expected.len();
    proof {
        assert(expected.deep_view().skip(0) =~= expected.deep_view());
    }
    let mut i: usize = 0;
    while i < n
        invariant
            n == expected@.len(),
            i <= n,
            col_type(expected.deep_view(), name@) == col_type(
                expected.deep_view().skip(i as int),
                name@,
            ),
        decreases n - i,
    {
        let ghost pre = expected.deep_view().skip(i as int);
        proof {
            assert(pre[0] == expected.deep_view()[i as int]);
            assert(pre.drop_first() =~= expected.deep_view().skip(i + 1));
        }
        if str_eq(expected[i].0, name) {
            return Some(expected[i].1);
        }
        i += 1;
    }
    proof {
        assert(expected.deep_view().skip(n as int) =~= Seq::<(Seq<char>, Seq<char>)>::empty());
    }
    None
}

/// Whether the live column list has a column named `name`.
fn live_has(live: &Vec<(String, String)>, name: &str) -> (r: bool)
    ensures
        r == (col_type(live.deep_view(), name@) is Some),
{
    let n = live.len();
    proof {
        assert(live.deep_view().skip(0) =~= live.deep_view());
    }
    let mut i: usize = 0;
    while i < n
        invariant
            n == live@.len(),
            i <= n,
            col_type(live.deep_view(), name@) == col_type(
                live.deep_view().skip(i as int),
                name@,
            ),
        decreases n - i,
    {
        let ghost pre = live.deep_view().skip(i as int);
        proof {
            assert(pre[0] == live.deep_view()[i as int]);
            assert(pre.drop_first() =~= live.deep_view().skip(i + 1));
        }
        if str_eq(live[i].0.as_str(), name) {
            return true;
        }
        i += 1;
    }
    proof {
        assert(live.deep_view().skip(n as int) =~= Seq::<(Seq<char>, Seq<char>)>::empty());
    }
    false
}

/// Diffs a live column list against the expected one, both directions.
/// The result is every finding, in order: the live side's unexpected
/// columns and type mismatches, then the expected side's missing
/// columns. The inputs are left untouched — reconciliation never alters
/// a table.
pub fn diff_schema(live: &Vec<(String, String)>, expected: &Vec<(&'static str, &'static str)>) -> (r:
    Vec<SchemaFinding>)
    ensures
        r.deep_view() == spec_diff(live.deep_view(), expected.deep_view()),
{
    let ghost live_v = live.deep_view();
    let ghost exp_v = expected.deep_view();
    let mut out: Vec<SchemaFinding> = Vec::new();
    let nl = live.len();
    let mut i: usize = 0;
    while i < nl
        invariant
            nl == live@.len(),
            live_v == live.deep_view(),
            exp_v == expected.deep_view(),
            i <= nl,
            out.deep_view() == live_findings(live_v.take(i as int), exp_v),
        decreases nl - i,
    {
        let ghost prefix = live_v.take(i as int);
        proof {
            assert(live_v.take(i + 1) =~= prefix.push(live_v[i as int]));
            lemma_live_push(prefix, live_v[i as int], exp_v);
        }
        match expected_type_of(expected, live[i].0.as_str()) {
            None => {
                let column = live[i].0.clone();
                out.push(SchemaFinding::UnexpectedColumn { column });
                proof {
                    assert(out.deep_view() =~= live_findings(live_v.take(i + 1), exp_v));
                }
            },
            Some(t) => {
                if !str_eq(live[i].1.as_str(), t) {
                    let column = live[i].0.clone();
                    let live_type = live[i].1.clone();
                    let expected_type = t.to_owned();
                    out.push(SchemaFinding::TypeMismatch { column, live_type, expected_type });
                    proof {
                        assert(out.deep_view() =~= live_findings(live_v.take(i + 1), exp_v));
                    }
                } else {
                    proof {
                        assert(out.deep_view() =~= live_findings(live_v.take(i + 1), exp_v));
                    }
                }
            },
        }
        i += 1;
    }
    proof {
        assert(live_v.take(nl as int) =~= live_v);
    }
    let ne = expected.len();
    let mut j: usize = 0;
    while j < ne
        invariant
            ne == expected@.len(),
            live_v == live.deep_view(),
            exp_v == expected.deep_view(),
            j <= ne,
            out.deep_view() == live_findings(live_v, exp_v) + missing_findings(
                exp_v.take(j as int),
                live_v,
            ),
        decreases ne - j,
    {
        let ghost prefix = exp_v.take(j as int);
        proof {
            assert(exp_v[j as int] == (expected@[j as int].0@, expected@[j as int].1@));
            assert(exp_v.take(j + 1) =~= prefix.push(exp_v[j as int]));
            lemma_missing_push(prefix, exp_v[j as int], live_v);
        }
        let ghost old_dv = out.deep_view();
        if !live_has(live, expected[j].0) {
            let column = expected[j].0.to_owned();
            out.push(SchemaFinding::MissingColumn { column });
            proof {
                assert(out.deep_view() =~= old_dv.push(
                    SchemaFindingV::MissingColumn { column: exp_v[j as int].0 },
                ));
                assert(out.deep_view() =~= live_findings(live_v, exp_v) + missing_findings(
                    exp_v.take(j + 1),
                    live_v,
                ));
            }
        } else {
            proof {
                assert(out.deep_view() =~= live_findings(live_v, exp_v) + missing_findings(
                    exp_v.take(j + 1),
                    live_v,
                ));
            }
        }
        j += 1;
    }
    proof {
        assert(exp_v.take(ne as int) =~= exp_v);
    }
    out
}

/// The text of one column definition.
pub open spec fn col_text(col: (Seq<char>, Seq<char>)) -> Seq<char> {
    col.0 + (" ")@ + col.1
}

/// The comma-joined column definitions.
pub open spec fn cols_text(cols: Seq<(Seq<char>, Seq<char>)>) -> Seq<char>
    decreases cols.len(),
{
    if cols.len() == 0 {
        Seq::empty()
    } else if cols.len() == 1 {
        col_text(cols[0])
    } else {
        cols_text(cols.drop_last()) + (", ")@ + col_text(cols.last())
    }
}

/// The creation statement for a table: exactly the given columns and
/// types, nothing else (constraints come after creation).
pub open spec fn spec_create_sql(name: Seq<char>, cols: Seq<(Seq<char>, Seq<char>)>) -> Seq<char> {
    ("CREATE TABLE ")@ + name + (" (")@ + cols_text(cols) + (");")@
}

pub fn create_table_sql(table_name: &str, sql_types: &Vec<(&'static str, &'static str)>) -> (r:
    String)
    ensures
        r@ == spec_create_sql(table_name@, sql_types.deep_view()),
{
    let ghost cols = sql_types.deep_view();
    let mut sql = String::from_str("CREATE TABLE ").concat(table_name);
    sql.append(" (");
    let n = sql_types.len();
    let mut i: usize = 0;
    while i < n
        invariant
            n == sql_types@.len(),
            cols == sql_types.deep_view(),
            i <= n,
            sql@ == ("CREATE TABLE ")@ + table_name@ + (" (")@ + cols_text(cols.take(i as int)),
        decreases n - i,
    {
        if i > 0 {
            sql.append(", ");
        }
        sql.append(sql_types[i].0);
        sql.append(" ");
        sql.append(sql_types[i].1);
        proof {
            assert(cols.take(i + 1).drop_last() =~= cols.take(i as int));
            if i == 0 {
                assert(cols_text(cols.take(1)) == col_text(cols[0]));
                assert(sql@ =~= ("CREATE TABLE ")@ + table_name@ + (" (")@ + cols_text(
                    cols.take(1),
                ));
            } else {
                assert(sql@ =~= ("CREATE TABLE ")@ + table_name@ + (" (")@ + cols_text(
                    cols.take(i + 1),
                ));
            }
        }
        i += 1;
    }
    sql.append(");");
    proof {
        assert(cols.take(n as int) =~= cols);
        assert(sql@ =~= spec_create_sql(table_name@, cols));
    }
    sql
}

} // verus!
