//! Shared machinery of the tolerant record decoder: the error taxonomy,
//! the per-field shape rules a record kind declares, and the check that a
//! parsed object carries exactly the known fields with tolerable shapes.
//! A decode failure is fatal to the run — it signals an archive-schema
//! variant nobody has handled — so the errors carry what the diagnostics
//! need. Everything here is specified over the named content of the
//! parsed line, so what a decoder accepts and what it hands back are
//! functions of the text.

use crate::json::{
    json_bool, json_err_col, json_err_line, json_err_msg, json_float_secs, json_i64,
    json_is_array, json_is_bool, json_is_null, json_is_number, json_is_object, json_is_string,
    json_obj, json_parses, json_str, json_u64, json_value, obj_field, obj_fields, obj_get,
    obj_keys, val_bool, val_f64_secs, val_i64, val_is_array, val_is_bool, val_is_null,
    val_is_number, val_is_string, val_str, val_u64,
};
use crate::raw_object::AnyTimestamp;
use crate::strutil::str_eq;
use vstd::prelude::*;

verus! {

/// Why a line could not be decoded into a canonical record.
#[derive(Debug)]
pub enum DecodeError {
    /// The line is not valid JSON; position as the parser reported it.
    Syntax { line: usize, column: usize, message: String },
    /// The record is valid JSON but not an object.
    NotObject,
    /// The object carries a key the record kind does not know.
    UnknownField { name: String },
    /// A field the record kind needs is missing.
    MissingField { name: String },
    /// A field is present with a shape none of the tolerated encodings
    /// match.
    WrongType { name: String },
}

/// The shapes a field may take. `Any` is carried through unread.
#[derive(Clone, Copy)]
pub enum FieldKind {
    Any,
    Str,
    Bool,
    I64,
    /// An integer that must also fit the 32-bit column it lands in.
    I32,
    U64,
    Arr,
    /// A flexible timestamp: integer, numeric string, float or boolean.
    Stamp,
    /// A parent reference: string or integer.
    Ref,
}

/// One field the record kind knows: its key, its shape, and whether a
/// record must carry it. An optional field may also be `null`.
pub struct FieldRule {
    pub name: &'static str,
    pub kind: FieldKind,
    pub required: bool,
}

/// Whether a present value fits the declared shape.
pub open spec fn spec_value_fits(v: serde_json::Value, kind: FieldKind, nullable: bool) -> bool {
    if nullable && json_is_null(v) {
        true
    } else {
        match kind {
            FieldKind::Any => true,
            FieldKind::Str => json_is_string(v),
            FieldKind::Bool => json_is_bool(v),
            FieldKind::I64 => json_i64(v) is Some,
            FieldKind::I32 => match json_i64(v) {
                Option::Some(n) => -2147483648 <= n <= 2147483647,
                Option::None => false,
            },
            FieldKind::U64 => json_u64(v) is Some,
            FieldKind::Arr => json_is_array(v),
            FieldKind::Stamp => json_is_number(v) || json_is_string(v) || json_is_bool(v),
            FieldKind::Ref => json_is_string(v) || json_i64(v) is Some,
        }
    }
}

fn value_fits(v: &serde_json::Value, kind: FieldKind, nullable: bool) -> (r: bool)
    ensures
        r == spec_value_fits(*v, kind, nullable),
{
    if nullable && val_is_null(v) {
        return true;
    }
    match kind {
        FieldKind::Any => true,
        FieldKind::Str => val_is_string(v),
        FieldKind::Bool => val_is_bool(v),
        FieldKind::I64 => match val_i64(v) {
            Some(_) => true,
            None => false,
        },
        FieldKind::I32 => match val_i64(v) {
            Some(n) => -2147483648i64 <= n && n <= 2147483647i64,
            None => false,
        },
        FieldKind::U64 => match val_u64(v) {
            Some(_) => true,
            None => false,
        },
        FieldKind::Arr => val_is_array(v),
        FieldKind::Stamp => val_is_number(v) || val_is_string(v) || val_is_bool(v),
        FieldKind::Ref => val_is_string(v) || match val_i64(v) {
            Some(_) => true,
            None => false,
        },
    }
}

/// Whether a key is one the rules know.
pub open spec fn rules_know(rules: Seq<FieldRule>, k: Seq<char>) -> bool {
    exists|j: int| 0 <= j < rules.len() && (#[trigger] rules[j]).name@ == k
}

/// A parsed object holds against a rule set: every key known, every
/// required field present, every present field of its tolerated shape.
pub open spec fn spec_fields_ok(
    m: serde_json::Map<String, serde_json::Value>,
    rules: Seq<FieldRule>,
) -> bool {
    &&& (forall|k: Seq<char>| #[trigger] obj_fields(m).contains(k) ==> rules_know(rules, k))
    &&& (forall|j: int|
        0 <= j < rules.len() && (#[trigger] rules[j]).required ==> obj_fields(m).contains(
            rules[j].name@,
        ))
    &&& (forall|j: int|
        0 <= j < rules.len() && obj_fields(m).contains((#[trigger] rules[j]).name@)
            ==> spec_value_fits(obj_field(m, rules[j].name@), rules[j].kind, !rules[j].required))
}

/// A returned check error names a genuine failure of the object against
/// the rules: an unknown key really is a key outside them, a missing
/// field really is required and absent, a wrong type really is a present
/// field whose shape does not fit. Field-level errors are only raised
/// once every key is known.
pub open spec fn error_names_check_failure(
    e: DecodeError,
    m: serde_json::Map<String, serde_json::Value>,
    rules: Seq<FieldRule>,
) -> bool {
    match e {
        DecodeError::UnknownField { name } => obj_fields(m).contains(name@) && !rules_know(
            rules,
            name@,
        ),
        DecodeError::MissingField { name } => {
            &&& (forall|k: Seq<char>| #[trigger] obj_fields(m).contains(k) ==> rules_know(rules, k))
            &&& (exists|j: int|
                0 <= j < rules.len() && (#[trigger] rules[j]).name@ == name@ && rules[j].required
                    && !obj_fields(m).contains(name@))
        },
        DecodeError::WrongType { name } => {
            &&& (forall|k: Seq<char>| #[trigger] obj_fields(m).contains(k) ==> rules_know(rules, k))
            &&& (exists|j: int|
                0 <= j < rules.len() && (#[trigger] rules[j]).name@ == name@ && obj_fields(
                    m,
                ).contains(name@) && !spec_value_fits(
                    obj_field(m, name@),
                    rules[j].kind,
                    !rules[j].required,
                ))
        },
        _ => false,
    }
}

/// A decode error names a genuine failure of the text: a syntax error is
/// the parse failure at its reported position, a non-object really is
/// one, and a field-level error names an offending field of the parsed
/// object.
pub open spec fn error_names_decode_failure(
    e: DecodeError,
    s: Seq<char>,
    rules: Seq<FieldRule>,
) -> bool {
    match e {
        DecodeError::Syntax { line, column, message } => {
            &&& !json_parses(s)
            &&& line == json_err_line(s)
            &&& column == json_err_col(s)
            &&& message@ == json_err_msg(s)
        },
        DecodeError::NotObject => json_parses(s) && !json_is_object(json_value(s)),
        _ => json_parses(s) && json_is_object(json_value(s)) && error_names_check_failure(
            e,
            json_obj(json_value(s)),
            rules,
        ),
    }
}

/// Holds a parsed object against a record kind's field rules, accepting
/// exactly when `spec_fields_ok` does, and otherwise reporting a genuine
/// failure. Mirrors a strict decode that rejects unknown fields.
pub fn check_fields(
    obj: &serde_json::Map<String, serde_json::Value>,
    rules: &Vec<FieldRule>,
) -> (r: Result<(), DecodeError>)
    ensures
        r is Ok <==> spec_fields_ok(*obj, rules@),
        (r matches Err(e) ==> error_names_check_failure(e, *obj, rules@)),
{
    let keys = obj_keys(obj);
    let nkeys = keys.len();
    let nrules = rules.len();
    let mut i: usize = 0;
    while i < nkeys
        invariant
            nkeys == keys@.len(),
            nrules == rules@.len(),
            i <= nkeys,
            forall|k: Seq<char>|
                #[trigger] obj_fields(*obj).contains(k) <==> (exists|n: int|
                    0 <= n < keys@.len() && (#[trigger] keys@[n])@ == k),
            forall|m: int|
                0 <= m < i ==> rules_know(rules@, (#[trigger] keys@[m])@),
        decreases nkeys - i,
    {
        let mut found: bool = false;
        let mut j: usize = 0;
        while j < nrules && !found
            invariant
                nrules == rules@.len(),
                i < nkeys == keys@.len(),
                j <= nrules,
                found ==> rules_know(rules@, keys@[i as int]@),
                !found ==> (forall|m: int|
                    0 <= m < j ==> (#[trigger] rules@[m]).name@ != keys@[i as int]@),
            decreases nrules - j + (if found {
                0int
            } else {
                1int
            }),
        {
            if str_eq(keys[i].as_str(), rules[j].name) {
                found = true;
            } else {
                j += 1;
            }
        }
        if !found {
            proof {
                assert(obj_fields(*obj).contains(keys@[i as int]@));
                assert(!rules_know(rules@, keys@[i as int]@));
            }
            let name = keys[i].clone();
            return Err(DecodeError::UnknownField { name });
        }
        i += 1;
    }
    let mut j2: usize = 0;
    while j2 < nrules
        invariant
            nrules == rules@.len(),
            j2 <= nrules,
            forall|k: Seq<char>| #[trigger] obj_fields(*obj).contains(k) ==> rules_know(rules@, k),
            forall|m: int|
                0 <= m < j2 && (#[trigger] rules@[m]).required ==> obj_fields(*obj).contains(
                    rules@[m].name@,
                ),
            forall|m: int|
                0 <= m < j2 && obj_fields(*obj).contains((#[trigger] rules@[m]).name@)
                    ==> spec_value_fits(
                    obj_field(*obj, rules@[m].name@),
                    rules@[m].kind,
                    !rules@[m].required,
                ),
        decreases nrules - j2,
    {
        let rule_required = rules[j2].required;
        let rule_kind = rules[j2].kind;
        match obj_get(obj, rules[j2].name) {
            None => {
                if rule_required {
                    let name = rules[j2].name.to_owned();
                    return Err(DecodeError::MissingField { name });
                }
            },
            Some(v) => {
                if !value_fits(v, rule_kind, !rule_required) {
                    let name = rules[j2].name.to_owned();
                    return Err(DecodeError::WrongType { name });
                }
            },
        }
        j2 += 1;
    }
    Ok(())
}

/// A required string field: a hit exactly when the field is present and
/// a string, handing back its named characters.
pub(crate) fn take_string(
    obj: &serde_json::Map<String, serde_json::Value>,
    name: &'static str,
) -> (r: Result<String, DecodeError>)
    ensures
        r is Ok <==> obj_fields(*obj).contains(name@) && json_is_string(obj_field(*obj, name@)),
        (r matches Ok(s) ==> s@ == json_str(obj_field(*obj, name@))),
{
    match obj_get(obj, name) {
        None => Err(DecodeError::MissingField { name: name.to_owned() }),
        Some(v) => match val_str(v) {
            Some(s) => Ok(s),
            None => Err(DecodeError::WrongType { name: name.to_owned() }),
        },
    }
}

/// An optional string field; missing and `null` both read as absent.
pub(crate) fn opt_string(
    obj: &serde_json::Map<String, serde_json::Value>,
    name: &'static str,
) -> (r: Result<Option<String>, DecodeError>)
    ensures
        r is Ok <==> (!obj_fields(*obj).contains(name@) || json_is_null(obj_field(*obj, name@))
            || json_is_string(obj_field(*obj, name@))),
        (r matches Ok(s) ==> (match s {
            Some(text) => obj_fields(*obj).contains(name@) && !json_is_null(
                obj_field(*obj, name@),
            ) && text@ == json_str(obj_field(*obj, name@)),
            None => !obj_fields(*obj).contains(name@) || json_is_null(obj_field(*obj, name@)),
        })),
{
    match obj_get(obj, name) {
        None => Ok(None),
        Some(v) => {
            if val_is_null(v) {
                Ok(None)
            } else {
                match val_str(v) {
                    Some(s) => Ok(Some(s)),
                    None => Err(DecodeError::WrongType { name: name.to_owned() }),
                }
            }
        },
    }
}

/// A required boolean field.
pub(crate) fn take_bool(
    obj: &serde_json::Map<String, serde_json::Value>,
    name: &'static str,
) -> (r: Result<bool, DecodeError>)
    ensures
        r is Ok <==> obj_fields(*obj).contains(name@) && json_is_bool(obj_field(*obj, name@)),
        (r matches Ok(b) ==> b == json_bool(obj_field(*obj, name@))),
{
    match obj_get(obj, name) {
        None => Err(DecodeError::MissingField { name: name.to_owned() }),
        Some(v) => match val_bool(v) {
            Some(b) => Ok(b),
            None => Err(DecodeError::WrongType { name: name.to_owned() }),
        },
    }
}

/// An optional boolean field; missing and `null` both read as absent.
pub(crate) fn opt_bool(
    obj: &serde_json::Map<String, serde_json::Value>,
    name: &'static str,
) -> (r: Result<Option<bool>, DecodeError>)
    ensures
        r is Ok <==> (!obj_fields(*obj).contains(name@) || json_is_null(obj_field(*obj, name@))
            || json_is_bool(obj_field(*obj, name@))),
        (r matches Ok(b) ==> (match b {
            Some(flag) => obj_fields(*obj).contains(name@) && !json_is_null(
                obj_field(*obj, name@),
            ) && flag == json_bool(obj_field(*obj, name@)),
            None => !obj_fields(*obj).contains(name@) || json_is_null(obj_field(*obj, name@)),
        })),
{
    match obj_get(obj, name) {
        None => Ok(None),
        Some(v) => {
            if val_is_null(v) {
                Ok(None)
            } else {
                match val_bool(v) {
                    Some(b) => Ok(Some(b)),
                    None => Err(DecodeError::WrongType { name: name.to_owned() }),
                }
            }
        },
    }
}

/// A required integer field.
pub(crate) fn take_i64(
    obj: &serde_json::Map<String, serde_json::Value>,
    name: &'static str,
) -> (r: Result<i64, DecodeError>)
    ensures
        r is Ok <==> obj_fields(*obj).contains(name@) && json_i64(obj_field(*obj, name@)) is Some,
        (r matches Ok(n) ==> json_i64(obj_field(*obj, name@)) == Some(n)),
{
    match obj_get(obj, name) {
        None => Err(DecodeError::MissingField { name: name.to_owned() }),
        Some(v) => match val_i64(v) {
            Some(n) => Ok(n),
            None => Err(DecodeError::WrongType { name: name.to_owned() }),
        },
    }
}

/// A required integer field that must fit its 32-bit column.
pub(crate) fn take_i32(
    obj: &serde_json::Map<String, serde_json::Value>,
    name: &'static str,
) -> (r: Result<i32, DecodeError>)
    ensures
        r is Ok <==> obj_fields(*obj).contains(name@) && (match json_i64(
            obj_field(*obj, name@),
        ) {
            Option::Some(n) => -2147483648 <= n <= 2147483647,
            Option::None => false,
        }),
        (r matches Ok(n) ==> json_i64(obj_field(*obj, name@)) == Some(n as i64)),
{
    match take_i64(obj, name) {
        Err(e) => Err(e),
        Ok(n) => {
            if -2147483648i64 <= n && n <= 2147483647i64 {
                Ok(n as i32)
            } else {
                Err(DecodeError::WrongType { name: name.to_owned() })
            }
        },
    }
}

/// A read timestamp carries the named content of its value, under the
/// encoding priority the reader uses: an integer first, then any other
/// number as whole float seconds, then a string, then a boolean.
pub open spec fn stamp_matches(t: AnyTimestamp, v: serde_json::Value) -> bool {
    match t {
        AnyTimestamp::Integer(n) => json_i64(v) == Some(n),
        AnyTimestamp::FloatSecs(f) => json_i64(v) is None && json_is_number(v) && f
            == json_float_secs(v),
        AnyTimestamp::Text(s) => !json_is_number(v) && json_is_string(v) && s@ == json_str(v),
        AnyTimestamp::Flag(b) => !json_is_number(v) && !json_is_string(v) && json_is_bool(v) && b
            == json_bool(v),
    }
}

/// Reads one of the four tolerated timestamp encodings off a value.
pub(crate) fn stamp_of(v: &serde_json::Value, name: &'static str) -> (r: Result<
    AnyTimestamp,
    DecodeError,
>)
    ensures
        r is Ok <==> (json_is_number(*v) || json_is_string(*v) || json_is_bool(*v)),
        (r matches Ok(t) ==> stamp_matches(t, *v)),
{
    match val_i64(v) {
        Some(n) => Ok(AnyTimestamp::Integer(n)),
        None => {
            if val_is_number(v) {
                match val_f64_secs(v) {
                    Some(t) => Ok(AnyTimestamp::FloatSecs(t)),
                    None => {
                        proof {
                            assert(false);
                        }
                        Err(DecodeError::WrongType { name: name.to_owned() })
                    },
                }
            } else {
                match val_str(v) {
                    Some(s) => Ok(AnyTimestamp::Text(s)),
                    None => match val_bool(v) {
                        Some(b) => Ok(AnyTimestamp::Flag(b)),
                        None => Err(DecodeError::WrongType { name: name.to_owned() }),
                    },
                }
            }
        },
    }
}

/// A required flexible-timestamp field.
pub(crate) fn take_stamp(
    obj: &serde_json::Map<String, serde_json::Value>,
    name: &'static str,
) -> (r: Result<AnyTimestamp, DecodeError>)
    ensures
        r is Ok <==> obj_fields(*obj).contains(name@) && (json_is_number(obj_field(*obj, name@))
            || json_is_string(obj_field(*obj, name@)) || json_is_bool(obj_field(*obj, name@))),
        (r matches Ok(t) ==> stamp_matches(t, obj_field(*obj, name@))),
{
    match obj_get(obj, name) {
        None => Err(DecodeError::MissingField { name: name.to_owned() }),
        Some(v) => stamp_of(v, name),
    }
}

} // verus!

