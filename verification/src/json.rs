//! The trusted boundary to the JSON crate. Every call into `serde_json`
//! the decoder makes goes through one of the small wrappers here. The
//! parsed tree stays opaque, but each outside result is named: parsing,
//! rendering and every reader are functions of their arguments alone, so
//! the names below pin them, and the decoder's own contracts speak of a
//! line's parsed content through them.

use vstd::prelude::*;

verus! {

#[verifier::external_type_specification]
#[verifier::external_body]
pub struct ExValue(serde_json::Value);

#[verifier::external_type_specification]
#[verifier::external_body]
#[verifier::reject_recursive_types(K)]
#[verifier::reject_recursive_types(V)]
pub struct ExMap<K, V>(serde_json::Map<K, V>);

/// Whether `serde_json::from_str::<Value>` accepts the text.
pub uninterp spec fn json_parses(s: Seq<char>) -> bool;

/// The value `serde_json::from_str::<Value>` yields on the text; spoken
/// of only where `json_parses` holds.
pub uninterp spec fn json_value(s: Seq<char>) -> serde_json::Value;

/// The one-based line of the parse error on the text.
pub uninterp spec fn json_err_line(s: Seq<char>) -> usize;

/// The one-based column of the parse error on the text.
pub uninterp spec fn json_err_col(s: Seq<char>) -> usize;

/// The rendering of the parse error on the text.
pub uninterp spec fn json_err_msg(s: Seq<char>) -> Seq<char>;

/// Whether a parsed value is an object.
pub uninterp spec fn json_is_object(v: serde_json::Value) -> bool;

/// The object inside a value; spoken of only under `json_is_object`.
pub uninterp spec fn json_obj(v: serde_json::Value) -> serde_json::Map<
    String,
    serde_json::Value,
>;

/// The set of key names of a parsed JSON object.
pub uninterp spec fn obj_fields(m: serde_json::Map<String, serde_json::Value>) -> Set<Seq<char>>;

/// The value under a key of a parsed object; spoken of only where
/// `obj_fields` holds the key.
pub uninterp spec fn obj_field(
    m: serde_json::Map<String, serde_json::Value>,
    key: Seq<char>,
) -> serde_json::Value;

/// Whether a parsed value is `null`.
pub uninterp spec fn json_is_null(v: serde_json::Value) -> bool;

/// Whether a parsed value is a boolean, and which.
pub uninterp spec fn json_is_bool(v: serde_json::Value) -> bool;

pub uninterp spec fn json_bool(v: serde_json::Value) -> bool;

/// Whether a parsed value is a number.
pub uninterp spec fn json_is_number(v: serde_json::Value) -> bool;

/// The number as a signed 64-bit integer, where it is one.
pub uninterp spec fn json_i64(v: serde_json::Value) -> Option<i64>;

/// The number as an unsigned 64-bit integer, where it is one.
pub uninterp spec fn json_u64(v: serde_json::Value) -> Option<u64>;

/// The number cut to whole seconds: its float reading, truncated toward
/// zero and saturated at the `i64` range.
pub uninterp spec fn json_float_secs(v: serde_json::Value) -> i64;

/// Whether a parsed value is a string, and its characters.
pub uninterp spec fn json_is_string(v: serde_json::Value) -> bool;

pub uninterp spec fn json_str(v: serde_json::Value) -> Seq<char>;

/// Whether a parsed value is an array.
pub uninterp spec fn json_is_array(v: serde_json::Value) -> bool;

/// The pretty rendering of a value, one field per line.
pub uninterp spec fn pretty_of(v: serde_json::Value) -> Seq<char>;

/// A position-carrying syntax error, as plain values.
pub struct JsonSyntaxError {
    /// One-based line of the input at which the error was detected.
    pub line: usize,
    /// One-based column at which the error was detected.
    pub column: usize,
    pub message: String,
}

/// Relies on `serde_json::from_str::<Value>`, a function of the text
/// alone: success, the parsed value and the error's position are the
/// named ones.
#[verifier::external_body]
pub(crate) fn parse_json(s: &str) -> (r: Result<serde_json::Value, JsonSyntaxError>)
    ensures
        r is Ok <==> json_parses(s@),
        (r matches Ok(v) ==> v == json_value(s@)),
        (r matches Err(e) ==> e.line == json_err_line(s@) && e.column == json_err_col(s@)
            && e.message@ == json_err_msg(s@)),
{
    match serde_json::from_str::<serde_json::Value>(s) {
        Ok(v) => Ok(v),
        Err(e) => Err(
            JsonSyntaxError { line: e.line(), column: e.column(), message: format!("{}", e) },
        ),
    }
}

/// Relies on `serde_json::Value::as_object`: a hit exactly on an object,
/// handing out the named map.
#[verifier::external_body]
pub(crate) fn val_object(v: &serde_json::Value) -> (r: Option<
    &serde_json::Map<String, serde_json::Value>,
>)
    ensures
        r is Some <==> json_is_object(*v),
        (r matches Some(m) ==> *m == json_obj(*v)),
{
    v.as_object()
}

/// Relies on `serde_json::Map::keys`: the key names of the object, each
/// once, together making up `obj_fields`.
#[verifier::external_body]
pub(crate) fn obj_keys(m: &serde_json::Map<String, serde_json::Value>) -> (r: Vec<String>)
    ensures
        forall|k: Seq<char>|
            #[trigger] obj_fields(*m).contains(k) <==> (exists|i: int|
                0 <= i < r@.len() && (#[trigger] r@[i])@ == k),
        forall|i: int, j: int| 0 <= i < j < r@.len() ==> r@[i]@ != r@[j]@,
{
    m.keys().cloned().collect()
}

/// Relies on `serde_json::Map::get`: a key is found exactly when it is
/// one of the object's fields, and the value found is the named one.
#[verifier::external_body]
pub(crate) fn obj_get<'a>(
    m: &'a serde_json::Map<String, serde_json::Value>,
    key: &str,
) -> (r: Option<&'a serde_json::Value>)
    ensures
        r is Some <==> obj_fields(*m).contains(key@),
        (r matches Some(v) ==> *v == obj_field(*m, key@)),
{
    m.get(key)
}

/// Relies on `serde_json::Value::as_str`, copied out as an owned string:
/// a hit exactly on a string, with the named characters.
#[verifier::external_body]
pub(crate) fn val_str(v: &serde_json::Value) -> (r: Option<String>)
    ensures
        r is Some <==> json_is_string(*v),
        (r matches Some(s) ==> s@ == json_str(*v)),
{
    match v.as_str() {
        Some(s) => Some(s.to_owned()),
        None => None,
    }
}

/// Relies on `serde_json::Value::as_i64`: the named reading, a hit only
/// on a number.
#[verifier::external_body]
pub(crate) fn val_i64(v: &serde_json::Value) -> (r: Option<i64>)
    ensures
        r == json_i64(*v),
        r is Some ==> json_is_number(*v),
{
    v.as_i64()
}

/// Relies on `serde_json::Value::as_u64`: the named reading, a hit only
/// on a number.
#[verifier::external_body]
pub(crate) fn val_u64(v: &serde_json::Value) -> (r: Option<u64>)
    ensures
        r == json_u64(*v),
        r is Some ==> json_is_number(*v),
{
    v.as_u64()
}

/// Relies on `serde_json::Value::as_bool`: a hit exactly on a boolean,
/// with the named reading.
#[verifier::external_body]
pub(crate) fn val_bool(v: &serde_json::Value) -> (r: Option<bool>)
    ensures
        r is Some <==> json_is_bool(*v),
        (r matches Some(b) ==> b == json_bool(*v)),
{
    v.as_bool()
}

/// Relies on `serde_json::Value::as_f64`, which reads every number, and
/// the saturating truncation toward zero of the `as` cast.
#[verifier::external_body]
pub(crate) fn val_f64_secs(v: &serde_json::Value) -> (r: Option<i64>)
    ensures
        r is Some <==> json_is_number(*v),
        (r matches Some(t) ==> t == json_float_secs(*v)),
{
    match v.as_f64() {
        Some(f) => Some(f as i64),
        None => None,
    }
}

/// Relies on `serde_json::Value::is_number`.
#[verifier::external_body]
pub(crate) fn val_is_number(v: &serde_json::Value) -> (r: bool)
    ensures
        r == json_is_number(*v),
{
    v.is_number()
}

/// Relies on `serde_json::Value::is_string`.
#[verifier::external_body]
pub(crate) fn val_is_string(v: &serde_json::Value) -> (r: bool)
    ensures
        r == json_is_string(*v),
{
    v.is_string()
}

/// Relies on `serde_json::Value::is_boolean`.
#[verifier::external_body]
pub(crate) fn val_is_bool(v: &serde_json::Value) -> (r: bool)
    ensures
        r == json_is_bool(*v),
{
    v.is_boolean()
}

/// Relies on `serde_json::Value::is_null`.
#[verifier::external_body]
pub(crate) fn val_is_null(v: &serde_json::Value) -> (r: bool)
    ensures
        r == json_is_null(*v),
{
    v.is_null()
}

/// Relies on `serde_json::Value::is_array`.
#[verifier::external_body]
pub(crate) fn val_is_array(v: &serde_json::Value) -> (r: bool)
    ensures
        r == json_is_array(*v),
{
    v.is_array()
}

/// Relies on `serde_json::to_string_pretty`: rendering a parsed value
/// cannot fail (every `Value` serializes and its map keys are strings),
/// and the result is the named rendering, one field per line.
#[verifier::external_body]
pub(crate) fn pretty_json(v: &serde_json::Value) -> (r: String)
    ensures
        r@ == pretty_of(*v),
{
    serde_json::to_string_pretty(v).expect("a parsed value always renders")
}

} // verus!
