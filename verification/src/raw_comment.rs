//! Decoding one archive line into a raw comment, and the flexible parent
//! reference: old eras wrote a parent id as a bare integer, newer ones as
//! a string; the integer form is normalized to a synthetic placeholder.
//! What the decoder accepts and every field it hands back are functions
//! of the line's text, through the named content of its parse.

use crate::decode::{
    check_fields, error_names_decode_failure, opt_string, spec_fields_ok, spec_value_fits,
    stamp_matches, take_i64, take_stamp, take_string, DecodeError, FieldKind, FieldRule,
};
use crate::json::{
    json_err_col, json_err_line, json_err_msg, json_i64, json_is_bool, json_is_null,
    json_is_number, json_is_object, json_is_string, json_obj, json_parses, json_str, json_value,
    obj_field, obj_fields, obj_get, parse_json, val_i64, val_is_null, val_object, val_str,
};
use crate::numstr::{dec_int, i64_to_dec};
use crate::raw_object::AnyTimestamp;
use vstd::prelude::*;
use vstd::string::StringExecFns;

verus! {

/// A parent reference, as the archives encode it.
pub enum ParentId {
    /// The ordinary string id.
    Text(String),
    /// A bare legacy integer id.
    Int(i64),
}

impl ParentId {
    /// The normalized string form: a string id stays itself, a legacy
    /// integer becomes the `unknown-<n>` placeholder.
    pub open spec fn spec_normalized(self) -> Seq<char> {
        match self {
            ParentId::Text(s) => s@,
            ParentId::Int(n) => "unknown-"@ + dec_int(n as int),
        }
    }

    pub fn normalized(&self) -> (r: String)
        ensures
            r@ == self.spec_normalized(),
    {
        match self {
            ParentId::Text(s) => s.clone(),
            ParentId::Int(n) => String::from_str("unknown-").concat(i64_to_dec(*n).as_str()),
        }
    }
}

/// A read parent reference carries the named content of its value: a
/// string stays a string id, otherwise the integer reading is the legacy
/// id.
pub open spec fn parent_matches(p: ParentId, v: serde_json::Value) -> bool {
    match p {
        ParentId::Text(s) => json_is_string(v) && s@ == json_str(v),
        ParentId::Int(n) => !json_is_string(v) && json_i64(v) == Some(n),
    }
}

/// The fields of a comment line that the pipeline goes on to read.
/// The unread fields are still validated against the table below.
pub struct RedditComment {
    pub author: String,
    pub body: String,
    pub created_utc: AnyTimestamp,
    pub edited: AnyTimestamp,
    pub gilded: i64,
    pub id: String,
    pub link_id: String,
    pub parent_id: Option<ParentId>,
    pub permalink: Option<String>,
    pub retrieved_on: AnyTimestamp,
    pub score: i64,
    pub subreddit: String,
    pub subreddit_id: String,
}

/// Every key a comment line may carry, with its tolerated shape.
pub open spec fn spec_comment_rules() -> Seq<FieldRule> {
    seq![
        FieldRule { name: "_meta", kind: FieldKind::Any, required: false },
        FieldRule { name: "all_awardings", kind: FieldKind::Arr, required: false },
        FieldRule { name: "approved_at_utc", kind: FieldKind::U64, required: false },
        FieldRule { name: "approved_by", kind: FieldKind::Str, required: false },
        FieldRule { name: "archived", kind: FieldKind::Bool, required: false },
        FieldRule { name: "associated_award", kind: FieldKind::Any, required: false },
        FieldRule { name: "author", kind: FieldKind::Str, required: true },
        FieldRule { name: "author_cakeday", kind: FieldKind::Bool, required: false },
        FieldRule { name: "author_flair_background_color", kind: FieldKind::Str, required: false },
        FieldRule { name: "author_flair_css_class", kind: FieldKind::Str, required: false },
        FieldRule { name: "author_flair_richtext", kind: FieldKind::Arr, required: false },
        FieldRule { name: "author_flair_template_id", kind: FieldKind::Str, required: false },
        FieldRule { name: "author_flair_text", kind: FieldKind::Str, required: false },
        FieldRule { name: "author_flair_text_color", kind: FieldKind::Str, required: false },
        FieldRule { name: "author_flair_type", kind: FieldKind::Str, required: false },
        FieldRule { name: "author_fullname", kind: FieldKind::Str, required: false },
        FieldRule { name: "author_is_blocked", kind: FieldKind::Bool, required: false },
        FieldRule { name: "author_patreon_flair", kind: FieldKind::Bool, required: false },
        FieldRule { name: "author_premium", kind: FieldKind::Bool, required: false },
        FieldRule { name: "awarders", kind: FieldKind::Arr, required: false },
        FieldRule { name: "banned_at_utc", kind: FieldKind::U64, required: false },
        FieldRule { name: "banned_by", kind: FieldKind::Str, required: false },
        FieldRule { name: "body", kind: FieldKind::Str, required: true },
        FieldRule { name: "body_sha1", kind: FieldKind::Str, required: false },
        FieldRule { name: "can_gild", kind: FieldKind::Bool, required: false },
        FieldRule { name: "can_mod_post", kind: FieldKind::Bool, required: false },
        FieldRule { name: "collapsed", kind: FieldKind::Bool, required: false },
        FieldRule { name: "collapsed_because_crowd_control", kind: FieldKind::Any, required: false },
        FieldRule { name: "collapsed_reason", kind: FieldKind::Str, required: false },
        FieldRule { name: "collapsed_reason_code", kind: FieldKind::Str, required: false },
        FieldRule { name: "comment_type", kind: FieldKind::Str, required: false },
        FieldRule { name: "controversiality", kind: FieldKind::I64, required: false },
        FieldRule { name: "created", kind: FieldKind::Stamp, required: false },
        FieldRule { name: "created_utc", kind: FieldKind::Stamp, required: true },
        FieldRule { name: "distinguished", kind: FieldKind::Str, required: false },
        FieldRule { name: "downs", kind: FieldKind::I64, required: false },
        FieldRule { name: "editable", kind: FieldKind::Bool, required: false },
        FieldRule { name: "edited", kind: FieldKind::Stamp, required: true },
        FieldRule { name: "edited_on", kind: FieldKind::Stamp, required: false },
        FieldRule { name: "expression_asset_data", kind: FieldKind::Any, required: false },
        FieldRule { name: "gilded", kind: FieldKind::I64, required: true },
        FieldRule { name: "gildings", kind: FieldKind::Any, required: false },
        FieldRule { name: "id", kind: FieldKind::Str, required: true },
        FieldRule { name: "is_submitter", kind: FieldKind::Bool, required: false },
        FieldRule { name: "likes", kind: FieldKind::Any, required: false },
        FieldRule { name: "link_id", kind: FieldKind::Str, required: true },
        FieldRule { name: "locked", kind: FieldKind::Bool, required: false },
        FieldRule { name: "media_metadata", kind: FieldKind::Any, required: false },
        FieldRule { name: "mod_note", kind: FieldKind::Str, required: false },
        FieldRule { name: "mod_reason_by", kind: FieldKind::Str, required: false },
        FieldRule { name: "mod_reason_title", kind: FieldKind::Str, required: false },
        FieldRule { name: "mod_reports", kind: FieldKind::Arr, required: false },
        FieldRule { name: "name", kind: FieldKind::Str, required: false },
        FieldRule { name: "nest_level", kind: FieldKind::I64, required: false },
        FieldRule { name: "no_follow", kind: FieldKind::Bool, required: false },
        FieldRule { name: "num_reports", kind: FieldKind::Any, required: false },
        FieldRule { name: "parent_id", kind: FieldKind::Ref, required: false },
        FieldRule { name: "permalink", kind: FieldKind::Str, required: false },
        FieldRule { name: "removal_reason", kind: FieldKind::Str, required: false },
        FieldRule { name: "replies", kind: FieldKind::Any, required: false },
        FieldRule { name: "report_reasons", kind: FieldKind::Any, required: false },
        FieldRule { name: "retrieved_on", kind: FieldKind::Stamp, required: true },
        FieldRule { name: "rte_mode", kind: FieldKind::Str, required: false },
        FieldRule { name: "saved", kind: FieldKind::Bool, required: false },
        FieldRule { name: "score", kind: FieldKind::I64, required: true },
        FieldRule { name: "score_hidden", kind: FieldKind::Bool, required: false },
        FieldRule { name: "send_replies", kind: FieldKind::Bool, required: false },
        FieldRule { name: "stickied", kind: FieldKind::Bool, required: false },
        FieldRule { name: "subreddit", kind: FieldKind::Str, required: true },
        FieldRule { name: "subreddit_id", kind: FieldKind::Str, required: true },
        FieldRule { name: "subreddit_name_prefixed", kind: FieldKind::Str, required: false },
        FieldRule { name: "subreddit_type", kind: FieldKind::Str, required: false },
        FieldRule { name: "top_awarded_type", kind: FieldKind::Any, required: false },
        FieldRule { name: "total_awards_received", kind: FieldKind::I64, required: false },
        FieldRule { name: "treatment_tags", kind: FieldKind::Arr, required: false },
        FieldRule { name: "unrepliable_reason", kind: FieldKind::Str, required: false },
        FieldRule { name: "updated_on", kind: FieldKind::Stamp, required: false },
        FieldRule { name: "ups", kind: FieldKind::I64, required: false },
        FieldRule { name: "user_reports", kind: FieldKind::Arr, required: false },
        FieldRule { name: "user_reports_dismissed", kind: FieldKind::Any, required: false },
    ]
}

pub(crate) fn comment_rules() -> (r: Vec<FieldRule>)
    ensures
        r@ == spec_comment_rules(),
{
    let mut t: Vec<FieldRule> = Vec::new();
    t.push(FieldRule { name: "_meta", kind: FieldKind::Any, required: false });
    t.push(FieldRule { name: "all_awardings", kind: FieldKind::Arr, required: false });
    t.push(FieldRule { name: "approved_at_utc", kind: FieldKind::U64, required: false });
    t.push(FieldRule { name: "approved_by", kind: FieldKind::Str, required: false });
    t.push(FieldRule { name: "archived", kind: FieldKind::Bool, required: false });
    t.push(FieldRule { name: "associated_award", kind: FieldKind::Any, required: false });
    t.push(FieldRule { name: "author", kind: FieldKind::Str, required: true });
    t.push(FieldRule { name: "author_cakeday", kind: FieldKind::Bool, required: false });
    t.push(FieldRule { name: "author_flair_background_color", kind: FieldKind::Str, required: false });
    t.push(FieldRule { name: "author_flair_css_class", kind: FieldKind::Str, required: false });
    t.push(FieldRule { name: "author_flair_richtext", kind: FieldKind::Arr, required: false });
    t.push(FieldRule { name: "author_flair_template_id", kind: FieldKind::Str, required: false });
    t.push(FieldRule { name: "author_flair_text", kind: FieldKind::Str, required: false });
    t.push(FieldRule { name: "author_flair_text_color", kind: FieldKind::Str, required: false });
    t.push(FieldRule { name: "author_flair_type", kind: FieldKind::Str, required: false });
    t.push(FieldRule { name: "author_fullname", kind: FieldKind::Str, required: false });
    t.push(FieldRule { name: "author_is_blocked", kind: FieldKind::Bool, required: false });
    t.push(FieldRule { name: "author_patreon_flair", kind: FieldKind::Bool, required: false });
    t.push(FieldRule { name: "author_premium", kind: FieldKind::Bool, required: false });
    t.push(FieldRule { name: "awarders", kind: FieldKind::Arr, required: false });
    t.push(FieldRule { name: "banned_at_utc", kind: FieldKind::U64, required: false });
    t.push(FieldRule { name: "banned_by", kind: FieldKind::Str, required: false });
    t.push(FieldRule { name: "body", kind: FieldKind::Str, required: true });
    t.push(FieldRule { name: "body_sha1", kind: FieldKind::Str, required: false });
    t.push(FieldRule { name: "can_gild", kind: FieldKind::Bool, required: false });
    t.push(FieldRule { name: "can_mod_post", kind: FieldKind::Bool, required: false });
    t.push(FieldRule { name: "collapsed", kind: FieldKind::Bool, required: false });
    t.push(FieldRule { name: "collapsed_because_crowd_control", kind: FieldKind::Any, required: false });
    t.push(FieldRule { name: "collapsed_reason", kind: FieldKind::Str, required: false });
    t.push(FieldRule { name: "collapsed_reason_code", kind: FieldKind::Str, required: false });
    t.push(FieldRule { name: "comment_type", kind: FieldKind::Str, required: false });
    t.push(FieldRule { name: "controversiality", kind: FieldKind::I64, required: false });
    t.push(FieldRule { name: "created", kind: FieldKind::Stamp, required: false });
    t.push(FieldRule { name: "created_utc", kind: FieldKind::Stamp, required: true });
    t.push(FieldRule { name: "distinguished", kind: FieldKind::Str, required: false });
    t.push(FieldRule { name: "downs", kind: FieldKind::I64, required: false });
    t.push(FieldRule { name: "editable", kind: FieldKind::Bool, required: false });
    t.push(FieldRule { name: "edited", kind: FieldKind::Stamp, required: true });
    t.push(FieldRule { name: "edited_on", kind: FieldKind::Stamp, required: false });
    t.push(FieldRule { name: "expression_asset_data", kind: FieldKind::Any, required: false });
    t.push(FieldRule { name: "gilded", kind: FieldKind::I64, required: true });
    t.push(FieldRule { name: "gildings", kind: FieldKind::Any, required: false });
    t.push(FieldRule { name: "id", kind: FieldKind::Str, required: true });
    t.push(FieldRule { name: "is_submitter", kind: FieldKind::Bool, required: false });
    t.push(FieldRule { name: "likes", kind: FieldKind::Any, required: false });
    t.push(FieldRule { name: "link_id", kind: FieldKind::Str, required: true });
    t.push(FieldRule { name: "locked", kind: FieldKind::Bool, required: false });
    t.push(FieldRule { name: "media_metadata", kind: FieldKind::Any, required: false });
    t.push(FieldRule { name: "mod_note", kind: FieldKind::Str, required: false });
    t.push(FieldRule { name: "mod_reason_by", kind: FieldKind::Str, required: false });
    t.push(FieldRule { name: "mod_reason_title", kind: FieldKind::Str, required: false });
    t.push(FieldRule { name: "mod_reports", kind: FieldKind::Arr, required: false });
    t.push(FieldRule { name: "name", kind: FieldKind::Str, required: false });
    t.push(FieldRule { name: "nest_level", kind: FieldKind::I64, required: false });
    t.push(FieldRule { name: "no_follow", kind: FieldKind::Bool, required: false });
    t.push(FieldRule { name: "num_reports", kind: FieldKind::Any, required: false });
    t.push(FieldRule { name: "parent_id", kind: FieldKind::Ref, required: false });
    t.push(FieldRule { name: "permalink", kind: FieldKind::Str, required: false });
    t.push(FieldRule { name: "removal_reason", kind: FieldKind::Str, required: false });
    t.push(FieldRule { name: "replies", kind: FieldKind::Any, required: false });
    t.push(FieldRule { name: "report_reasons", kind: FieldKind::Any, required: false });
    t.push(FieldRule { name: "retrieved_on", kind: FieldKind::Stamp, required: true });
    t.push(FieldRule { name: "rte_mode", kind: FieldKind::Str, required: false });
    t.push(FieldRule { name: "saved", kind: FieldKind::Bool, required: false });
    t.push(FieldRule { name: "score", kind: FieldKind::I64, required: true });
    t.push(FieldRule { name: "score_hidden", kind: FieldKind::Bool, required: false });
    t.push(FieldRule { name: "send_replies", kind: FieldKind::Bool, required: false });
    t.push(FieldRule { name: "stickied", kind: FieldKind::Bool, required: false });
    t.push(FieldRule { name: "subreddit", kind: FieldKind::Str, required: true });
    t.push(FieldRule { name: "subreddit_id", kind: FieldKind::Str, required: true });
    t.push(FieldRule { name: "subreddit_name_prefixed", kind: FieldKind::Str, required: false });
    t.push(FieldRule { name: "subreddit_type", kind: FieldKind::Str, required: false });
    t.push(FieldRule { name: "top_awarded_type", kind: FieldKind::Any, required: false });
    t.push(FieldRule { name: "total_awards_received", kind: FieldKind::I64, required: false });
    t.push(FieldRule { name: "treatment_tags", kind: FieldKind::Arr, required: false });
    t.push(FieldRule { name: "unrepliable_reason", kind: FieldKind::Str, required: false });
    t.push(FieldRule { name: "updated_on", kind: FieldKind::Stamp, required: false });
    t.push(FieldRule { name: "ups", kind: FieldKind::I64, required: false });
    t.push(FieldRule { name: "user_reports", kind: FieldKind::Arr, required: false });
    t.push(FieldRule { name: "user_reports_dismissed", kind: FieldKind::Any, required: false });
    proof {
        assert(t@ =~= spec_comment_rules());
    }
    t
}

/// An optional parent-reference field; missing and `null` read as
/// absent, a string or integer as the matching reference.
fn opt_parent(obj: &serde_json::Map<String, serde_json::Value>, name: &'static str) -> (r: Result<
    Option<ParentId>,
    DecodeError,
>)
    ensures
        r is Ok <==> (!obj_fields(*obj).contains(name@) || json_is_null(obj_field(*obj, name@))
            || json_is_string(obj_field(*obj, name@)) || json_i64(obj_field(*obj, name@)) is Some),
        (r matches Ok(op) ==> (match op {
            Some(p) => obj_fields(*obj).contains(name@) && !json_is_null(obj_field(*obj, name@))
                && parent_matches(p, obj_field(*obj, name@)),
            None => !obj_fields(*obj).contains(name@) || json_is_null(obj_field(*obj, name@)),
        })),
{
    match obj_get(obj, name) {
        None => Ok(None),
        Some(v) => {
            if val_is_null(v) {
                Ok(None)
            } else {
                match val_str(v) {
                    Some(s) => Ok(Some(ParentId::Text(s))),
                    None => match val_i64(v) {
                        Some(n) => Ok(Some(ParentId::Int(n))),
                        None => Err(DecodeError::WrongType { name: name.to_owned() }),
                    },
                }
            }
        },
    }
}

/// The text decodes as a comment: it parses, the value is an object, and
/// the object holds against the field table.
pub open spec fn decodable_comment(s: Seq<char>) -> bool {
    &&& json_parses(s)
    &&& json_is_object(json_value(s))
    &&& spec_fields_ok(json_obj(json_value(s)), spec_comment_rules())
}

/// The record's every field equals the named content of the parsed
/// object's matching field.
pub open spec fn comment_matches(
    rec: RedditComment,
    m: serde_json::Map<String, serde_json::Value>,
) -> bool {
    &&& rec.author@ == json_str(obj_field(m, ("author")@))
    &&& rec.body@ == json_str(obj_field(m, ("body")@))
    &&& stamp_matches(rec.created_utc, obj_field(m, ("created_utc")@))
    &&& stamp_matches(rec.edited, obj_field(m, ("edited")@))
    &&& json_i64(obj_field(m, ("gilded")@)) == Some(rec.gilded)
    &&& rec.id@ == json_str(obj_field(m, ("id")@))
    &&& rec.link_id@ == json_str(obj_field(m, ("link_id")@))
    &&& (match rec.parent_id {
        Some(p) => obj_fields(m).contains(("parent_id")@) && !json_is_null(
            obj_field(m, ("parent_id")@),
        ) && parent_matches(p, obj_field(m, ("parent_id")@)),
        None => !obj_fields(m).contains(("parent_id")@) || json_is_null(
            obj_field(m, ("parent_id")@),
        ),
    })
    &&& (match rec.permalink {
        Some(text) => obj_fields(m).contains(("permalink")@) && !json_is_null(
            obj_field(m, ("permalink")@),
        ) && text@ == json_str(obj_field(m, ("permalink")@)),
        None => !obj_fields(m).contains(("permalink")@) || json_is_null(
            obj_field(m, ("permalink")@),
        ),
    })
    &&& stamp_matches(rec.retrieved_on, obj_field(m, ("retrieved_on")@))
    &&& json_i64(obj_field(m, ("score")@)) == Some(rec.score)
    &&& rec.subreddit@ == json_str(obj_field(m, ("subreddit")@))
    &&& rec.subreddit_id@ == json_str(obj_field(m, ("subreddit_id")@))
}

impl RedditComment {
    /// Decodes one line (its NUL padding already stripped): accepts
    /// exactly the texts `decodable_comment` describes, hands back the
    /// record whose fields are the line's named content, and reports a
    /// parse failure at its position. Any failure is fatal upstream: an
    /// unknown shape means an unhandled archive variant.
    pub fn decode(line: &str) -> (r: Result<RedditComment, DecodeError>)
        ensures
            r is Ok <==> decodable_comment(line@),
            (r matches Ok(rec) ==> comment_matches(rec, json_obj(json_value(line@)))),
            (r matches Err(e) ==> error_names_decode_failure(e, line@, spec_comment_rules())),
    {
        let parsed = match parse_json(line) {
            Ok(v) => v,
            Err(e) => {
                return Err(
                    DecodeError::Syntax { line: e.line, column: e.column, message: e.message },
                );
            },
        };
        let obj = match val_object(&parsed) {
            Some(m) => m,
            None => {
                return Err(DecodeError::NotObject);
            },
        };
        match check_fields(obj, &comment_rules()) {
            Ok(()) => {},
            Err(e) => {
                return Err(e);
            },
        }
        proof {
            let rules = spec_comment_rules();
            let m = *obj;
            assert(rules[6].name@ == ("author")@ && rules[6].required && rules[6].kind is Str);
            assert(obj_fields(m).contains(("author")@));
            assert(spec_value_fits(obj_field(m, ("author")@), FieldKind::Str, false));
            assert(json_is_string(obj_field(m, ("author")@)));
            assert(rules[22].name@ == ("body")@ && rules[22].required && rules[22].kind is Str);
            assert(obj_fields(m).contains(("body")@));
            assert(spec_value_fits(obj_field(m, ("body")@), FieldKind::Str, false));
            assert(json_is_string(obj_field(m, ("body")@)));
            assert(rules[33].name@ == ("created_utc")@ && rules[33].required && rules[33].kind is Stamp);
            assert(obj_fields(m).contains(("created_utc")@));
            assert(spec_value_fits(obj_field(m, ("created_utc")@), FieldKind::Stamp, false));
            assert(json_is_number(obj_field(m, ("created_utc")@)) || json_is_string(obj_field(m, ("created_utc")@)) || json_is_bool(obj_field(m, ("created_utc")@)));
            assert(rules[37].name@ == ("edited")@ && rules[37].required && rules[37].kind is Stamp);
            assert(obj_fields(m).contains(("edited")@));
            assert(spec_value_fits(obj_field(m, ("edited")@), FieldKind::Stamp, false));
            assert(json_is_number(obj_field(m, ("edited")@)) || json_is_string(obj_field(m, ("edited")@)) || json_is_bool(obj_field(m, ("edited")@)));
            assert(rules[40].name@ == ("gilded")@ && rules[40].required && rules[40].kind is I64);
            assert(obj_fields(m).contains(("gilded")@));
            assert(spec_value_fits(obj_field(m, ("gilded")@), FieldKind::I64, false));
            assert(json_i64(obj_field(m, ("gilded")@)) is Some);
            assert(rules[42].name@ == ("id")@ && rules[42].required && rules[42].kind is Str);
            assert(obj_fields(m).contains(("id")@));
            assert(spec_value_fits(obj_field(m, ("id")@), FieldKind::Str, false));
            assert(json_is_string(obj_field(m, ("id")@)));
            assert(rules[45].name@ == ("link_id")@ && rules[45].required && rules[45].kind is Str);
            assert(obj_fields(m).contains(("link_id")@));
            assert(spec_value_fits(obj_field(m, ("link_id")@), FieldKind::Str, false));
            assert(json_is_string(obj_field(m, ("link_id")@)));
            assert(rules[56].name@ == ("parent_id")@ && !rules[56].required && rules[56].kind is Ref);
            assert(obj_fields(m).contains(("parent_id")@) ==> spec_value_fits(obj_field(m, ("parent_id")@), FieldKind::Ref, true));
            assert(obj_fields(m).contains(("parent_id")@) ==> (json_is_null(obj_field(m, ("parent_id")@)) || json_is_string(obj_field(m, ("parent_id")@)) || json_i64(obj_field(m, ("parent_id")@)) is Some));
            assert(rules[57].name@ == ("permalink")@ && !rules[57].required && rules[57].kind is Str);
            assert(obj_fields(m).contains(("permalink")@) ==> spec_value_fits(obj_field(m, ("permalink")@), FieldKind::Str, true));
            assert(obj_fields(m).contains(("permalink")@) ==> (json_is_null(obj_field(m, ("permalink")@)) || json_is_string(obj_field(m, ("permalink")@))));
            assert(rules[61].name@ == ("retrieved_on")@ && rules[61].required && rules[61].kind is Stamp);
            assert(obj_fields(m).contains(("retrieved_on")@));
            assert(spec_value_fits(obj_field(m, ("retrieved_on")@), FieldKind::Stamp, false));
            assert(json_is_number(obj_field(m, ("retrieved_on")@)) || json_is_string(obj_field(m, ("retrieved_on")@)) || json_is_bool(obj_field(m, ("retrieved_on")@)));
            assert(rules[64].name@ == ("score")@ && rules[64].required && rules[64].kind is I64);
            assert(obj_fields(m).contains(("score")@));
            assert(spec_value_fits(obj_field(m, ("score")@), FieldKind::I64, false));
            assert(json_i64(obj_field(m, ("score")@)) is Some);
            assert(rules[68].name@ == ("subreddit")@ && rules[68].required && rules[68].kind is Str);
            assert(obj_fields(m).contains(("subreddit")@));
            assert(spec_value_fits(obj_field(m, ("subreddit")@), FieldKind::Str, false));
            assert(json_is_string(obj_field(m, ("subreddit")@)));
            assert(rules[69].name@ == ("subreddit_id")@ && rules[69].required && rules[69].kind is Str);
            assert(obj_fields(m).contains(("subreddit_id")@));
            assert(spec_value_fits(obj_field(m, ("subreddit_id")@), FieldKind::Str, false));
            assert(json_is_string(obj_field(m, ("subreddit_id")@)));
        }
        let author = match take_string(obj, "author") {
            Ok(s) => s,
            Err(e) => return Err(e),
        };
        let body = match take_string(obj, "body") {
            Ok(s) => s,
            Err(e) => return Err(e),
        };
        let created_utc = match take_stamp(obj, "created_utc") {
            Ok(t) => t,
            Err(e) => return Err(e),
        };
        let edited = match take_stamp(obj, "edited") {
            Ok(t) => t,
            Err(e) => return Err(e),
        };
        let gilded = match take_i64(obj, "gilded") {
            Ok(n) => n,
            Err(e) => return Err(e),
        };
        let id = match take_string(obj, "id") {
            Ok(s) => s,
            Err(e) => return Err(e),
        };
        let link_id = match take_string(obj, "link_id") {
            Ok(s) => s,
            Err(e) => return Err(e),
        };
        let parent_id = match opt_parent(obj, "parent_id") {
            Ok(p) => p,
            Err(e) => return Err(e),
        };
        let permalink = match opt_string(obj, "permalink") {
            Ok(s) => s,
            Err(e) => return Err(e),
        };
        let retrieved_on = match take_stamp(obj, "retrieved_on") {
            Ok(t) => t,
            Err(e) => return Err(e),
        };
        let score = match take_i64(obj, "score") {
            Ok(n) => n,
            Err(e) => return Err(e),
        };
        let subreddit = match take_string(obj, "subreddit") {
            Ok(s) => s,
            Err(e) => return Err(e),
        };
        let subreddit_id = match take_string(obj, "subreddit_id") {
            Ok(s) => s,
            Err(e) => return Err(e),
        };
        Ok(
            RedditComment {
                author,
                body,
                created_utc,
                edited,
                gilded,
                id,
                link_id,
                parent_id,
                permalink,
                retrieved_on,
                score,
                subreddit,
                subreddit_id,
            },
        )
    }
}

} // verus!
