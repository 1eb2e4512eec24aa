//! Decoding one archive line into a raw submission. The field table lists
//! every key the archive eras are known to carry; a line with any other
//! key, a missing required field, or an intolerable shape is a decode
//! error, which is fatal to the run. What the decoder accepts and every
//! field it hands back are functions of the line's text, through the
//! named content of its parse.

use crate::decode::{
    check_fields, error_names_decode_failure, opt_bool, opt_string, spec_fields_ok,
    spec_value_fits, stamp_matches, take_bool, take_i32, take_i64, take_stamp, take_string,
    DecodeError, FieldKind, FieldRule,
};
use crate::json::{
    json_bool, json_err_col, json_err_line, json_err_msg, json_i64, json_is_bool, json_is_null,
    json_is_number, json_is_object, json_is_string, json_obj, json_parses, json_str, json_value,
    obj_field, obj_fields, parse_json, val_object,
};
use crate::raw_object::AnyTimestamp;
use vstd::prelude::*;

verus! {

/// The fields of a submission line that the pipeline goes on to read.
/// The unread fields are still validated against the table below.
pub struct RedditSubmission {
    pub author: String,
    pub created_utc: AnyTimestamp,
    pub domain: Option<String>,
    pub edited: AnyTimestamp,
    pub id: String,
    pub is_self: bool,
    pub num_comments: i32,
    pub permalink: String,
    pub retrieved_on: AnyTimestamp,
    pub score: i64,
    pub selftext: String,
    pub stickied: Option<bool>,
    pub subreddit: String,
    pub title: String,
    pub url: String,
}

/// Every key a submission line may carry, with its tolerated shape.
pub open spec fn spec_submission_rules() -> Seq<FieldRule> {
    seq![
        FieldRule { name: "archived", kind: FieldKind::Bool, required: false },
        FieldRule { name: "author", kind: FieldKind::Str, required: true },
        FieldRule { name: "author_flair_css_class", kind: FieldKind::Str, required: false },
        FieldRule { name: "author_flair_text", kind: FieldKind::Str, required: false },
        FieldRule { name: "brand_safe", kind: FieldKind::Bool, required: false },
        FieldRule { name: "contest_mode", kind: FieldKind::Bool, required: false },
        FieldRule { name: "created_utc", kind: FieldKind::Stamp, required: true },
        FieldRule { name: "distinguished", kind: FieldKind::Str, required: false },
        FieldRule { name: "domain", kind: FieldKind::Str, required: false },
        FieldRule { name: "edited", kind: FieldKind::Stamp, required: true },
        FieldRule { name: "gilded", kind: FieldKind::I32, required: false },
        FieldRule { name: "hidden", kind: FieldKind::Bool, required: false },
        FieldRule { name: "hide_score", kind: FieldKind::Bool, required: false },
        FieldRule { name: "id", kind: FieldKind::Str, required: true },
        FieldRule { name: "is_crosspostable", kind: FieldKind::Bool, required: false },
        FieldRule { name: "is_reddit_media_domain", kind: FieldKind::Bool, required: false },
        FieldRule { name: "is_self", kind: FieldKind::Bool, required: true },
        FieldRule { name: "is_video", kind: FieldKind::Bool, required: false },
        FieldRule { name: "link_flair_css_class", kind: FieldKind::Str, required: false },
        FieldRule { name: "link_flair_text", kind: FieldKind::Str, required: false },
        FieldRule { name: "locked", kind: FieldKind::Bool, required: false },
        FieldRule { name: "media", kind: FieldKind::Any, required: true },
        FieldRule { name: "media_embed", kind: FieldKind::Any, required: true },
        FieldRule { name: "num_comments", kind: FieldKind::I32, required: true },
        FieldRule { name: "num_crossposts", kind: FieldKind::I32, required: false },
        FieldRule { name: "over_18", kind: FieldKind::Bool, required: true },
        FieldRule { name: "parent_whitelist_status", kind: FieldKind::Str, required: false },
        FieldRule { name: "permalink", kind: FieldKind::Str, required: true },
        FieldRule { name: "pinned", kind: FieldKind::Bool, required: false },
        FieldRule { name: "retrieved_on", kind: FieldKind::Stamp, required: true },
        FieldRule { name: "score", kind: FieldKind::I64, required: true },
        FieldRule { name: "secure_media", kind: FieldKind::Any, required: false },
        FieldRule { name: "secure_media_embed", kind: FieldKind::Any, required: false },
        FieldRule { name: "selftext", kind: FieldKind::Str, required: true },
        FieldRule { name: "spoiler", kind: FieldKind::Bool, required: false },
        FieldRule { name: "stickied", kind: FieldKind::Bool, required: false },
        FieldRule { name: "subreddit", kind: FieldKind::Str, required: true },
        FieldRule { name: "subreddit_id", kind: FieldKind::Str, required: false },
        FieldRule { name: "subreddit_type", kind: FieldKind::Str, required: false },
        FieldRule { name: "suggested_sort", kind: FieldKind::Str, required: false },
        FieldRule { name: "thumbnail", kind: FieldKind::Str, required: false },
        FieldRule { name: "thumbnail_height", kind: FieldKind::U64, required: false },
        FieldRule { name: "thumbnail_width", kind: FieldKind::U64, required: false },
        FieldRule { name: "title", kind: FieldKind::Str, required: true },
        FieldRule { name: "url", kind: FieldKind::Str, required: true },
        FieldRule { name: "whitelist_status", kind: FieldKind::Str, required: false },
    ]
}

pub(crate) fn submission_rules() -> (r: Vec<FieldRule>)
    ensures
        r@ == spec_submission_rules(),
{
    let mut t: Vec<FieldRule> = Vec::new();
    t.push(FieldRule { name: "archived", kind: FieldKind::Bool, required: false });
    t.push(FieldRule { name: "author", kind: FieldKind::Str, required: true });
    t.push(FieldRule { name: "author_flair_css_class", kind: FieldKind::Str, required: false });
    t.push(FieldRule { name: "author_flair_text", kind: FieldKind::Str, required: false });
    t.push(FieldRule { name: "brand_safe", kind: FieldKind::Bool, required: false });
    t.push(FieldRule { name: "contest_mode", kind: FieldKind::Bool, required: false });
    t.push(FieldRule { name: "created_utc", kind: FieldKind::Stamp, required: true });
    t.push(FieldRule { name: "distinguished", kind: FieldKind::Str, required: false });
    t.push(FieldRule { name: "domain", kind: FieldKind::Str, required: false });
    t.push(FieldRule { name: "edited", kind: FieldKind::Stamp, required: true });
    t.push(FieldRule { name: "gilded", kind: FieldKind::I32, required: false });
    t.push(FieldRule { name: "hidden", kind: FieldKind::Bool, required: false });
    t.push(FieldRule { name: "hide_score", kind: FieldKind::Bool, required: false });
    t.push(FieldRule { name: "id", kind: FieldKind::Str, required: true });
    t.push(FieldRule { name: "is_crosspostable", kind: FieldKind::Bool, required: false });
    t.push(FieldRule { name: "is_reddit_media_domain", kind: FieldKind::Bool, required: false });
    t.push(FieldRule { name: "is_self", kind: FieldKind::Bool, required: true });
    t.push(FieldRule { name: "is_video", kind: FieldKind::Bool, required: false });
    t.push(FieldRule { name: "link_flair_css_class", kind: FieldKind::Str, required: false });
    t.push(FieldRule { name: "link_flair_text", kind: FieldKind::Str, required: false });
    t.push(FieldRule { name: "locked", kind: FieldKind::Bool, required: false });
    t.push(FieldRule { name: "media", kind: FieldKind::Any, required: true });
    t.push(FieldRule { name: "media_embed", kind: FieldKind::Any, required: true });
    t.push(FieldRule { name: "num_comments", kind: FieldKind::I32, required: true });
    t.push(FieldRule { name: "num_crossposts", kind: FieldKind::I32, required: false });
    t.push(FieldRule { name: "over_18", kind: FieldKind::Bool, required: true });
    t.push(FieldRule { name: "parent_whitelist_status", kind: FieldKind::Str, required: false });
    t.push(FieldRule { name: "permalink", kind: FieldKind::Str, required: true });
    t.push(FieldRule { name: "pinned", kind: FieldKind::Bool, required: false });
    t.push(FieldRule { name: "retrieved_on", kind: FieldKind::Stamp, required: true });
    t.push(FieldRule { name: "score", kind: FieldKind::I64, required: true });
    t.push(FieldRule { name: "secure_media", kind: FieldKind::Any, required: false });
    t.push(FieldRule { name: "secure_media_embed", kind: FieldKind::Any, required: false });
    t.push(FieldRule { name: "selftext", kind: FieldKind::Str, required: true });
    t.push(FieldRule { name: "spoiler", kind: FieldKind::Bool, required: false });
    t.push(FieldRule { name: "stickied", kind: FieldKind::Bool, required: false });
    t.push(FieldRule { name: "subreddit", kind: FieldKind::Str, required: true });
    t.push(FieldRule { name: "subreddit_id", kind: FieldKind::Str, required: false });
    t.push(FieldRule { name: "subreddit_type", kind: FieldKind::Str, required: false });
    t.push(FieldRule { name: "suggested_sort", kind: FieldKind::Str, required: false });
    t.push(FieldRule { name: "thumbnail", kind: FieldKind::Str, required: false });
    t.push(FieldRule { name: "thumbnail_height", kind: FieldKind::U64, required: false });
    t.push(FieldRule { name: "thumbnail_width", kind: FieldKind::U64, required: false });
    t.push(FieldRule { name: "title", kind: FieldKind::Str, required: true });
    t.push(FieldRule { name: "url", kind: FieldKind::Str, required: true });
    t.push(FieldRule { name: "whitelist_status", kind: FieldKind::Str, required: false });
    proof {
        assert(t@ =~= spec_submission_rules());
    }
    t
}

/// The text decodes as a submission: it parses, the value is an object,
/// and the object holds against the field table.
pub open spec fn decodable_submission(s: Seq<char>) -> bool {
    &&& json_parses(s)
    &&& json_is_object(json_value(s))
    &&& spec_fields_ok(json_obj(json_value(s)), spec_submission_rules())
}

/// The record's every field equals the named content of the parsed
/// object's matching field.
pub open spec fn submission_matches(
    rec: RedditSubmission,
    m: serde_json::Map<String, serde_json::Value>,
) -> bool {
    &&& rec.author@ == json_str(obj_field(m, ("author")@))
    &&& stamp_matches(rec.created_utc, obj_field(m, ("created_utc")@))
    &&& (match rec.domain {
        Some(d) => obj_fields(m).contains(("domain")@) && !json_is_null(obj_field(m, ("domain")@))
            && d@ == json_str(obj_field(m, ("domain")@)),
        None => !obj_fields(m).contains(("domain")@) || json_is_null(obj_field(m, ("domain")@)),
    })
    &&& stamp_matches(rec.edited, obj_field(m, ("edited")@))
    &&& rec.id@ == json_str(obj_field(m, ("id")@))
    &&& rec.is_self == json_bool(obj_field(m, ("is_self")@))
    &&& json_i64(obj_field(m, ("num_comments")@)) == Some(rec.num_comments as i64)
    &&& rec.permalink@ == json_str(obj_field(m, ("permalink")@))
    &&& stamp_matches(rec.retrieved_on, obj_field(m, ("retrieved_on")@))
    &&& json_i64(obj_field(m, ("score")@)) == Some(rec.score)
    &&& rec.selftext@ == json_str(obj_field(m, ("selftext")@))
    &&& (match rec.stickied {
        Some(b) => obj_fields(m).contains(("stickied")@) && !json_is_null(
            obj_field(m, ("stickied")@),
        ) && b == json_bool(obj_field(m, ("stickied")@)),
        None => !obj_fields(m).contains(("stickied")@) || json_is_null(
            obj_field(m, ("stickied")@),
        ),
    })
    &&& rec.subreddit@ == json_str(obj_field(m, ("subreddit")@))
    &&& rec.title@ == json_str(obj_field(m, ("title")@))
    &&& rec.url@ == json_str(obj_field(m, ("url")@))
}

impl RedditSubmission {
    /// Decodes one line (its NUL padding already stripped): accepts
    /// exactly the texts `decodable_submission` describes, hands back the
    /// record whose fields are the line's named content, and reports a
    /// parse failure at its position. Any failure is fatal upstream: an
    /// unknown shape means an unhandled archive variant.
    pub fn decode(line: &str) -> (r: Result<RedditSubmission, DecodeError>)
        ensures
            r is Ok <==> decodable_submission(line@),
            (r matches Ok(rec) ==> submission_matches(rec, json_obj(json_value(line@)))),
            (r matches Err(e) ==> error_names_decode_failure(e, line@, spec_submission_rules())),
    {
        let parsed = match parse_json(line) {
            Ok(v) => v,
            Err(e) => {
                return Err(
                    DecodeError::Syntax { line: e.line, column: e.column, message: e.message },
                );
            },
        };
        let obj = match val_object(&parsed) {
            Some(m) => m,
            None => {
                return Err(DecodeError::NotObject);
            },
        };
        match check_fields(obj, &submission_rules()) {
            Ok(()) => {},
            Err(e) => {
                return Err(e);
            },
        }
        proof {
            let rules = spec_submission_rules();
            let m = *obj;
            assert(rules[1].name@ == ("author")@ && rules[1].required && rules[1].kind is Str);
            assert(obj_fields(m).contains(("author")@));
            assert(spec_value_fits(obj_field(m, ("author")@), FieldKind::Str, false));
            assert(json_is_string(obj_field(m, ("author")@)));
            assert(rules[6].name@ == ("created_utc")@ && rules[6].required && rules[6].kind is Stamp);
            assert(obj_fields(m).contains(("created_utc")@));
            assert(spec_value_fits(obj_field(m, ("created_utc")@), FieldKind::Stamp, false));
            assert(json_is_number(obj_field(m, ("created_utc")@)) || json_is_string(obj_field(m, ("created_utc")@)) || json_is_bool(obj_field(m, ("created_utc")@)));
            assert(rules[8].name@ == ("domain")@ && !rules[8].required && rules[8].kind is Str);
            assert(obj_fields(m).contains(("domain")@) ==> spec_value_fits(obj_field(m, ("domain")@), FieldKind::Str, true));
            assert(obj_fields(m).contains(("domain")@) ==> (json_is_null(obj_field(m, ("domain")@)) || json_is_string(obj_field(m, ("domain")@))));
            assert(rules[9].name@ == ("edited")@ && rules[9].required && rules[9].kind is Stamp);
            assert(obj_fields(m).contains(("edited")@));
            assert(spec_value_fits(obj_field(m, ("edited")@), FieldKind::Stamp, false));
            assert(json_is_number(obj_field(m, ("edited")@)) || json_is_string(obj_field(m, ("edited")@)) || json_is_bool(obj_field(m, ("edited")@)));
            assert(rules[13].name@ == ("id")@ && rules[13].required && rules[13].kind is Str);
            assert(obj_fields(m).contains(("id")@));
            assert(spec_value_fits(obj_field(m, ("id")@), FieldKind::Str, false));
            assert(json_is_string(obj_field(m, ("id")@)));
            assert(rules[16].name@ == ("is_self")@ && rules[16].required && rules[16].kind is Bool);
            assert(obj_fields(m).contains(("is_self")@));
            assert(spec_value_fits(obj_field(m, ("is_self")@), FieldKind::Bool, false));
            assert(json_is_bool(obj_field(m, ("is_self")@)));
            assert(rules[23].name@ == ("num_comments")@ && rules[23].required && rules[23].kind is I32);
            assert(obj_fields(m).contains(("num_comments")@));
            assert(spec_value_fits(obj_field(m, ("num_comments")@), FieldKind::I32, false));
            assert(json_i64(obj_field(m, ("num_comments")@)) is Some && -2147483648 <= json_i64(obj_field(m, ("num_comments")@))->0 <= 2147483647);
            assert(rules[27].name@ == ("permalink")@ && rules[27].required && rules[27].kind is Str);
            assert(obj_fields(m).contains(("permalink")@));
            assert(spec_value_fits(obj_field(m, ("permalink")@), FieldKind::Str, false));
            assert(json_is_string(obj_field(m, ("permalink")@)));
            assert(rules[29].name@ == ("retrieved_on")@ && rules[29].required && rules[29].kind is Stamp);
            assert(obj_fields(m).contains(("retrieved_on")@));
            assert(spec_value_fits(obj_field(m, ("retrieved_on")@), FieldKind::Stamp, false));
            assert(json_is_number(obj_field(m, ("retrieved_on")@)) || json_is_string(obj_field(m, ("retrieved_on")@)) || json_is_bool(obj_field(m, ("retrieved_on")@)));
            assert(rules[30].name@ == ("score")@ && rules[30].required && rules[30].kind is I64);
            assert(obj_fields(m).contains(("score")@));
            assert(spec_value_fits(obj_field(m, ("score")@), FieldKind::I64, false));
            assert(json_i64(obj_field(m, ("score")@)) is Some);
            assert(rules[33].name@ == ("selftext")@ && rules[33].required && rules[33].kind is Str);
            assert(obj_fields(m).contains(("selftext")@));
            assert(spec_value_fits(obj_field(m, ("selftext")@), FieldKind::Str, false));
            assert(json_is_string(obj_field(m, ("selftext")@)));
            assert(rules[35].name@ == ("stickied")@ && !rules[35].required && rules[35].kind is Bool);
            assert(obj_fields(m).contains(("stickied")@) ==> spec_value_fits(obj_field(m, ("stickied")@), FieldKind::Bool, true));
            assert(obj_fields(m).contains(("stickied")@) ==> (json_is_null(obj_field(m, ("stickied")@)) || json_is_bool(obj_field(m, ("stickied")@))));
            assert(rules[36].name@ == ("subreddit")@ && rules[36].required && rules[36].kind is Str);
            assert(obj_fields(m).contains(("subreddit")@));
            assert(spec_value_fits(obj_field(m, ("subreddit")@), FieldKind::Str, false));
            assert(json_is_string(obj_field(m, ("subreddit")@)));
            assert(rules[43].name@ == ("title")@ && rules[43].required && rules[43].kind is Str);
            assert(obj_fields(m).contains(("title")@));
            assert(spec_value_fits(obj_field(m, ("title")@), FieldKind::Str, false));
            assert(json_is_string(obj_field(m, ("title")@)));
            assert(rules[44].name@ == ("url")@ && rules[44].required && rules[44].kind is Str);
            assert(obj_fields(m).contains(("url")@));
            assert(spec_value_fits(obj_field(m, ("url")@), FieldKind::Str, false));
            assert(json_is_string(obj_field(m, ("url")@)));
        }
        let author = match take_string(obj, "author") {
            Ok(s) => s,
            Err(e) => return Err(e),
        };
        let created_utc = match take_stamp(obj, "created_utc") {
            Ok(t) => t,
            Err(e) => return Err(e),
        };
        let domain = match opt_string(obj, "domain") {
            Ok(s) => s,
            Err(e) => return Err(e),
        };
        let edited = match take_stamp(obj, "edited") {
            Ok(t) => t,
            Err(e) => return Err(e),
        };
        let id = match take_string(obj, "id") {
            Ok(s) => s,
            Err(e) => return Err(e),
        };
        let is_self = match take_bool(obj, "is_self") {
            Ok(b) => b,
            Err(e) => return Err(e),
        };
        let num_comments = match take_i32(obj, "num_comments") {
            Ok(n) => n,
            Err(e) => return Err(e),
        };
        let permalink = match take_string(obj, "permalink") {
            Ok(s) => s,
            Err(e) => return Err(e),
        };
        let retrieved_on = match take_stamp(obj, "retrieved_on") {
            Ok(t) => t,
            Err(e) => return Err(e),
        };
        let score = match take_i64(obj, "score") {
            Ok(n) => n,
            Err(e) => return Err(e),
        };
        let selftext = match take_string(obj, "selftext") {
            Ok(s) => s,
            Err(e) => return Err(e),
        };
        let stickied = match opt_bool(obj, "stickied") {
            Ok(b) => b,
            Err(e) => return Err(e),
        };
        let subreddit = match take_string(obj, "subreddit") {
            Ok(s) => s,
            Err(e) => return Err(e),
        };
        let title = match take_string(obj, "title") {
            Ok(s) => s,
            Err(e) => return Err(e),
        };
        let url = match take_string(obj, "url") {
            Ok(s) => s,
            Err(e) => return Err(e),
        };
        Ok(
            RedditSubmission {
                author,
                created_utc,
                domain,
                edited,
                id,
                is_self,
                num_comments,
                permalink,
                retrieved_on,
                score,
                selftext,
                stickied,
                subreddit,
                title,
                url,
            },
        )
    }
}

} // verus!
