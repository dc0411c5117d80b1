//! The crate's own JSON document type, and the trusted boundary to the
//! reference JSON parser.
//!
//! Inbound protocol lines are parsed by `serde_json` behind a single
//! trusted wrapper; everything read out of the parsed document — field
//! lookup, typed accessors with default fallback — is verified code over
//! the crate's own `Json` type.
use vstd::prelude::*;

verus! {

/// A decoded JSON number, as the reference parser reports it: its
/// canonical decimal text, and its value as a signed or unsigned
/// integer where it is one.
pub struct JsonNum {
    /// Canonical decimal rendering of the numeric value.
    pub text: String,
    /// The value as an `i64`, where the number is an integer in range.
    pub int_val: Option<i64>,
    /// The value as a `u64`, where the number is a non-negative integer in range.
    pub uint_val: Option<u64>,
}

/// One parsed JSON document. Object members keep the order in which the
/// parser reports them; member names within one object are distinct.
pub enum Json {
    Null,
    Bool(bool),
    Num(JsonNum),
    Str(String),
    Arr(Vec<Json>),
    Obj(Vec<(String, Json)>),
}

/// Relies on serde_json::Value as an opaque carrier: the parser's own
/// document type, seen only inside the trusted boundary.
#[verifier::external_type_specification]
#[verifier::external_body]
pub struct ExValue(serde_json::Value);

/// What the reference JSON parser returns on given text: `None` where
/// the text is not one well-formed JSON document, otherwise the parsed
/// document. The result is a function of the text alone.
pub uninterp spec fn json_parse(s: Seq<char>) -> Option<Json>;

/// Relies on serde_json::Value and its accessors: carries each variant
/// of a parsed document over to the crate's own JSON type, one arm per
/// variant, keeping serde_json::Number's decimal text (its `Display`)
/// and its `as_i64` / `as_u64` integer views.
#[verifier::external_body]
fn json_from_value(v: serde_json::Value) -> Json {
    match v {
        serde_json::Value::Null => Json::Null,
        serde_json::Value::Bool(b) => Json::Bool(b),
        serde_json::Value::Number(n) => Json::Num(JsonNum {
            text: n.to_string(),
            int_val: n.as_i64(),
            uint_val: n.as_u64(),
        }),
        serde_json::Value::String(s) => Json::Str(s),
        serde_json::Value::Array(a) => Json::Arr(a.into_iter().map(json_from_value).collect()),
        serde_json::Value::Object(m) => Json::Obj(
            m.into_iter().map(|(k, x)| (k, json_from_value(x))).collect(),
        ),
    }
}

/// Relies on serde_json::from_str: parses one JSON document from the
/// text, or fails where the parser rejects it — malformed text, or a
/// document past the parser's own nesting and number-range limits; the
/// outcome depends on the text alone.
#[verifier::external_body]
pub(crate) fn parse_json(line: &str) -> (r: Option<Json>)
    ensures
        r == json_parse(line@),
{
    match serde_json::from_str::<serde_json::Value>(line) {
        Ok(v) => Some(json_from_value(v)),
        Err(_) => None,
    }
}

/// Character-by-character string comparison, so that equality of the
/// string views is established without trusting a derived impl.
pub fn str_eq_chk(a: &str, b: &str) -> (r: bool)
    ensures
        r == (a@ == b@),
{
    let an = a.unicode_len();
    let bn = b.unicode_len();
    if an != bn {
        assert(a@ != b@) by {
            assert(a@.len() != b@.len());
        }
        return false;
    }
    let mut i: usize = 0;
    while i < an
        invariant
            i <= an,
            an == a@.len(),
            an == b@.len(),
            forall|k: int| 0 <= k < i ==> a@[k] == b@[k],
        decreases an - i,
    {
        if a.get_char(i) != b.get_char(i) {
            assert(a@[i as int] != b@[i as int]);
            return false;
        }
        i += 1;
    }
    proof {
        assert(a@ =~= b@);
    }
    true
}

/// The member of an object's field list named `name`, first occurrence;
/// `None` where no member has that name.
pub open spec fn obj_get(fields: Seq<(String, Json)>, name: Seq<char>) -> Option<Json>
    decreases fields.len(),
{
    if fields.len() == 0 {
        None
    } else if fields[0].0@ == name {
        Some(fields[0].1)
    } else {
        obj_get(fields.drop_first(), name)
    }
}

/// The field of a document under `name`: a lookup where the document is
/// an object, `None` otherwise — non-objects have no fields.
pub open spec fn field_of(j: Json, name: Seq<char>) -> Option<Json> {
    match j {
        Json::Obj(fields) => obj_get(fields@, name),
        _ => None,
    }
}

/// Field lookup on a document, matching `field_of` exactly.
pub fn get_field<'a>(j: &'a Json, name: &str) -> (r: Option<&'a Json>)
    ensures
        match r {
            Some(f) => field_of(*j, name@) == Some(*f),
            None => field_of(*j, name@) is None,
        },
{
    match j {
        Json::Obj(fields) => {
            let n = fields.len();
            let mut i: usize = 0;
            proof {
                assert(fields@.skip(0) =~= fields@);
            }
            while i < n
                invariant
                    i <= n,
                    n == fields@.len(),
                    obj_get(fields@.skip(i as int), name@) == obj_get(fields@, name@),
                    field_of(*j, name@) == obj_get(fields@, name@),
                decreases n - i,
            {
                let hit = str_eq_chk(fields[i].0.as_str(), name);
                proof {
                    assert(fields@.skip(i as int)[0] == fields@[i as int]);
                    assert(fields@.skip(i as int).drop_first() =~= fields@.skip(i as int + 1));
                }
                if hit {
                    proof {
                        assert(obj_get(fields@.skip(i as int), name@) == Some(
                            fields@[i as int].1,
                        ));
                        assert(field_of(*j, name@) == obj_get(fields@, name@));
                    }
                    let f = &fields[i];
                    assert(*f == fields@[i as int]);
                    return Some(&f.1);
                }
                i += 1;
            }
            assert(fields@.skip(n as int) =~= Seq::<(String, Json)>::empty());
            None
        },
        _ => None,
    }
}

/// A field's boolean value, or `default` where the field is absent or
/// not a boolean.
pub open spec fn bool_or(f: Option<Json>, default: bool) -> bool {
    match f {
        Some(Json::Bool(b)) => b,
        _ => default,
    }
}

/// A field's numeric decimal text, or `default` where the field is
/// absent or not a number.
pub open spec fn num_text_or(f: Option<Json>, default: Seq<char>) -> Seq<char> {
    match f {
        Some(Json::Num(n)) => n.text@,
        _ => default,
    }
}

/// A field's value as an `i64`, or `default` where the field is absent,
/// not a number, or not an integer representable as `i64`.
pub open spec fn i64_or(f: Option<Json>, default: i64) -> i64 {
    match f {
        Some(Json::Num(n)) => match n.int_val {
            Some(v) => v,
            None => default,
        },
        _ => default,
    }
}

/// A field's string value, or `default` where the field is absent or
/// not a string.
pub open spec fn str_or(f: Option<Json>, default: Seq<char>) -> Seq<char> {
    match f {
        Some(Json::Str(s)) => s@,
        _ => default,
    }
}

/// Reads a boolean field with a default, matching `bool_or`.
pub fn field_bool(j: &Json, name: &str, default: bool) -> (r: bool)
    ensures
        r == bool_or(field_of(*j, name@), default),
{
    match get_field(j, name) {
        Some(f) => match f {
            Json::Bool(b) => *b,
            _ => default,
        },
        None => default,
    }
}

/// Reads a numeric field's decimal text with a default, matching
/// `num_text_or`.
pub fn field_num_text(j: &Json, name: &str, default: &str) -> (r: String)
    ensures
        r@ == num_text_or(field_of(*j, name@), default@),
{
    match get_field(j, name) {
        Some(f) => match f {
            Json::Num(n) => n.text.clone(),
            _ => default.to_owned(),
        },
        None => default.to_owned(),
    }
}

/// Reads an integer field with a default, matching `i64_or`.
pub fn field_i64(j: &Json, name: &str, default: i64) -> (r: i64)
    ensures
        r == i64_or(field_of(*j, name@), default),
{
    match get_field(j, name) {
        Some(f) => match f {
            Json::Num(n) => match n.int_val {
                Some(v) => v,
                None => default,
            },
            _ => default,
        },
        None => default,
    }
}

/// Reads a string field with a default, matching `str_or`.
pub fn field_str(j: &Json, name: &str, default: &str) -> (r: String)
    ensures
        r@ == str_or(field_of(*j, name@), default@),
{
    match get_field(j, name) {
        Some(f) => match f {
            Json::Str(s) => s.clone(),
            _ => default.to_owned(),
        },
        None => default.to_owned(),
    }
}

} // verus!
