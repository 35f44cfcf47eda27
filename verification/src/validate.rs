//! Response envelopes and the shape validator for read-only endpoints.
//!
//! The exchange answers with `{ "error": [...], "result": ... }` where
//! `result` is a loosely-typed mapping keyed by a symbol not known until
//! response time. The library models what the validator reads of such a
//! value: each field's JSON shape, as a plain enum. The I/O layer converts a
//! decoded JSON document into these types and hands them in.
use crate::errors::KapiError;
use crate::strutil::str_eq;
use vstd::prelude::*;

verus! {

/// The JSON shape of one field of a loosely-typed response value.
#[derive(Clone, Copy, PartialEq, Eq, Structural, Debug)]
pub enum JsonKind {
    Null,
    Boolean,
    Number,
    Text,
    Array,
    Object,
}

/// The `result` payload of the server-time endpoint.
pub struct ServerTime {
    pub unixtime: i64,
    pub rfc1123: String,
}

/// Envelope of the server-time endpoint.
pub struct ServerTimeResponse {
    pub error: Vec<String>,
    pub result: Option<ServerTime>,
}

/// Envelope of the open-orders endpoint: the payload mapping is opaque, only
/// each entry's shape is kept.
pub struct OpenOrdersResponse {
    pub error: Vec<String>,
    pub result: Option<Vec<(String, JsonKind)>>,
}

/// Envelope of the ticker endpoint: `result` maps each symbol to its fields'
/// shapes.
pub struct TickerInfoResponse {
    pub error: Vec<String>,
    pub result: Option<Vec<(String, Vec<(String, JsonKind)>)>>,
}

/// The shape of the field named `name`: the first entry of that name, or
/// `Null` when the field is absent (as indexing a JSON object reports it).
pub open spec fn field_kind(fields: Seq<(String, JsonKind)>, name: Seq<char>) -> JsonKind
    decreases fields.len(),
{
    if fields.len() == 0 {
        JsonKind::Null
    } else if fields[0].0@ == name {
        fields[0].1
    } else {
        field_kind(fields.drop_first(), name)
    }
}

/// The first field, in the documented order, whose shape is not the expected
/// one: `a, b, c, v, p, t, l, h` must be arrays and `o` a string.
pub open spec fn first_bad_field(fields: Seq<(String, JsonKind)>) -> Option<Seq<char>> {
    if field_kind(fields, "a"@) != JsonKind::Array {
        Option::Some("a"@)
    } else if field_kind(fields, "b"@) != JsonKind::Array {
        Option::Some("b"@)
    } else if field_kind(fields, "c"@) != JsonKind::Array {
        Option::Some("c"@)
    } else if field_kind(fields, "v"@) != JsonKind::Array {
        Option::Some("v"@)
    } else if field_kind(fields, "p"@) != JsonKind::Array {
        Option::Some("p"@)
    } else if field_kind(fields, "t"@) != JsonKind::Array {
        Option::Some("t"@)
    } else if field_kind(fields, "l"@) != JsonKind::Array {
        Option::Some("l"@)
    } else if field_kind(fields, "h"@) != JsonKind::Array {
        Option::Some("h"@)
    } else if field_kind(fields, "o"@) != JsonKind::Text {
        Option::Some("o"@)
    } else {
        Option::None
    }
}

/// A ticker entry has the expected shape when no field is missing or
/// malformed.
pub open spec fn entry_shape_ok(fields: Seq<(String, JsonKind)>) -> bool {
    first_bad_field(fields) is None
}

/// The shape of the field named `name` among `fields`.
fn lookup_kind(fields: &Vec<(String, JsonKind)>, name: &str) -> (k: JsonKind)
    ensures
        k == field_kind(fields@, name@),
{
    proof {
        assert(fields@.skip(0) =~= fields@);
    }
    let mut i: usize = 0;
    while i < fields.len()
        invariant
            i <= fields@.len(),
            field_kind(fields@, name@) == field_kind(fields@.skip(i as int), name@),
        decreases fields@.len() - i,
    {
        let p = &fields[i];
        proof {
            assert(fields@.skip(i as int)[0] == fields@[i as int]);
            assert(fields@.skip(i as int).drop_first() =~= fields@.skip(i as int + 1));
        }
        if str_eq(p.0.as_str(), name) {
            return p.1;
        }
        i += 1;
    }
    JsonKind::Null
}

/// A copy of a string vector; `String::clone` keeps each element equal.
fn clone_strings(v: &Vec<String>) -> (r: Vec<String>)
    ensures
        r@ == v@,
{
    let mut r: Vec<String> = Vec::new();
    let mut i: usize = 0;
    while i < v.len()
        invariant
            i <= v@.len(),
            r@ =~= v@.take(i as int),
        decreases v@.len() - i,
    {
        r.push(v[i].clone());
        i += 1;
    }
    proof {
        assert(v@.take(v@.len() as int) =~= v@);
    }
    r
}

/// The shape validator for the ticker endpoint. A non-empty `error` list
/// fails with `ApiError` before any shape is inspected; then `result` must be
/// present with exactly one non-empty symbol whose fields have the expected
/// shapes, and the symbol is returned.
pub fn validate_ticker_repsonse(t: &TickerInfoResponse) -> (r: Result<String, KapiError>)
    ensures
        t.error@.len() > 0 ==> (r matches Err(e) && e matches KapiError::ApiError(codes)
            && codes@ == t.error@),
        t.error@.len() == 0 ==> match t.result {
            Option::None => r matches Err(e) && (e matches KapiError::UnexpectedShape(f) && f@
                == "result"@),
            Option::Some(entries) => if entries@.len() != 1 {
                r matches Err(e) && (e matches KapiError::UnexpectedShape(f) && f@ == "result"@)
            } else if entries@[0].0@.len() == 0 {
                r matches Err(e) && (e matches KapiError::UnexpectedShape(f) && f@ == "symbol"@)
            } else {
                match first_bad_field(entries@[0].1@) {
                    Option::Some(bad) => r matches Err(e) && (e matches KapiError::UnexpectedShape(
                        f,
                    ) && f@ == bad),
                    Option::None => r matches Ok(sym) && sym@ == entries@[0].0@,
                }
            },
        },
{
    if t.error.len() > 0 {
        return Err(KapiError::ApiError(clone_strings(&t.error)));
    }
    match &t.result {
        Option::None => Err(KapiError::UnexpectedShape("result".to_owned())),
        Option::Some(entries) => {
            if entries.len() != 1 {
                return Err(KapiError::UnexpectedShape("result".to_owned()));
            }
            let entry = &entries[0];
            if entry.0.as_str().unicode_len() == 0 {
                return Err(KapiError::UnexpectedShape("symbol".to_owned()));
            }
            let fields = &entry.1;
            if !(matches!(lookup_kind(fields, "a"), JsonKind::Array)) {
                return Err(KapiError::UnexpectedShape("a".to_owned()));
            }
            if !(matches!(lookup_kind(fields, "b"), JsonKind::Array)) {
                return Err(KapiError::UnexpectedShape("b".to_owned()));
            }
            if !(matches!(lookup_kind(fields, "c"), JsonKind::Array)) {
                return Err(KapiError::UnexpectedShape("c".to_owned()));
            }
            if !(matches!(lookup_kind(fields, "v"), JsonKind::Array)) {
                return Err(KapiError::UnexpectedShape("v".to_owned()));
            }
            if !(matches!(lookup_kind(fields, "p"), JsonKind::Array)) {
                return Err(KapiError::UnexpectedShape("p".to_owned()));
            }
            if !(matches!(lookup_kind(fields, "t"), JsonKind::Array)) {
                return Err(KapiError::UnexpectedShape("t".to_owned()));
            }
            if !(matches!(lookup_kind(fields, "l"), JsonKind::Array)) {
                return Err(KapiError::UnexpectedShape("l".to_owned()));
            }
            if !(matches!(lookup_kind(fields, "h"), JsonKind::Array)) {
                return Err(KapiError::UnexpectedShape("h".to_owned()));
            }
            if !(matches!(lookup_kind(fields, "o"), JsonKind::Text)) {
                return Err(KapiError::UnexpectedShape("o".to_owned()));
            }
            Ok(entry.0.clone())
        },
    }
}

/// The open-orders outcome check: the call succeeded exactly when the
/// envelope's `error` list is empty; otherwise the codes are surfaced
/// verbatim as `ApiError`.
pub fn check_open_orders_response(o: &OpenOrdersResponse) -> (r: Result<(), KapiError>)
    ensures
        r is Ok <==> o.error@.len() == 0,
        r matches Err(e) ==> e matches KapiError::ApiError(codes) && codes@ == o.error@,
{
    if o.error.len() > 0 {
        return Err(KapiError::ApiError(clone_strings(&o.error)));
    }
    Ok(())
}

} // verus!
