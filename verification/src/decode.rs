//! Decoding a raw document tree into the typed model.
//!
//! The decoder enforces the document schema field by field: enumerated
//! values (protocol, signature version, HTTP method, status code) are
//! validated at this boundary through explicit fallible conversions, an
//! unrecognized value is an error rather than a silent default, and every
//! documentation field is normalized on the way in. The `*_decodable` spec
//! functions state exactly which raw trees decode; each decoder returns
//! `Ok` precisely on those and relates its result to the input.

use vstd::prelude::*;
use vstd::string::StringExecFns;

use crate::errors::BindingError;
use crate::errors::DecodeError;
use crate::http_binding::method_of;
use crate::http_binding::status_valid;
use crate::http_binding::HttpBindings;
use crate::http_binding::HttpBindingsTemp;
use crate::http_binding::StatusCode;
use crate::markdown::html_to_md;
use crate::markdown::Markdown;
use crate::model::protocol_of;
use crate::model::signature_of;
use crate::model::BotocoreModel;
use crate::model::Location;
use crate::model::Metadata;
use crate::model::Operation;
use crate::model::Protocol;
use crate::model::Shape;
use crate::model::ShapeMember;
use crate::model::ShapeReference;
use crate::model::Signature;
use crate::raw::field_of;
use crate::raw::lemma_obj_lookup_push;
use crate::raw::obj_lookup;
use crate::raw::raw_eq;
use crate::raw::RawValue;
use crate::string_map::StringMap;

verus! {

// ---------------------------------------------------------------------------
// Field-shape helpers over raw nodes.
// ---------------------------------------------------------------------------
/// The text of a field that must hold a string.
pub open spec fn str_field(v: RawValue, name: Seq<char>) -> Option<Seq<char>> {
    match field_of(v, name) {
        Some(RawValue::Str(s)) => Some(s@),
        _ => None,
    }
}

/// The entries of a field that must hold an object.
pub open spec fn obj_field(v: RawValue, name: Seq<char>) -> Option<Seq<(String, RawValue)>> {
    match field_of(v, name) {
        Some(RawValue::Obj(es)) => Some(es@),
        _ => None,
    }
}

/// Whether an optional string field is acceptable: absent, null, or a string.
pub open spec fn opt_str_field_ok(v: RawValue, name: Seq<char>) -> bool {
    match field_of(v, name) {
        None => true,
        Some(RawValue::Null) => true,
        Some(RawValue::Str(_)) => true,
        _ => false,
    }
}

/// The text of an optional string field, when present and non-null.
pub open spec fn opt_str_field(v: RawValue, name: Seq<char>) -> Option<Seq<char>> {
    match field_of(v, name) {
        Some(RawValue::Str(s)) => Some(s@),
        _ => None,
    }
}

/// Whether an optional boolean field is acceptable: absent, null, or a boolean.
pub open spec fn opt_bool_field_ok(v: RawValue, name: Seq<char>) -> bool {
    match field_of(v, name) {
        None => true,
        Some(RawValue::Null) => true,
        Some(RawValue::Bool(_)) => true,
        _ => false,
    }
}

/// The value of an optional boolean field, when present and non-null.
pub open spec fn opt_bool_field(v: RawValue, name: Seq<char>) -> Option<bool> {
    match field_of(v, name) {
        Some(RawValue::Bool(b)) => Some(b),
        _ => None,
    }
}

/// The error for a field, under its dotted path.
fn err_join(path: &str, name: &str) -> DecodeError {
    if path.is_empty() {
        DecodeError { path: String::from_str(name) }
    } else {
        DecodeError { path: String::from_str(path).concat(".").concat(name) }
    }
}

/// Reads a field that must hold a string.
fn req_str<'a>(v: &'a RawValue, name: &str, path: &str) -> (r: Result<&'a String, DecodeError>)
    ensures
        match r {
            Ok(s) => str_field(*v, name@) == Some(s@),
            Err(_) => str_field(*v, name@) is None,
        },
{
    match v.get_field(name) {
        Some(RawValue::Str(s)) => Ok(s),
        _ => Err(err_join(path, name)),
    }
}

/// Reads a field that must hold an object, as its entry list.
fn req_obj<'a>(v: &'a RawValue, name: &str, path: &str) -> (r: Result<
    &'a Vec<(String, RawValue)>,
    DecodeError,
>)
    ensures
        match r {
            Ok(es) => obj_field(*v, name@) == Some(es@),
            Err(_) => obj_field(*v, name@) is None,
        },
{
    match v.get_field(name) {
        Some(RawValue::Obj(es)) => Ok(es),
        _ => Err(err_join(path, name)),
    }
}

/// Reads a field that may be absent or null, but must otherwise hold a string.
fn opt_str<'a>(v: &'a RawValue, name: &str, path: &str) -> (r: Result<
    Option<&'a String>,
    DecodeError,
>)
    ensures
        match r {
            Ok(Some(s)) => opt_str_field_ok(*v, name@) && opt_str_field(*v, name@) == Some(s@),
            Ok(None) => opt_str_field_ok(*v, name@) && opt_str_field(*v, name@) is None,
            Err(_) => !opt_str_field_ok(*v, name@),
        },
{
    match v.get_field(name) {
        None => Ok(None),
        Some(RawValue::Null) => Ok(None),
        Some(RawValue::Str(s)) => Ok(Some(s)),
        Some(_) => Err(err_join(path, name)),
    }
}

/// Reads a field that may be absent or null, but must otherwise hold a boolean.
fn opt_bool(v: &RawValue, name: &str, path: &str) -> (r: Result<Option<bool>, DecodeError>)
    ensures
        match r {
            Ok(b) => opt_bool_field_ok(*v, name@) && b == opt_bool_field(*v, name@),
            Err(_) => !opt_bool_field_ok(*v, name@),
        },
{
    match v.get_field(name) {
        None => Ok(None),
        Some(RawValue::Null) => Ok(None),
        Some(RawValue::Bool(b)) => Ok(Some(*b)),
        Some(_) => Err(err_join(path, name)),
    }
}

// ---------------------------------------------------------------------------
// Shape references.
// ---------------------------------------------------------------------------
/// Whether a raw node carries a shape reference: a `shape` field holding a string.
pub open spec fn shape_ref_decodable(v: RawValue) -> bool {
    str_field(v, "shape"@) is Some
}

/// What a decoded shape reference says of the raw node it came from.
pub open spec fn is_shape_ref_of(r: ShapeReference, v: RawValue) -> bool {
    str_field(v, "shape"@) == Some(r.shape@)
}

/// Decodes a shape reference from a raw node.
pub fn decode_shape_ref(v: &RawValue, path: &str) -> (r: Result<ShapeReference, DecodeError>)
    ensures
        match r {
            Ok(sr) => shape_ref_decodable(*v) && is_shape_ref_of(sr, *v),
            Err(_) => !shape_ref_decodable(*v),
        },
{
    match req_str(v, "shape", path) {
        Ok(s) => Ok(ShapeReference { shape: s.clone() }),
        Err(e) => Err(e),
    }
}

// ---------------------------------------------------------------------------
// Structure members.
// ---------------------------------------------------------------------------
/// Wire-binding details are taken only when both fields are present as strings.
pub open spec fn location_of(v: RawValue) -> Option<(Seq<char>, Seq<char>)> {
    match (str_field(v, "location"@), str_field(v, "locationName"@)) {
        (Some(l), Some(n)) => Some((l, n)),
        _ => None,
    }
}

/// Whether a raw node decodes as a structure member.
pub open spec fn member_decodable(v: RawValue) -> bool {
    &&& shape_ref_decodable(v)
    &&& opt_str_field_ok(v, "documentation"@)
    &&& opt_bool_field_ok(v, "streaming"@)
}

/// What a decoded structure member says of the raw node it came from.
pub open spec fn is_member_of(m: ShapeMember, v: RawValue) -> bool {
    &&& is_shape_ref_of(m.shape, v)
    &&& match opt_str_field(v, "documentation"@) {
        Some(d) => m.documentation matches Some(md) && md@ == html_to_md(d),
        None => m.documentation is None,
    }
    &&& match location_of(v) {
        Some(p) => m.location matches Some(l) && l.location@ == p.0 && l.location_name@ == p.1,
        None => m.location is None,
    }
    &&& m.streaming == opt_bool_field(v, "streaming"@)
}

/// Decodes a structure member from a raw node; its documentation is
/// normalized on the way in.
pub fn decode_member(v: &RawValue, path: &str) -> (r: Result<ShapeMember, DecodeError>)
    ensures
        match r {
            Ok(m) => member_decodable(*v) && is_member_of(m, *v),
            Err(_) => !member_decodable(*v),
        },
{
    let shape = match decode_shape_ref(v, path) {
        Ok(sr) => sr,
        Err(e) => {
            return Err(e);
        },
    };
    let documentation = match opt_str(v, "documentation", path) {
        Ok(Some(s)) => Some(Markdown::from(s.clone())),
        Ok(None) => None,
        Err(e) => {
            return Err(e);
        },
    };
    let location = match v.get_field("location") {
        Some(RawValue::Str(l)) => match v.get_field("locationName") {
            Some(RawValue::Str(n)) => Some(
                Location { location: l.clone(), location_name: n.clone() },
            ),
            _ => None,
        },
        _ => None,
    };
    let streaming = match opt_bool(v, "streaming", path) {
        Ok(b) => b,
        Err(e) => {
            return Err(e);
        },
    };
    Ok(ShapeMember { shape, documentation, location, streaming })
}

// ---------------------------------------------------------------------------
// Shapes.
// ---------------------------------------------------------------------------
/// Whether every value of a members object decodes as a structure member.
pub open spec fn members_decodable(es: Seq<(String, RawValue)>) -> bool {
    forall|i: int| 0 <= i < es.len() ==> member_decodable((#[trigger] es[i]).1)
}

/// What a decoded members table says of the members object it came from.
pub open spec fn is_members_of(t: StringMap<ShapeMember>, es: Seq<(String, RawValue)>) -> bool {
    &&& forall|k: Seq<char>|
        #![trigger t@.contains_key(k)]
        #![trigger obj_lookup(es, k)]
        t@.contains_key(k) <==> obj_lookup(es, k) is Some
    &&& forall|k: Seq<char>|
        #[trigger] t@.contains_key(k) ==> is_member_of(t@[k], obj_lookup(es, k)->0)
}

/// Whether the list under `required` is acceptable: absent, null, or all strings.
pub open spec fn required_ok(v: RawValue) -> bool {
    match field_of(v, "required"@) {
        None => true,
        Some(RawValue::Null) => true,
        Some(RawValue::Arr(items)) => forall|i: int|
            0 <= i < items@.len() ==> (#[trigger] items@[i]) is Str,
        _ => false,
    }
}

/// What a decoded required-member list says of the raw node it came from.
pub open spec fn is_required_of(req: Option<Vec<String>>, v: RawValue) -> bool {
    match field_of(v, "required"@) {
        None => req is None,
        Some(RawValue::Null) => req is None,
        Some(RawValue::Arr(items)) => req matches Some(rs) && rs@.len() == items@.len() && (
        forall|i: int|
            0 <= i < items@.len() ==> ((#[trigger] items@[i]) matches RawValue::Str(s)
                && rs@[i]@ == s@)),
        _ => false,
    }
}

/// Whether a raw node decodes as a shape: its `type` tag must belong to the
/// closed set of shape kinds, and the tagged fields must be well-formed.
pub open spec fn shape_decodable(v: RawValue) -> bool {
    match str_field(v, "type"@) {
        Some(t) => if t == "structure"@ {
            &&& obj_field(v, "members"@) matches Some(es) && members_decodable(es)
            &&& opt_str_field_ok(v, "documentation"@)
            &&& required_ok(v)
        } else if t == "map"@ {
            &&& field_of(v, "key"@) matches Some(kv) && shape_ref_decodable(kv)
            &&& field_of(v, "value"@) matches Some(vv) && shape_ref_decodable(vv)
        } else if t == "list"@ {
            field_of(v, "member"@) matches Some(mv) && shape_ref_decodable(mv)
        } else {
            ||| t == "string"@
            ||| t == "integer"@
            ||| t == "long"@
            ||| t == "double"@
            ||| t == "blob"@
            ||| t == "boolean"@
            ||| t == "timestamp"@
        },
        None => false,
    }
}

/// What a decoded shape says of the raw node it came from. Scalar kinds
/// keep a structurally equal copy of the whole raw node.
pub open spec fn is_shape_of(s: Shape, v: RawValue) -> bool {
    match str_field(v, "type"@) {
        Some(t) => if t == "structure"@ {
            &&& s matches Shape::Structure { members, documentation, required }
            &&& obj_field(v, "members"@) matches Some(es) && is_members_of(members, es)
            &&& match opt_str_field(v, "documentation"@) {
                Some(d) => documentation matches Some(ds) && ds@ == d,
                None => documentation is None,
            }
            &&& is_required_of(required, v)
        } else if t == "map"@ {
            &&& s matches Shape::MapShape { key, value }
            &&& field_of(v, "key"@) matches Some(kv) && is_shape_ref_of(key, kv)
            &&& field_of(v, "value"@) matches Some(vv) && is_shape_ref_of(value, vv)
        } else if t == "list"@ {
            &&& s matches Shape::List { member }
            &&& field_of(v, "member"@) matches Some(mv) && is_shape_ref_of(member, mv)
        } else if t == "string"@ {
            s matches Shape::StringShape { contents } && raw_eq(contents, v)
        } else if t == "integer"@ {
            s matches Shape::Integer(rest) && raw_eq(rest, v)
        } else if t == "long"@ {
            s matches Shape::Long(rest) && raw_eq(rest, v)
        } else if t == "double"@ {
            s matches Shape::Double(rest) && raw_eq(rest, v)
        } else if t == "blob"@ {
            s matches Shape::Blob(rest) && raw_eq(rest, v)
        } else if t == "boolean"@ {
            s == Shape::Boolean
        } else if t == "timestamp"@ {
            s == Shape::Timestamp
        } else {
            false
        },
        None => false,
    }
}

/// Whether the node's `type` tag is the given text.
fn tag_is(v: &RawValue, t: &str) -> (r: bool)
    ensures
        r == (str_field(*v, "type"@) == Some(t@)),
{
    match v.get_field("type") {
        Some(RawValue::Str(s)) => crate::raw::str_eq(s.as_str(), t),
        _ => false,
    }
}

/// Decodes the members object of a structure shape.
fn decode_members(es: &Vec<(String, RawValue)>, path: &str) -> (r: Result<
    StringMap<ShapeMember>,
    DecodeError,
>)
    ensures
        match r {
            Ok(t) => members_decodable(es@) && is_members_of(t, es@),
            Err(_) => !members_decodable(es@),
        },
{
    let n = es.len();
    let mut t: StringMap<ShapeMember> = StringMap::new();
    let mut i: usize = 0;
    while i < n
        invariant
            i <= n,
            n == es@.len(),
            forall|j: int| 0 <= j < i ==> member_decodable((#[trigger] es@[j]).1),
            forall|k: Seq<char>|
                #![trigger t@.contains_key(k)]
                #![trigger obj_lookup(es@.subrange(0, i as int), k)]
                t@.contains_key(k) <==> obj_lookup(es@.subrange(0, i as int), k) is Some,
            forall|k: Seq<char>| #[trigger]
                t@.contains_key(k) ==> is_member_of(t@[k], obj_lookup(
                    es@.subrange(0, i as int),
                    k,
                )->0),
        decreases n - i,
    {
        let m = match decode_member(&es[i].1, path) {
            Ok(m) => m,
            Err(e) => {
                proof {
                    if members_decodable(es@) {
                        assert(member_decodable(es@[i as int].1));
                    }
                }
                return Err(e);
            },
        };
        let ghost prefix = es@.subrange(0, i as int);
        if !t.contains_key(es[i].0.as_str()) {
            t.insert(es[i].0.clone(), m);
        }
        proof {
            assert(es@.subrange(0, i as int + 1) =~= prefix.push(es@[i as int]));
            assert forall|k: Seq<char>| true implies obj_lookup(
                es@.subrange(0, i as int + 1),
                k,
            ) == (if obj_lookup(prefix, k) is Some {
                obj_lookup(prefix, k)
            } else if es@[i as int].0@ == k {
                Some(es@[i as int].1)
            } else {
                Option::<RawValue>::None
            }) by {
                lemma_obj_lookup_push(prefix, es@[i as int], k);
            }
        }
        i += 1;
    }
    proof {
        assert(es@.subrange(0, n as int) =~= es@);
    }
    Ok(t)
}

/// Decodes the required-member list of a structure shape.
fn decode_required(v: &RawValue, path: &str) -> (r: Result<Option<Vec<String>>, DecodeError>)
    ensures
        match r {
            Ok(req) => required_ok(*v) && is_required_of(req, *v),
            Err(_) => !required_ok(*v),
        },
{
    let items = match v.get_field("required") {
        None => {
            return Ok(None);
        },
        Some(RawValue::Null) => {
            return Ok(None);
        },
        Some(RawValue::Arr(items)) => items,
        Some(_) => {
            return Err(err_join(path, "required"));
        },
    };
    let n = items.len();
    let mut out: Vec<String> = Vec::new();
    let mut i: usize = 0;
    while i < n
        invariant
            i <= n,
            n == items@.len(),
            field_of(*v, "required"@) == Some(RawValue::Arr(*items)),
            out@.len() == i,
            forall|j: int|
                0 <= j < i ==> ((#[trigger] items@[j]) matches RawValue::Str(s) && out@[j]@
                    == s@),
        decreases n - i,
    {
        match &items[i] {
            RawValue::Str(s) => {
                out.push(s.clone());
            },
            _ => {
                return Err(err_join(path, "required"));
            },
        }
        i += 1;
    }
    Ok(Some(out))
}

/// Decodes a shape from a raw node. The `type` tag is a closed set: an
/// unknown tag is an error, never a silent default.
pub fn decode_shape(v: &RawValue, path: &str) -> (r: Result<Shape, DecodeError>)
    ensures
        match r {
            Ok(s) => shape_decodable(*v) && is_shape_of(s, *v),
            Err(_) => !shape_decodable(*v),
        },
{
    if tag_is(v, "structure") {
        let member_entries = match req_obj(v, "members", path) {
            Ok(es) => es,
            Err(e) => {
                return Err(e);
            },
        };
        let members = match decode_members(member_entries, path) {
            Ok(t) => t,
            Err(e) => {
                return Err(e);
            },
        };
        let documentation = match opt_str(v, "documentation", path) {
            Ok(Some(s)) => Some(s.clone()),
            Ok(None) => None,
            Err(e) => {
                return Err(e);
            },
        };
        let required = match decode_required(v, path) {
            Ok(req) => req,
            Err(e) => {
                return Err(e);
            },
        };
        Ok(Shape::Structure { members, documentation, required })
    } else if tag_is(v, "map") {
        let key = match v.get_field("key") {
            Some(kv) => match decode_shape_ref(kv, path) {
                Ok(sr) => sr,
                Err(e) => {
                    return Err(e);
                },
            },
            None => {
                return Err(err_join(path, "key"));
            },
        };
        let value = match v.get_field("value") {
            Some(vv) => match decode_shape_ref(vv, path) {
                Ok(sr) => sr,
                Err(e) => {
                    return Err(e);
                },
            },
            None => {
                return Err(err_join(path, "value"));
            },
        };
        Ok(Shape::MapShape { key, value })
    } else if tag_is(v, "list") {
        let member = match v.get_field("member") {
            Some(mv) => match decode_shape_ref(mv, path) {
                Ok(sr) => sr,
                Err(e) => {
                    return Err(e);
                },
            },
            None => {
                return Err(err_join(path, "member"));
            },
        };
        Ok(Shape::List { member })
    } else if tag_is(v, "string") {
        Ok(Shape::StringShape { contents: v.clone() })
    } else if tag_is(v, "integer") {
        Ok(Shape::Integer(v.clone()))
    } else if tag_is(v, "long") {
        Ok(Shape::Long(v.clone()))
    } else if tag_is(v, "double") {
        Ok(Shape::Double(v.clone()))
    } else if tag_is(v, "blob") {
        Ok(Shape::Blob(v.clone()))
    } else if tag_is(v, "boolean") {
        Ok(Shape::Boolean)
    } else if tag_is(v, "timestamp") {
        Ok(Shape::Timestamp)
    } else {
        Err(err_join(path, "type"))
    }
}

// ---------------------------------------------------------------------------
// HTTP bindings.
// ---------------------------------------------------------------------------
/// The dotted path of a field under `path`.
fn join_path(path: &str, seg: &str) -> String {
    if path.is_empty() {
        String::from_str(seg)
    } else {
        String::from_str(path).concat(".").concat(seg)
    }
}

/// Whether the node's `http` field decodes and validates as an HTTP
/// binding: method in the vocabulary, URI present, response code (when
/// present) a valid three-digit status.
pub open spec fn http_field_decodable(v: RawValue) -> bool {
    match field_of(v, "http"@) {
        Some(hv) => {
            &&& str_field(hv, "method"@) matches Some(m) && method_of(m) is Some
            &&& str_field(hv, "requestUri"@) is Some
            &&& match field_of(hv, "responseCode"@) {
                None => true,
                Some(RawValue::Null) => true,
                Some(RawValue::Int(n)) => 0 <= n <= 65535 && status_valid(n as u16),
                _ => false,
            }
        },
        None => false,
    }
}

/// What a decoded HTTP binding says of the node it came from.
pub open spec fn is_http_of(h: HttpBindings, v: RawValue) -> bool {
    match field_of(v, "http"@) {
        Some(hv) => {
            &&& str_field(hv, "method"@) matches Some(m) && method_of(m) == Some(h.method)
            &&& str_field(hv, "requestUri"@) == Some(h.request_uri@)
            &&& match field_of(hv, "responseCode"@) {
                None => h.response_code is None,
                Some(RawValue::Null) => h.response_code is None,
                Some(RawValue::Int(n)) => h.response_code == Some(StatusCode(n as u16)),
                _ => false,
            }
        },
        None => false,
    }
}

/// Decodes and validates the node's `http` field.
pub fn decode_http(v: &RawValue, path: &str) -> (r: Result<HttpBindings, DecodeError>)
    ensures
        match r {
            Ok(h) => http_field_decodable(*v) && is_http_of(h, *v),
            Err(_) => !http_field_decodable(*v),
        },
{
    let hv = match v.get_field("http") {
        Some(h) => h,
        None => {
            return Err(err_join(path, "http"));
        },
    };
    let hp = join_path(path, "http");
    let method = match req_str(hv, "method", hp.as_str()) {
        Ok(s) => s.clone(),
        Err(e) => {
            return Err(e);
        },
    };
    let request_uri = match req_str(hv, "requestUri", hp.as_str()) {
        Ok(s) => s.clone(),
        Err(e) => {
            return Err(e);
        },
    };
    let response_code: Option<u16> = match hv.get_field("responseCode") {
        None => None,
        Some(RawValue::Null) => None,
        Some(RawValue::Int(n)) => {
            let m = *n;
            if 0 <= m && m <= 65535 {
                Some(m as u16)
            } else {
                return Err(err_join(hp.as_str(), "responseCode"));
            }
        },
        Some(_) => {
            return Err(err_join(hp.as_str(), "responseCode"));
        },
    };
    let temp = HttpBindingsTemp { method, request_uri, response_code };
    match HttpBindings::try_from(temp) {
        Ok(h) => Ok(h),
        Err(BindingError::InvalidStatus(_)) => Err(err_join(hp.as_str(), "responseCode")),
        Err(BindingError::InvalidMethod(_)) => Err(err_join(hp.as_str(), "method")),
    }
}

// ---------------------------------------------------------------------------
// Operations.
// ---------------------------------------------------------------------------
/// Whether the node's `errors` field is a list of shape references.
pub open spec fn errors_field_decodable(v: RawValue) -> bool {
    match field_of(v, "errors"@) {
        Some(RawValue::Arr(items)) => forall|i: int|
            0 <= i < items@.len() ==> #[trigger] shape_ref_decodable(items@[i]),
        _ => false,
    }
}

/// What a decoded error-reference list says of the node it came from:
/// one reference per list element, in the same order.
pub open spec fn is_errors_of(errs: Seq<ShapeReference>, v: RawValue) -> bool {
    match field_of(v, "errors"@) {
        Some(RawValue::Arr(items)) => errs.len() == items@.len() && (forall|i: int|
            0 <= i < errs.len() ==> is_shape_ref_of(#[trigger] errs[i], items@[i])),
        _ => false,
    }
}

/// Whether the node's `output` field is acceptable: absent, null, or a
/// shape reference.
pub open spec fn output_field_ok(v: RawValue) -> bool {
    match field_of(v, "output"@) {
        None => true,
        Some(RawValue::Null) => true,
        Some(ov) => shape_ref_decodable(ov),
    }
}

/// What a decoded optional output reference says of the node it came from.
pub open spec fn is_output_of(out: Option<ShapeReference>, v: RawValue) -> bool {
    match field_of(v, "output"@) {
        None => out is None,
        Some(RawValue::Null) => out is None,
        Some(ov) => out matches Some(r) && is_shape_ref_of(r, ov),
    }
}

/// Whether a raw node decodes as an operation.
pub open spec fn operation_decodable(v: RawValue) -> bool {
    &&& str_field(v, "name"@) is Some
    &&& http_field_decodable(v)
    &&& field_of(v, "input"@) matches Some(iv) && shape_ref_decodable(iv)
    &&& output_field_ok(v)
    &&& errors_field_decodable(v)
    &&& str_field(v, "documentation"@) is Some
}

/// What a decoded operation says of the raw node it came from.
pub open spec fn is_operation_of(op: Operation, v: RawValue) -> bool {
    &&& str_field(v, "name"@) == Some(op.name@)
    &&& is_http_of(op.http, v)
    &&& field_of(v, "input"@) matches Some(iv) && is_shape_ref_of(op.input, iv)
    &&& is_output_of(op.output, v)
    &&& is_errors_of(op.errors@, v)
    &&& str_field(v, "documentation"@) matches Some(d) && op.documentation@ == html_to_md(d)
}

/// Decodes an operation from a raw node, validating its HTTP binding and
/// normalizing its documentation.
pub fn decode_operation(v: &RawValue, path: &str) -> (r: Result<Operation, DecodeError>)
    ensures
        match r {
            Ok(op) => operation_decodable(*v) && is_operation_of(op, *v),
            Err(_) => !operation_decodable(*v),
        },
{
    let name = match req_str(v, "name", path) {
        Ok(s) => s.clone(),
        Err(e) => {
            return Err(e);
        },
    };
    let http = match decode_http(v, path) {
        Ok(h) => h,
        Err(e) => {
            return Err(e);
        },
    };
    let input = match v.get_field("input") {
        Some(iv) => match decode_shape_ref(iv, path) {
            Ok(sr) => sr,
            Err(e) => {
                return Err(e);
            },
        },
        None => {
            return Err(err_join(path, "input"));
        },
    };
    let output = match v.get_field("output") {
        None => None,
        Some(RawValue::Null) => None,
        Some(ov) => match decode_shape_ref(ov, path) {
            Ok(sr) => Some(sr),
            Err(e) => {
                return Err(e);
            },
        },
    };
    let errors: Vec<ShapeReference> = match v.get_field("errors") {
        Some(RawValue::Arr(items)) => {
            let n = items.len();
            let mut out: Vec<ShapeReference> = Vec::new();
            let mut i: usize = 0;
            while i < n
                invariant
                    i <= n,
                    n == items@.len(),
                    field_of(*v, "errors"@) == Some(RawValue::Arr(*items)),
                    out@.len() == i,
                    forall|j: int|
                        0 <= j < i ==> shape_ref_decodable(#[trigger] items@[j]) && is_shape_ref_of(
                            out@[j],
                            items@[j],
                        ),
                decreases n - i,
            {
                match decode_shape_ref(&items[i], path) {
                    Ok(sr) => {
                        out.push(sr);
                    },
                    Err(e) => {
                        proof {
                            if errors_field_decodable(*v) {
                                assert(field_of(*v, "errors"@) == Some(RawValue::Arr(*items)));
                                assert(shape_ref_decodable(
                                    field_of(*v, "errors"@)->0->Arr_0@[i as int],
                                ));
                                assert(shape_ref_decodable(items@[i as int]));
                            }
                        }
                        return Err(e);
                    },
                }
                i += 1;
            }
            out
        },
        _ => {
            return Err(err_join(path, "errors"));
        },
    };
    let documentation = match req_str(v, "documentation", path) {
        Ok(s) => Markdown::from(s.clone()),
        Err(e) => {
            return Err(e);
        },
    };
    Ok(Operation { name, http, input, output, errors, documentation })
}

// ---------------------------------------------------------------------------
// Metadata.
// ---------------------------------------------------------------------------
/// Whether a raw node decodes as metadata: all six fields present as
/// strings, with the protocol and signature version in their vocabularies.
pub open spec fn metadata_decodable(v: RawValue) -> bool {
    &&& str_field(v, "apiVersion"@) is Some
    &&& str_field(v, "endpointPrefix"@) is Some
    &&& str_field(v, "protocol"@) matches Some(p) && protocol_of(p) is Some
    &&& str_field(v, "serviceFullName"@) is Some
    &&& str_field(v, "serviceId"@) is Some
    &&& str_field(v, "signatureVersion"@) matches Some(s) && signature_of(s) is Some
}

/// What decoded metadata says of the raw node it came from.
pub open spec fn is_metadata_of(md: Metadata, v: RawValue) -> bool {
    &&& str_field(v, "apiVersion"@) == Some(md.api_version@)
    &&& str_field(v, "endpointPrefix"@) == Some(md.endpoint_prefix@)
    &&& str_field(v, "protocol"@) matches Some(p) && protocol_of(p) == Some(md.protocol)
    &&& str_field(v, "serviceFullName"@) == Some(md.service_full_name@)
    &&& str_field(v, "serviceId"@) == Some(md.service_id@)
    &&& str_field(v, "signatureVersion"@) matches Some(s) && signature_of(s) == Some(
        md.signature_version,
    )
}

/// Decodes the metadata record; unrecognized protocol or signature-version
/// values are errors, never silent defaults.
pub fn decode_metadata(v: &RawValue, path: &str) -> (r: Result<Metadata, DecodeError>)
    ensures
        match r {
            Ok(md) => metadata_decodable(*v) && is_metadata_of(md, *v),
            Err(_) => !metadata_decodable(*v),
        },
{
    let api_version = match req_str(v, "apiVersion", path) {
        Ok(s) => s.clone(),
        Err(e) => {
            return Err(e);
        },
    };
    let endpoint_prefix = match req_str(v, "endpointPrefix", path) {
        Ok(s) => s.clone(),
        Err(e) => {
            return Err(e);
        },
    };
    let protocol = match req_str(v, "protocol", path) {
        Ok(s) => match Protocol::parse(s.as_str()) {
            Some(p) => p,
            None => {
                return Err(err_join(path, "protocol"));
            },
        },
        Err(e) => {
            return Err(e);
        },
    };
    let service_full_name = match req_str(v, "serviceFullName", path) {
        Ok(s) => s.clone(),
        Err(e) => {
            return Err(e);
        },
    };
    let service_id = match req_str(v, "serviceId", path) {
        Ok(s) => s.clone(),
        Err(e) => {
            return Err(e);
        },
    };
    let signature_version = match req_str(v, "signatureVersion", path) {
        Ok(s) => match Signature::parse(s.as_str()) {
            Some(sv) => sv,
            None => {
                return Err(err_join(path, "signatureVersion"));
            },
        },
        Err(e) => {
            return Err(e);
        },
    };
    Ok(
        Metadata {
            api_version,
            endpoint_prefix,
            protocol,
            service_full_name,
            service_id,
            signature_version,
        },
    )
}

// ---------------------------------------------------------------------------
// The operation and shape tables, and the whole model.
// ---------------------------------------------------------------------------
/// Whether every value of an operations object decodes as an operation.
pub open spec fn operations_decodable(es: Seq<(String, RawValue)>) -> bool {
    forall|i: int| 0 <= i < es.len() ==> operation_decodable((#[trigger] es[i]).1)
}

/// What a decoded operations table says of the operations object: the
/// same names, each bound to the decoding of its first entry.
pub open spec fn is_operations_of(t: StringMap<Operation>, es: Seq<(String, RawValue)>) -> bool {
    &&& forall|k: Seq<char>|
        #![trigger t@.contains_key(k)]
        #![trigger obj_lookup(es, k)]
        t@.contains_key(k) <==> obj_lookup(es, k) is Some
    &&& forall|k: Seq<char>| #[trigger]
        t@.contains_key(k) ==> is_operation_of(t@[k], obj_lookup(es, k)->0)
}

/// Whether every value of a shapes object decodes as a shape.
pub open spec fn shapes_decodable(es: Seq<(String, RawValue)>) -> bool {
    forall|i: int| 0 <= i < es.len() ==> shape_decodable((#[trigger] es[i]).1)
}

/// What a decoded shapes table says of the shapes object: the same names,
/// each bound to the decoding of its first entry.
pub open spec fn is_shapes_of(t: StringMap<Shape>, es: Seq<(String, RawValue)>) -> bool {
    &&& forall|k: Seq<char>|
        #![trigger t@.contains_key(k)]
        #![trigger obj_lookup(es, k)]
        t@.contains_key(k) <==> obj_lookup(es, k) is Some
    &&& forall|k: Seq<char>| #[trigger]
        t@.contains_key(k) ==> is_shape_of(t@[k], obj_lookup(es, k)->0)
}

/// Decodes the operations object into the operation table.
fn decode_operations(es: &Vec<(String, RawValue)>, path: &str) -> (r: Result<
    StringMap<Operation>,
    DecodeError,
>)
    ensures
        match r {
            Ok(t) => operations_decodable(es@) && is_operations_of(t, es@),
            Err(_) => !operations_decodable(es@),
        },
{
    let n = es.len();
    let mut t: StringMap<Operation> = StringMap::new();
    let mut i: usize = 0;
    while i < n
        invariant
            i <= n,
            n == es@.len(),
            forall|j: int| 0 <= j < i ==> operation_decodable((#[trigger] es@[j]).1),
            forall|k: Seq<char>|
                #![trigger t@.contains_key(k)]
                #![trigger obj_lookup(es@.subrange(0, i as int), k)]
                t@.contains_key(k) <==> obj_lookup(es@.subrange(0, i as int), k) is Some,
            forall|k: Seq<char>| #[trigger]
                t@.contains_key(k) ==> is_operation_of(t@[k], obj_lookup(
                    es@.subrange(0, i as int),
                    k,
                )->0),
        decreases n - i,
    {
        let ep = join_path(path, es[i].0.as_str());
        let op = match decode_operation(&es[i].1, ep.as_str()) {
            Ok(op) => op,
            Err(e) => {
                proof {
                    if operations_decodable(es@) {
                        assert(operation_decodable(es@[i as int].1));
                    }
                }
                return Err(e);
            },
        };
        let ghost prefix = es@.subrange(0, i as int);
        if !t.contains_key(es[i].0.as_str()) {
            t.insert(es[i].0.clone(), op);
        }
        proof {
            assert(es@.subrange(0, i as int + 1) =~= prefix.push(es@[i as int]));
            assert forall|k: Seq<char>| true implies obj_lookup(
                es@.subrange(0, i as int + 1),
                k,
            ) == (if obj_lookup(prefix, k) is Some {
                obj_lookup(prefix, k)
            } else if es@[i as int].0@ == k {
                Some(es@[i as int].1)
            } else {
                Option::<RawValue>::None
            }) by {
                lemma_obj_lookup_push(prefix, es@[i as int], k);
            }
        }
        i += 1;
    }
    proof {
        assert(es@.subrange(0, n as int) =~= es@);
    }
    Ok(t)
}

/// Decodes the shapes object into the shape table.
fn decode_shapes(es: &Vec<(String, RawValue)>, path: &str) -> (r: Result<
    StringMap<Shape>,
    DecodeError,
>)
    ensures
        match r {
            Ok(t) => shapes_decodable(es@) && is_shapes_of(t, es@),
            Err(_) => !shapes_decodable(es@),
        },
{
    let n = es.len();
    let mut t: StringMap<Shape> = StringMap::new();
    let mut i: usize = 0;
    while i < n
        invariant
            i <= n,
            n == es@.len(),
            forall|j: int| 0 <= j < i ==> shape_decodable((#[trigger] es@[j]).1),
            forall|k: Seq<char>|
                #![trigger t@.contains_key(k)]
                #![trigger obj_lookup(es@.subrange(0, i as int), k)]
                t@.contains_key(k) <==> obj_lookup(es@.subrange(0, i as int), k) is Some,
            forall|k: Seq<char>| #[trigger]
                t@.contains_key(k) ==> is_shape_of(t@[k], obj_lookup(
                    es@.subrange(0, i as int),
                    k,
                )->0),
        decreases n - i,
    {
        let sp = join_path(path, es[i].0.as_str());
        let sh = match decode_shape(&es[i].1, sp.as_str()) {
            Ok(sh) => sh,
            Err(e) => {
                proof {
                    if shapes_decodable(es@) {
                        assert(shape_decodable(es@[i as int].1));
                    }
                }
                return Err(e);
            },
        };
        let ghost prefix = es@.subrange(0, i as int);
        if !t.contains_key(es[i].0.as_str()) {
            t.insert(es[i].0.clone(), sh);
        }
        proof {
            assert(es@.subrange(0, i as int + 1) =~= prefix.push(es@[i as int]));
            assert forall|k: Seq<char>| true implies obj_lookup(
                es@.subrange(0, i as int + 1),
                k,
            ) == (if obj_lookup(prefix, k) is Some {
                obj_lookup(prefix, k)
            } else if es@[i as int].0@ == k {
                Some(es@[i as int].1)
            } else {
                Option::<RawValue>::None
            }) by {
                lemma_obj_lookup_push(prefix, es@[i as int], k);
            }
        }
        i += 1;
    }
    proof {
        assert(es@.subrange(0, n as int) =~= es@);
    }
    Ok(t)
}

/// Whether a raw tree decodes as a whole model document.
pub open spec fn model_decodable(v: RawValue) -> bool {
    &&& str_field(v, "version"@) is Some
    &&& field_of(v, "metadata"@) matches Some(mv) && metadata_decodable(mv)
    &&& obj_field(v, "operations"@) matches Some(oes) && operations_decodable(oes)
    &&& obj_field(v, "shapes"@) matches Some(ses) && shapes_decodable(ses)
    &&& str_field(v, "documentation"@) is Some
}

/// What a decoded model says of the raw tree it came from.
pub open spec fn is_model_of(m: BotocoreModel, v: RawValue) -> bool {
    &&& str_field(v, "version"@) == Some(m.version@)
    &&& field_of(v, "metadata"@) matches Some(mv) && is_metadata_of(m.metadata, mv)
    &&& obj_field(v, "operations"@) matches Some(oes) && is_operations_of(m.operations, oes)
    &&& obj_field(v, "shapes"@) matches Some(ses) && is_shapes_of(m.shapes, ses)
    &&& str_field(v, "documentation"@) matches Some(d) && m.documentation@ == html_to_md(d)
}

/// Decodes a raw document tree into a model, or fails with the path of
/// the offending field. Succeeds exactly on decodable trees.
pub fn decode_model(v: &RawValue) -> (r: Result<BotocoreModel, DecodeError>)
    ensures
        match r {
            Ok(m) => model_decodable(*v) && is_model_of(m, *v),
            Err(_) => !model_decodable(*v),
        },
{
    let version = match req_str(v, "version", "") {
        Ok(s) => s.clone(),
        Err(e) => {
            return Err(e);
        },
    };
    let metadata = match v.get_field("metadata") {
        Some(mv) => match decode_metadata(mv, "metadata") {
            Ok(md) => md,
            Err(e) => {
                return Err(e);
            },
        },
        None => {
            return Err(err_join("", "metadata"));
        },
    };
    let operations = match req_obj(v, "operations", "") {
        Ok(es) => match decode_operations(es, "operations") {
            Ok(t) => t,
            Err(e) => {
                return Err(e);
            },
        },
        Err(e) => {
            return Err(e);
        },
    };
    let shapes = match req_obj(v, "shapes", "") {
        Ok(es) => match decode_shapes(es, "shapes") {
            Ok(t) => t,
            Err(e) => {
                return Err(e);
            },
        },
        Err(e) => {
            return Err(e);
        },
    };
    let documentation = match req_str(v, "documentation", "") {
        Ok(s) => Markdown::from(s.clone()),
        Err(e) => {
            return Err(e);
        },
    };
    Ok(BotocoreModel { version, metadata, operations, shapes, documentation })
}

} // verus!
