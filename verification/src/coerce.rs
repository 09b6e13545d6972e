//! The field coercion engine: total rules that turn one raw field of a
//! record into a typed value or a typed failure. Each getter takes the
//! literal input spelling of the field name (the caller maps canonical
//! names through a convention first) and never panics.

use vstd::prelude::*;
use vstd::string::StrSliceExecFns;
use crate::tree::{JValue, NumberVal, VJson, VNum, VObj, jv_view, num_view, obj_view, spec_lookup, lookup};
use crate::errors::{ErrorKind, VErrorKind, Shape, ek_view, spec_shape_of, shape_of};

verus! {

/// The error for a field that is absent.
pub open spec fn spec_missing(key: Seq<char>, expected: Shape) -> VErrorKind {
    VErrorKind::SchemaViolation { field: key, expected, actual: Shape::Missing }
}

/// The error for a field of the wrong shape.
pub open spec fn spec_bad_shape(key: Seq<char>, expected: Shape, v: VJson) -> VErrorKind {
    VErrorKind::SchemaViolation { field: key, expected, actual: spec_shape_of(v) }
}

fn violation(key: &str, expected: Shape, actual: Shape) -> (e: ErrorKind)
    ensures
        ek_view(e) == (VErrorKind::SchemaViolation { field: key@, expected, actual }),
{
    ErrorKind::SchemaViolation { field: key.to_owned(), expected, actual }
}

/// A required boolean field.
pub open spec fn spec_req_bool(fields: VObj, key: Seq<char>) -> Result<bool, VErrorKind> {
    match spec_lookup(fields, key) {
        Some(VJson::Bool(b)) => Ok(b),
        Some(v) => Err(spec_bad_shape(key, Shape::Bool, v)),
        None => Err(spec_missing(key, Shape::Bool)),
    }
}

pub fn req_bool(fields: &Vec<(String, JValue)>, key: &str) -> (r: Result<bool, ErrorKind>)
    ensures
        match r {
            Ok(b) => spec_req_bool(obj_view(*fields), key@) == Ok::<bool, VErrorKind>(b),
            Err(e) => spec_req_bool(obj_view(*fields), key@) == Err::<bool, VErrorKind>(ek_view(e)),
        },
{
    match lookup(fields, key) {
        Some(v) => match v {
            JValue::Bool(b) => Ok(*b),
            _ => Err(violation(key, Shape::Bool, shape_of(v))),
        },
        None => Err(violation(key, Shape::Bool, Shape::Missing)),
    }
}

/// A required signed integer field fitting 32 bits.
pub open spec fn spec_req_i32(fields: VObj, key: Seq<char>) -> Result<i32, VErrorKind> {
    match spec_lookup(fields, key) {
        Some(VJson::Num(nv)) => match nv {
            VNum::I(n) => if -0x8000_0000 <= n <= 0x7fff_ffff {
                Ok(n as i32)
            } else {
                Err(spec_bad_shape(key, Shape::I32, VJson::Num(nv)))
            },
            VNum::Raw(_) => Err(spec_bad_shape(key, Shape::I32, VJson::Num(nv))),
        },
        Some(v) => Err(spec_bad_shape(key, Shape::I32, v)),
        None => Err(spec_missing(key, Shape::I32)),
    }
}

pub fn req_i32(fields: &Vec<(String, JValue)>, key: &str) -> (r: Result<i32, ErrorKind>)
    ensures
        match r {
            Ok(n) => spec_req_i32(obj_view(*fields), key@) == Ok::<i32, VErrorKind>(n),
            Err(e) => spec_req_i32(obj_view(*fields), key@) == Err::<i32, VErrorKind>(ek_view(e)),
        },
{
    match lookup(fields, key) {
        Some(v) => match v {
            JValue::Num(nv) => match nv {
                NumberVal::Int(i) => {
                    if -0x8000_0000i64 <= *i && *i <= 0x7fff_ffffi64 {
                        Ok(*i as i32)
                    } else {
                        Err(violation(key, Shape::I32, Shape::Num))
                    }
                },
                NumberVal::Uint(u) => {
                    if *u <= 0x7fff_ffffu64 {
                        Ok(*u as i32)
                    } else {
                        Err(violation(key, Shape::I32, Shape::Num))
                    }
                },
                NumberVal::Raw(_) => Err(violation(key, Shape::I32, Shape::Num)),
            },
            _ => Err(violation(key, Shape::I32, shape_of(v))),
        },
        None => Err(violation(key, Shape::I32, Shape::Missing)),
    }
}

/// A required unsigned integer field fitting 64 bits.
pub open spec fn spec_req_u64(fields: VObj, key: Seq<char>) -> Result<u64, VErrorKind> {
    match spec_lookup(fields, key) {
        Some(VJson::Num(nv)) => match nv {
            VNum::I(n) => if 0 <= n < 0x1_0000_0000_0000_0000 {
                Ok(n as u64)
            } else {
                Err(spec_bad_shape(key, Shape::U64, VJson::Num(nv)))
            },
            VNum::Raw(_) => Err(spec_bad_shape(key, Shape::U64, VJson::Num(nv))),
        },
        Some(v) => Err(spec_bad_shape(key, Shape::U64, v)),
        None => Err(spec_missing(key, Shape::U64)),
    }
}

pub fn req_u64(fields: &Vec<(String, JValue)>, key: &str) -> (r: Result<u64, ErrorKind>)
    ensures
        match r {
            Ok(n) => spec_req_u64(obj_view(*fields), key@) == Ok::<u64, VErrorKind>(n),
            Err(e) => spec_req_u64(obj_view(*fields), key@) == Err::<u64, VErrorKind>(ek_view(e)),
        },
{
    match lookup(fields, key) {
        Some(v) => match v {
            JValue::Num(nv) => match nv {
                NumberVal::Int(i) => {
                    if *i >= 0 {
                        Ok(*i as u64)
                    } else {
                        Err(violation(key, Shape::U64, Shape::Num))
                    }
                },
                NumberVal::Uint(u) => Ok(*u),
                NumberVal::Raw(_) => Err(violation(key, Shape::U64, Shape::Num)),
            },
            _ => Err(violation(key, Shape::U64, shape_of(v))),
        },
        None => Err(violation(key, Shape::U64, Shape::Missing)),
    }
}

/// A required unsigned integer field fitting 32 bits.
pub open spec fn spec_req_u32(fields: VObj, key: Seq<char>) -> Result<u32, VErrorKind> {
    match spec_req_u64(fields, key) {
        Ok(n) => if n <= 0xffff_ffff {
            Ok(n as u32)
        } else {
            Err(VErrorKind::SchemaViolation { field: key, expected: Shape::U32, actual: Shape::Num })
        },
        Err(e) => Err(relabel(e, Shape::U32)),
    }
}

/// The same failure, re-stated with the shape the caller expected.
pub open spec fn relabel(e: VErrorKind, expected: Shape) -> VErrorKind {
    match e {
        VErrorKind::SchemaViolation { field, expected: _, actual } => VErrorKind::SchemaViolation {
            field,
            expected,
            actual,
        },
        _ => e,
    }
}

pub fn req_u32(fields: &Vec<(String, JValue)>, key: &str) -> (r: Result<u32, ErrorKind>)
    ensures
        match r {
            Ok(n) => spec_req_u32(obj_view(*fields), key@) == Ok::<u32, VErrorKind>(n),
            Err(e) => spec_req_u32(obj_view(*fields), key@) == Err::<u32, VErrorKind>(ek_view(e)),
        },
{
    match req_u64(fields, key) {
        Ok(n) => {
            if n <= 0xffff_ffffu64 {
                Ok(n as u32)
            } else {
                Err(violation(key, Shape::U32, Shape::Num))
            }
        },
        Err(e) => match e {
            ErrorKind::SchemaViolation { field, expected: _, actual } => Err(
                ErrorKind::SchemaViolation { field, expected: Shape::U32, actual },
            ),
            _ => Err(e),
        },
    }
}

/// A required unsigned integer field fitting 8 bits.
pub open spec fn spec_req_u8(fields: VObj, key: Seq<char>) -> Result<u8, VErrorKind> {
    match spec_req_u64(fields, key) {
        Ok(n) => if n <= 0xff {
            Ok(n as u8)
        } else {
            Err(VErrorKind::SchemaViolation { field: key, expected: Shape::U8, actual: Shape::Num })
        },
        Err(e) => Err(relabel(e, Shape::U8)),
    }
}

pub fn req_u8(fields: &Vec<(String, JValue)>, key: &str) -> (r: Result<u8, ErrorKind>)
    ensures
        match r {
            Ok(n) => spec_req_u8(obj_view(*fields), key@) == Ok::<u8, VErrorKind>(n),
            Err(e) => spec_req_u8(obj_view(*fields), key@) == Err::<u8, VErrorKind>(ek_view(e)),
        },
{
    match req_u64(fields, key) {
        Ok(n) => {
            if n <= 0xffu64 {
                Ok(n as u8)
            } else {
                Err(violation(key, Shape::U8, Shape::Num))
            }
        },
        Err(e) => match e {
            ErrorKind::SchemaViolation { field, expected: _, actual } => Err(
                ErrorKind::SchemaViolation { field, expected: Shape::U8, actual },
            ),
            _ => Err(e),
        },
    }
}

/// A required string field.
pub open spec fn spec_req_string(fields: VObj, key: Seq<char>) -> Result<Seq<char>, VErrorKind> {
    match spec_lookup(fields, key) {
        Some(VJson::Str(s)) => Ok(s),
        Some(v) => Err(spec_bad_shape(key, Shape::Str, v)),
        None => Err(spec_missing(key, Shape::Str)),
    }
}

pub fn req_string(fields: &Vec<(String, JValue)>, key: &str) -> (r: Result<String, ErrorKind>)
    ensures
        match r {
            Ok(s) => spec_req_string(obj_view(*fields), key@) == Ok::<Seq<char>, VErrorKind>(s@),
            Err(e) => spec_req_string(obj_view(*fields), key@) == Err::<Seq<char>, VErrorKind>(
                ek_view(e),
            ),
        },
{
    match lookup(fields, key) {
        Some(v) => match v {
            JValue::Str(s) => Ok(s.clone()),
            _ => Err(violation(key, Shape::Str, shape_of(v))),
        },
        None => Err(violation(key, Shape::Str, Shape::Missing)),
    }
}

/// The empty-string-to-absent coercion, for fields declared string-optional:
/// the empty string decodes to the absent state, any other string to a
/// present value carrying it. A null value is an ordinary absent optional,
/// so it decodes to the absent state too; any other non-string value is a
/// shape error. The rule runs before ordinary type-matching and never
/// alters non-string input.
pub open spec fn spec_opt_string(fields: VObj, key: Seq<char>) -> Result<
    Option<Seq<char>>,
    VErrorKind,
> {
    match spec_lookup(fields, key) {
        Some(VJson::Str(s)) => if s.len() == 0 {
            Ok(None)
        } else {
            Ok(Some(s))
        },
        Some(VJson::Null) => Ok(None),
        Some(v) => Err(spec_bad_shape(key, Shape::OptStr, v)),
        None => Err(spec_missing(key, Shape::OptStr)),
    }
}

pub fn opt_string(fields: &Vec<(String, JValue)>, key: &str) -> (r: Result<Option<String>, ErrorKind>)
    ensures
        match r {
            Ok(o) => match o {
                Some(s) => spec_opt_string(obj_view(*fields), key@) == Ok::<
                    Option<Seq<char>>,
                    VErrorKind,
                >(Some(s@)),
                None => spec_opt_string(obj_view(*fields), key@) == Ok::<
                    Option<Seq<char>>,
                    VErrorKind,
                >(None),
            },
            Err(e) => spec_opt_string(obj_view(*fields), key@) == Err::<
                Option<Seq<char>>,
                VErrorKind,
            >(ek_view(e)),
        },
{
    match lookup(fields, key) {
        Some(v) => match v {
            JValue::Str(s) => {
                if s.as_str().unicode_len() == 0 {
                    Ok(None)
                } else {
                    Ok(Some(s.clone()))
                }
            },
            JValue::Null => Ok(None),
            _ => Err(violation(key, Shape::OptStr, shape_of(v))),
        },
        None => Err(violation(key, Shape::OptStr, Shape::Missing)),
    }
}

/// A required numeric field, kept as the number it holds.
pub open spec fn spec_req_num(fields: VObj, key: Seq<char>) -> Result<VNum, VErrorKind> {
    match spec_lookup(fields, key) {
        Some(VJson::Num(nv)) => Ok(nv),
        Some(v) => Err(spec_bad_shape(key, Shape::Num, v)),
        None => Err(spec_missing(key, Shape::Num)),
    }
}

pub fn req_num(fields: &Vec<(String, JValue)>, key: &str) -> (r: Result<NumberVal, ErrorKind>)
    ensures
        match r {
            Ok(n) => spec_req_num(obj_view(*fields), key@) == Ok::<VNum, VErrorKind>(num_view(n)),
            Err(e) => spec_req_num(obj_view(*fields), key@) == Err::<VNum, VErrorKind>(ek_view(e)),
        },
{
    match lookup(fields, key) {
        Some(v) => match v {
            JValue::Num(nv) => Ok(nv.dup()),
            _ => Err(violation(key, Shape::Num, shape_of(v))),
        },
        None => Err(violation(key, Shape::Num, Shape::Missing)),
    }
}

/// A ranked-scale field's raw code: a non-negative integer; mapping it to a
/// named level, and rejecting out-of-range codes, is the scale's own step.
pub open spec fn spec_req_code(fields: VObj, key: Seq<char>) -> Result<u64, VErrorKind> {
    match spec_lookup(fields, key) {
        Some(VJson::Num(nv)) => match nv {
            VNum::I(n) => if 0 <= n < 0x1_0000_0000_0000_0000 {
                Ok(n as u64)
            } else {
                Err(spec_bad_shape(key, Shape::Code, VJson::Num(nv)))
            },
            VNum::Raw(_) => Err(spec_bad_shape(key, Shape::Code, VJson::Num(nv))),
        },
        Some(v) => Err(spec_bad_shape(key, Shape::Code, v)),
        None => Err(spec_missing(key, Shape::Code)),
    }
}

pub fn req_code(fields: &Vec<(String, JValue)>, key: &str) -> (r: Result<u64, ErrorKind>)
    ensures
        match r {
            Ok(n) => spec_req_code(obj_view(*fields), key@) == Ok::<u64, VErrorKind>(n),
            Err(e) => spec_req_code(obj_view(*fields), key@) == Err::<u64, VErrorKind>(ek_view(e)),
        },
{
    match lookup(fields, key) {
        Some(v) => match v {
            JValue::Num(nv) => match nv {
                NumberVal::Int(i) => {
                    if *i >= 0 {
                        Ok(*i as u64)
                    } else {
                        Err(violation(key, Shape::Code, Shape::Num))
                    }
                },
                NumberVal::Uint(u) => Ok(*u),
                NumberVal::Raw(_) => Err(violation(key, Shape::Code, Shape::Num)),
            },
            _ => Err(violation(key, Shape::Code, shape_of(v))),
        },
        None => Err(violation(key, Shape::Code, Shape::Missing)),
    }
}

/// Prefix grouping: the sub-mapping of the fields whose names start with
/// the group's prefix, with the prefix stripped from each name (never
/// replaced), in order. Fields that do not start with the prefix are
/// invisible to the group.
pub open spec fn spec_group(fields: VObj, prefix: Seq<char>) -> VObj
    decreases fields.len(),
{
    if fields.len() == 0 {
        Seq::empty()
    } else {
        let tail = spec_group(fields.drop_first(), prefix);
        if fields[0].0.len() >= prefix.len() && fields[0].0.subrange(
            0,
            prefix.len() as int,
        ) == prefix {
            seq![
                (
                    fields[0].0.subrange(prefix.len() as int, fields[0].0.len() as int),
                    fields[0].1,
                ),
            ] + tail
        } else {
            tail
        }
    }
}

/// Whether the field name starts with the group's prefix; if it does, the
/// name with the prefix stripped.
fn strip_group_prefix(key: &String, prefix: &str) -> (r: Option<String>)
    ensures
        match r {
            Some(s) => key@.len() >= prefix@.len() && key@.subrange(0, prefix@.len() as int)
                == prefix@ && s@ == key@.subrange(prefix@.len() as int, key@.len() as int),
            None => !(key@.len() >= prefix@.len() && key@.subrange(0, prefix@.len() as int)
                == prefix@),
        },
{
    let pl = prefix.unicode_len();
    let kl = key.as_str().unicode_len();
    if kl < pl {
        return None;
    }
    let mut i: usize = 0;
    while i < pl
        invariant
            0 <= i <= pl,
            pl == prefix@.len(),
            kl == key@.len(),
            pl <= kl,
            forall|j: int| 0 <= j < i ==> key@[j] == prefix@[j],
        decreases pl - i,
    {
        if key.as_str().get_char(i) != prefix.get_char(i) {
            proof {
                assert(key@.subrange(0, pl as int)[i as int] == key@[i as int]);
            }
            return None;
        }
        i = i + 1;
    }
    proof {
        assert(key@.subrange(0, pl as int) =~= prefix@);
    }
    Some(key.as_str().substring_char(pl, kl).to_owned())
}

/// Materializes a prefix group: every field whose name starts with the
/// prefix, the prefix stripped, order kept; the inner schema then decodes
/// against this sub-mapping.
pub fn extract_group(fields: Vec<(String, JValue)>, prefix: &str) -> (r: Vec<(String, JValue)>)
    ensures
        obj_view(r) == spec_group(obj_view(fields), prefix@),
{
    let ghost whole = obj_view(fields);
    let mut rest = fields;
    let mut out: Vec<(String, JValue)> = Vec::new();
    proof {
        assert(obj_view(out) =~= Seq::<(Seq<char>, VJson)>::empty());
        assert(obj_view(out) + spec_group(obj_view(rest), prefix@) =~= spec_group(whole, prefix@));
    }
    while rest.len() > 0
        invariant
            obj_view(out) + spec_group(obj_view(rest), prefix@) =~= spec_group(whole, prefix@),
        decreases rest@.len(),
    {
        let ghost rest_before = rest@;
        let ghost out_before = out@;
        let ghost group_before = spec_group(crate::tree::obj_view_seq(rest_before), prefix@);
        let pair = rest.remove(0);
        proof {
            assert(rest@ =~= rest_before.drop_first());
            assert(crate::tree::obj_view_seq(rest_before) =~= seq![(pair.0@, jv_view(pair.1))]
                + crate::tree::obj_view_seq(rest@));
            assert(crate::tree::obj_view_seq(rest_before).drop_first() =~= crate::tree::obj_view_seq(
                rest@,
            ));
            assert(crate::tree::obj_view_seq(rest_before)[0] == (pair.0@, jv_view(pair.1)));
        }
        match strip_group_prefix(&pair.0, prefix) {
            Some(name) => {
                let ghost stripped = name@;
                let entry = (name, pair.1);
                let ghost gentry = entry;
                out.push(entry);
                proof {
                    crate::tree::lemma_obj_view_push(out_before, gentry);
                    assert(group_before == seq![(stripped, jv_view(gentry.1))] + spec_group(
                        obj_view(rest),
                        prefix@,
                    ));
                    assert(obj_view(out) =~= crate::tree::obj_view_seq(out_before).push(
                        (stripped, jv_view(gentry.1)),
                    ));
                    assert(obj_view(out) + spec_group(obj_view(rest), prefix@) =~= crate::tree::obj_view_seq(
                        out_before,
                    ) + group_before);
                }
            },
            None => {
                proof {
                    assert(group_before == spec_group(obj_view(rest), prefix@));
                }
            },
        }
    }
    proof {
        assert(obj_view(rest) =~= Seq::<(Seq<char>, VJson)>::empty());
        assert(obj_view(out) =~= spec_group(whole, prefix@));
    }
    out
}

} // verus!
