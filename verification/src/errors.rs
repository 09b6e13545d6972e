//! The error taxonomy: every failure is recoverable and tied to one line.

use vstd::prelude::*;
use crate::tree::{JValue, VJson, jv_view};

verus! {

/// Which ranked scale an out-of-range ordinal code was meant for.
#[derive(PartialEq, Eq, Structural, Clone, Copy, Debug)]
pub enum ScaleId {
    Combat,
    Trade,
    Explore,
    Soldier,
    Exobiologist,
    Empire,
    Federation,
}

/// The shape of a value, for error reports: either what a field actually
/// held, or what the schema expected of it.
#[derive(PartialEq, Eq, Structural, Clone, Copy, Debug)]
pub enum Shape {
    Null,
    Bool,
    Num,
    Str,
    Arr,
    Obj,
    /// The field is not present at all.
    Missing,
    /// A signed integer fitting 32 bits.
    I32,
    /// An unsigned integer fitting 64 bits.
    U64,
    /// An unsigned integer fitting 32 bits.
    U32,
    /// An unsigned integer fitting 8 bits.
    U8,
    /// A string, where the empty string, like null, stands for an absent
    /// value.
    OptStr,
    /// A non-negative integer code addressing a ranked scale.
    Code,
    /// A string naming a level of an enumerated kind.
    Name,
}

/// Why one record failed to decode.
#[derive(PartialEq, Eq, Debug)]
pub enum ErrorKind {
    /// The line is not a well-formed structured record at all.
    MalformedInput,
    /// No discriminator field was found in an otherwise well-formed record.
    MissingDiscriminator,
    /// A known event kind's required field is missing or of the wrong shape.
    SchemaViolation { field: String, expected: Shape, actual: Shape },
    /// A ranked-scale field's numeric code has no corresponding named level.
    InvalidOrdinal { code: u64, scale: ScaleId },
}

/// Model of an error kind, with field names as character sequences.
pub ghost enum VErrorKind {
    MalformedInput,
    MissingDiscriminator,
    SchemaViolation { field: Seq<char>, expected: Shape, actual: Shape },
    InvalidOrdinal { code: u64, scale: ScaleId },
}

pub open spec fn ek_view(e: ErrorKind) -> VErrorKind {
    match e {
        ErrorKind::MalformedInput => VErrorKind::MalformedInput,
        ErrorKind::MissingDiscriminator => VErrorKind::MissingDiscriminator,
        ErrorKind::SchemaViolation { field, expected, actual } => VErrorKind::SchemaViolation {
            field: field@,
            expected,
            actual,
        },
        ErrorKind::InvalidOrdinal { code, scale } => VErrorKind::InvalidOrdinal { code, scale },
    }
}

/// An error attached to the line it arose on.
#[derive(PartialEq, Eq, Debug)]
pub struct LineError {
    pub line_number: u64,
    pub kind: ErrorKind,
}

/// Model of a per-line error.
pub ghost struct VLineError {
    pub line_number: u64,
    pub kind: VErrorKind,
}

pub open spec fn le_view(e: LineError) -> VLineError {
    VLineError { line_number: e.line_number, kind: ek_view(e.kind) }
}

/// The shape a structured value presents to a schema.
pub open spec fn spec_shape_of(v: VJson) -> Shape {
    match v {
        VJson::Null => Shape::Null,
        VJson::Bool(_) => Shape::Bool,
        VJson::Num(_) => Shape::Num,
        VJson::Str(_) => Shape::Str,
        VJson::Arr(_) => Shape::Arr,
        VJson::Obj(_) => Shape::Obj,
    }
}

pub fn shape_of(v: &JValue) -> (s: Shape)
    ensures
        s == spec_shape_of(jv_view(*v)),
{
    match v {
        JValue::Null => Shape::Null,
        JValue::Bool(_) => Shape::Bool,
        JValue::Num(_) => Shape::Num,
        JValue::Str(_) => Shape::Str,
        JValue::Arr(_) => Shape::Arr,
        JValue::Obj(_) => Shape::Obj,
    }
}

} // verus!
