//! The per-record decode pipeline: one raw line in, one typed record or one
//! typed error out, tied to the line's number. One line's outcome never
//! depends on any other line's.

use vstd::prelude::*;
use crate::tree::{JValue, VJson};
use crate::errors::{ErrorKind, VErrorKind, LineError, VLineError, le_view};
use crate::parse::{parsed_line, parse_line};
use crate::dispatch::{Event, VEvent, ev_view, spec_dispatch, dispatch};

verus! {

/// What decoding one line at one line number yields: a parse failure is a
/// malformed-input error; a well-formed value that is not a record of named
/// fields likewise; a record goes to the dispatcher, whose error is tied to
/// the line.
pub open spec fn spec_decode_line(s: Seq<char>, line_number: u64) -> Result<VEvent, VLineError> {
    match parsed_line(s) {
        None => Err(VLineError { line_number, kind: VErrorKind::MalformedInput }),
        Some(v) => match v {
            VJson::Obj(fields) => match spec_dispatch(fields) {
                Ok(ev) => Ok(ev),
                Err(k) => Err(VLineError { line_number, kind: k }),
            },
            _ => Err(VLineError { line_number, kind: VErrorKind::MalformedInput }),
        },
    }
}

/// Decodes one raw text line in isolation. The sole entry point for one
/// record; stateless aside from the immutable schema table.
pub fn decode_line(line: &str, line_number: u64) -> (r: Result<Event, LineError>)
    ensures
        match r {
            Ok(ev) => spec_decode_line(line@, line_number) == Ok::<VEvent, VLineError>(ev_view(ev)),
            Err(e) => spec_decode_line(line@, line_number) == Err::<VEvent, VLineError>(le_view(e)),
        },
{
    match parse_line(line) {
        None => Err(LineError { line_number, kind: ErrorKind::MalformedInput }),
        Some(v) => match v {
            JValue::Obj(fields) => match dispatch(fields) {
                Ok(ev) => Ok(ev),
                Err(k) => Err(LineError { line_number, kind: k }),
            },
            _ => Err(LineError { line_number, kind: ErrorKind::MalformedInput }),
        },
    }
}

/// Model of one line's outcome.
pub open spec fn outcome_view(r: Result<Event, LineError>) -> Result<VEvent, VLineError> {
    match r {
        Ok(ev) => Ok(ev_view(ev)),
        Err(e) => Err(le_view(e)),
    }
}

/// Decodes a whole journal, line by line and in input order, numbering
/// lines from one: there are exactly as many outcomes as lines, and the
/// outcome at each position is exactly the lone decoding of the line at
/// that position — no line's outcome affects any other's.
pub fn decode_lines(lines: &Vec<String>) -> (r: Vec<Result<Event, LineError>>)
    ensures
        r@.len() == lines@.len(),
        forall|i: int|
            0 <= i < lines@.len() ==> outcome_view(r@[i]) == spec_decode_line(
                lines@[i]@,
                (i + 1) as u64,
            ),
{
    let mut out: Vec<Result<Event, LineError>> = Vec::new();
    let mut i: usize = 0;
    while i < lines.len()
        invariant
            0 <= i <= lines@.len(),
            out@.len() == i,
            forall|j: int|
                0 <= j < i ==> outcome_view(out@[j]) == spec_decode_line(
                    lines@[j]@,
                    (j + 1) as u64,
                ),
        decreases lines@.len() - i,
    {
        let n: u64 = (i as u64) + 1;
        let outcome = decode_line(lines[i].as_str(), n);
        out.push(outcome);
        i = i + 1;
    }
    out
}

/// Decoding is deterministic: two decodings of the same line at the same
/// line number are the same outcome.
pub proof fn lemma_decode_deterministic(
    line: Seq<char>,
    line_number: u64,
    r1: Result<VEvent, VLineError>,
    r2: Result<VEvent, VLineError>,
)
    requires
        r1 == spec_decode_line(line, line_number),
        r2 == spec_decode_line(line, line_number),
    ensures
        r1 == r2,
{
}

} // verus!
