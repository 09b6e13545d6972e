//! The tagged dispatcher: reads the discriminator field of one decoded
//! record, selects the matching variant schema, and decodes the full record
//! against it. A record whose tag matches no known schema is kept whole as
//! the open-ended variant — that is the forward-compatibility contract.

use vstd::prelude::*;
use crate::tree::{JValue, VJson, VObj, obj_view, spec_lookup, lookup, str_eq};
use crate::errors::{ErrorKind, VErrorKind, ek_view};
use crate::schemas::{
    Fileheader, VFileheader, fileheader_view, spec_decode_fileheader, decode_fileheader,
    Commander, VCommander, commander_view, spec_decode_commander, decode_commander,
    Materials, materials_view, spec_decode_materials, decode_materials,
    Rank, spec_decode_rank, decode_rank,
    Progress, spec_decode_progress, decode_progress,
    Reputation, VReputation, reputation_view, spec_decode_reputation, decode_reputation,
    EngineerProgress, VEngineer, engineer_progress_view, spec_decode_engineer_progress,
    decode_engineer_progress,
};

verus! {

/// The closed set of known event kinds, with one open-ended fallback that
/// owns the whole field mapping of a record of any other kind.
#[derive(PartialEq, Eq)]
pub enum Event {
    Fileheader(Fileheader),
    Commander(Commander),
    Materials(Materials),
    Rank(Rank),
    Progress(Progress),
    Reputation(Reputation),
    EngineerProgress(EngineerProgress),
    Unknown(Vec<(String, JValue)>),
}

/// Model of an event.
pub ghost enum VEvent {
    Fileheader(VFileheader),
    Commander(VCommander),
    Materials(VObj),
    Rank(Rank),
    Progress(Progress),
    Reputation(VReputation),
    EngineerProgress(Seq<VEngineer>),
    Unknown(VObj),
}

pub open spec fn ev_view(e: Event) -> VEvent {
    match e {
        Event::Fileheader(f) => VEvent::Fileheader(fileheader_view(f)),
        Event::Commander(c) => VEvent::Commander(commander_view(c)),
        Event::Materials(m) => VEvent::Materials(materials_view(m)),
        Event::Rank(k) => VEvent::Rank(k),
        Event::Progress(p) => VEvent::Progress(p),
        Event::Reputation(p) => VEvent::Reputation(reputation_view(p)),
        Event::EngineerProgress(p) => VEvent::EngineerProgress(engineer_progress_view(p)),
        Event::Unknown(fields) => VEvent::Unknown(obj_view(fields)),
    }
}

/// The fixed name of the discriminator field.
pub open spec fn spec_discriminator() -> Seq<char> {
    "event"@
}

/// Whether a tag names a known schema of the table.
pub open spec fn known_tag(tag: Seq<char>) -> bool {
    ||| tag == "Fileheader"@
    ||| tag == "Commander"@
    ||| tag == "Materials"@
    ||| tag == "Rank"@
    ||| tag == "Progress"@
    ||| tag == "Reputation"@
    ||| tag == "EngineerProgress"@
}

/// Dispatch on an already-read tag: the matching schema decodes the full
/// mapping; an unknown tag keeps the mapping whole, a success.
pub open spec fn spec_dispatch_tag(fields: VObj, tag: Seq<char>) -> Result<VEvent, VErrorKind> {
    if tag == "Fileheader"@ {
        match spec_decode_fileheader(fields) {
            Ok(f) => Ok(VEvent::Fileheader(f)),
            Err(e) => Err(e),
        }
    } else if tag == "Commander"@ {
        match spec_decode_commander(fields) {
            Ok(c) => Ok(VEvent::Commander(c)),
            Err(e) => Err(e),
        }
    } else if tag == "Materials"@ {
        Ok(VEvent::Materials(spec_decode_materials(fields)))
    } else if tag == "Rank"@ {
        match spec_decode_rank(fields) {
            Ok(k) => Ok(VEvent::Rank(k)),
            Err(e) => Err(e),
        }
    } else if tag == "Progress"@ {
        match spec_decode_progress(fields) {
            Ok(p) => Ok(VEvent::Progress(p)),
            Err(e) => Err(e),
        }
    } else if tag == "Reputation"@ {
        match spec_decode_reputation(fields) {
            Ok(p) => Ok(VEvent::Reputation(p)),
            Err(e) => Err(e),
        }
    } else if tag == "EngineerProgress"@ {
        match spec_decode_engineer_progress(fields) {
            Ok(p) => Ok(VEvent::EngineerProgress(p)),
            Err(e) => Err(e),
        }
    } else {
        Ok(VEvent::Unknown(fields))
    }
}

/// The dispatcher: a pure function of the input mapping and the immutable
/// schema table. A record without a textual discriminator fails with
/// `MissingDiscriminator`; one with an unknown tag succeeds as `Unknown`
/// with every original field kept; one with a known tag decodes against
/// that schema, or fails with that schema's error.
pub open spec fn spec_dispatch(fields: VObj) -> Result<VEvent, VErrorKind> {
    match spec_lookup(fields, spec_discriminator()) {
        Some(VJson::Str(tag)) => spec_dispatch_tag(fields, tag),
        _ => Err(VErrorKind::MissingDiscriminator),
    }
}

pub fn dispatch(fields: Vec<(String, JValue)>) -> (r: Result<Event, ErrorKind>)
    ensures
        match r {
            Ok(ev) => spec_dispatch(obj_view(fields)) == Ok::<VEvent, VErrorKind>(ev_view(ev)),
            Err(e) => spec_dispatch(obj_view(fields)) == Err::<VEvent, VErrorKind>(ek_view(e)),
        },
{
    let tag: String = match lookup(&fields, "event") {
        Some(v) => match v {
            JValue::Str(s) => s.clone(),
            _ => {
                return Err(ErrorKind::MissingDiscriminator);
            },
        },
        None => {
            return Err(ErrorKind::MissingDiscriminator);
        },
    };
    if str_eq(&tag, "Fileheader") {
        match decode_fileheader(&fields) {
            Ok(f) => Ok(Event::Fileheader(f)),
            Err(e) => Err(e),
        }
    } else if str_eq(&tag, "Commander") {
        match decode_commander(&fields) {
            Ok(c) => Ok(Event::Commander(c)),
            Err(e) => Err(e),
        }
    } else if str_eq(&tag, "Materials") {
        Ok(Event::Materials(decode_materials(fields)))
    } else if str_eq(&tag, "Rank") {
        match decode_rank(&fields) {
            Ok(k) => Ok(Event::Rank(k)),
            Err(e) => Err(e),
        }
    } else if str_eq(&tag, "Progress") {
        match decode_progress(&fields) {
            Ok(p) => Ok(Event::Progress(p)),
            Err(e) => Err(e),
        }
    } else if str_eq(&tag, "Reputation") {
        match decode_reputation(&fields) {
            Ok(p) => Ok(Event::Reputation(p)),
            Err(e) => Err(e),
        }
    } else if str_eq(&tag, "EngineerProgress") {
        match decode_engineer_progress(fields) {
            Ok(p) => Ok(Event::EngineerProgress(p)),
            Err(e) => Err(e),
        }
    } else {
        Ok(Event::Unknown(fields))
    }
}

/// For any record whose discriminator is a string naming no known schema,
/// dispatch succeeds and yields the open-ended variant holding every
/// original field, unchanged and in order.
pub proof fn lemma_unknown_kind_kept(fields: VObj, tag: Seq<char>)
    requires
        spec_lookup(fields, spec_discriminator()) == Some(VJson::Str(tag)),
        !known_tag(tag),
    ensures
        spec_dispatch(fields) == Ok::<VEvent, VErrorKind>(VEvent::Unknown(fields)),
{
}

} // verus!
