//! One schema per known event kind: a record shape built from the field
//! coercion engine, each decoded against the full field mapping of one
//! record. Shared substructures (the version block) are merged into the
//! flat field namespace of the records that embed them.

use vstd::prelude::*;
use crate::tree::{JValue, NumberVal, VJson, VNum, VObj, jv_view, num_view, obj_view, arr_view_seq, spec_lookup, spec_remove, lookup, remove_field, str_eq, lemma_obj_view_at, lemma_arr_view_at};
use crate::errors::{ErrorKind, VErrorKind, Shape, ScaleId, ek_view, spec_shape_of, shape_of};
use crate::names::{Convention, spec_convert, spec_convert_prefix, convert_name};
use crate::coerce::{
    spec_req_bool, req_bool, spec_req_i32, req_i32, spec_req_u64, req_u64, spec_req_u32, req_u32,
    spec_req_u8, req_u8, spec_req_string, req_string, spec_opt_string, opt_string, spec_req_num,
    req_num, spec_req_code, req_code, spec_missing, spec_bad_shape,
};
use crate::scales::{
    CombatRank, TradeRank, ExplorationRank, MercenaryRank, ExobiologistRank, EmpireRank,
    FederationRank, spec_combat_rank, combat_rank_from_code, spec_trade_rank, trade_rank_from_code,
    spec_exploration_rank, exploration_rank_from_code, spec_mercenary_rank,
    mercenary_rank_from_code, spec_exobiologist_rank, exobiologist_rank_from_code,
    spec_empire_rank, empire_rank_from_code, spec_federation_rank, federation_rank_from_code,
};

verus! {

// ---------------------------------------------------------------------------
// Version: a shared substructure carried by several event kinds, merged into
// their flat field namespace. Its schema uses the all-lowercase convention.
// ---------------------------------------------------------------------------

#[derive(PartialEq, Eq, Debug)]
pub struct Version {
    pub game_version: String,
    pub build: String,
    pub language: String,
}

pub ghost struct VVersion {
    pub game_version: Seq<char>,
    pub build: Seq<char>,
    pub language: Seq<char>,
}

pub open spec fn version_view(v: Version) -> VVersion {
    VVersion { game_version: v.game_version@, build: v.build@, language: v.language@ }
}

pub open spec fn spec_decode_version(fields: VObj) -> Result<VVersion, VErrorKind> {
    match spec_req_string(fields, spec_convert("game_version"@, Convention::LowerJoin)) {
        Err(e) => Err(e),
        Ok(game_version) => match spec_req_string(fields, spec_convert("build"@, Convention::LowerJoin)) {
            Err(e) => Err(e),
            Ok(build) => match spec_req_string(fields, spec_convert("language"@, Convention::LowerJoin)) {
                Err(e) => Err(e),
                Ok(language) => Ok(VVersion { game_version, build, language }),
            },
        },
    }
}

pub fn decode_version(fields: &Vec<(String, JValue)>) -> (r: Result<Version, ErrorKind>)
    ensures
        match r {
            Ok(v) => spec_decode_version(obj_view(*fields)) == Ok::<VVersion, VErrorKind>(
                version_view(v),
            ),
            Err(e) => spec_decode_version(obj_view(*fields)) == Err::<VVersion, VErrorKind>(
                ek_view(e),
            ),
        },
{
    let key_gv = convert_name("game_version", Convention::LowerJoin);
    let game_version = match req_string(fields, key_gv.as_str()) {
        Ok(s) => s,
        Err(e) => {
            return Err(e);
        },
    };
    let key_b = convert_name("build", Convention::LowerJoin);
    let build = match req_string(fields, key_b.as_str()) {
        Ok(s) => s,
        Err(e) => {
            return Err(e);
        },
    };
    let key_l = convert_name("language", Convention::LowerJoin);
    let language = match req_string(fields, key_l.as_str()) {
        Ok(s) => s,
        Err(e) => {
            return Err(e);
        },
    };
    Ok(Version { game_version, build, language })
}

// ---------------------------------------------------------------------------
// Fileheader: the first record of every journal. Its own fields use literal
// spellings (one lower-case, one an overridden capitalized name), and the
// version block is flattened in beside them.
// ---------------------------------------------------------------------------

#[derive(PartialEq, Eq, Debug)]
pub struct Fileheader {
    pub part: i32,
    pub odyssey: bool,
    pub version: Version,
}

pub ghost struct VFileheader {
    pub part: i32,
    pub odyssey: bool,
    pub version: VVersion,
}

pub open spec fn fileheader_view(f: Fileheader) -> VFileheader {
    VFileheader { part: f.part, odyssey: f.odyssey, version: version_view(f.version) }
}

pub open spec fn spec_decode_fileheader(fields: VObj) -> Result<VFileheader, VErrorKind> {
    match spec_req_i32(fields, "part"@) {
        Err(e) => Err(e),
        Ok(part) => match spec_req_bool(fields, "Odyssey"@) {
            Err(e) => Err(e),
            Ok(odyssey) => match spec_decode_version(fields) {
                Err(e) => Err(e),
                Ok(version) => Ok(VFileheader { part, odyssey, version }),
            },
        },
    }
}

pub fn decode_fileheader(fields: &Vec<(String, JValue)>) -> (r: Result<Fileheader, ErrorKind>)
    ensures
        match r {
            Ok(f) => spec_decode_fileheader(obj_view(*fields)) == Ok::<VFileheader, VErrorKind>(
                fileheader_view(f),
            ),
            Err(e) => spec_decode_fileheader(obj_view(*fields)) == Err::<VFileheader, VErrorKind>(
                ek_view(e),
            ),
        },
{
    let part = match req_i32(fields, "part") {
        Ok(n) => n,
        Err(e) => {
            return Err(e);
        },
    };
    let odyssey = match req_bool(fields, "Odyssey") {
        Ok(b) => b,
        Err(e) => {
            return Err(e);
        },
    };
    let version = match decode_version(fields) {
        Ok(v) => v,
        Err(e) => {
            return Err(e);
        },
    };
    Ok(Fileheader { part, odyssey, version })
}

// ---------------------------------------------------------------------------
// Commander: who is playing. The field spellings are per-field overrides
// (an all-caps acronym and a capitalized name). The commander id is kept
// verbatim in the data model; only its rendering is masked.
// ---------------------------------------------------------------------------

/// A commander id. The raw value stays intact in the data model; anything
/// that renders it for people goes through `redacted`.
#[derive(PartialEq, Eq)]
pub struct Fid(pub String);

impl Fid {
    /// The masked rendering: a fixed placeholder that never depends on, nor
    /// reveals, the raw value.
    pub fn redacted(&self) -> (r: String)
        ensures
            r@ == "F~~~~~~"@,
    {
        "F~~~~~~".to_owned()
    }
}

#[derive(PartialEq, Eq)]
pub struct Commander {
    pub fid: Fid,
    pub name: String,
}

pub ghost struct VCommander {
    pub fid: Seq<char>,
    pub name: Seq<char>,
}

pub open spec fn commander_view(c: Commander) -> VCommander {
    VCommander { fid: c.fid.0@, name: c.name@ }
}

pub open spec fn spec_decode_commander(fields: VObj) -> Result<VCommander, VErrorKind> {
    match spec_req_string(fields, "FID"@) {
        Err(e) => Err(e),
        Ok(fid) => match spec_req_string(fields, "Name"@) {
            Err(e) => Err(e),
            Ok(name) => Ok(VCommander { fid, name }),
        },
    }
}

pub fn decode_commander(fields: &Vec<(String, JValue)>) -> (r: Result<Commander, ErrorKind>)
    ensures
        match r {
            Ok(c) => spec_decode_commander(obj_view(*fields)) == Ok::<VCommander, VErrorKind>(
                commander_view(c),
            ),
            Err(e) => spec_decode_commander(obj_view(*fields)) == Err::<VCommander, VErrorKind>(
                ek_view(e),
            ),
        },
{
    let fid = match req_string(fields, "FID") {
        Ok(s) => s,
        Err(e) => {
            return Err(e);
        },
    };
    let name = match req_string(fields, "Name") {
        Ok(s) => s,
        Err(e) => {
            return Err(e);
        },
    };
    Ok(Commander { fid: Fid(fid), name })
}

// ---------------------------------------------------------------------------
// Materials: a grab-bag record; everything but the discriminator is kept
// as the generic field mapping it arrived as.
// ---------------------------------------------------------------------------

#[derive(PartialEq, Eq, Debug)]
pub struct Materials {
    pub stuff: Vec<(String, JValue)>,
}

pub open spec fn materials_view(m: Materials) -> VObj {
    obj_view(m.stuff)
}

pub open spec fn spec_decode_materials(fields: VObj) -> VObj {
    spec_remove(fields, "event"@)
}

pub fn decode_materials(fields: Vec<(String, JValue)>) -> (r: Materials)
    ensures
        materials_view(r) == spec_decode_materials(obj_view(fields)),
{
    let mut rest = fields;
    let _ = remove_field(&mut rest, "event");
    Materials { stuff: rest }
}


// ---------------------------------------------------------------------------
// Rank: one ranked-scale field per discipline, plus one plain numeric rank.
// Field spellings follow the capitalized no-separator convention, with one
// all-caps override.
// ---------------------------------------------------------------------------

/// One ranked-scale field: its raw code read by the coercion engine, then
/// mapped to the scale's named level by bounds-checked lookup; a code past
/// the scale's last level is an `InvalidOrdinal`, never clamped.
pub open spec fn spec_scale_field<T>(
    fields: VObj,
    key: Seq<char>,
    level_of: spec_fn(u64) -> Option<T>,
    scale: ScaleId,
) -> Result<T, VErrorKind> {
    match spec_req_code(fields, key) {
        Err(e) => Err(e),
        Ok(code) => match level_of(code) {
            Some(t) => Ok(t),
            None => Err(VErrorKind::InvalidOrdinal { code, scale }),
        },
    }
}

fn combat_field(fields: &Vec<(String, JValue)>, key: &str) -> (r: Result<CombatRank, ErrorKind>)
    ensures
        match r {
            Ok(t) => spec_scale_field(obj_view(*fields), key@, |c: u64| spec_combat_rank(c), ScaleId::Combat)
                == Ok::<CombatRank, VErrorKind>(t),
            Err(e) => spec_scale_field(obj_view(*fields), key@, |c: u64| spec_combat_rank(c), ScaleId::Combat)
                == Err::<CombatRank, VErrorKind>(ek_view(e)),
        },
{
    match req_code(fields, key) {
        Err(e) => Err(e),
        Ok(code) => match combat_rank_from_code(code) {
            Some(t) => Ok(t),
            None => Err(ErrorKind::InvalidOrdinal { code, scale: ScaleId::Combat }),
        },
    }
}

fn trade_field(fields: &Vec<(String, JValue)>, key: &str) -> (r: Result<TradeRank, ErrorKind>)
    ensures
        match r {
            Ok(t) => spec_scale_field(obj_view(*fields), key@, |c: u64| spec_trade_rank(c), ScaleId::Trade)
                == Ok::<TradeRank, VErrorKind>(t),
            Err(e) => spec_scale_field(obj_view(*fields), key@, |c: u64| spec_trade_rank(c), ScaleId::Trade)
                == Err::<TradeRank, VErrorKind>(ek_view(e)),
        },
{
    match req_code(fields, key) {
        Err(e) => Err(e),
        Ok(code) => match trade_rank_from_code(code) {
            Some(t) => Ok(t),
            None => Err(ErrorKind::InvalidOrdinal { code, scale: ScaleId::Trade }),
        },
    }
}

fn explore_field(fields: &Vec<(String, JValue)>, key: &str) -> (r: Result<ExplorationRank, ErrorKind>)
    ensures
        match r {
            Ok(t) => spec_scale_field(obj_view(*fields), key@, |c: u64| spec_exploration_rank(c), ScaleId::Explore)
                == Ok::<ExplorationRank, VErrorKind>(t),
            Err(e) => spec_scale_field(obj_view(*fields), key@, |c: u64| spec_exploration_rank(c), ScaleId::Explore)
                == Err::<ExplorationRank, VErrorKind>(ek_view(e)),
        },
{
    match req_code(fields, key) {
        Err(e) => Err(e),
        Ok(code) => match exploration_rank_from_code(code) {
            Some(t) => Ok(t),
            None => Err(ErrorKind::InvalidOrdinal { code, scale: ScaleId::Explore }),
        },
    }
}

fn soldier_field(fields: &Vec<(String, JValue)>, key: &str) -> (r: Result<MercenaryRank, ErrorKind>)
    ensures
        match r {
            Ok(t) => spec_scale_field(obj_view(*fields), key@, |c: u64| spec_mercenary_rank(c), ScaleId::Soldier)
                == Ok::<MercenaryRank, VErrorKind>(t),
            Err(e) => spec_scale_field(obj_view(*fields), key@, |c: u64| spec_mercenary_rank(c), ScaleId::Soldier)
                == Err::<MercenaryRank, VErrorKind>(ek_view(e)),
        },
{
    match req_code(fields, key) {
        Err(e) => Err(e),
        Ok(code) => match mercenary_rank_from_code(code) {
            Some(t) => Ok(t),
            None => Err(ErrorKind::InvalidOrdinal { code, scale: ScaleId::Soldier }),
        },
    }
}

fn exobiologist_field(fields: &Vec<(String, JValue)>, key: &str) -> (r: Result<ExobiologistRank, ErrorKind>)
    ensures
        match r {
            Ok(t) => spec_scale_field(obj_view(*fields), key@, |c: u64| spec_exobiologist_rank(c), ScaleId::Exobiologist)
                == Ok::<ExobiologistRank, VErrorKind>(t),
            Err(e) => spec_scale_field(obj_view(*fields), key@, |c: u64| spec_exobiologist_rank(c), ScaleId::Exobiologist)
                == Err::<ExobiologistRank, VErrorKind>(ek_view(e)),
        },
{
    match req_code(fields, key) {
        Err(e) => Err(e),
        Ok(code) => match exobiologist_rank_from_code(code) {
            Some(t) => Ok(t),
            None => Err(ErrorKind::InvalidOrdinal { code, scale: ScaleId::Exobiologist }),
        },
    }
}

fn empire_field(fields: &Vec<(String, JValue)>, key: &str) -> (r: Result<EmpireRank, ErrorKind>)
    ensures
        match r {
            Ok(t) => spec_scale_field(obj_view(*fields), key@, |c: u64| spec_empire_rank(c), ScaleId::Empire)
                == Ok::<EmpireRank, VErrorKind>(t),
            Err(e) => spec_scale_field(obj_view(*fields), key@, |c: u64| spec_empire_rank(c), ScaleId::Empire)
                == Err::<EmpireRank, VErrorKind>(ek_view(e)),
        },
{
    match req_code(fields, key) {
        Err(e) => Err(e),
        Ok(code) => match empire_rank_from_code(code) {
            Some(t) => Ok(t),
            None => Err(ErrorKind::InvalidOrdinal { code, scale: ScaleId::Empire }),
        },
    }
}

fn federation_field(fields: &Vec<(String, JValue)>, key: &str) -> (r: Result<FederationRank, ErrorKind>)
    ensures
        match r {
            Ok(t) => spec_scale_field(obj_view(*fields), key@, |c: u64| spec_federation_rank(c), ScaleId::Federation)
                == Ok::<FederationRank, VErrorKind>(t),
            Err(e) => spec_scale_field(obj_view(*fields), key@, |c: u64| spec_federation_rank(c), ScaleId::Federation)
                == Err::<FederationRank, VErrorKind>(ek_view(e)),
        },
{
    match req_code(fields, key) {
        Err(e) => Err(e),
        Ok(code) => match federation_rank_from_code(code) {
            Some(t) => Ok(t),
            None => Err(ErrorKind::InvalidOrdinal { code, scale: ScaleId::Federation }),
        },
    }
}

#[derive(PartialEq, Eq, Structural, Clone, Copy, Debug)]
pub struct Rank {
    pub combat: CombatRank,
    pub trade: TradeRank,
    pub explore: ExplorationRank,
    pub soldier: MercenaryRank,
    pub exobiologist: ExobiologistRank,
    pub empire: EmpireRank,
    pub federation: FederationRank,
    pub cqc: u8,
}

pub open spec fn spec_decode_rank(fields: VObj) -> Result<Rank, VErrorKind> {
    match spec_scale_field(fields, spec_convert("combat"@, Convention::Pascal), |c: u64| spec_combat_rank(c), ScaleId::Combat) {
        Err(e) => Err(e),
        Ok(combat) => match spec_scale_field(fields, spec_convert("trade"@, Convention::Pascal), |c: u64| spec_trade_rank(c), ScaleId::Trade) {
            Err(e) => Err(e),
            Ok(trade) => match spec_scale_field(fields, spec_convert("explore"@, Convention::Pascal), |c: u64| spec_exploration_rank(c), ScaleId::Explore) {
                Err(e) => Err(e),
                Ok(explore) => match spec_scale_field(fields, spec_convert("soldier"@, Convention::Pascal), |c: u64| spec_mercenary_rank(c), ScaleId::Soldier) {
                    Err(e) => Err(e),
                    Ok(soldier) => match spec_scale_field(fields, spec_convert("exobiologist"@, Convention::Pascal), |c: u64| spec_exobiologist_rank(c), ScaleId::Exobiologist) {
                        Err(e) => Err(e),
                        Ok(exobiologist) => match spec_scale_field(fields, spec_convert("empire"@, Convention::Pascal), |c: u64| spec_empire_rank(c), ScaleId::Empire) {
                            Err(e) => Err(e),
                            Ok(empire) => match spec_scale_field(fields, spec_convert("federation"@, Convention::Pascal), |c: u64| spec_federation_rank(c), ScaleId::Federation) {
                                Err(e) => Err(e),
                                Ok(federation) => match spec_req_u8(fields, "CQC"@) {
                                    Err(e) => Err(e),
                                    Ok(cqc) => Ok(Rank { combat, trade, explore, soldier, exobiologist, empire, federation, cqc }),
                                },
                            },
                        },
                    },
                },
            },
        },
    }
}

pub fn decode_rank(fields: &Vec<(String, JValue)>) -> (r: Result<Rank, ErrorKind>)
    ensures
        match r {
            Ok(k) => spec_decode_rank(obj_view(*fields)) == Ok::<Rank, VErrorKind>(k),
            Err(e) => spec_decode_rank(obj_view(*fields)) == Err::<Rank, VErrorKind>(ek_view(e)),
        },
{
    let key_combat = convert_name("combat", Convention::Pascal);
    let combat = match combat_field(fields, key_combat.as_str()) {
        Ok(t) => t,
        Err(e) => {
            return Err(e);
        },
    };
    let key_trade = convert_name("trade", Convention::Pascal);
    let trade = match trade_field(fields, key_trade.as_str()) {
        Ok(t) => t,
        Err(e) => {
            return Err(e);
        },
    };
    let key_explore = convert_name("explore", Convention::Pascal);
    let explore = match explore_field(fields, key_explore.as_str()) {
        Ok(t) => t,
        Err(e) => {
            return Err(e);
        },
    };
    let key_soldier = convert_name("soldier", Convention::Pascal);
    let soldier = match soldier_field(fields, key_soldier.as_str()) {
        Ok(t) => t,
        Err(e) => {
            return Err(e);
        },
    };
    let key_exobiologist = convert_name("exobiologist", Convention::Pascal);
    let exobiologist = match exobiologist_field(fields, key_exobiologist.as_str()) {
        Ok(t) => t,
        Err(e) => {
            return Err(e);
        },
    };
    let key_empire = convert_name("empire", Convention::Pascal);
    let empire = match empire_field(fields, key_empire.as_str()) {
        Ok(t) => t,
        Err(e) => {
            return Err(e);
        },
    };
    let key_federation = convert_name("federation", Convention::Pascal);
    let federation = match federation_field(fields, key_federation.as_str()) {
        Ok(t) => t,
        Err(e) => {
            return Err(e);
        },
    };
    let cqc = match req_u8(fields, "CQC") {
        Ok(n) => n,
        Err(e) => {
            return Err(e);
        },
    };
    Ok(Rank { combat, trade, explore, soldier, exobiologist, empire, federation, cqc })
}


// ---------------------------------------------------------------------------
// Progress: how far along each discipline's next rank is, in whole numbers.
// ---------------------------------------------------------------------------

#[derive(PartialEq, Eq, Structural, Clone, Copy, Debug)]
pub struct Progress {
    pub combat: u32,
    pub trade: u32,
    pub explore: u32,
    pub soldier: u32,
    pub exobiologist: u32,
    pub empire: u32,
    pub federation: u32,
    pub cqc: u32,
}

pub open spec fn spec_decode_progress(fields: VObj) -> Result<Progress, VErrorKind> {
    match spec_req_u32(fields, spec_convert("combat"@, Convention::Pascal)) {
        Err(e) => Err(e),
        Ok(combat) => match spec_req_u32(fields, spec_convert("trade"@, Convention::Pascal)) {
            Err(e) => Err(e),
            Ok(trade) => match spec_req_u32(fields, spec_convert("explore"@, Convention::Pascal)) {
                Err(e) => Err(e),
                Ok(explore) => match spec_req_u32(fields, spec_convert("soldier"@, Convention::Pascal)) {
                    Err(e) => Err(e),
                    Ok(soldier) => match spec_req_u32(fields, spec_convert("exobiologist"@, Convention::Pascal)) {
                        Err(e) => Err(e),
                        Ok(exobiologist) => match spec_req_u32(fields, spec_convert("empire"@, Convention::Pascal)) {
                            Err(e) => Err(e),
                            Ok(empire) => match spec_req_u32(fields, spec_convert("federation"@, Convention::Pascal)) {
                                Err(e) => Err(e),
                                Ok(federation) => match spec_req_u32(fields, "CQC"@) {
                                    Err(e) => Err(e),
                                    Ok(cqc) => Ok(Progress { combat, trade, explore, soldier, exobiologist, empire, federation, cqc }),
                                },
                            },
                        },
                    },
                },
            },
        },
    }
}

pub fn decode_progress(fields: &Vec<(String, JValue)>) -> (r: Result<Progress, ErrorKind>)
    ensures
        match r {
            Ok(p) => spec_decode_progress(obj_view(*fields)) == Ok::<Progress, VErrorKind>(p),
            Err(e) => spec_decode_progress(obj_view(*fields)) == Err::<Progress, VErrorKind>(ek_view(e)),
        },
{
    let key_combat = convert_name("combat", Convention::Pascal);
    let combat = match req_u32(fields, key_combat.as_str()) {
        Ok(n) => n,
        Err(e) => {
            return Err(e);
        },
    };
    let key_trade = convert_name("trade", Convention::Pascal);
    let trade = match req_u32(fields, key_trade.as_str()) {
        Ok(n) => n,
        Err(e) => {
            return Err(e);
        },
    };
    let key_explore = convert_name("explore", Convention::Pascal);
    let explore = match req_u32(fields, key_explore.as_str()) {
        Ok(n) => n,
        Err(e) => {
            return Err(e);
        },
    };
    let key_soldier = convert_name("soldier", Convention::Pascal);
    let soldier = match req_u32(fields, key_soldier.as_str()) {
        Ok(n) => n,
        Err(e) => {
            return Err(e);
        },
    };
    let key_exobiologist = convert_name("exobiologist", Convention::Pascal);
    let exobiologist = match req_u32(fields, key_exobiologist.as_str()) {
        Ok(n) => n,
        Err(e) => {
            return Err(e);
        },
    };
    let key_empire = convert_name("empire", Convention::Pascal);
    let empire = match req_u32(fields, key_empire.as_str()) {
        Ok(n) => n,
        Err(e) => {
            return Err(e);
        },
    };
    let key_federation = convert_name("federation", Convention::Pascal);
    let federation = match req_u32(fields, key_federation.as_str()) {
        Ok(n) => n,
        Err(e) => {
            return Err(e);
        },
    };
    let cqc = match req_u32(fields, "CQC") {
        Ok(n) => n,
        Err(e) => {
            return Err(e);
        },
    };
    Ok(Progress { combat, trade, explore, soldier, exobiologist, empire, federation, cqc })
}


// ---------------------------------------------------------------------------
// Reputation: standing with each power, kept as the numbers they arrived
// as. Declared with the other schemas though not yet in the dispatch table
// of the original stream; registering it is part of this schema table.
// ---------------------------------------------------------------------------

#[derive(PartialEq, Eq, Debug)]
pub struct Reputation {
    pub empire: NumberVal,
    pub federation: NumberVal,
    pub independent: NumberVal,
    pub alliance: NumberVal,
}

pub ghost struct VReputation {
    pub empire: VNum,
    pub federation: VNum,
    pub independent: VNum,
    pub alliance: VNum,
}

pub open spec fn reputation_view(p: Reputation) -> VReputation {
    VReputation { empire: num_view(p.empire), federation: num_view(p.federation), independent: num_view(p.independent), alliance: num_view(p.alliance) }
}

pub open spec fn spec_decode_reputation(fields: VObj) -> Result<VReputation, VErrorKind> {
    match spec_req_num(fields, spec_convert("empire"@, Convention::Pascal)) {
        Err(e) => Err(e),
        Ok(empire) => match spec_req_num(fields, spec_convert("federation"@, Convention::Pascal)) {
            Err(e) => Err(e),
            Ok(federation) => match spec_req_num(fields, spec_convert("independent"@, Convention::Pascal)) {
                Err(e) => Err(e),
                Ok(independent) => match spec_req_num(fields, spec_convert("alliance"@, Convention::Pascal)) {
                    Err(e) => Err(e),
                    Ok(alliance) => Ok(VReputation { empire, federation, independent, alliance }),
                },
            },
        },
    }
}

pub fn decode_reputation(fields: &Vec<(String, JValue)>) -> (r: Result<Reputation, ErrorKind>)
    ensures
        match r {
            Ok(p) => spec_decode_reputation(obj_view(*fields)) == Ok::<VReputation, VErrorKind>(reputation_view(p)),
            Err(e) => spec_decode_reputation(obj_view(*fields)) == Err::<VReputation, VErrorKind>(ek_view(e)),
        },
{
    let key_empire = convert_name("empire", Convention::Pascal);
    let empire = match req_num(fields, key_empire.as_str()) {
        Ok(n) => n,
        Err(e) => {
            return Err(e);
        },
    };
    let key_federation = convert_name("federation", Convention::Pascal);
    let federation = match req_num(fields, key_federation.as_str()) {
        Ok(n) => n,
        Err(e) => {
            return Err(e);
        },
    };
    let key_independent = convert_name("independent", Convention::Pascal);
    let independent = match req_num(fields, key_independent.as_str()) {
        Ok(n) => n,
        Err(e) => {
            return Err(e);
        },
    };
    let key_alliance = convert_name("alliance", Convention::Pascal);
    let alliance = match req_num(fields, key_alliance.as_str()) {
        Ok(n) => n,
        Err(e) => {
            return Err(e);
        },
    };
    Ok(Reputation { empire, federation, independent, alliance })
}


// ---------------------------------------------------------------------------
// EngineerProgress: a list of nested engineer records. Another schema that
// the original stream declares alongside the wired-in kinds; it is
// registered in this schema table.
// ---------------------------------------------------------------------------

/// How far one engineer's discovery is. It arrives either as the bare name
/// of the known state, or as a one-field record naming the open-ended
/// state and carrying its raw fields verbatim.
#[derive(PartialEq, Eq, Debug)]
pub enum EngineerDiscovery {
    Known,
    Unknown(Vec<(String, JValue)>),
}

pub ghost enum VDiscovery {
    Known,
    Unknown(VObj),
}

pub open spec fn discovery_view(d: EngineerDiscovery) -> VDiscovery {
    match d {
        EngineerDiscovery::Known => VDiscovery::Known,
        EngineerDiscovery::Unknown(fields) => VDiscovery::Unknown(obj_view(fields)),
    }
}

pub open spec fn spec_decode_discovery(v: VJson, key: Seq<char>) -> Result<VDiscovery, VErrorKind> {
    match v {
        VJson::Str(s) => if s == "Known"@ {
            Ok(VDiscovery::Known)
        } else {
            Err(VErrorKind::SchemaViolation { field: key, expected: Shape::Name, actual: Shape::Str })
        },
        VJson::Obj(fields) => if fields.len() == 1 && fields[0].0 == "Unknown"@ {
            match fields[0].1 {
                VJson::Obj(m) => Ok(VDiscovery::Unknown(m)),
                _ => Err(VErrorKind::SchemaViolation {
                    field: key,
                    expected: Shape::Obj,
                    actual: spec_shape_of(fields[0].1),
                }),
            }
        } else {
            Err(VErrorKind::SchemaViolation { field: key, expected: Shape::Name, actual: Shape::Obj })
        },
        _ => Err(VErrorKind::SchemaViolation {
            field: key,
            expected: Shape::Name,
            actual: spec_shape_of(v),
        }),
    }
}

fn decode_discovery(v: JValue, key: &str) -> (r: Result<EngineerDiscovery, ErrorKind>)
    ensures
        match r {
            Ok(d) => spec_decode_discovery(jv_view(v), key@) == Ok::<VDiscovery, VErrorKind>(
                discovery_view(d),
            ),
            Err(e) => spec_decode_discovery(jv_view(v), key@) == Err::<VDiscovery, VErrorKind>(
                ek_view(e),
            ),
        },
{
    match v {
        JValue::Str(s) => {
            if str_eq(&s, "Known") {
                Ok(EngineerDiscovery::Known)
            } else {
                Err(ErrorKind::SchemaViolation {
                    field: key.to_owned(),
                    expected: Shape::Name,
                    actual: Shape::Str,
                })
            }
        },
        JValue::Obj(mut fields) => {
            proof {
                lemma_obj_view_at(fields@);
            }
            if fields.len() == 1 && str_eq(&fields[0].0, "Unknown") {
                let pair = fields.remove(0);
                match pair.1 {
                    JValue::Obj(m) => Ok(EngineerDiscovery::Unknown(m)),
                    other => Err(ErrorKind::SchemaViolation {
                        field: key.to_owned(),
                        expected: Shape::Obj,
                        actual: shape_of(&other),
                    }),
                }
            } else {
                Err(ErrorKind::SchemaViolation {
                    field: key.to_owned(),
                    expected: Shape::Name,
                    actual: Shape::Obj,
                })
            }
        },
        other => Err(ErrorKind::SchemaViolation {
            field: key.to_owned(),
            expected: Shape::Name,
            actual: shape_of(&other),
        }),
    }
}

#[derive(PartialEq, Eq, Debug)]
pub struct Engineer {
    pub engineer: String,
    pub engineer_id: String,
    pub progress: EngineerDiscovery,
}

pub ghost struct VEngineer {
    pub engineer: Seq<char>,
    pub engineer_id: Seq<char>,
    pub progress: VDiscovery,
}

pub open spec fn engineer_view(e: Engineer) -> VEngineer {
    VEngineer {
        engineer: e.engineer@,
        engineer_id: e.engineer_id@,
        progress: discovery_view(e.progress),
    }
}

pub open spec fn spec_decode_engineer(v: VJson) -> Result<VEngineer, VErrorKind> {
    match v {
        VJson::Obj(fields) => match spec_req_string(
            fields,
            spec_convert("engineer"@, Convention::Pascal),
        ) {
            Err(e) => Err(e),
            Ok(engineer) => match spec_req_string(
                fields,
                spec_convert("engineer_id"@, Convention::Pascal),
            ) {
                Err(e) => Err(e),
                Ok(engineer_id) => {
                    let key = spec_convert("progress"@, Convention::Pascal);
                    match spec_lookup(fields, key) {
                        None => Err(spec_missing(key, Shape::Name)),
                        Some(pv) => match spec_decode_discovery(pv, key) {
                            Err(e) => Err(e),
                            Ok(progress) => Ok(VEngineer { engineer, engineer_id, progress }),
                        },
                    }
                },
            },
        },
        _ => Err(VErrorKind::SchemaViolation {
            field: spec_convert("engineers"@, Convention::Pascal),
            expected: Shape::Obj,
            actual: spec_shape_of(v),
        }),
    }
}

fn decode_engineer(v: JValue) -> (r: Result<Engineer, ErrorKind>)
    ensures
        match r {
            Ok(en) => spec_decode_engineer(jv_view(v)) == Ok::<VEngineer, VErrorKind>(
                engineer_view(en),
            ),
            Err(e) => spec_decode_engineer(jv_view(v)) == Err::<VEngineer, VErrorKind>(ek_view(e)),
        },
{
    match v {
        JValue::Obj(mut fields) => {
            let key_e = convert_name("engineer", Convention::Pascal);
            let engineer = match req_string(&fields, key_e.as_str()) {
                Ok(s) => s,
                Err(e) => {
                    return Err(e);
                },
            };
            let key_id = convert_name("engineer_id", Convention::Pascal);
            let engineer_id = match req_string(&fields, key_id.as_str()) {
                Ok(s) => s,
                Err(e) => {
                    return Err(e);
                },
            };
            let key_p = convert_name("progress", Convention::Pascal);
            match remove_field(&mut fields, key_p.as_str()) {
                None => Err(ErrorKind::SchemaViolation {
                    field: key_p,
                    expected: Shape::Name,
                    actual: Shape::Missing,
                }),
                Some(pv) => match decode_discovery(pv, key_p.as_str()) {
                    Err(e) => Err(e),
                    Ok(progress) => Ok(Engineer { engineer, engineer_id, progress }),
                },
            }
        },
        other => {
            let key_list = convert_name("engineers", Convention::Pascal);
            Err(ErrorKind::SchemaViolation {
                field: key_list,
                expected: Shape::Obj,
                actual: shape_of(&other),
            })
        },
    }
}

pub open spec fn eng_list_view(s: Seq<Engineer>) -> Seq<VEngineer>
    decreases s,
{
    if s.len() == 0 {
        Seq::empty()
    } else {
        seq![engineer_view(s[0])] + eng_list_view(s.drop_first())
    }
}

/// Decodes each engineer record of the list, in order; the first failing
/// record fails the whole list.
pub open spec fn spec_decode_engineers(items: Seq<VJson>) -> Result<Seq<VEngineer>, VErrorKind>
    decreases items.len(),
{
    if items.len() == 0 {
        Ok(Seq::empty())
    } else {
        match spec_decode_engineer(items[0]) {
            Err(e) => Err(e),
            Ok(en) => match spec_decode_engineers(items.drop_first()) {
                Err(e) => Err(e),
                Ok(rest) => Ok(seq![en] + rest),
            },
        }
    }
}

fn decode_engineers(items: Vec<JValue>) -> (r: Result<Vec<Engineer>, ErrorKind>)
    ensures
        match r {
            Ok(v) => spec_decode_engineers(arr_view_seq(items@)) == Ok::<
                Seq<VEngineer>,
                VErrorKind,
            >(eng_list_view(v@)),
            Err(e) => spec_decode_engineers(arr_view_seq(items@)) == Err::<
                Seq<VEngineer>,
                VErrorKind,
            >(ek_view(e)),
        },
    decreases items@.len(),
{
    let ghost whole = items@;
    proof {
        lemma_arr_view_at(whole);
    }
    let mut items = items;
    if items.len() == 0 {
        proof {
            assert(arr_view_seq(whole) =~= Seq::<VJson>::empty());
            assert(eng_list_view(Seq::<Engineer>::empty()) =~= Seq::<VEngineer>::empty());
        }
        Ok(Vec::new())
    } else {
        let first = items.remove(0);
        proof {
            assert(items@ =~= whole.drop_first());
            lemma_arr_view_at(whole.drop_first());
            assert(arr_view_seq(whole).drop_first() =~= arr_view_seq(whole.drop_first()));
        }
        match decode_engineer(first) {
            Err(e) => Err(e),
            Ok(en) => match decode_engineers(items) {
                Err(e) => Err(e),
                Ok(mut rest) => {
                    let ghost rest_before = rest@;
                    rest.insert(0, en);
                    proof {
                        assert(rest@ =~= seq![en] + rest_before);
                        assert(rest@.drop_first() =~= rest_before);
                    }
                    Ok(rest)
                },
            },
        }
    }
}

#[derive(PartialEq, Eq, Debug)]
pub struct EngineerProgress {
    pub engineers: Vec<Engineer>,
}

pub open spec fn engineer_progress_view(p: EngineerProgress) -> Seq<VEngineer> {
    eng_list_view(p.engineers@)
}

pub open spec fn spec_decode_engineer_progress(fields: VObj) -> Result<Seq<VEngineer>, VErrorKind> {
    let key = spec_convert("engineers"@, Convention::Pascal);
    match spec_lookup(fields, key) {
        Some(VJson::Arr(items)) => spec_decode_engineers(items),
        Some(v) => Err(spec_bad_shape(key, Shape::Arr, v)),
        None => Err(spec_missing(key, Shape::Arr)),
    }
}

pub fn decode_engineer_progress(fields: Vec<(String, JValue)>) -> (r: Result<
    EngineerProgress,
    ErrorKind,
>)
    ensures
        match r {
            Ok(p) => spec_decode_engineer_progress(obj_view(fields)) == Ok::<
                Seq<VEngineer>,
                VErrorKind,
            >(engineer_progress_view(p)),
            Err(e) => spec_decode_engineer_progress(obj_view(fields)) == Err::<
                Seq<VEngineer>,
                VErrorKind,
            >(ek_view(e)),
        },
{
    let mut fields = fields;
    let key = convert_name("engineers", Convention::Pascal);
    match remove_field(&mut fields, key.as_str()) {
        None => Err(ErrorKind::SchemaViolation {
            field: key,
            expected: Shape::Arr,
            actual: Shape::Missing,
        }),
        Some(v) => match v {
            JValue::Arr(items) => match decode_engineers(items) {
                Err(e) => Err(e),
                Ok(engineers) => Ok(EngineerProgress { engineers }),
            },
            other => Err(ErrorKind::SchemaViolation {
                field: key,
                expected: Shape::Arr,
                actual: shape_of(&other),
            }),
        },
    }
}


// ---------------------------------------------------------------------------
// GameType, Ship and LoadGame: the load-game record flattens the commander
// block, the game-type block and the version block into one namespace, and
// nests the ship block as a record of its own. The ship's name and ident
// are string-optional: an empty string in the input means absent.
// ---------------------------------------------------------------------------

/// How the session is hosted.
#[derive(PartialEq, Eq, Structural, Clone, Copy, Debug)]
pub enum GameMode {
    Open,
    Private,
    Solo,
}

/// A field holding the bare name of a game mode.
pub open spec fn spec_req_mode(fields: VObj, key: Seq<char>) -> Result<GameMode, VErrorKind> {
    match spec_lookup(fields, key) {
        Some(VJson::Str(s)) => if s == "Open"@ {
            Ok(GameMode::Open)
        } else if s == "Private"@ {
            Ok(GameMode::Private)
        } else if s == "Solo"@ {
            Ok(GameMode::Solo)
        } else {
            Err(VErrorKind::SchemaViolation { field: key, expected: Shape::Name, actual: Shape::Str })
        },
        Some(v) => Err(spec_bad_shape(key, Shape::Name, v)),
        None => Err(spec_missing(key, Shape::Name)),
    }
}

fn req_mode(fields: &Vec<(String, JValue)>, key: &str) -> (r: Result<GameMode, ErrorKind>)
    ensures
        match r {
            Ok(m) => spec_req_mode(obj_view(*fields), key@) == Ok::<GameMode, VErrorKind>(m),
            Err(e) => spec_req_mode(obj_view(*fields), key@) == Err::<GameMode, VErrorKind>(
                ek_view(e),
            ),
        },
{
    match lookup(fields, key) {
        Some(v) => match v {
            JValue::Str(s) => {
                if str_eq(s, "Open") {
                    Ok(GameMode::Open)
                } else if str_eq(s, "Private") {
                    Ok(GameMode::Private)
                } else if str_eq(s, "Solo") {
                    Ok(GameMode::Solo)
                } else {
                    Err(ErrorKind::SchemaViolation {
                        field: key.to_owned(),
                        expected: Shape::Name,
                        actual: Shape::Str,
                    })
                }
            },
            _ => Err(ErrorKind::SchemaViolation {
                field: key.to_owned(),
                expected: Shape::Name,
                actual: shape_of(v),
            }),
        },
        None => Err(ErrorKind::SchemaViolation {
            field: key.to_owned(),
            expected: Shape::Name,
            actual: Shape::Missing,
        }),
    }
}

#[derive(PartialEq, Eq, Debug)]
pub struct GameType {
    pub horizons: bool,
    pub odyssey: bool,
    pub game_mode: GameMode,
}

pub ghost struct VGameType {
    pub horizons: bool,
    pub odyssey: bool,
    pub game_mode: GameMode,
}

pub open spec fn game_type_view(g: GameType) -> VGameType {
    VGameType { horizons: g.horizons, odyssey: g.odyssey, game_mode: g.game_mode }
}

pub open spec fn spec_decode_game_type(fields: VObj) -> Result<VGameType, VErrorKind> {
    match spec_req_bool(fields, spec_convert("horizons"@, Convention::Pascal)) {
        Err(e) => Err(e),
        Ok(horizons) => match spec_req_bool(fields, spec_convert("odyssey"@, Convention::Pascal)) {
            Err(e) => Err(e),
            Ok(odyssey) => match spec_req_mode(
                fields,
                spec_convert("game_mode"@, Convention::Pascal),
            ) {
                Err(e) => Err(e),
                Ok(game_mode) => Ok(VGameType { horizons, odyssey, game_mode }),
            },
        },
    }
}

pub fn decode_game_type(fields: &Vec<(String, JValue)>) -> (r: Result<GameType, ErrorKind>)
    ensures
        match r {
            Ok(g) => spec_decode_game_type(obj_view(*fields)) == Ok::<VGameType, VErrorKind>(
                game_type_view(g),
            ),
            Err(e) => spec_decode_game_type(obj_view(*fields)) == Err::<VGameType, VErrorKind>(
                ek_view(e),
            ),
        },
{
    let key_h = convert_name("horizons", Convention::Pascal);
    let horizons = match req_bool(fields, key_h.as_str()) {
        Ok(b) => b,
        Err(e) => {
            return Err(e);
        },
    };
    let key_o = convert_name("odyssey", Convention::Pascal);
    let odyssey = match req_bool(fields, key_o.as_str()) {
        Ok(b) => b,
        Err(e) => {
            return Err(e);
        },
    };
    let key_m = convert_name("game_mode", Convention::Pascal);
    let game_mode = match req_mode(fields, key_m.as_str()) {
        Ok(m) => m,
        Err(e) => {
            return Err(e);
        },
    };
    Ok(GameType { horizons, odyssey, game_mode })
}

#[derive(PartialEq, Eq, Debug)]
pub struct Ship {
    pub ship: String,
    pub ship_localized: String,
    pub ship_id: String,
    pub ship_name: Option<String>,
    pub ship_ident: Option<String>,
    pub fuel_level: NumberVal,
    pub fuel_capacity: NumberVal,
}

pub ghost struct VShip {
    pub ship: Seq<char>,
    pub ship_localized: Seq<char>,
    pub ship_id: Seq<char>,
    pub ship_name: Option<Seq<char>>,
    pub ship_ident: Option<Seq<char>>,
    pub fuel_level: VNum,
    pub fuel_capacity: VNum,
}

pub open spec fn ship_view(s: Ship) -> VShip {
    VShip {
        ship: s.ship@,
        ship_localized: s.ship_localized@,
        ship_id: s.ship_id@,
        ship_name: match s.ship_name {
            Some(n) => Some(n@),
            None => None,
        },
        ship_ident: match s.ship_ident {
            Some(n) => Some(n@),
            None => None,
        },
        fuel_level: num_view(s.fuel_level),
        fuel_capacity: num_view(s.fuel_capacity),
    }
}

pub open spec fn spec_decode_ship(fields: VObj) -> Result<VShip, VErrorKind> {
    match spec_req_string(fields, spec_convert("ship"@, Convention::Pascal)) {
        Err(e) => Err(e),
        Ok(ship) => match spec_req_string(fields, "Ship_Localized"@) {
            Err(e) => Err(e),
            Ok(ship_localized) => match spec_req_string(fields, "Ship_ID"@) {
                Err(e) => Err(e),
                Ok(ship_id) => match spec_opt_string(
                    fields,
                    spec_convert("ship_name"@, Convention::Pascal),
                ) {
                    Err(e) => Err(e),
                    Ok(ship_name) => match spec_opt_string(
                        fields,
                        spec_convert("ship_ident"@, Convention::Pascal),
                    ) {
                        Err(e) => Err(e),
                        Ok(ship_ident) => match spec_req_num(
                            fields,
                            spec_convert("fuel_level"@, Convention::Pascal),
                        ) {
                            Err(e) => Err(e),
                            Ok(fuel_level) => match spec_req_num(
                                fields,
                                spec_convert("fuel_capacity"@, Convention::Pascal),
                            ) {
                                Err(e) => Err(e),
                                Ok(fuel_capacity) => Ok(VShip {
                                    ship,
                                    ship_localized,
                                    ship_id,
                                    ship_name,
                                    ship_ident,
                                    fuel_level,
                                    fuel_capacity,
                                }),
                            },
                        },
                    },
                },
            },
        },
    }
}

pub fn decode_ship(fields: &Vec<(String, JValue)>) -> (r: Result<Ship, ErrorKind>)
    ensures
        match r {
            Ok(s) => spec_decode_ship(obj_view(*fields)) == Ok::<VShip, VErrorKind>(ship_view(s)),
            Err(e) => spec_decode_ship(obj_view(*fields)) == Err::<VShip, VErrorKind>(ek_view(e)),
        },
{
    let key_ship = convert_name("ship", Convention::Pascal);
    let ship = match req_string(fields, key_ship.as_str()) {
        Ok(s) => s,
        Err(e) => {
            return Err(e);
        },
    };
    let ship_localized = match req_string(fields, "Ship_Localized") {
        Ok(s) => s,
        Err(e) => {
            return Err(e);
        },
    };
    let ship_id = match req_string(fields, "Ship_ID") {
        Ok(s) => s,
        Err(e) => {
            return Err(e);
        },
    };
    let key_name = convert_name("ship_name", Convention::Pascal);
    let ship_name = match opt_string(fields, key_name.as_str()) {
        Ok(o) => o,
        Err(e) => {
            return Err(e);
        },
    };
    let key_ident = convert_name("ship_ident", Convention::Pascal);
    let ship_ident = match opt_string(fields, key_ident.as_str()) {
        Ok(o) => o,
        Err(e) => {
            return Err(e);
        },
    };
    let key_fl = convert_name("fuel_level", Convention::Pascal);
    let fuel_level = match req_num(fields, key_fl.as_str()) {
        Ok(n) => n,
        Err(e) => {
            return Err(e);
        },
    };
    let key_fc = convert_name("fuel_capacity", Convention::Pascal);
    let fuel_capacity = match req_num(fields, key_fc.as_str()) {
        Ok(n) => n,
        Err(e) => {
            return Err(e);
        },
    };
    Ok(Ship { ship, ship_localized, ship_id, ship_name, ship_ident, fuel_level, fuel_capacity })
}

#[derive(PartialEq, Eq)]
pub struct LoadGame {
    pub commander: Commander,
    pub game_type: GameType,
    pub ship: Ship,
    pub credits: u64,
    pub loan: u64,
    pub version: Version,
}

pub ghost struct VLoadGame {
    pub commander: VCommander,
    pub game_type: VGameType,
    pub ship: VShip,
    pub credits: u64,
    pub loan: u64,
    pub version: VVersion,
}

pub open spec fn load_game_view(g: LoadGame) -> VLoadGame {
    VLoadGame {
        commander: commander_view(g.commander),
        game_type: game_type_view(g.game_type),
        ship: ship_view(g.ship),
        credits: g.credits,
        loan: g.loan,
        version: version_view(g.version),
    }
}

pub open spec fn spec_decode_load_game(fields: VObj) -> Result<VLoadGame, VErrorKind> {
    match spec_decode_commander(fields) {
        Err(e) => Err(e),
        Ok(commander) => match spec_decode_game_type(fields) {
            Err(e) => Err(e),
            Ok(game_type) => match spec_lookup(fields, spec_convert("ship"@, Convention::Pascal)) {
                None => Err(spec_missing(spec_convert("ship"@, Convention::Pascal), Shape::Obj)),
                Some(sv) => match sv {
                    VJson::Obj(ship_fields) => match spec_decode_ship(ship_fields) {
                        Err(e) => Err(e),
                        Ok(ship) => match spec_req_u64(
                            fields,
                            spec_convert("credits"@, Convention::Pascal),
                        ) {
                            Err(e) => Err(e),
                            Ok(credits) => match spec_req_u64(
                                fields,
                                spec_convert("loan"@, Convention::Pascal),
                            ) {
                                Err(e) => Err(e),
                                Ok(loan) => match spec_decode_version(fields) {
                                    Err(e) => Err(e),
                                    Ok(version) => Ok(VLoadGame {
                                        commander,
                                        game_type,
                                        ship,
                                        credits,
                                        loan,
                                        version,
                                    }),
                                },
                            },
                        },
                    },
                    _ => Err(spec_bad_shape(
                        spec_convert("ship"@, Convention::Pascal),
                        Shape::Obj,
                        sv,
                    )),
                },
            },
        },
    }
}

pub fn decode_load_game(fields: &Vec<(String, JValue)>) -> (r: Result<LoadGame, ErrorKind>)
    ensures
        match r {
            Ok(g) => spec_decode_load_game(obj_view(*fields)) == Ok::<VLoadGame, VErrorKind>(
                load_game_view(g),
            ),
            Err(e) => spec_decode_load_game(obj_view(*fields)) == Err::<VLoadGame, VErrorKind>(
                ek_view(e),
            ),
        },
{
    let commander = match decode_commander(fields) {
        Ok(c) => c,
        Err(e) => {
            return Err(e);
        },
    };
    let game_type = match decode_game_type(fields) {
        Ok(g) => g,
        Err(e) => {
            return Err(e);
        },
    };
    let key_ship = convert_name("ship", Convention::Pascal);
    let ship = match lookup(fields, key_ship.as_str()) {
        None => {
            return Err(ErrorKind::SchemaViolation {
                field: key_ship,
                expected: Shape::Obj,
                actual: Shape::Missing,
            });
        },
        Some(sv) => match sv {
            JValue::Obj(ship_fields) => match decode_ship(ship_fields) {
                Ok(s) => s,
                Err(e) => {
                    return Err(e);
                },
            },
            _ => {
                return Err(ErrorKind::SchemaViolation {
                    field: key_ship,
                    expected: Shape::Obj,
                    actual: shape_of(sv),
                });
            },
        },
    };
    let key_credits = convert_name("credits", Convention::Pascal);
    let credits = match req_u64(fields, key_credits.as_str()) {
        Ok(n) => n,
        Err(e) => {
            return Err(e);
        },
    };
    let key_loan = convert_name("loan", Convention::Pascal);
    let loan = match req_u64(fields, key_loan.as_str()) {
        Ok(n) => n,
        Err(e) => {
            return Err(e);
        },
    };
    let version = match decode_version(fields) {
        Ok(v) => v,
        Err(e) => {
            return Err(e);
        },
    };
    Ok(LoadGame { commander, game_type, ship, credits, loan, version })
}

/// Merging is sound at definition level: the blocks flattened into one
/// record contribute disjoint field-name sets after the conventions are
/// applied. The spelled keys of the file-header and load-game namespaces
/// (their own fields, the commander block, the game-type block and the
/// version block) are pairwise distinct, so no contributing schema can
/// claim another's field.
pub proof fn lemma_flatten_disjoint()
    ensures
        spec_convert("horizons"@, Convention::Pascal) == "Horizons"@,
        spec_convert("odyssey"@, Convention::Pascal) == "Odyssey"@,
        spec_convert("game_mode"@, Convention::Pascal) == "GameMode"@,
        spec_convert("ship"@, Convention::Pascal) == "Ship"@,
        spec_convert("credits"@, Convention::Pascal) == "Credits"@,
        spec_convert("loan"@, Convention::Pascal) == "Loan"@,
        spec_convert("game_version"@, Convention::LowerJoin) == "gameversion"@,
        spec_convert("build"@, Convention::LowerJoin) == "build"@,
        spec_convert("language"@, Convention::LowerJoin) == "language"@,
        ({
            let ks = seq![
                "part"@,
                "FID"@,
                "Name"@,
                "Horizons"@,
                "Odyssey"@,
                "GameMode"@,
                "Ship"@,
                "Credits"@,
                "Loan"@,
                "gameversion"@,
                "build"@,
                "language"@,
            ];
            forall|i: int, j: int| 0 <= i < j < ks.len() ==> ks[i] != ks[j]
        }),
{
    reveal_strlit("horizons");
    reveal_strlit("Horizons");
    reveal_strlit("odyssey");
    reveal_strlit("Odyssey");
    reveal_strlit("game_mode");
    reveal_strlit("GameMode");
    reveal_strlit("ship");
    reveal_strlit("Ship");
    reveal_strlit("credits");
    reveal_strlit("Credits");
    reveal_strlit("loan");
    reveal_strlit("Loan");
    reveal_strlit("game_version");
    reveal_strlit("gameversion");
    reveal_strlit("build");
    reveal_strlit("language");
    reveal_strlit("part");
    reveal_strlit("FID");
    reveal_strlit("Name");
    reveal_with_fuel(spec_convert_prefix, 14);
    let ks = seq![
        "part"@,
        "FID"@,
        "Name"@,
        "Horizons"@,
        "Odyssey"@,
        "GameMode"@,
        "Ship"@,
        "Credits"@,
        "Loan"@,
        "gameversion"@,
        "build"@,
        "language"@,
    ];
    assert forall|i: int, j: int| 0 <= i < j < ks.len() implies ks[i] != ks[j] by {
        assert(ks[i].len() != ks[j].len() || ks[i][0] != ks[j][0] || ks[i][1] != ks[j][1]);
    }
}

} // verus!
