//! Ranked scales: ordered enumerations of named levels addressed by a small
//! integer code in the input. The code-to-name mapping is total over the
//! closed range of each scale and rejects everything outside it; a code is
//! never clamped or cast unchecked.

use vstd::prelude::*;

verus! {

#[derive(PartialEq, Eq, Structural, Clone, Copy, Debug)]
pub enum CombatRank {
    Harmless,
    MostlyHarmless,
    Novice,
    Competent,
    Expert,
    Master,
    Dangerous,
    Deadly,
    Elite,
}

/// How many named levels the scale has; valid codes are strictly below it.
pub open spec fn combat_rank_levels() -> int {
    9
}

/// The named level of each in-range code, in scale order.
pub open spec fn spec_combat_rank(code: u64) -> Option<CombatRank> {
    if code == 0 {
        Some(CombatRank::Harmless)
    } else if code == 1 {
        Some(CombatRank::MostlyHarmless)
    } else if code == 2 {
        Some(CombatRank::Novice)
    } else if code == 3 {
        Some(CombatRank::Competent)
    } else if code == 4 {
        Some(CombatRank::Expert)
    } else if code == 5 {
        Some(CombatRank::Master)
    } else if code == 6 {
        Some(CombatRank::Dangerous)
    } else if code == 7 {
        Some(CombatRank::Deadly)
    } else if code == 8 {
        Some(CombatRank::Elite)
    } else {
        None
    }
}

pub fn combat_rank_from_code(code: u64) -> (r: Option<CombatRank>)
    ensures
        r == spec_combat_rank(code),
{
    if code == 0 {
        Some(CombatRank::Harmless)
    } else if code == 1 {
        Some(CombatRank::MostlyHarmless)
    } else if code == 2 {
        Some(CombatRank::Novice)
    } else if code == 3 {
        Some(CombatRank::Competent)
    } else if code == 4 {
        Some(CombatRank::Expert)
    } else if code == 5 {
        Some(CombatRank::Master)
    } else if code == 6 {
        Some(CombatRank::Dangerous)
    } else if code == 7 {
        Some(CombatRank::Deadly)
    } else if code == 8 {
        Some(CombatRank::Elite)
    } else {
        None
    }
}

#[derive(PartialEq, Eq, Structural, Clone, Copy, Debug)]
pub enum TradeRank {
    Penniless,
    MostlyPenniless,
    Peddler,
    Dealer,
    Merchant,
    Broker,
    Entrepreneur,
    Tycoon,
    Elite,
    EliteI,
    EliteII,
    EliteIII,
    EliteIV,
    EliteV,
}

/// How many named levels the scale has; valid codes are strictly below it.
pub open spec fn trade_rank_levels() -> int {
    14
}

/// The named level of each in-range code, in scale order.
pub open spec fn spec_trade_rank(code: u64) -> Option<TradeRank> {
    if code == 0 {
        Some(TradeRank::Penniless)
    } else if code == 1 {
        Some(TradeRank::MostlyPenniless)
    } else if code == 2 {
        Some(TradeRank::Peddler)
    } else if code == 3 {
        Some(TradeRank::Dealer)
    } else if code == 4 {
        Some(TradeRank::Merchant)
    } else if code == 5 {
        Some(TradeRank::Broker)
    } else if code == 6 {
        Some(TradeRank::Entrepreneur)
    } else if code == 7 {
        Some(TradeRank::Tycoon)
    } else if code == 8 {
        Some(TradeRank::Elite)
    } else if code == 9 {
        Some(TradeRank::EliteI)
    } else if code == 10 {
        Some(TradeRank::EliteII)
    } else if code == 11 {
        Some(TradeRank::EliteIII)
    } else if code == 12 {
        Some(TradeRank::EliteIV)
    } else if code == 13 {
        Some(TradeRank::EliteV)
    } else {
        None
    }
}

pub fn trade_rank_from_code(code: u64) -> (r: Option<TradeRank>)
    ensures
        r == spec_trade_rank(code),
{
    if code == 0 {
        Some(TradeRank::Penniless)
    } else if code == 1 {
        Some(TradeRank::MostlyPenniless)
    } else if code == 2 {
        Some(TradeRank::Peddler)
    } else if code == 3 {
        Some(TradeRank::Dealer)
    } else if code == 4 {
        Some(TradeRank::Merchant)
    } else if code == 5 {
        Some(TradeRank::Broker)
    } else if code == 6 {
        Some(TradeRank::Entrepreneur)
    } else if code == 7 {
        Some(TradeRank::Tycoon)
    } else if code == 8 {
        Some(TradeRank::Elite)
    } else if code == 9 {
        Some(TradeRank::EliteI)
    } else if code == 10 {
        Some(TradeRank::EliteII)
    } else if code == 11 {
        Some(TradeRank::EliteIII)
    } else if code == 12 {
        Some(TradeRank::EliteIV)
    } else if code == 13 {
        Some(TradeRank::EliteV)
    } else {
        None
    }
}

#[derive(PartialEq, Eq, Structural, Clone, Copy, Debug)]
pub enum ExplorationRank {
    Aimless,
    MostlyAimless,
    Scout,
    Surveyor,
    Trailblazer,
    Pathfinder,
    Ranger,
    Pioneer,
    Elite,
    EliteI,
    EliteII,
    EliteIII,
    EliteIV,
    EliteV,
}

/// How many named levels the scale has; valid codes are strictly below it.
pub open spec fn exploration_rank_levels() -> int {
    14
}

/// The named level of each in-range code, in scale order.
pub open spec fn spec_exploration_rank(code: u64) -> Option<ExplorationRank> {
    if code == 0 {
        Some(ExplorationRank::Aimless)
    } else if code == 1 {
        Some(ExplorationRank::MostlyAimless)
    } else if code == 2 {
        Some(ExplorationRank::Scout)
    } else if code == 3 {
        Some(ExplorationRank::Surveyor)
    } else if code == 4 {
        Some(ExplorationRank::Trailblazer)
    } else if code == 5 {
        Some(ExplorationRank::Pathfinder)
    } else if code == 6 {
        Some(ExplorationRank::Ranger)
    } else if code == 7 {
        Some(ExplorationRank::Pioneer)
    } else if code == 8 {
        Some(ExplorationRank::Elite)
    } else if code == 9 {
        Some(ExplorationRank::EliteI)
    } else if code == 10 {
        Some(ExplorationRank::EliteII)
    } else if code == 11 {
        Some(ExplorationRank::EliteIII)
    } else if code == 12 {
        Some(ExplorationRank::EliteIV)
    } else if code == 13 {
        Some(ExplorationRank::EliteV)
    } else {
        None
    }
}

pub fn exploration_rank_from_code(code: u64) -> (r: Option<ExplorationRank>)
    ensures
        r == spec_exploration_rank(code),
{
    if code == 0 {
        Some(ExplorationRank::Aimless)
    } else if code == 1 {
        Some(ExplorationRank::MostlyAimless)
    } else if code == 2 {
        Some(ExplorationRank::Scout)
    } else if code == 3 {
        Some(ExplorationRank::Surveyor)
    } else if code == 4 {
        Some(ExplorationRank::Trailblazer)
    } else if code == 5 {
        Some(ExplorationRank::Pathfinder)
    } else if code == 6 {
        Some(ExplorationRank::Ranger)
    } else if code == 7 {
        Some(ExplorationRank::Pioneer)
    } else if code == 8 {
        Some(ExplorationRank::Elite)
    } else if code == 9 {
        Some(ExplorationRank::EliteI)
    } else if code == 10 {
        Some(ExplorationRank::EliteII)
    } else if code == 11 {
        Some(ExplorationRank::EliteIII)
    } else if code == 12 {
        Some(ExplorationRank::EliteIV)
    } else if code == 13 {
        Some(ExplorationRank::EliteV)
    } else {
        None
    }
}

#[derive(PartialEq, Eq, Structural, Clone, Copy, Debug)]
pub enum MercenaryRank {
    Defenceless,
    MostlyDefenceless,
    Rookie,
    Soldier,
    Gunslinger,
    Warrior,
    Gladiator,
    Deadeye,
    Elite,
    EliteI,
    EliteII,
    EliteIII,
    EliteIV,
    EliteV,
}

/// How many named levels the scale has; valid codes are strictly below it.
pub open spec fn mercenary_rank_levels() -> int {
    14
}

/// The named level of each in-range code, in scale order.
pub open spec fn spec_mercenary_rank(code: u64) -> Option<MercenaryRank> {
    if code == 0 {
        Some(MercenaryRank::Defenceless)
    } else if code == 1 {
        Some(MercenaryRank::MostlyDefenceless)
    } else if code == 2 {
        Some(MercenaryRank::Rookie)
    } else if code == 3 {
        Some(MercenaryRank::Soldier)
    } else if code == 4 {
        Some(MercenaryRank::Gunslinger)
    } else if code == 5 {
        Some(MercenaryRank::Warrior)
    } else if code == 6 {
        Some(MercenaryRank::Gladiator)
    } else if code == 7 {
        Some(MercenaryRank::Deadeye)
    } else if code == 8 {
        Some(MercenaryRank::Elite)
    } else if code == 9 {
        Some(MercenaryRank::EliteI)
    } else if code == 10 {
        Some(MercenaryRank::EliteII)
    } else if code == 11 {
        Some(MercenaryRank::EliteIII)
    } else if code == 12 {
        Some(MercenaryRank::EliteIV)
    } else if code == 13 {
        Some(MercenaryRank::EliteV)
    } else {
        None
    }
}

pub fn mercenary_rank_from_code(code: u64) -> (r: Option<MercenaryRank>)
    ensures
        r == spec_mercenary_rank(code),
{
    if code == 0 {
        Some(MercenaryRank::Defenceless)
    } else if code == 1 {
        Some(MercenaryRank::MostlyDefenceless)
    } else if code == 2 {
        Some(MercenaryRank::Rookie)
    } else if code == 3 {
        Some(MercenaryRank::Soldier)
    } else if code == 4 {
        Some(MercenaryRank::Gunslinger)
    } else if code == 5 {
        Some(MercenaryRank::Warrior)
    } else if code == 6 {
        Some(MercenaryRank::Gladiator)
    } else if code == 7 {
        Some(MercenaryRank::Deadeye)
    } else if code == 8 {
        Some(MercenaryRank::Elite)
    } else if code == 9 {
        Some(MercenaryRank::EliteI)
    } else if code == 10 {
        Some(MercenaryRank::EliteII)
    } else if code == 11 {
        Some(MercenaryRank::EliteIII)
    } else if code == 12 {
        Some(MercenaryRank::EliteIV)
    } else if code == 13 {
        Some(MercenaryRank::EliteV)
    } else {
        None
    }
}

#[derive(PartialEq, Eq, Structural, Clone, Copy, Debug)]
pub enum ExobiologistRank {
    Directionless,
    MostlyDirectionless,
    Compiler,
    Collector,
    Cataloguer,
    Taxonomist,
    Ecologist,
    Geneticist,
    Elite,
    EliteI,
    EliteII,
    EliteIII,
    EliteIV,
    EliteV,
}

/// How many named levels the scale has; valid codes are strictly below it.
pub open spec fn exobiologist_rank_levels() -> int {
    14
}

/// The named level of each in-range code, in scale order.
pub open spec fn spec_exobiologist_rank(code: u64) -> Option<ExobiologistRank> {
    if code == 0 {
        Some(ExobiologistRank::Directionless)
    } else if code == 1 {
        Some(ExobiologistRank::MostlyDirectionless)
    } else if code == 2 {
        Some(ExobiologistRank::Compiler)
    } else if code == 3 {
        Some(ExobiologistRank::Collector)
    } else if code == 4 {
        Some(ExobiologistRank::Cataloguer)
    } else if code == 5 {
        Some(ExobiologistRank::Taxonomist)
    } else if code == 6 {
        Some(ExobiologistRank::Ecologist)
    } else if code == 7 {
        Some(ExobiologistRank::Geneticist)
    } else if code == 8 {
        Some(ExobiologistRank::Elite)
    } else if code == 9 {
        Some(ExobiologistRank::EliteI)
    } else if code == 10 {
        Some(ExobiologistRank::EliteII)
    } else if code == 11 {
        Some(ExobiologistRank::EliteIII)
    } else if code == 12 {
        Some(ExobiologistRank::EliteIV)
    } else if code == 13 {
        Some(ExobiologistRank::EliteV)
    } else {
        None
    }
}

pub fn exobiologist_rank_from_code(code: u64) -> (r: Option<ExobiologistRank>)
    ensures
        r == spec_exobiologist_rank(code),
{
    if code == 0 {
        Some(ExobiologistRank::Directionless)
    } else if code == 1 {
        Some(ExobiologistRank::MostlyDirectionless)
    } else if code == 2 {
        Some(ExobiologistRank::Compiler)
    } else if code == 3 {
        Some(ExobiologistRank::Collector)
    } else if code == 4 {
        Some(ExobiologistRank::Cataloguer)
    } else if code == 5 {
        Some(ExobiologistRank::Taxonomist)
    } else if code == 6 {
        Some(ExobiologistRank::Ecologist)
    } else if code == 7 {
        Some(ExobiologistRank::Geneticist)
    } else if code == 8 {
        Some(ExobiologistRank::Elite)
    } else if code == 9 {
        Some(ExobiologistRank::EliteI)
    } else if code == 10 {
        Some(ExobiologistRank::EliteII)
    } else if code == 11 {
        Some(ExobiologistRank::EliteIII)
    } else if code == 12 {
        Some(ExobiologistRank::EliteIV)
    } else if code == 13 {
        Some(ExobiologistRank::EliteV)
    } else {
        None
    }
}

#[derive(PartialEq, Eq, Structural, Clone, Copy, Debug)]
pub enum EmpireRank {
    NoRank,
    Outsider,
    Serf,
    Master,
    Squire,
    Knight,
    Lord,
    Baron,
    Viscount,
    Count,
    Earl,
    Marquis,
    Duke,
    Prince,
    King,
}

/// How many named levels the scale has; valid codes are strictly below it.
pub open spec fn empire_rank_levels() -> int {
    15
}

/// The named level of each in-range code, in scale order.
pub open spec fn spec_empire_rank(code: u64) -> Option<EmpireRank> {
    if code == 0 {
        Some(EmpireRank::NoRank)
    } else if code == 1 {
        Some(EmpireRank::Outsider)
    } else if code == 2 {
        Some(EmpireRank::Serf)
    } else if code == 3 {
        Some(EmpireRank::Master)
    } else if code == 4 {
        Some(EmpireRank::Squire)
    } else if code == 5 {
        Some(EmpireRank::Knight)
    } else if code == 6 {
        Some(EmpireRank::Lord)
    } else if code == 7 {
        Some(EmpireRank::Baron)
    } else if code == 8 {
        Some(EmpireRank::Viscount)
    } else if code == 9 {
        Some(EmpireRank::Count)
    } else if code == 10 {
        Some(EmpireRank::Earl)
    } else if code == 11 {
        Some(EmpireRank::Marquis)
    } else if code == 12 {
        Some(EmpireRank::Duke)
    } else if code == 13 {
        Some(EmpireRank::Prince)
    } else if code == 14 {
        Some(EmpireRank::King)
    } else {
        None
    }
}

pub fn empire_rank_from_code(code: u64) -> (r: Option<EmpireRank>)
    ensures
        r == spec_empire_rank(code),
{
    if code == 0 {
        Some(EmpireRank::NoRank)
    } else if code == 1 {
        Some(EmpireRank::Outsider)
    } else if code == 2 {
        Some(EmpireRank::Serf)
    } else if code == 3 {
        Some(EmpireRank::Master)
    } else if code == 4 {
        Some(EmpireRank::Squire)
    } else if code == 5 {
        Some(EmpireRank::Knight)
    } else if code == 6 {
        Some(EmpireRank::Lord)
    } else if code == 7 {
        Some(EmpireRank::Baron)
    } else if code == 8 {
        Some(EmpireRank::Viscount)
    } else if code == 9 {
        Some(EmpireRank::Count)
    } else if code == 10 {
        Some(EmpireRank::Earl)
    } else if code == 11 {
        Some(EmpireRank::Marquis)
    } else if code == 12 {
        Some(EmpireRank::Duke)
    } else if code == 13 {
        Some(EmpireRank::Prince)
    } else if code == 14 {
        Some(EmpireRank::King)
    } else {
        None
    }
}

#[derive(PartialEq, Eq, Structural, Clone, Copy, Debug)]
pub enum FederationRank {
    NoRank,
    Recruit,
    Cadet,
    Midshipman,
    PettyOfficer,
    ChiefPettyOfficer,
    WarrantOfficer,
    Ensign,
    Lieutenant,
    LieutenantCommander,
    PostCommander,
    PostCaptain,
    RearAdmiral,
    ViceAdmiral,
    Admiral,
}

/// How many named levels the scale has; valid codes are strictly below it.
pub open spec fn federation_rank_levels() -> int {
    15
}

/// The named level of each in-range code, in scale order.
pub open spec fn spec_federation_rank(code: u64) -> Option<FederationRank> {
    if code == 0 {
        Some(FederationRank::NoRank)
    } else if code == 1 {
        Some(FederationRank::Recruit)
    } else if code == 2 {
        Some(FederationRank::Cadet)
    } else if code == 3 {
        Some(FederationRank::Midshipman)
    } else if code == 4 {
        Some(FederationRank::PettyOfficer)
    } else if code == 5 {
        Some(FederationRank::ChiefPettyOfficer)
    } else if code == 6 {
        Some(FederationRank::WarrantOfficer)
    } else if code == 7 {
        Some(FederationRank::Ensign)
    } else if code == 8 {
        Some(FederationRank::Lieutenant)
    } else if code == 9 {
        Some(FederationRank::LieutenantCommander)
    } else if code == 10 {
        Some(FederationRank::PostCommander)
    } else if code == 11 {
        Some(FederationRank::PostCaptain)
    } else if code == 12 {
        Some(FederationRank::RearAdmiral)
    } else if code == 13 {
        Some(FederationRank::ViceAdmiral)
    } else if code == 14 {
        Some(FederationRank::Admiral)
    } else {
        None
    }
}

pub fn federation_rank_from_code(code: u64) -> (r: Option<FederationRank>)
    ensures
        r == spec_federation_rank(code),
{
    if code == 0 {
        Some(FederationRank::NoRank)
    } else if code == 1 {
        Some(FederationRank::Recruit)
    } else if code == 2 {
        Some(FederationRank::Cadet)
    } else if code == 3 {
        Some(FederationRank::Midshipman)
    } else if code == 4 {
        Some(FederationRank::PettyOfficer)
    } else if code == 5 {
        Some(FederationRank::ChiefPettyOfficer)
    } else if code == 6 {
        Some(FederationRank::WarrantOfficer)
    } else if code == 7 {
        Some(FederationRank::Ensign)
    } else if code == 8 {
        Some(FederationRank::Lieutenant)
    } else if code == 9 {
        Some(FederationRank::LieutenantCommander)
    } else if code == 10 {
        Some(FederationRank::PostCommander)
    } else if code == 11 {
        Some(FederationRank::PostCaptain)
    } else if code == 12 {
        Some(FederationRank::RearAdmiral)
    } else if code == 13 {
        Some(FederationRank::ViceAdmiral)
    } else if code == 14 {
        Some(FederationRank::Admiral)
    } else {
        None
    }
}

/// On every ranked scale, code 0 decodes to the scale's first named level,
/// the highest valid code decodes to its last, and the code one past the
/// highest valid one decodes to no level at all.
pub proof fn lemma_scale_bounds()
    ensures
        spec_combat_rank(0) == Some(CombatRank::Harmless),
        spec_combat_rank(8) == Some(CombatRank::Elite),
        spec_combat_rank(9) is None,
        spec_trade_rank(0) == Some(TradeRank::Penniless),
        spec_trade_rank(13) == Some(TradeRank::EliteV),
        spec_trade_rank(14) is None,
        spec_exploration_rank(0) == Some(ExplorationRank::Aimless),
        spec_exploration_rank(13) == Some(ExplorationRank::EliteV),
        spec_exploration_rank(14) is None,
        spec_mercenary_rank(0) == Some(MercenaryRank::Defenceless),
        spec_mercenary_rank(13) == Some(MercenaryRank::EliteV),
        spec_mercenary_rank(14) is None,
        spec_exobiologist_rank(0) == Some(ExobiologistRank::Directionless),
        spec_exobiologist_rank(13) == Some(ExobiologistRank::EliteV),
        spec_exobiologist_rank(14) is None,
        spec_empire_rank(0) == Some(EmpireRank::NoRank),
        spec_empire_rank(14) == Some(EmpireRank::King),
        spec_empire_rank(15) is None,
        spec_federation_rank(0) == Some(FederationRank::NoRank),
        spec_federation_rank(14) == Some(FederationRank::Admiral),
        spec_federation_rank(15) is None,
{
}

} // verus!
