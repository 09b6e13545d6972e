//! The statistics record: a dozen themed sub-blocks, each a nested record
//! of its own, plus one prefix group whose fields live in the statistics
//! record's flat namespace under a shared literal prefix.

use vstd::prelude::*;
use crate::tree::{JValue, NumberVal, VJson, VNum, VObj, num_view, obj_view, spec_lookup, lookup};
use crate::errors::{ErrorKind, VErrorKind, Shape, ek_view, shape_of};
use crate::names::{Convention, spec_convert, convert_name};
use crate::coerce::{
    spec_req_u64, req_u64, spec_req_num, req_num, spec_missing, spec_bad_shape, spec_group,
    extract_group,
};

verus! {

/// A named sub-record: the field must hold a nested record of its own.
pub open spec fn spec_sub_record(fields: VObj, key: Seq<char>) -> Result<VObj, VErrorKind> {
    match spec_lookup(fields, key) {
        Some(VJson::Obj(m)) => Ok(m),
        Some(v) => Err(spec_bad_shape(key, Shape::Obj, v)),
        None => Err(spec_missing(key, Shape::Obj)),
    }
}

fn sub_record<'a>(fields: &'a Vec<(String, JValue)>, key: &str) -> (r: Result<
    &'a Vec<(String, JValue)>,
    ErrorKind,
>)
    ensures
        match r {
            Ok(m) => spec_sub_record(obj_view(*fields), key@) == Ok::<VObj, VErrorKind>(
                obj_view(*m),
            ),
            Err(e) => spec_sub_record(obj_view(*fields), key@) == Err::<VObj, VErrorKind>(
                ek_view(e),
            ),
        },
{
    match lookup(fields, key) {
        Some(v) => match v {
            JValue::Obj(m) => Ok(m),
            _ => Err(ErrorKind::SchemaViolation {
                field: key.to_owned(),
                expected: Shape::Obj,
                actual: shape_of(v),
            }),
        },
        None => Err(ErrorKind::SchemaViolation {
            field: key.to_owned(),
            expected: Shape::Obj,
            actual: Shape::Missing,
        }),
    }
}

#[derive(PartialEq, Eq, Structural, Clone, Copy, Debug)]
pub struct BankStats {
    pub current_wealth: u64,
    pub spent_on_ships: u64,
    pub spent_on_outfitting: u64,
    pub spent_on_repairs: u64,
    pub spent_on_fuel: u64,
    pub spent_on_ammo_consumables: u64,
    pub insurance_claims: u64,
    pub spent_on_insurance: u64,
    pub owned_ship_count: u64,
}

pub open spec fn spec_decode_bank_stats(fields: VObj) -> Result<BankStats, VErrorKind> {
    match spec_req_u64(fields, spec_convert("current_wealth"@, Convention::PascalSnake)) {
        Err(e) => Err(e),
        Ok(current_wealth) => match spec_req_u64(fields, spec_convert("spent_on_ships"@, Convention::PascalSnake)) {
            Err(e) => Err(e),
            Ok(spent_on_ships) => match spec_req_u64(fields, spec_convert("spent_on_outfitting"@, Convention::PascalSnake)) {
                Err(e) => Err(e),
                Ok(spent_on_outfitting) => match spec_req_u64(fields, spec_convert("spent_on_repairs"@, Convention::PascalSnake)) {
                    Err(e) => Err(e),
                    Ok(spent_on_repairs) => match spec_req_u64(fields, spec_convert("spent_on_fuel"@, Convention::PascalSnake)) {
                        Err(e) => Err(e),
                        Ok(spent_on_fuel) => match spec_req_u64(fields, spec_convert("spent_on_ammo_consumables"@, Convention::PascalSnake)) {
                            Err(e) => Err(e),
                            Ok(spent_on_ammo_consumables) => match spec_req_u64(fields, spec_convert("insurance_claims"@, Convention::PascalSnake)) {
                                Err(e) => Err(e),
                                Ok(insurance_claims) => match spec_req_u64(fields, spec_convert("spent_on_insurance"@, Convention::PascalSnake)) {
                                    Err(e) => Err(e),
                                    Ok(spent_on_insurance) => match spec_req_u64(fields, spec_convert("owned_ship_count"@, Convention::PascalSnake)) {
                                        Err(e) => Err(e),
                                        Ok(owned_ship_count) => Ok(BankStats { current_wealth, spent_on_ships, spent_on_outfitting, spent_on_repairs, spent_on_fuel, spent_on_ammo_consumables, insurance_claims, spent_on_insurance, owned_ship_count }),
                                    },
                                },
                            },
                        },
                    },
                },
            },
        },
    }
}

pub fn decode_bank_stats(fields: &Vec<(String, JValue)>) -> (r: Result<BankStats, ErrorKind>)
    ensures
        match r {
            Ok(s) => spec_decode_bank_stats(obj_view(*fields)) == Ok::<BankStats, VErrorKind>(s),
            Err(e) => spec_decode_bank_stats(obj_view(*fields)) == Err::<BankStats, VErrorKind>(ek_view(e)),
        },
{
    let key_current_wealth = convert_name("current_wealth", Convention::PascalSnake);
    let current_wealth = match req_u64(fields, key_current_wealth.as_str()) {
        Ok(v) => v,
        Err(e) => {
            return Err(e);
        },
    };
    let key_spent_on_ships = convert_name("spent_on_ships", Convention::PascalSnake);
    let spent_on_ships = match req_u64(fields, key_spent_on_ships.as_str()) {
        Ok(v) => v,
        Err(e) => {
            return Err(e);
        },
    };
    let key_spent_on_outfitting = convert_name("spent_on_outfitting", Convention::PascalSnake);
    let spent_on_outfitting = match req_u64(fields, key_spent_on_outfitting.as_str()) {
        Ok(v) => v,
        Err(e) => {
            return Err(e);
        },
    };
    let key_spent_on_repairs = convert_name("spent_on_repairs", Convention::PascalSnake);
    let spent_on_repairs = match req_u64(fields, key_spent_on_repairs.as_str()) {
        Ok(v) => v,
        Err(e) => {
            return Err(e);
        },
    };
    let key_spent_on_fuel = convert_name("spent_on_fuel", Convention::PascalSnake);
    let spent_on_fuel = match req_u64(fields, key_spent_on_fuel.as_str()) {
        Ok(v) => v,
        Err(e) => {
            return Err(e);
        },
    };
    let key_spent_on_ammo_consumables = convert_name("spent_on_ammo_consumables", Convention::PascalSnake);
    let spent_on_ammo_consumables = match req_u64(fields, key_spent_on_ammo_consumables.as_str()) {
        Ok(v) => v,
        Err(e) => {
            return Err(e);
        },
    };
    let key_insurance_claims = convert_name("insurance_claims", Convention::PascalSnake);
    let insurance_claims = match req_u64(fields, key_insurance_claims.as_str()) {
        Ok(v) => v,
        Err(e) => {
            return Err(e);
        },
    };
    let key_spent_on_insurance = convert_name("spent_on_insurance", Convention::PascalSnake);
    let spent_on_insurance = match req_u64(fields, key_spent_on_insurance.as_str()) {
        Ok(v) => v,
        Err(e) => {
            return Err(e);
        },
    };
    let key_owned_ship_count = convert_name("owned_ship_count", Convention::PascalSnake);
    let owned_ship_count = match req_u64(fields, key_owned_ship_count.as_str()) {
        Ok(v) => v,
        Err(e) => {
            return Err(e);
        },
    };
    Ok(BankStats { current_wealth, spent_on_ships, spent_on_outfitting, spent_on_repairs, spent_on_fuel, spent_on_ammo_consumables, insurance_claims, spent_on_insurance, owned_ship_count })
}

#[derive(PartialEq, Eq, Structural, Clone, Copy, Debug)]
pub struct CombatStats {
    pub bounties_claimed: u64,
    pub bounty_hunting_profit: u64,
    pub combat_bonds: u64,
    pub combat_bond_profits: u64,
    pub assasinations: u64,
    pub assasination_profits: u64,
    pub highest_single_reward: u64,
    pub skimmers_killed: u64,
}

pub open spec fn spec_decode_combat_stats(fields: VObj) -> Result<CombatStats, VErrorKind> {
    match spec_req_u64(fields, spec_convert("bounties_claimed"@, Convention::PascalSnake)) {
        Err(e) => Err(e),
        Ok(bounties_claimed) => match spec_req_u64(fields, spec_convert("bounty_hunting_profit"@, Convention::PascalSnake)) {
            Err(e) => Err(e),
            Ok(bounty_hunting_profit) => match spec_req_u64(fields, spec_convert("combat_bonds"@, Convention::PascalSnake)) {
                Err(e) => Err(e),
                Ok(combat_bonds) => match spec_req_u64(fields, spec_convert("combat_bond_profits"@, Convention::PascalSnake)) {
                    Err(e) => Err(e),
                    Ok(combat_bond_profits) => match spec_req_u64(fields, spec_convert("assasinations"@, Convention::PascalSnake)) {
                        Err(e) => Err(e),
                        Ok(assasinations) => match spec_req_u64(fields, spec_convert("assasination_profits"@, Convention::PascalSnake)) {
                            Err(e) => Err(e),
                            Ok(assasination_profits) => match spec_req_u64(fields, spec_convert("highest_single_reward"@, Convention::PascalSnake)) {
                                Err(e) => Err(e),
                                Ok(highest_single_reward) => match spec_req_u64(fields, spec_convert("skimmers_killed"@, Convention::PascalSnake)) {
                                    Err(e) => Err(e),
                                    Ok(skimmers_killed) => Ok(CombatStats { bounties_claimed, bounty_hunting_profit, combat_bonds, combat_bond_profits, assasinations, assasination_profits, highest_single_reward, skimmers_killed }),
                                },
                            },
                        },
                    },
                },
            },
        },
    }
}

pub fn decode_combat_stats(fields: &Vec<(String, JValue)>) -> (r: Result<CombatStats, ErrorKind>)
    ensures
        match r {
            Ok(s) => spec_decode_combat_stats(obj_view(*fields)) == Ok::<CombatStats, VErrorKind>(s),
            Err(e) => spec_decode_combat_stats(obj_view(*fields)) == Err::<CombatStats, VErrorKind>(ek_view(e)),
        },
{
    let key_bounties_claimed = convert_name("bounties_claimed", Convention::PascalSnake);
    let bounties_claimed = match req_u64(fields, key_bounties_claimed.as_str()) {
        Ok(v) => v,
        Err(e) => {
            return Err(e);
        },
    };
    let key_bounty_hunting_profit = convert_name("bounty_hunting_profit", Convention::PascalSnake);
    let bounty_hunting_profit = match req_u64(fields, key_bounty_hunting_profit.as_str()) {
        Ok(v) => v,
        Err(e) => {
            return Err(e);
        },
    };
    let key_combat_bonds = convert_name("combat_bonds", Convention::PascalSnake);
    let combat_bonds = match req_u64(fields, key_combat_bonds.as_str()) {
        Ok(v) => v,
        Err(e) => {
            return Err(e);
        },
    };
    let key_combat_bond_profits = convert_name("combat_bond_profits", Convention::PascalSnake);
    let combat_bond_profits = match req_u64(fields, key_combat_bond_profits.as_str()) {
        Ok(v) => v,
        Err(e) => {
            return Err(e);
        },
    };
    let key_assasinations = convert_name("assasinations", Convention::PascalSnake);
    let assasinations = match req_u64(fields, key_assasinations.as_str()) {
        Ok(v) => v,
        Err(e) => {
            return Err(e);
        },
    };
    let key_assasination_profits = convert_name("assasination_profits", Convention::PascalSnake);
    let assasination_profits = match req_u64(fields, key_assasination_profits.as_str()) {
        Ok(v) => v,
        Err(e) => {
            return Err(e);
        },
    };
    let key_highest_single_reward = convert_name("highest_single_reward", Convention::PascalSnake);
    let highest_single_reward = match req_u64(fields, key_highest_single_reward.as_str()) {
        Ok(v) => v,
        Err(e) => {
            return Err(e);
        },
    };
    let key_skimmers_killed = convert_name("skimmers_killed", Convention::PascalSnake);
    let skimmers_killed = match req_u64(fields, key_skimmers_killed.as_str()) {
        Ok(v) => v,
        Err(e) => {
            return Err(e);
        },
    };
    Ok(CombatStats { bounties_claimed, bounty_hunting_profit, combat_bonds, combat_bond_profits, assasinations, assasination_profits, highest_single_reward, skimmers_killed })
}

#[derive(PartialEq, Eq, Debug)]
pub struct CrimeStats {
    pub notoriety: NumberVal,
    pub fines: u64,
    pub total_fines: u64,
    pub bounties_received: u64,
    pub total_bounties: u64,
    pub highest_bounty: u64,
}

pub ghost struct VCrimeStats {
    pub notoriety: VNum,
    pub fines: u64,
    pub total_fines: u64,
    pub bounties_received: u64,
    pub total_bounties: u64,
    pub highest_bounty: u64,
}

pub open spec fn crime_stats_view(s: CrimeStats) -> VCrimeStats {
    VCrimeStats { notoriety: num_view(s.notoriety), fines: s.fines, total_fines: s.total_fines, bounties_received: s.bounties_received, total_bounties: s.total_bounties, highest_bounty: s.highest_bounty }
}

pub open spec fn spec_decode_crime_stats(fields: VObj) -> Result<VCrimeStats, VErrorKind> {
    match spec_req_num(fields, spec_convert("notoriety"@, Convention::PascalSnake)) {
        Err(e) => Err(e),
        Ok(notoriety) => match spec_req_u64(fields, spec_convert("fines"@, Convention::PascalSnake)) {
            Err(e) => Err(e),
            Ok(fines) => match spec_req_u64(fields, spec_convert("total_fines"@, Convention::PascalSnake)) {
                Err(e) => Err(e),
                Ok(total_fines) => match spec_req_u64(fields, spec_convert("bounties_received"@, Convention::PascalSnake)) {
                    Err(e) => Err(e),
                    Ok(bounties_received) => match spec_req_u64(fields, spec_convert("total_bounties"@, Convention::PascalSnake)) {
                        Err(e) => Err(e),
                        Ok(total_bounties) => match spec_req_u64(fields, spec_convert("highest_bounty"@, Convention::PascalSnake)) {
                            Err(e) => Err(e),
                            Ok(highest_bounty) => Ok(VCrimeStats { notoriety, fines, total_fines, bounties_received, total_bounties, highest_bounty }),
                        },
                    },
                },
            },
        },
    }
}

pub fn decode_crime_stats(fields: &Vec<(String, JValue)>) -> (r: Result<CrimeStats, ErrorKind>)
    ensures
        match r {
            Ok(s) => spec_decode_crime_stats(obj_view(*fields)) == Ok::<VCrimeStats, VErrorKind>(crime_stats_view(s)),
            Err(e) => spec_decode_crime_stats(obj_view(*fields)) == Err::<VCrimeStats, VErrorKind>(ek_view(e)),
        },
{
    let key_notoriety = convert_name("notoriety", Convention::PascalSnake);
    let notoriety = match req_num(fields, key_notoriety.as_str()) {
        Ok(v) => v,
        Err(e) => {
            return Err(e);
        },
    };
    let key_fines = convert_name("fines", Convention::PascalSnake);
    let fines = match req_u64(fields, key_fines.as_str()) {
        Ok(v) => v,
        Err(e) => {
            return Err(e);
        },
    };
    let key_total_fines = convert_name("total_fines", Convention::PascalSnake);
    let total_fines = match req_u64(fields, key_total_fines.as_str()) {
        Ok(v) => v,
        Err(e) => {
            return Err(e);
        },
    };
    let key_bounties_received = convert_name("bounties_received", Convention::PascalSnake);
    let bounties_received = match req_u64(fields, key_bounties_received.as_str()) {
        Ok(v) => v,
        Err(e) => {
            return Err(e);
        },
    };
    let key_total_bounties = convert_name("total_bounties", Convention::PascalSnake);
    let total_bounties = match req_u64(fields, key_total_bounties.as_str()) {
        Ok(v) => v,
        Err(e) => {
            return Err(e);
        },
    };
    let key_highest_bounty = convert_name("highest_bounty", Convention::PascalSnake);
    let highest_bounty = match req_u64(fields, key_highest_bounty.as_str()) {
        Ok(v) => v,
        Err(e) => {
            return Err(e);
        },
    };
    Ok(CrimeStats { notoriety, fines, total_fines, bounties_received, total_bounties, highest_bounty })
}

#[derive(PartialEq, Eq, Structural, Clone, Copy, Debug)]
pub struct SmugglingStats {
    pub black_markets_traded_with: u64,
    pub black_markets_profits: u64,
    pub resources_smuggled: u64,
    pub average_profit: u64,
    pub highest_single_transaction: u64,
}

pub open spec fn spec_decode_smuggling_stats(fields: VObj) -> Result<SmugglingStats, VErrorKind> {
    match spec_req_u64(fields, spec_convert("black_markets_traded_with"@, Convention::PascalSnake)) {
        Err(e) => Err(e),
        Ok(black_markets_traded_with) => match spec_req_u64(fields, spec_convert("black_markets_profits"@, Convention::PascalSnake)) {
            Err(e) => Err(e),
            Ok(black_markets_profits) => match spec_req_u64(fields, spec_convert("resources_smuggled"@, Convention::PascalSnake)) {
                Err(e) => Err(e),
                Ok(resources_smuggled) => match spec_req_u64(fields, spec_convert("average_profit"@, Convention::PascalSnake)) {
                    Err(e) => Err(e),
                    Ok(average_profit) => match spec_req_u64(fields, spec_convert("highest_single_transaction"@, Convention::PascalSnake)) {
                        Err(e) => Err(e),
                        Ok(highest_single_transaction) => Ok(SmugglingStats { black_markets_traded_with, black_markets_profits, resources_smuggled, average_profit, highest_single_transaction }),
                    },
                },
            },
        },
    }
}

pub fn decode_smuggling_stats(fields: &Vec<(String, JValue)>) -> (r: Result<SmugglingStats, ErrorKind>)
    ensures
        match r {
            Ok(s) => spec_decode_smuggling_stats(obj_view(*fields)) == Ok::<SmugglingStats, VErrorKind>(s),
            Err(e) => spec_decode_smuggling_stats(obj_view(*fields)) == Err::<SmugglingStats, VErrorKind>(ek_view(e)),
        },
{
    let key_black_markets_traded_with = convert_name("black_markets_traded_with", Convention::PascalSnake);
    let black_markets_traded_with = match req_u64(fields, key_black_markets_traded_with.as_str()) {
        Ok(v) => v,
        Err(e) => {
            return Err(e);
        },
    };
    let key_black_markets_profits = convert_name("black_markets_profits", Convention::PascalSnake);
    let black_markets_profits = match req_u64(fields, key_black_markets_profits.as_str()) {
        Ok(v) => v,
        Err(e) => {
            return Err(e);
        },
    };
    let key_resources_smuggled = convert_name("resources_smuggled", Convention::PascalSnake);
    let resources_smuggled = match req_u64(fields, key_resources_smuggled.as_str()) {
        Ok(v) => v,
        Err(e) => {
            return Err(e);
        },
    };
    let key_average_profit = convert_name("average_profit", Convention::PascalSnake);
    let average_profit = match req_u64(fields, key_average_profit.as_str()) {
        Ok(v) => v,
        Err(e) => {
            return Err(e);
        },
    };
    let key_highest_single_transaction = convert_name("highest_single_transaction", Convention::PascalSnake);
    let highest_single_transaction = match req_u64(fields, key_highest_single_transaction.as_str()) {
        Ok(v) => v,
        Err(e) => {
            return Err(e);
        },
    };
    Ok(SmugglingStats { black_markets_traded_with, black_markets_profits, resources_smuggled, average_profit, highest_single_transaction })
}

#[derive(PartialEq, Eq, Debug)]
pub struct TradingStats {
    pub markets_traded_with: u64,
    pub market_profits: u64,
    pub resources_traded: u64,
    pub average_profit: NumberVal,
    pub highest_single_transaction: u64,
}

pub ghost struct VTradingStats {
    pub markets_traded_with: u64,
    pub market_profits: u64,
    pub resources_traded: u64,
    pub average_profit: VNum,
    pub highest_single_transaction: u64,
}

pub open spec fn trading_stats_view(s: TradingStats) -> VTradingStats {
    VTradingStats { markets_traded_with: s.markets_traded_with, market_profits: s.market_profits, resources_traded: s.resources_traded, average_profit: num_view(s.average_profit), highest_single_transaction: s.highest_single_transaction }
}

pub open spec fn spec_decode_trading_stats(fields: VObj) -> Result<VTradingStats, VErrorKind> {
    match spec_req_u64(fields, spec_convert("markets_traded_with"@, Convention::PascalSnake)) {
        Err(e) => Err(e),
        Ok(markets_traded_with) => match spec_req_u64(fields, spec_convert("market_profits"@, Convention::PascalSnake)) {
            Err(e) => Err(e),
            Ok(market_profits) => match spec_req_u64(fields, spec_convert("resources_traded"@, Convention::PascalSnake)) {
                Err(e) => Err(e),
                Ok(resources_traded) => match spec_req_num(fields, spec_convert("average_profit"@, Convention::PascalSnake)) {
                    Err(e) => Err(e),
                    Ok(average_profit) => match spec_req_u64(fields, spec_convert("highest_single_transaction"@, Convention::PascalSnake)) {
                        Err(e) => Err(e),
                        Ok(highest_single_transaction) => Ok(VTradingStats { markets_traded_with, market_profits, resources_traded, average_profit, highest_single_transaction }),
                    },
                },
            },
        },
    }
}

pub fn decode_trading_stats(fields: &Vec<(String, JValue)>) -> (r: Result<TradingStats, ErrorKind>)
    ensures
        match r {
            Ok(s) => spec_decode_trading_stats(obj_view(*fields)) == Ok::<VTradingStats, VErrorKind>(trading_stats_view(s)),
            Err(e) => spec_decode_trading_stats(obj_view(*fields)) == Err::<VTradingStats, VErrorKind>(ek_view(e)),
        },
{
    let key_markets_traded_with = convert_name("markets_traded_with", Convention::PascalSnake);
    let markets_traded_with = match req_u64(fields, key_markets_traded_with.as_str()) {
        Ok(v) => v,
        Err(e) => {
            return Err(e);
        },
    };
    let key_market_profits = convert_name("market_profits", Convention::PascalSnake);
    let market_profits = match req_u64(fields, key_market_profits.as_str()) {
        Ok(v) => v,
        Err(e) => {
            return Err(e);
        },
    };
    let key_resources_traded = convert_name("resources_traded", Convention::PascalSnake);
    let resources_traded = match req_u64(fields, key_resources_traded.as_str()) {
        Ok(v) => v,
        Err(e) => {
            return Err(e);
        },
    };
    let key_average_profit = convert_name("average_profit", Convention::PascalSnake);
    let average_profit = match req_num(fields, key_average_profit.as_str()) {
        Ok(v) => v,
        Err(e) => {
            return Err(e);
        },
    };
    let key_highest_single_transaction = convert_name("highest_single_transaction", Convention::PascalSnake);
    let highest_single_transaction = match req_u64(fields, key_highest_single_transaction.as_str()) {
        Ok(v) => v,
        Err(e) => {
            return Err(e);
        },
    };
    Ok(TradingStats { markets_traded_with, market_profits, resources_traded, average_profit, highest_single_transaction })
}

#[derive(PartialEq, Eq, Structural, Clone, Copy, Debug)]
pub struct MiningStats {
    pub mining_profits: u64,
    pub quantity_mined: u64,
    pub materials_collected: u64,
}

pub open spec fn spec_decode_mining_stats(fields: VObj) -> Result<MiningStats, VErrorKind> {
    match spec_req_u64(fields, spec_convert("mining_profits"@, Convention::PascalSnake)) {
        Err(e) => Err(e),
        Ok(mining_profits) => match spec_req_u64(fields, spec_convert("quantity_mined"@, Convention::PascalSnake)) {
            Err(e) => Err(e),
            Ok(quantity_mined) => match spec_req_u64(fields, spec_convert("materials_collected"@, Convention::PascalSnake)) {
                Err(e) => Err(e),
                Ok(materials_collected) => Ok(MiningStats { mining_profits, quantity_mined, materials_collected }),
            },
        },
    }
}

pub fn decode_mining_stats(fields: &Vec<(String, JValue)>) -> (r: Result<MiningStats, ErrorKind>)
    ensures
        match r {
            Ok(s) => spec_decode_mining_stats(obj_view(*fields)) == Ok::<MiningStats, VErrorKind>(s),
            Err(e) => spec_decode_mining_stats(obj_view(*fields)) == Err::<MiningStats, VErrorKind>(ek_view(e)),
        },
{
    let key_mining_profits = convert_name("mining_profits", Convention::PascalSnake);
    let mining_profits = match req_u64(fields, key_mining_profits.as_str()) {
        Ok(v) => v,
        Err(e) => {
            return Err(e);
        },
    };
    let key_quantity_mined = convert_name("quantity_mined", Convention::PascalSnake);
    let quantity_mined = match req_u64(fields, key_quantity_mined.as_str()) {
        Ok(v) => v,
        Err(e) => {
            return Err(e);
        },
    };
    let key_materials_collected = convert_name("materials_collected", Convention::PascalSnake);
    let materials_collected = match req_u64(fields, key_materials_collected.as_str()) {
        Ok(v) => v,
        Err(e) => {
            return Err(e);
        },
    };
    Ok(MiningStats { mining_profits, quantity_mined, materials_collected })
}

#[derive(PartialEq, Eq, Debug)]
pub struct ExplorationStats {
    pub systems_visited: u64,
    pub exploration_profits: u64,
    pub planets_scanned_to_level_2: u64,
    pub planets_scanned_to_level_3: u64,
    pub efficient_scans: u64,
    pub highest_payout: u64,
    pub total_hyperspace_distance: u64,
    pub total_hyperspace_jumps: u64,
    pub greatest_distance_from_start: NumberVal,
    pub times_played: NumberVal,
}

pub ghost struct VExplorationStats {
    pub systems_visited: u64,
    pub exploration_profits: u64,
    pub planets_scanned_to_level_2: u64,
    pub planets_scanned_to_level_3: u64,
    pub efficient_scans: u64,
    pub highest_payout: u64,
    pub total_hyperspace_distance: u64,
    pub total_hyperspace_jumps: u64,
    pub greatest_distance_from_start: VNum,
    pub times_played: VNum,
}

pub open spec fn exploration_stats_view(s: ExplorationStats) -> VExplorationStats {
    VExplorationStats { systems_visited: s.systems_visited, exploration_profits: s.exploration_profits, planets_scanned_to_level_2: s.planets_scanned_to_level_2, planets_scanned_to_level_3: s.planets_scanned_to_level_3, efficient_scans: s.efficient_scans, highest_payout: s.highest_payout, total_hyperspace_distance: s.total_hyperspace_distance, total_hyperspace_jumps: s.total_hyperspace_jumps, greatest_distance_from_start: num_view(s.greatest_distance_from_start), times_played: num_view(s.times_played) }
}

pub open spec fn spec_decode_exploration_stats(fields: VObj) -> Result<VExplorationStats, VErrorKind> {
    match spec_req_u64(fields, spec_convert("systems_visited"@, Convention::PascalSnake)) {
        Err(e) => Err(e),
        Ok(systems_visited) => match spec_req_u64(fields, spec_convert("exploration_profits"@, Convention::PascalSnake)) {
            Err(e) => Err(e),
            Ok(exploration_profits) => match spec_req_u64(fields, spec_convert("planets_scanned_to_level_2"@, Convention::PascalSnake)) {
                Err(e) => Err(e),
                Ok(planets_scanned_to_level_2) => match spec_req_u64(fields, spec_convert("planets_scanned_to_level_3"@, Convention::PascalSnake)) {
                    Err(e) => Err(e),
                    Ok(planets_scanned_to_level_3) => match spec_req_u64(fields, spec_convert("efficient_scans"@, Convention::PascalSnake)) {
                        Err(e) => Err(e),
                        Ok(efficient_scans) => match spec_req_u64(fields, spec_convert("highest_payout"@, Convention::PascalSnake)) {
                            Err(e) => Err(e),
                            Ok(highest_payout) => match spec_req_u64(fields, spec_convert("total_hyperspace_distance"@, Convention::PascalSnake)) {
                                Err(e) => Err(e),
                                Ok(total_hyperspace_distance) => match spec_req_u64(fields, spec_convert("total_hyperspace_jumps"@, Convention::PascalSnake)) {
                                    Err(e) => Err(e),
                                    Ok(total_hyperspace_jumps) => match spec_req_num(fields, spec_convert("greatest_distance_from_start"@, Convention::PascalSnake)) {
                                        Err(e) => Err(e),
                                        Ok(greatest_distance_from_start) => match spec_req_num(fields, spec_convert("times_played"@, Convention::PascalSnake)) {
                                            Err(e) => Err(e),
                                            Ok(times_played) => Ok(VExplorationStats { systems_visited, exploration_profits, planets_scanned_to_level_2, planets_scanned_to_level_3, efficient_scans, highest_payout, total_hyperspace_distance, total_hyperspace_jumps, greatest_distance_from_start, times_played }),
                                        },
                                    },
                                },
                            },
                        },
                    },
                },
            },
        },
    }
}

pub fn decode_exploration_stats(fields: &Vec<(String, JValue)>) -> (r: Result<ExplorationStats, ErrorKind>)
    ensures
        match r {
            Ok(s) => spec_decode_exploration_stats(obj_view(*fields)) == Ok::<VExplorationStats, VErrorKind>(exploration_stats_view(s)),
            Err(e) => spec_decode_exploration_stats(obj_view(*fields)) == Err::<VExplorationStats, VErrorKind>(ek_view(e)),
        },
{
    let key_systems_visited = convert_name("systems_visited", Convention::PascalSnake);
    let systems_visited = match req_u64(fields, key_systems_visited.as_str()) {
        Ok(v) => v,
        Err(e) => {
            return Err(e);
        },
    };
    let key_exploration_profits = convert_name("exploration_profits", Convention::PascalSnake);
    let exploration_profits = match req_u64(fields, key_exploration_profits.as_str()) {
        Ok(v) => v,
        Err(e) => {
            return Err(e);
        },
    };
    let key_planets_scanned_to_level_2 = convert_name("planets_scanned_to_level_2", Convention::PascalSnake);
    let planets_scanned_to_level_2 = match req_u64(fields, key_planets_scanned_to_level_2.as_str()) {
        Ok(v) => v,
        Err(e) => {
            return Err(e);
        },
    };
    let key_planets_scanned_to_level_3 = convert_name("planets_scanned_to_level_3", Convention::PascalSnake);
    let planets_scanned_to_level_3 = match req_u64(fields, key_planets_scanned_to_level_3.as_str()) {
        Ok(v) => v,
        Err(e) => {
            return Err(e);
        },
    };
    let key_efficient_scans = convert_name("efficient_scans", Convention::PascalSnake);
    let efficient_scans = match req_u64(fields, key_efficient_scans.as_str()) {
        Ok(v) => v,
        Err(e) => {
            return Err(e);
        },
    };
    let key_highest_payout = convert_name("highest_payout", Convention::PascalSnake);
    let highest_payout = match req_u64(fields, key_highest_payout.as_str()) {
        Ok(v) => v,
        Err(e) => {
            return Err(e);
        },
    };
    let key_total_hyperspace_distance = convert_name("total_hyperspace_distance", Convention::PascalSnake);
    let total_hyperspace_distance = match req_u64(fields, key_total_hyperspace_distance.as_str()) {
        Ok(v) => v,
        Err(e) => {
            return Err(e);
        },
    };
    let key_total_hyperspace_jumps = convert_name("total_hyperspace_jumps", Convention::PascalSnake);
    let total_hyperspace_jumps = match req_u64(fields, key_total_hyperspace_jumps.as_str()) {
        Ok(v) => v,
        Err(e) => {
            return Err(e);
        },
    };
    let key_greatest_distance_from_start = convert_name("greatest_distance_from_start", Convention::PascalSnake);
    let greatest_distance_from_start = match req_num(fields, key_greatest_distance_from_start.as_str()) {
        Ok(v) => v,
        Err(e) => {
            return Err(e);
        },
    };
    let key_times_played = convert_name("times_played", Convention::PascalSnake);
    let times_played = match req_num(fields, key_times_played.as_str()) {
        Ok(v) => v,
        Err(e) => {
            return Err(e);
        },
    };
    Ok(ExplorationStats { systems_visited, exploration_profits, planets_scanned_to_level_2, planets_scanned_to_level_3, efficient_scans, highest_payout, total_hyperspace_distance, total_hyperspace_jumps, greatest_distance_from_start, times_played })
}

#[derive(PartialEq, Eq, Structural, Clone, Copy, Debug)]
pub struct PassengerStats {
    pub bulk: u64,
    pub vip: u64,
    pub delivered: u64,
    pub ejected: u64,
}

pub open spec fn spec_decode_passenger_stats(fields: VObj) -> Result<PassengerStats, VErrorKind> {
    match spec_req_u64(fields, spec_convert("bulk"@, Convention::Pascal)) {
        Err(e) => Err(e),
        Ok(bulk) => match spec_req_u64(fields, "VIP"@) {
            Err(e) => Err(e),
            Ok(vip) => match spec_req_u64(fields, spec_convert("delivered"@, Convention::Pascal)) {
                Err(e) => Err(e),
                Ok(delivered) => match spec_req_u64(fields, spec_convert("ejected"@, Convention::Pascal)) {
                    Err(e) => Err(e),
                    Ok(ejected) => Ok(PassengerStats { bulk, vip, delivered, ejected }),
                },
            },
        },
    }
}

pub fn decode_passenger_stats(fields: &Vec<(String, JValue)>) -> (r: Result<PassengerStats, ErrorKind>)
    ensures
        match r {
            Ok(s) => spec_decode_passenger_stats(obj_view(*fields)) == Ok::<PassengerStats, VErrorKind>(s),
            Err(e) => spec_decode_passenger_stats(obj_view(*fields)) == Err::<PassengerStats, VErrorKind>(ek_view(e)),
        },
{
    let key_bulk = convert_name("bulk", Convention::Pascal);
    let bulk = match req_u64(fields, key_bulk.as_str()) {
        Ok(v) => v,
        Err(e) => {
            return Err(e);
        },
    };
    let vip = match req_u64(fields, "VIP") {
        Ok(v) => v,
        Err(e) => {
            return Err(e);
        },
    };
    let key_delivered = convert_name("delivered", Convention::Pascal);
    let delivered = match req_u64(fields, key_delivered.as_str()) {
        Ok(v) => v,
        Err(e) => {
            return Err(e);
        },
    };
    let key_ejected = convert_name("ejected", Convention::Pascal);
    let ejected = match req_u64(fields, key_ejected.as_str()) {
        Ok(v) => v,
        Err(e) => {
            return Err(e);
        },
    };
    Ok(PassengerStats { bulk, vip, delivered, ejected })
}

#[derive(PartialEq, Eq, Structural, Clone, Copy, Debug)]
pub struct CraftingStats {
    pub count_of_used_engineers: u64,
    pub recipes_generated: u64,
    pub recipes_generated_rank_1: u64,
    pub recipes_generated_rank_2: u64,
    pub recipes_generated_rank_3: u64,
    pub recipes_generated_rank_4: u64,
    pub recipes_generated_rank_5: u64,
}

pub open spec fn spec_decode_crafting_stats(fields: VObj) -> Result<CraftingStats, VErrorKind> {
    match spec_req_u64(fields, spec_convert("count_of_used_engineers"@, Convention::PascalSnake)) {
        Err(e) => Err(e),
        Ok(count_of_used_engineers) => match spec_req_u64(fields, spec_convert("recipes_generated"@, Convention::PascalSnake)) {
            Err(e) => Err(e),
            Ok(recipes_generated) => match spec_req_u64(fields, spec_convert("recipes_generated_rank_1"@, Convention::PascalSnake)) {
                Err(e) => Err(e),
                Ok(recipes_generated_rank_1) => match spec_req_u64(fields, spec_convert("recipes_generated_rank_2"@, Convention::PascalSnake)) {
                    Err(e) => Err(e),
                    Ok(recipes_generated_rank_2) => match spec_req_u64(fields, spec_convert("recipes_generated_rank_3"@, Convention::PascalSnake)) {
                        Err(e) => Err(e),
                        Ok(recipes_generated_rank_3) => match spec_req_u64(fields, spec_convert("recipes_generated_rank_4"@, Convention::PascalSnake)) {
                            Err(e) => Err(e),
                            Ok(recipes_generated_rank_4) => match spec_req_u64(fields, spec_convert("recipes_generated_rank_5"@, Convention::PascalSnake)) {
                                Err(e) => Err(e),
                                Ok(recipes_generated_rank_5) => Ok(CraftingStats { count_of_used_engineers, recipes_generated, recipes_generated_rank_1, recipes_generated_rank_2, recipes_generated_rank_3, recipes_generated_rank_4, recipes_generated_rank_5 }),
                            },
                        },
                    },
                },
            },
        },
    }
}

pub fn decode_crafting_stats(fields: &Vec<(String, JValue)>) -> (r: Result<CraftingStats, ErrorKind>)
    ensures
        match r {
            Ok(s) => spec_decode_crafting_stats(obj_view(*fields)) == Ok::<CraftingStats, VErrorKind>(s),
            Err(e) => spec_decode_crafting_stats(obj_view(*fields)) == Err::<CraftingStats, VErrorKind>(ek_view(e)),
        },
{
    let key_count_of_used_engineers = convert_name("count_of_used_engineers", Convention::PascalSnake);
    let count_of_used_engineers = match req_u64(fields, key_count_of_used_engineers.as_str()) {
        Ok(v) => v,
        Err(e) => {
            return Err(e);
        },
    };
    let key_recipes_generated = convert_name("recipes_generated", Convention::PascalSnake);
    let recipes_generated = match req_u64(fields, key_recipes_generated.as_str()) {
        Ok(v) => v,
        Err(e) => {
            return Err(e);
        },
    };
    let key_recipes_generated_rank_1 = convert_name("recipes_generated_rank_1", Convention::PascalSnake);
    let recipes_generated_rank_1 = match req_u64(fields, key_recipes_generated_rank_1.as_str()) {
        Ok(v) => v,
        Err(e) => {
            return Err(e);
        },
    };
    let key_recipes_generated_rank_2 = convert_name("recipes_generated_rank_2", Convention::PascalSnake);
    let recipes_generated_rank_2 = match req_u64(fields, key_recipes_generated_rank_2.as_str()) {
        Ok(v) => v,
        Err(e) => {
            return Err(e);
        },
    };
    let key_recipes_generated_rank_3 = convert_name("recipes_generated_rank_3", Convention::PascalSnake);
    let recipes_generated_rank_3 = match req_u64(fields, key_recipes_generated_rank_3.as_str()) {
        Ok(v) => v,
        Err(e) => {
            return Err(e);
        },
    };
    let key_recipes_generated_rank_4 = convert_name("recipes_generated_rank_4", Convention::PascalSnake);
    let recipes_generated_rank_4 = match req_u64(fields, key_recipes_generated_rank_4.as_str()) {
        Ok(v) => v,
        Err(e) => {
            return Err(e);
        },
    };
    let key_recipes_generated_rank_5 = convert_name("recipes_generated_rank_5", Convention::PascalSnake);
    let recipes_generated_rank_5 = match req_u64(fields, key_recipes_generated_rank_5.as_str()) {
        Ok(v) => v,
        Err(e) => {
            return Err(e);
        },
    };
    Ok(CraftingStats { count_of_used_engineers, recipes_generated, recipes_generated_rank_1, recipes_generated_rank_2, recipes_generated_rank_3, recipes_generated_rank_4, recipes_generated_rank_5 })
}

#[derive(PartialEq, Eq, Structural, Clone, Copy, Debug)]
pub struct CrewStats {
    pub total_wages: u64,
    pub hired: u64,
    pub fired: u64,
    pub died: u64,
}

pub open spec fn spec_decode_crew_stats(fields: VObj) -> Result<CrewStats, VErrorKind> {
    match spec_req_u64(fields, spec_convert("total_wages"@, Convention::Pascal)) {
        Err(e) => Err(e),
        Ok(total_wages) => match spec_req_u64(fields, spec_convert("hired"@, Convention::Pascal)) {
            Err(e) => Err(e),
            Ok(hired) => match spec_req_u64(fields, spec_convert("fired"@, Convention::Pascal)) {
                Err(e) => Err(e),
                Ok(fired) => match spec_req_u64(fields, spec_convert("died"@, Convention::Pascal)) {
                    Err(e) => Err(e),
                    Ok(died) => Ok(CrewStats { total_wages, hired, fired, died }),
                },
            },
        },
    }
}

pub fn decode_crew_stats(fields: &Vec<(String, JValue)>) -> (r: Result<CrewStats, ErrorKind>)
    ensures
        match r {
            Ok(s) => spec_decode_crew_stats(obj_view(*fields)) == Ok::<CrewStats, VErrorKind>(s),
            Err(e) => spec_decode_crew_stats(obj_view(*fields)) == Err::<CrewStats, VErrorKind>(ek_view(e)),
        },
{
    let key_total_wages = convert_name("total_wages", Convention::Pascal);
    let total_wages = match req_u64(fields, key_total_wages.as_str()) {
        Ok(v) => v,
        Err(e) => {
            return Err(e);
        },
    };
    let key_hired = convert_name("hired", Convention::Pascal);
    let hired = match req_u64(fields, key_hired.as_str()) {
        Ok(v) => v,
        Err(e) => {
            return Err(e);
        },
    };
    let key_fired = convert_name("fired", Convention::Pascal);
    let fired = match req_u64(fields, key_fired.as_str()) {
        Ok(v) => v,
        Err(e) => {
            return Err(e);
        },
    };
    let key_died = convert_name("died", Convention::Pascal);
    let died = match req_u64(fields, key_died.as_str()) {
        Ok(v) => v,
        Err(e) => {
            return Err(e);
        },
    };
    Ok(CrewStats { total_wages, hired, fired, died })
}

#[derive(PartialEq, Eq, Structural, Clone, Copy, Debug)]
pub struct MulticrewStats {
    pub time_total: u64,
    pub gunner_time_total: u64,
    pub fighter_time_total: u64,
    pub credits_total: u64,
    pub fines_total: u64,
}

pub open spec fn spec_decode_multicrew_stats(fields: VObj) -> Result<MulticrewStats, VErrorKind> {
    match spec_req_u64(fields, spec_convert("time_total"@, Convention::PascalSnake)) {
        Err(e) => Err(e),
        Ok(time_total) => match spec_req_u64(fields, spec_convert("gunner_time_total"@, Convention::PascalSnake)) {
            Err(e) => Err(e),
            Ok(gunner_time_total) => match spec_req_u64(fields, spec_convert("fighter_time_total"@, Convention::PascalSnake)) {
                Err(e) => Err(e),
                Ok(fighter_time_total) => match spec_req_u64(fields, spec_convert("credits_total"@, Convention::PascalSnake)) {
                    Err(e) => Err(e),
                    Ok(credits_total) => match spec_req_u64(fields, spec_convert("fines_total"@, Convention::PascalSnake)) {
                        Err(e) => Err(e),
                        Ok(fines_total) => Ok(MulticrewStats { time_total, gunner_time_total, fighter_time_total, credits_total, fines_total }),
                    },
                },
            },
        },
    }
}

pub fn decode_multicrew_stats(fields: &Vec<(String, JValue)>) -> (r: Result<MulticrewStats, ErrorKind>)
    ensures
        match r {
            Ok(s) => spec_decode_multicrew_stats(obj_view(*fields)) == Ok::<MulticrewStats, VErrorKind>(s),
            Err(e) => spec_decode_multicrew_stats(obj_view(*fields)) == Err::<MulticrewStats, VErrorKind>(ek_view(e)),
        },
{
    let key_time_total = convert_name("time_total", Convention::PascalSnake);
    let time_total = match req_u64(fields, key_time_total.as_str()) {
        Ok(v) => v,
        Err(e) => {
            return Err(e);
        },
    };
    let key_gunner_time_total = convert_name("gunner_time_total", Convention::PascalSnake);
    let gunner_time_total = match req_u64(fields, key_gunner_time_total.as_str()) {
        Ok(v) => v,
        Err(e) => {
            return Err(e);
        },
    };
    let key_fighter_time_total = convert_name("fighter_time_total", Convention::PascalSnake);
    let fighter_time_total = match req_u64(fields, key_fighter_time_total.as_str()) {
        Ok(v) => v,
        Err(e) => {
            return Err(e);
        },
    };
    let key_credits_total = convert_name("credits_total", Convention::PascalSnake);
    let credits_total = match req_u64(fields, key_credits_total.as_str()) {
        Ok(v) => v,
        Err(e) => {
            return Err(e);
        },
    };
    let key_fines_total = convert_name("fines_total", Convention::PascalSnake);
    let fines_total = match req_u64(fields, key_fines_total.as_str()) {
        Ok(v) => v,
        Err(e) => {
            return Err(e);
        },
    };
    Ok(MulticrewStats { time_total, gunner_time_total, fighter_time_total, credits_total, fines_total })
}

#[derive(PartialEq, Eq, Structural, Clone, Copy, Debug)]
pub struct MaterialTraderStats {
    pub trades_completed: u64,
    pub materials_traded: u64,
}

pub open spec fn spec_decode_material_trader_stats(fields: VObj) -> Result<MaterialTraderStats, VErrorKind> {
    match spec_req_u64(fields, spec_convert("trades_completed"@, Convention::PascalSnake)) {
        Err(e) => Err(e),
        Ok(trades_completed) => match spec_req_u64(fields, spec_convert("materials_traded"@, Convention::PascalSnake)) {
            Err(e) => Err(e),
            Ok(materials_traded) => Ok(MaterialTraderStats { trades_completed, materials_traded }),
        },
    }
}

pub fn decode_material_trader_stats(fields: &Vec<(String, JValue)>) -> (r: Result<MaterialTraderStats, ErrorKind>)
    ensures
        match r {
            Ok(s) => spec_decode_material_trader_stats(obj_view(*fields)) == Ok::<MaterialTraderStats, VErrorKind>(s),
            Err(e) => spec_decode_material_trader_stats(obj_view(*fields)) == Err::<MaterialTraderStats, VErrorKind>(ek_view(e)),
        },
{
    let key_trades_completed = convert_name("trades_completed", Convention::PascalSnake);
    let trades_completed = match req_u64(fields, key_trades_completed.as_str()) {
        Ok(v) => v,
        Err(e) => {
            return Err(e);
        },
    };
    let key_materials_traded = convert_name("materials_traded", Convention::PascalSnake);
    let materials_traded = match req_u64(fields, key_materials_traded.as_str()) {
        Ok(v) => v,
        Err(e) => {
            return Err(e);
        },
    };
    Ok(MaterialTraderStats { trades_completed, materials_traded })
}

#[derive(PartialEq, Eq, Structural, Clone, Copy, Debug)]
pub struct CQCStats {
    pub time_played: u64,
    pub kd: u64,
    pub kills: u64,
    pub wl: u64,
}

pub open spec fn spec_decode_cqc_stats(fields: VObj) -> Result<CQCStats, VErrorKind> {
    match spec_req_u64(fields, spec_convert("time_played"@, Convention::Pascal)) {
        Err(e) => Err(e),
        Ok(time_played) => match spec_req_u64(fields, spec_convert("kd"@, Convention::Pascal)) {
            Err(e) => Err(e),
            Ok(kd) => match spec_req_u64(fields, spec_convert("kills"@, Convention::Pascal)) {
                Err(e) => Err(e),
                Ok(kills) => match spec_req_u64(fields, spec_convert("wl"@, Convention::Pascal)) {
                    Err(e) => Err(e),
                    Ok(wl) => Ok(CQCStats { time_played, kd, kills, wl }),
                },
            },
        },
    }
}

pub fn decode_cqc_stats(fields: &Vec<(String, JValue)>) -> (r: Result<CQCStats, ErrorKind>)
    ensures
        match r {
            Ok(s) => spec_decode_cqc_stats(obj_view(*fields)) == Ok::<CQCStats, VErrorKind>(s),
            Err(e) => spec_decode_cqc_stats(obj_view(*fields)) == Err::<CQCStats, VErrorKind>(ek_view(e)),
        },
{
    let key_time_played = convert_name("time_played", Convention::Pascal);
    let time_played = match req_u64(fields, key_time_played.as_str()) {
        Ok(v) => v,
        Err(e) => {
            return Err(e);
        },
    };
    let key_kd = convert_name("kd", Convention::Pascal);
    let kd = match req_u64(fields, key_kd.as_str()) {
        Ok(v) => v,
        Err(e) => {
            return Err(e);
        },
    };
    let key_kills = convert_name("kills", Convention::Pascal);
    let kills = match req_u64(fields, key_kills.as_str()) {
        Ok(v) => v,
        Err(e) => {
            return Err(e);
        },
    };
    let key_wl = convert_name("wl", Convention::Pascal);
    let wl = match req_u64(fields, key_wl.as_str()) {
        Ok(v) => v,
        Err(e) => {
            return Err(e);
        },
    };
    Ok(CQCStats { time_played, kd, kills, wl })
}


// ---------------------------------------------------------------------------
// Statistics: the record itself. Every sub-block but the passengers group
// is a nested record under its own capitalized-with-underscores key; the
// passengers block's fields sit in the statistics record's flat namespace
// under the shared literal prefix, which is stripped before the group's
// own schema is matched.
// ---------------------------------------------------------------------------

#[derive(PartialEq, Eq, Debug)]
pub struct Statistics {
    pub bank_account: BankStats,
    pub combat: CombatStats,
    pub crime: CrimeStats,
    pub smuggling: SmugglingStats,
    pub trading: TradingStats,
    pub mining: MiningStats,
    pub exploration: ExplorationStats,
    pub passengers: PassengerStats,
    pub crafting: CraftingStats,
    pub crew: CrewStats,
    pub multicrew: MulticrewStats,
    pub material_trader_stats: MaterialTraderStats,
    pub cqc: CQCStats,
}

pub ghost struct VStatistics {
    pub bank_account: BankStats,
    pub combat: CombatStats,
    pub crime: VCrimeStats,
    pub smuggling: SmugglingStats,
    pub trading: VTradingStats,
    pub mining: MiningStats,
    pub exploration: VExplorationStats,
    pub passengers: PassengerStats,
    pub crafting: CraftingStats,
    pub crew: CrewStats,
    pub multicrew: MulticrewStats,
    pub material_trader_stats: MaterialTraderStats,
    pub cqc: CQCStats,
}

pub open spec fn statistics_view(s: Statistics) -> VStatistics {
    VStatistics { bank_account: s.bank_account, combat: s.combat, crime: crime_stats_view(s.crime), smuggling: s.smuggling, trading: trading_stats_view(s.trading), mining: s.mining, exploration: exploration_stats_view(s.exploration), passengers: s.passengers, crafting: s.crafting, crew: s.crew, multicrew: s.multicrew, material_trader_stats: s.material_trader_stats, cqc: s.cqc }
}

pub open spec fn spec_decode_statistics(fields: VObj) -> Result<VStatistics, VErrorKind> {
    match spec_sub_record(fields, "Bank_Account"@) {
        Err(e) => Err(e),
        Ok(m_bank_account) => match spec_decode_bank_stats(m_bank_account) {
            Err(e) => Err(e),
            Ok(bank_account) => match spec_sub_record(fields, spec_convert("combat"@, Convention::PascalSnake)) {
            Err(e) => Err(e),
            Ok(m_combat) => match spec_decode_combat_stats(m_combat) {
                Err(e) => Err(e),
                Ok(combat) => match spec_sub_record(fields, spec_convert("crime"@, Convention::PascalSnake)) {
                Err(e) => Err(e),
                Ok(m_crime) => match spec_decode_crime_stats(m_crime) {
                    Err(e) => Err(e),
                    Ok(crime) => match spec_sub_record(fields, spec_convert("smuggling"@, Convention::PascalSnake)) {
                    Err(e) => Err(e),
                    Ok(m_smuggling) => match spec_decode_smuggling_stats(m_smuggling) {
                        Err(e) => Err(e),
                        Ok(smuggling) => match spec_sub_record(fields, spec_convert("trading"@, Convention::PascalSnake)) {
                        Err(e) => Err(e),
                        Ok(m_trading) => match spec_decode_trading_stats(m_trading) {
                            Err(e) => Err(e),
                            Ok(trading) => match spec_sub_record(fields, spec_convert("mining"@, Convention::PascalSnake)) {
                            Err(e) => Err(e),
                            Ok(m_mining) => match spec_decode_mining_stats(m_mining) {
                                Err(e) => Err(e),
                                Ok(mining) => match spec_sub_record(fields, spec_convert("exploration"@, Convention::PascalSnake)) {
                                Err(e) => Err(e),
                                Ok(m_exploration) => match spec_decode_exploration_stats(m_exploration) {
                                    Err(e) => Err(e),
                                    Ok(exploration) => match spec_sub_record(fields, spec_convert("crafting"@, Convention::PascalSnake)) {
                                    Err(e) => Err(e),
                                    Ok(m_crafting) => match spec_decode_crafting_stats(m_crafting) {
                                        Err(e) => Err(e),
                                        Ok(crafting) => match spec_sub_record(fields, spec_convert("crew"@, Convention::PascalSnake)) {
                                        Err(e) => Err(e),
                                        Ok(m_crew) => match spec_decode_crew_stats(m_crew) {
                                            Err(e) => Err(e),
                                            Ok(crew) => match spec_sub_record(fields, spec_convert("multicrew"@, Convention::PascalSnake)) {
                                            Err(e) => Err(e),
                                            Ok(m_multicrew) => match spec_decode_multicrew_stats(m_multicrew) {
                                                Err(e) => Err(e),
                                                Ok(multicrew) => match spec_sub_record(fields, spec_convert("material_trader_stats"@, Convention::PascalSnake)) {
                                                Err(e) => Err(e),
                                                Ok(m_material_trader_stats) => match spec_decode_material_trader_stats(m_material_trader_stats) {
                                                    Err(e) => Err(e),
                                                    Ok(material_trader_stats) => match spec_sub_record(fields, "CQC"@) {
                                                    Err(e) => Err(e),
                                                    Ok(m_cqc) => match spec_decode_cqc_stats(m_cqc) {
                                                        Err(e) => Err(e),
                                                        Ok(cqc) => match spec_decode_passenger_stats(spec_group(fields, "Passengers_Missions_"@)) {
                                                        Err(e) => Err(e),
                                                        Ok(passengers) => Ok(VStatistics { bank_account, combat, crime, smuggling, trading, mining, exploration, passengers, crafting, crew, multicrew, material_trader_stats, cqc }),
                                                    }
                                                    },
                                                },
                                                },
                                            },
                                            },
                                        },
                                        },
                                    },
                                    },
                                },
                                },
                            },
                            },
                        },
                        },
                    },
                    },
                },
                },
            },
            },
        },
        },
    }
}

pub fn decode_statistics(fields: Vec<(String, JValue)>) -> (r: Result<Statistics, ErrorKind>)
    ensures
        match r {
            Ok(s) => spec_decode_statistics(obj_view(fields)) == Ok::<VStatistics, VErrorKind>(statistics_view(s)),
            Err(e) => spec_decode_statistics(obj_view(fields)) == Err::<VStatistics, VErrorKind>(ek_view(e)),
        },
{
    let bank_account = match sub_record(&fields, "Bank_Account") {
        Ok(m) => match decode_bank_stats(m) {
            Ok(v) => v,
            Err(e) => {
                return Err(e);
            },
        },
        Err(e) => {
            return Err(e);
        },
    };
    let key_combat = convert_name("combat", Convention::PascalSnake);
    let combat = match sub_record(&fields, key_combat.as_str()) {
        Ok(m) => match decode_combat_stats(m) {
            Ok(v) => v,
            Err(e) => {
                return Err(e);
            },
        },
        Err(e) => {
            return Err(e);
        },
    };
    let key_crime = convert_name("crime", Convention::PascalSnake);
    let crime = match sub_record(&fields, key_crime.as_str()) {
        Ok(m) => match decode_crime_stats(m) {
            Ok(v) => v,
            Err(e) => {
                return Err(e);
            },
        },
        Err(e) => {
            return Err(e);
        },
    };
    let key_smuggling = convert_name("smuggling", Convention::PascalSnake);
    let smuggling = match sub_record(&fields, key_smuggling.as_str()) {
        Ok(m) => match decode_smuggling_stats(m) {
            Ok(v) => v,
            Err(e) => {
                return Err(e);
            },
        },
        Err(e) => {
            return Err(e);
        },
    };
    let key_trading = convert_name("trading", Convention::PascalSnake);
    let trading = match sub_record(&fields, key_trading.as_str()) {
        Ok(m) => match decode_trading_stats(m) {
            Ok(v) => v,
            Err(e) => {
                return Err(e);
            },
        },
        Err(e) => {
            return Err(e);
        },
    };
    let key_mining = convert_name("mining", Convention::PascalSnake);
    let mining = match sub_record(&fields, key_mining.as_str()) {
        Ok(m) => match decode_mining_stats(m) {
            Ok(v) => v,
            Err(e) => {
                return Err(e);
            },
        },
        Err(e) => {
            return Err(e);
        },
    };
    let key_exploration = convert_name("exploration", Convention::PascalSnake);
    let exploration = match sub_record(&fields, key_exploration.as_str()) {
        Ok(m) => match decode_exploration_stats(m) {
            Ok(v) => v,
            Err(e) => {
                return Err(e);
            },
        },
        Err(e) => {
            return Err(e);
        },
    };
    let key_crafting = convert_name("crafting", Convention::PascalSnake);
    let crafting = match sub_record(&fields, key_crafting.as_str()) {
        Ok(m) => match decode_crafting_stats(m) {
            Ok(v) => v,
            Err(e) => {
                return Err(e);
            },
        },
        Err(e) => {
            return Err(e);
        },
    };
    let key_crew = convert_name("crew", Convention::PascalSnake);
    let crew = match sub_record(&fields, key_crew.as_str()) {
        Ok(m) => match decode_crew_stats(m) {
            Ok(v) => v,
            Err(e) => {
                return Err(e);
            },
        },
        Err(e) => {
            return Err(e);
        },
    };
    let key_multicrew = convert_name("multicrew", Convention::PascalSnake);
    let multicrew = match sub_record(&fields, key_multicrew.as_str()) {
        Ok(m) => match decode_multicrew_stats(m) {
            Ok(v) => v,
            Err(e) => {
                return Err(e);
            },
        },
        Err(e) => {
            return Err(e);
        },
    };
    let key_material_trader_stats = convert_name("material_trader_stats", Convention::PascalSnake);
    let material_trader_stats = match sub_record(&fields, key_material_trader_stats.as_str()) {
        Ok(m) => match decode_material_trader_stats(m) {
            Ok(v) => v,
            Err(e) => {
                return Err(e);
            },
        },
        Err(e) => {
            return Err(e);
        },
    };
    let cqc = match sub_record(&fields, "CQC") {
        Ok(m) => match decode_cqc_stats(m) {
            Ok(v) => v,
            Err(e) => {
                return Err(e);
            },
        },
        Err(e) => {
            return Err(e);
        },
    };
    let group = extract_group(fields, "Passengers_Missions_");
    let passengers = match decode_passenger_stats(&group) {
        Ok(p) => p,
        Err(e) => {
            return Err(e);
        },
    };
    Ok(Statistics { bank_account, combat, crime, smuggling, trading, mining, exploration, passengers, crafting, crew, multicrew, material_trader_stats, cqc })
}

} // verus!
