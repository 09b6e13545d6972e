use journal_decoder::stats::{decode_statistics, decode_passenger_stats};
use journal_decoder::coerce::extract_group;
use journal_decoder::errors::{ErrorKind, Shape};
use journal_decoder::tree::{JValue, NumberVal};

fn num(n: i64) -> JValue {
    JValue::Num(NumberVal::Int(n))
}

fn block(pairs: Vec<(&str, i64)>) -> JValue {
    let mut out: Vec<(String, JValue)> = Vec::new();
    for (k, v) in pairs {
        out.push((k.to_string(), num(v)));
    }
    JValue::Obj(out)
}

fn statistics_fields() -> Vec<(String, JValue)> {
    let mut fields: Vec<(String, JValue)> = Vec::new();
    fields.push(("Bank_Account".to_string(), block(vec![
        ("Current_Wealth", 1000), ("Spent_On_Ships", 2), ("Spent_On_Outfitting", 3),
        ("Spent_On_Repairs", 4), ("Spent_On_Fuel", 5), ("Spent_On_Ammo_Consumables", 6),
        ("Insurance_Claims", 7), ("Spent_On_Insurance", 8), ("Owned_Ship_Count", 9),
    ])));
    fields.push(("Combat".to_string(), block(vec![
        ("Bounties_Claimed", 1), ("Bounty_Hunting_Profit", 2), ("Combat_Bonds", 3),
        ("Combat_Bond_Profits", 4), ("Assasinations", 5), ("Assasination_Profits", 6),
        ("Highest_Single_Reward", 7), ("Skimmers_Killed", 8),
    ])));
    let mut crime: Vec<(String, JValue)> = Vec::new();
    crime.push(("Notoriety".to_string(), JValue::Num(NumberVal::Raw("0.5".to_string()))));
    for (k, v) in [("Fines", 2i64), ("Total_Fines", 3), ("Bounties_Received", 4),
                   ("Total_Bounties", 5), ("Highest_Bounty", 6)] {
        crime.push((k.to_string(), num(v)));
    }
    fields.push(("Crime".to_string(), JValue::Obj(crime)));
    fields.push(("Smuggling".to_string(), block(vec![
        ("Black_Markets_Traded_With", 1), ("Black_Markets_Profits", 2),
        ("Resources_Smuggled", 3), ("Average_Profit", 4), ("Highest_Single_Transaction", 5),
    ])));
    fields.push(("Trading".to_string(), block(vec![
        ("Markets_Traded_With", 1), ("Market_Profits", 2), ("Resources_Traded", 3),
        ("Average_Profit", 4), ("Highest_Single_Transaction", 5),
    ])));
    fields.push(("Mining".to_string(), block(vec![
        ("Mining_Profits", 1), ("Quantity_Mined", 2), ("Materials_Collected", 3),
    ])));
    fields.push(("Exploration".to_string(), block(vec![
        ("Systems_Visited", 1), ("Exploration_Profits", 2), ("Planets_Scanned_To_Level_2", 3),
        ("Planets_Scanned_To_Level_3", 4), ("Efficient_Scans", 5), ("Highest_Payout", 6),
        ("Total_Hyperspace_Distance", 7), ("Total_Hyperspace_Jumps", 8),
        ("Greatest_Distance_From_Start", 9), ("Times_Played", 10),
    ])));
    fields.push(("Passengers_Missions_Bulk".to_string(), num(11)));
    fields.push(("Passengers_Missions_VIP".to_string(), num(12)));
    fields.push(("Passengers_Missions_Delivered".to_string(), num(13)));
    fields.push(("Passengers_Missions_Ejected".to_string(), num(14)));
    fields.push(("Crafting".to_string(), block(vec![
        ("Count_Of_Used_Engineers", 1), ("Recipes_Generated", 2),
        ("Recipes_Generated_Rank_1", 3), ("Recipes_Generated_Rank_2", 4),
        ("Recipes_Generated_Rank_3", 5), ("Recipes_Generated_Rank_4", 6),
        ("Recipes_Generated_Rank_5", 7),
    ])));
    fields.push(("Crew".to_string(), block(vec![
        ("TotalWages", 1), ("Hired", 2), ("Fired", 3), ("Died", 4),
    ])));
    fields.push(("Multicrew".to_string(), block(vec![
        ("Time_Total", 1), ("Gunner_Time_Total", 2), ("Fighter_Time_Total", 3),
        ("Credits_Total", 4), ("Fines_Total", 5),
    ])));
    fields.push(("Material_Trader_Stats".to_string(), block(vec![
        ("Trades_Completed", 1), ("Materials_Traded", 2),
    ])));
    fields.push(("CQC".to_string(), block(vec![
        ("TimePlayed", 1), ("Kd", 2), ("Kills", 3), ("Wl", 4),
    ])));
    fields
}

#[test]
fn statistics_record_decodes() {
    let s = decode_statistics(statistics_fields()).ok().unwrap();
    assert_eq!(s.bank_account.current_wealth, 1000);
    assert_eq!(s.combat.skimmers_killed, 8);
    assert_eq!(s.crime.notoriety, NumberVal::Raw("0.5".to_string()));
    assert_eq!(s.crime.highest_bounty, 6);
    assert_eq!(s.smuggling.average_profit, 4);
    assert_eq!(s.trading.average_profit, NumberVal::Int(4));
    assert_eq!(s.mining.materials_collected, 3);
    assert_eq!(s.exploration.total_hyperspace_jumps, 8);
    assert_eq!(s.passengers.bulk, 11);
    assert_eq!(s.passengers.vip, 12);
    assert_eq!(s.passengers.delivered, 13);
    assert_eq!(s.passengers.ejected, 14);
    assert_eq!(s.crafting.recipes_generated_rank_5, 7);
    assert_eq!(s.crew.total_wages, 1);
    assert_eq!(s.multicrew.fines_total, 5);
    assert_eq!(s.material_trader_stats.trades_completed, 1);
    assert_eq!(s.cqc.kills, 3);
}

#[test]
fn statistics_missing_group_field_names_the_stripped_name() {
    let mut fields = statistics_fields();
    fields.retain(|p| p.0 != "Passengers_Missions_VIP");
    let err = decode_statistics(fields).err().unwrap();
    assert_eq!(
        err,
        ErrorKind::SchemaViolation {
            field: "VIP".to_string(),
            expected: Shape::U64,
            actual: Shape::Missing,
        }
    );
}

#[test]
fn prefix_is_stripped_not_replaced() {
    let fields = vec![
        ("Passengers_Missions_Bulk".to_string(), num(1)),
        ("Unrelated".to_string(), num(9)),
        ("Passengers_Missions_VIP".to_string(), num(2)),
    ];
    let group = extract_group(fields, "Passengers_Missions_");
    assert_eq!(group.len(), 2);
    assert_eq!(group[0].0, "Bulk");
    assert_eq!(group[1].0, "VIP");
}

#[test]
fn group_schema_sees_only_its_fields() {
    // Fields outside the prefix are invisible to the group, so the group's
    // schema fails on a missing field even though a like-named field sits
    // unprefixed in the record.
    let fields = vec![
        ("Bulk".to_string(), num(1)),
        ("Passengers_Missions_VIP".to_string(), num(2)),
        ("Passengers_Missions_Delivered".to_string(), num(3)),
        ("Passengers_Missions_Ejected".to_string(), num(4)),
    ];
    let group = extract_group(fields, "Passengers_Missions_");
    let err = decode_passenger_stats(&group).err().unwrap();
    assert_eq!(
        err,
        ErrorKind::SchemaViolation {
            field: "Bulk".to_string(),
            expected: Shape::U64,
            actual: Shape::Missing,
        }
    );
}
