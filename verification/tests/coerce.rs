use journal_decoder::names::{Convention, convert_name};
use journal_decoder::errors::{ErrorKind, Shape};
use journal_decoder::schemas::{decode_ship, decode_load_game, GameMode};
use journal_decoder::tree::{JValue, NumberVal};

fn obj(pairs: Vec<(&str, JValue)>) -> Vec<(String, JValue)> {
    let mut out = Vec::new();
    for (k, v) in pairs {
        out.push((k.to_string(), v));
    }
    out
}

fn ship_fields(name: &str, ident: &str) -> Vec<(String, JValue)> {
    obj(vec![
        ("Ship", JValue::Str("CobraMkIII".to_string())),
        ("Ship_Localized", JValue::Str("Cobra Mk III".to_string())),
        ("Ship_ID", JValue::Str("SHIP-7".to_string())),
        ("ShipName", JValue::Str(name.to_string())),
        ("ShipIdent", JValue::Str(ident.to_string())),
        ("FuelLevel", JValue::Num(NumberVal::Raw("12.5".to_string()))),
        ("FuelCapacity", JValue::Num(NumberVal::Int(16))),
    ])
}

#[test]
fn convention_spellings() {
    assert_eq!(convert_name("bank_account", Convention::PascalSnake), "Bank_Account");
    assert_eq!(convert_name("current_wealth", Convention::PascalSnake), "Current_Wealth");
    assert_eq!(convert_name("name_localized", Convention::Pascal), "NameLocalized");
    assert_eq!(convert_name("game_mode", Convention::Pascal), "GameMode");
    assert_eq!(convert_name("combat", Convention::Pascal), "Combat");
    assert_eq!(convert_name("game_version", Convention::LowerJoin), "gameversion");
    assert_eq!(convert_name("build", Convention::LowerJoin), "build");
}

#[test]
fn empty_string_becomes_absent() {
    let fields = ship_fields("", "ABC-1");
    let ship = decode_ship(&fields).ok().unwrap();
    assert_eq!(ship.ship_name, None);
    assert_eq!(ship.ship_ident, Some("ABC-1".to_string()));
}

#[test]
fn non_empty_string_is_present() {
    let fields = ship_fields("Black Pearl", "XY-99");
    let ship = decode_ship(&fields).ok().unwrap();
    assert_eq!(ship.ship_name, Some("Black Pearl".to_string()));
    assert_eq!(ship.ship_ident, Some("XY-99".to_string()));
}

#[test]
fn null_optional_field_is_absent() {
    let mut fields = ship_fields("x", "y");
    for pair in fields.iter_mut() {
        if pair.0 == "ShipName" {
            pair.1 = JValue::Null;
        }
    }
    let ship = decode_ship(&fields).ok().unwrap();
    assert_eq!(ship.ship_name, None);
    assert_eq!(ship.ship_ident, Some("y".to_string()));
}

#[test]
fn non_string_optional_field_fails_type_rules() {
    let mut fields = ship_fields("x", "y");
    // Replace the optional name with a number: the empty-string rule must
    // not touch it, and ordinary type-matching rejects it.
    for pair in fields.iter_mut() {
        if pair.0 == "ShipName" {
            pair.1 = JValue::Num(NumberVal::Int(5));
        }
    }
    let err = decode_ship(&fields).err().unwrap();
    assert_eq!(
        err,
        ErrorKind::SchemaViolation {
            field: "ShipName".to_string(),
            expected: Shape::OptStr,
            actual: Shape::Num,
        }
    );
}

#[test]
fn load_game_flattens_three_blocks() {
    let fields = obj(vec![
        ("FID", JValue::Str("F1".to_string())),
        ("Name", JValue::Str("A".to_string())),
        ("Horizons", JValue::Bool(true)),
        ("Odyssey", JValue::Bool(false)),
        ("GameMode", JValue::Str("Solo".to_string())),
        ("Ship", JValue::Obj(ship_fields("", ""))),
        ("Credits", JValue::Num(NumberVal::Int(1000))),
        ("Loan", JValue::Num(NumberVal::Int(0))),
        ("gameversion", JValue::Str("4.0".to_string())),
        ("build", JValue::Str("r1".to_string())),
        ("language", JValue::Str("English/UK".to_string())),
    ]);
    let g = decode_load_game(&fields).ok().unwrap();
    assert_eq!(g.commander.name, "A");
    assert_eq!(g.game_type.game_mode, GameMode::Solo);
    assert!(g.game_type.horizons);
    assert_eq!(g.ship.ship_name, None);
    assert_eq!(g.credits, 1000);
    assert_eq!(g.loan, 0);
    assert_eq!(g.version.game_version, "4.0");
}

#[test]
fn load_game_rejects_missing_credits() {
    let fields = obj(vec![
        ("FID", JValue::Str("F1".to_string())),
        ("Name", JValue::Str("A".to_string())),
        ("Horizons", JValue::Bool(true)),
        ("Odyssey", JValue::Bool(false)),
        ("GameMode", JValue::Str("Open".to_string())),
        ("Ship", JValue::Obj(ship_fields("n", "i"))),
        ("Loan", JValue::Num(NumberVal::Int(0))),
        ("gameversion", JValue::Str("4.0".to_string())),
        ("build", JValue::Str("r1".to_string())),
        ("language", JValue::Str("English/UK".to_string())),
    ]);
    let err = decode_load_game(&fields).err().unwrap();
    assert_eq!(
        err,
        ErrorKind::SchemaViolation {
            field: "Credits".to_string(),
            expected: Shape::U64,
            actual: Shape::Missing,
        }
    );
}
