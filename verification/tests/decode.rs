use journal_decoder::pipeline::decode_line;
use journal_decoder::dispatch::Event;
use journal_decoder::errors::{ErrorKind, LineError, ScaleId, Shape};
use journal_decoder::tree::{JValue, NumberVal};
use journal_decoder::scales::{
    CombatRank, TradeRank, ExplorationRank, MercenaryRank, ExobiologistRank, EmpireRank,
    FederationRank, combat_rank_from_code, trade_rank_from_code, exploration_rank_from_code,
    mercenary_rank_from_code, exobiologist_rank_from_code, empire_rank_from_code,
    federation_rank_from_code,
};

#[test]
fn fileheader_example() {
    let line = r#"{"event":"Fileheader","part":1,"Odyssey":true,"gameversion":"4.0.0.1806","build":"r302447/r0 ","language":"English/UK"}"#;
    let r = decode_line(line, 1);
    match r {
        Ok(Event::Fileheader(f)) => {
            assert_eq!(f.part, 1);
            assert!(f.odyssey);
            assert_eq!(f.version.game_version, "4.0.0.1806");
            assert_eq!(f.version.build, "r302447/r0 ");
            assert_eq!(f.version.language, "English/UK");
        },
        _ => panic!("expected a Fileheader record"),
    }
}

#[test]
fn commander_example_and_redaction() {
    let line = r#"{"event":"Commander","FID":"F1908163","Name":"OMGasm"}"#;
    let r = decode_line(line, 1);
    match r {
        Ok(Event::Commander(c)) => {
            // The raw value stays intact in the data model...
            assert_eq!(c.fid.0, "F1908163");
            assert_eq!(c.name, "OMGasm");
            // ...and the rendering for people masks it.
            assert_eq!(c.fid.redacted(), "F~~~~~~");
            assert!(!c.fid.redacted().contains("1908163"));
        },
        _ => panic!("expected a Commander record"),
    }
}

#[test]
fn unknown_event_keeps_every_field() {
    let line = r#"{"event":"SomeFutureEvent","x":1,"y":"z"}"#;
    let r = decode_line(line, 1);
    match r {
        Ok(Event::Unknown(fields)) => {
            // Every original field, unchanged (keys arrive in sorted order).
            assert_eq!(fields.len(), 3);
            assert!(fields.contains(&("event".to_string(), JValue::Str("SomeFutureEvent".to_string()))));
            assert!(fields.contains(&("x".to_string(), JValue::Num(NumberVal::Int(1)))));
            assert!(fields.contains(&("y".to_string(), JValue::Str("z".to_string()))));
        },
        _ => panic!("expected the open-ended variant"),
    }
}

#[test]
fn malformed_line_is_a_line_error() {
    let line = r#"{"event":"Commander","FID":"F19"#; // truncated
    let r = decode_line(line, 7);
    assert_eq!(
        r.err().unwrap(),
        LineError { line_number: 7, kind: ErrorKind::MalformedInput }
    );
}

#[test]
fn non_record_line_is_malformed() {
    let r = decode_line("42", 3);
    assert_eq!(
        r.err().unwrap(),
        LineError { line_number: 3, kind: ErrorKind::MalformedInput }
    );
}

#[test]
fn missing_discriminator() {
    let r = decode_line(r#"{"part":1}"#, 2);
    assert_eq!(
        r.err().unwrap(),
        LineError { line_number: 2, kind: ErrorKind::MissingDiscriminator }
    );
}

#[test]
fn non_string_discriminator_is_missing() {
    let r = decode_line(r#"{"event":5}"#, 2);
    assert_eq!(
        r.err().unwrap(),
        LineError { line_number: 2, kind: ErrorKind::MissingDiscriminator }
    );
}

#[test]
fn decoding_twice_is_identical() {
    let line = r#"{"event":"Commander","FID":"F1908163","Name":"OMGasm"}"#;
    let a = decode_line(line, 1);
    let b = decode_line(line, 1);
    assert!(a == b);
    let bad = r#"{"event":"Commander","FID":7,"Name":"OMGasm"}"#;
    let c = decode_line(bad, 1);
    let d = decode_line(bad, 1);
    assert!(c == d);
}

#[test]
fn five_line_journal_keeps_order() {
    let lines: Vec<String> = vec![
        r#"{"event":"Fileheader","part":1,"Odyssey":true,"gameversion":"4.0","build":"b","language":"l"}"#.to_string(),
        r#"{"event":"Commander","FID":"F1","Name":"A"}"#.to_string(),
        r#"this is not a record"#.to_string(),
        r#"{"event":"SomeFutureEvent","x":1,"y":"z"}"#.to_string(),
        r#"{"event":"Commander","FID":"F2","Name":"B"}"#.to_string(),
    ];
    let outcomes = journal_decoder::pipeline::decode_lines(&lines);
    assert_eq!(outcomes.len(), 5);
    assert!(matches!(outcomes[0], Ok(Event::Fileheader(_))));
    assert!(matches!(outcomes[1], Ok(Event::Commander(_))));
    assert_eq!(
        *outcomes[2].as_ref().err().unwrap(),
        LineError { line_number: 3, kind: ErrorKind::MalformedInput }
    );
    assert!(matches!(outcomes[3], Ok(Event::Unknown(_))));
    match &outcomes[4] {
        Ok(Event::Commander(c)) => assert_eq!(c.name, "B"),
        _ => panic!("expected a Commander record on the last line"),
    }
}

#[test]
fn rank_record_decodes_each_scale() {
    let line = r#"{"event":"Rank","Combat":0,"Trade":8,"Explore":2,"Soldier":1,"Exobiologist":3,"Empire":14,"Federation":0,"CQC":5}"#;
    let r = decode_line(line, 1);
    match r {
        Ok(Event::Rank(k)) => {
            assert_eq!(k.combat, CombatRank::Harmless);
            assert_eq!(k.trade, TradeRank::Elite);
            assert_eq!(k.explore, ExplorationRank::Scout);
            assert_eq!(k.soldier, MercenaryRank::MostlyDefenceless);
            assert_eq!(k.exobiologist, ExobiologistRank::Collector);
            assert_eq!(k.empire, EmpireRank::King);
            assert_eq!(k.federation, FederationRank::NoRank);
            assert_eq!(k.cqc, 5);
        },
        _ => panic!("expected a Rank record"),
    }
}

#[test]
fn scale_first_last_and_one_past() {
    assert_eq!(combat_rank_from_code(0), Some(CombatRank::Harmless));
    assert_eq!(combat_rank_from_code(8), Some(CombatRank::Elite));
    assert_eq!(combat_rank_from_code(9), None);
    assert_eq!(trade_rank_from_code(0), Some(TradeRank::Penniless));
    assert_eq!(trade_rank_from_code(13), Some(TradeRank::EliteV));
    assert_eq!(trade_rank_from_code(14), None);
    assert_eq!(exploration_rank_from_code(0), Some(ExplorationRank::Aimless));
    assert_eq!(exploration_rank_from_code(13), Some(ExplorationRank::EliteV));
    assert_eq!(exploration_rank_from_code(14), None);
    assert_eq!(mercenary_rank_from_code(0), Some(MercenaryRank::Defenceless));
    assert_eq!(mercenary_rank_from_code(13), Some(MercenaryRank::EliteV));
    assert_eq!(mercenary_rank_from_code(14), None);
    assert_eq!(exobiologist_rank_from_code(0), Some(ExobiologistRank::Directionless));
    assert_eq!(exobiologist_rank_from_code(13), Some(ExobiologistRank::EliteV));
    assert_eq!(exobiologist_rank_from_code(14), None);
    assert_eq!(empire_rank_from_code(0), Some(EmpireRank::NoRank));
    assert_eq!(empire_rank_from_code(14), Some(EmpireRank::King));
    assert_eq!(empire_rank_from_code(15), None);
    assert_eq!(federation_rank_from_code(0), Some(FederationRank::NoRank));
    assert_eq!(federation_rank_from_code(14), Some(FederationRank::Admiral));
    assert_eq!(federation_rank_from_code(15), None);
}

#[test]
fn out_of_range_code_is_invalid_ordinal() {
    let line = r#"{"event":"Rank","Combat":9,"Trade":0,"Explore":0,"Soldier":0,"Exobiologist":0,"Empire":0,"Federation":0,"CQC":0}"#;
    let r = decode_line(line, 4);
    assert_eq!(
        r.err().unwrap(),
        LineError {
            line_number: 4,
            kind: ErrorKind::InvalidOrdinal { code: 9, scale: ScaleId::Combat },
        }
    );
}

#[test]
fn progress_record() {
    let line = r#"{"event":"Progress","Combat":77,"Trade":9,"Explore":93,"Soldier":100,"Exobiologist":0,"Empire":33,"Federation":64,"CQC":0}"#;
    match decode_line(line, 1) {
        Ok(Event::Progress(p)) => {
            assert_eq!(p.combat, 77);
            assert_eq!(p.trade, 9);
            assert_eq!(p.explore, 93);
            assert_eq!(p.soldier, 100);
            assert_eq!(p.exobiologist, 0);
            assert_eq!(p.empire, 33);
            assert_eq!(p.federation, 64);
            assert_eq!(p.cqc, 0);
        },
        _ => panic!("expected a Progress record"),
    }
}

#[test]
fn schema_violation_names_the_field() {
    // A Commander record whose FID has the wrong shape.
    let r = decode_line(r#"{"event":"Commander","FID":7,"Name":"OMGasm"}"#, 9);
    assert_eq!(
        r.err().unwrap(),
        LineError {
            line_number: 9,
            kind: ErrorKind::SchemaViolation {
                field: "FID".to_string(),
                expected: Shape::Str,
                actual: Shape::Num,
            },
        }
    );
    // A Fileheader record missing a flattened version field.
    let r = decode_line(r#"{"event":"Fileheader","part":1,"Odyssey":true}"#, 2);
    assert_eq!(
        r.err().unwrap(),
        LineError {
            line_number: 2,
            kind: ErrorKind::SchemaViolation {
                field: "gameversion".to_string(),
                expected: Shape::Str,
                actual: Shape::Missing,
            },
        }
    );
}

#[test]
fn materials_keeps_everything_but_the_tag() {
    let line = r#"{"event":"Materials","Encoded":[],"Raw":7}"#;
    match decode_line(line, 1) {
        Ok(Event::Materials(m)) => {
            assert_eq!(m.stuff.len(), 2);
            assert!(m.stuff.contains(&("Encoded".to_string(), JValue::Arr(vec![]))));
            assert!(m.stuff.contains(&("Raw".to_string(), JValue::Num(NumberVal::Int(7)))));
        },
        _ => panic!("expected a Materials record"),
    }
}

#[test]
fn reputation_record_keeps_numbers() {
    let line = r#"{"event":"Reputation","Empire":75.0,"Federation":-3.5,"Independent":0,"Alliance":12}"#;
    match decode_line(line, 1) {
        Ok(Event::Reputation(p)) => {
            assert!(matches!(p.independent, NumberVal::Int(0)));
            assert!(matches!(p.alliance, NumberVal::Int(12)));
            assert!(matches!(p.empire, NumberVal::Raw(_)));
            assert!(matches!(p.federation, NumberVal::Raw(_)));
        },
        _ => panic!("expected a Reputation record"),
    }
}

#[test]
fn engineer_progress_record() {
    let line = r#"{"event":"EngineerProgress","Engineers":[{"Engineer":"Felicity Farseer","EngineerId":"300100","Progress":"Known"},{"Engineer":"Elvira Martuuk","EngineerId":"300160","Progress":{"Unknown":{"Rank":2}}}]}"#;
    match decode_line(line, 1) {
        Ok(Event::EngineerProgress(p)) => {
            assert_eq!(p.engineers.len(), 2);
            assert_eq!(p.engineers[0].engineer, "Felicity Farseer");
            assert_eq!(p.engineers[0].engineer_id, "300100");
            assert!(matches!(
                p.engineers[0].progress,
                journal_decoder::schemas::EngineerDiscovery::Known
            ));
            match &p.engineers[1].progress {
                journal_decoder::schemas::EngineerDiscovery::Unknown(m) => {
                    assert_eq!(m.len(), 1);
                    assert!(m.contains(&("Rank".to_string(), JValue::Num(NumberVal::Int(2)))));
                },
                _ => panic!("expected the open-ended discovery state"),
            }
        },
        _ => panic!("expected an EngineerProgress record"),
    }
}

#[test]
fn rank_cqc_must_fit_eight_bits() {
    let line = r#"{"event":"Rank","Combat":0,"Trade":0,"Explore":0,"Soldier":0,"Exobiologist":0,"Empire":0,"Federation":0,"CQC":256}"#;
    let r = decode_line(line, 1);
    assert_eq!(
        r.err().unwrap(),
        LineError {
            line_number: 1,
            kind: ErrorKind::SchemaViolation {
                field: "CQC".to_string(),
                expected: Shape::U8,
                actual: Shape::Num,
            },
        }
    );
}

#[test]
fn progress_must_fit_thirty_two_bits() {
    let line = r#"{"event":"Progress","Combat":4294967296,"Trade":0,"Explore":0,"Soldier":0,"Exobiologist":0,"Empire":0,"Federation":0,"CQC":0}"#;
    let r = decode_line(line, 1);
    assert_eq!(
        r.err().unwrap(),
        LineError {
            line_number: 1,
            kind: ErrorKind::SchemaViolation {
                field: "Combat".to_string(),
                expected: Shape::U32,
                actual: Shape::Num,
            },
        }
    );
}

#[test]
fn negative_part_is_a_valid_signed_integer() {
    let line = r#"{"event":"Fileheader","part":-2,"Odyssey":false,"gameversion":"4.0","build":"b","language":"l"}"#;
    match decode_line(line, 1) {
        Ok(Event::Fileheader(f)) => assert_eq!(f.part, -2),
        _ => panic!("expected a Fileheader record"),
    }
}

#[test]
fn negative_scale_code_is_a_shape_error() {
    let line = r#"{"event":"Rank","Combat":-1,"Trade":0,"Explore":0,"Soldier":0,"Exobiologist":0,"Empire":0,"Federation":0,"CQC":0}"#;
    let r = decode_line(line, 1);
    assert_eq!(
        r.err().unwrap(),
        LineError {
            line_number: 1,
            kind: ErrorKind::SchemaViolation {
                field: "Combat".to_string(),
                expected: Shape::Code,
                actual: Shape::Num,
            },
        }
    );
}
