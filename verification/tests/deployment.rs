use war_v2::deploy::parse_deployment;
use war_v2::roster::{Faction, UnitType};

fn entries(raw: &str) -> Vec<(Faction, UnitType, String, String)> {
    parse_deployment(raw)
        .into_iter()
        .map(|p| (p.faction, p.kind, p.x, p.z))
        .collect()
}

#[test]
fn empty_string_places_nothing() {
    assert!(parse_deployment("").is_empty());
    assert!(parse_deployment(",,,").is_empty());
}

#[test]
fn placements_are_read_in_order() {
    let got = entries("b:inf:1.5:-12,c:art:-3:14");
    assert_eq!(
        got,
        vec![
            (Faction::British, UnitType::Infantry, "1.5".to_string(), "-12".to_string()),
            (Faction::Central, UnitType::Artillery, "-3".to_string(), "14".to_string()),
        ]
    );
}

#[test]
fn any_side_but_c_is_british() {
    let got = entries("x:mg:0:0,:sni:1:2,C:run:3:4");
    assert_eq!(got.len(), 3);
    assert!(got.iter().all(|e| e.0 == Faction::British));
    assert_eq!(got[0].1, UnitType::MachineGunner);
    assert_eq!(got[1].1, UnitType::Sniper);
    assert_eq!(got[2].1, UnitType::Runner);
}

#[test]
fn bad_tokens_are_skipped() {
    let got = entries("c:tank:1:1,b:sco:2,c:sco:5:6,,b:inf");
    assert_eq!(got, vec![(Faction::Central, UnitType::Scout, "5".to_string(), "6".to_string())]);
}

#[test]
fn extra_fields_are_ignored() {
    let got = entries("c:inf:1:2:3:4");
    assert_eq!(got, vec![(Faction::Central, UnitType::Infantry, "1".to_string(), "2".to_string())]);
}

#[test]
fn coordinates_are_kept_as_written() {
    let got = entries("b:art::abc");
    assert_eq!(got, vec![(Faction::British, UnitType::Artillery, String::new(), "abc".to_string())]);
}

#[test]
fn joined_strings_read_as_both_parts() {
    let a = "b:inf:1:2,c:bad:0:0";
    let b = "c:mg:3:4,";
    let mut both = entries(a);
    both.extend(entries(b));
    assert_eq!(entries(&format!("{},{}", a, b)), both);
}

#[test]
fn non_ascii_coordinates_are_kept_whole() {
    let got = entries("c:sco:é1:−2,b:mg:3:4");
    assert_eq!(
        got,
        vec![
            (Faction::Central, UnitType::Scout, "é1".to_string(), "−2".to_string()),
            (Faction::British, UnitType::MachineGunner, "3".to_string(), "4".to_string()),
        ]
    );
}
