use war_v2::layout::{garrison_plan, trench_plan, JITTER_CM};
use war_v2::roster::{Faction, UnitType};

#[test]
fn british_trench_is_south_of_centre() {
    let t = trench_plan(Faction::British);
    assert_eq!(t.line_z_cm, -1200);
    assert_eq!(t.parapet_z_cm, -1065);
    assert_eq!(t.parados_z_cm, -1335);
}

#[test]
fn central_trench_mirrors_the_british() {
    let b = trench_plan(Faction::British);
    let c = trench_plan(Faction::Central);
    assert_eq!(c.line_z_cm, 1200);
    assert_eq!(c.parapet_z_cm, -b.parapet_z_cm);
    assert_eq!(c.parados_z_cm, -b.parados_z_cm);
    assert_eq!(c.bags, b.bags);
}

#[test]
fn sandbags_span_the_trench_with_crenellations() {
    let t = trench_plan(Faction::British);
    assert_eq!(t.bags.len(), 58);
    assert_eq!(t.bags[0].x_cm, -2600);
    assert_eq!(t.bags[57].x_cm, 2530);
    assert!(!t.bags[0].tall);
    assert!(t.bags[1].tall);
    assert!(t.bags[2].tall);
    assert!(!t.bags[3].tall);
    assert_eq!(t.bags.iter().filter(|b| !b.tall).count(), 20);
}

#[test]
fn garrison_roster() {
    let g = garrison_plan(Faction::British);
    assert_eq!(g.len(), 25);
    let count = |k: UnitType| g.iter().filter(|s| s.kind == k).count();
    assert_eq!(count(UnitType::Infantry), 14);
    assert_eq!(count(UnitType::MachineGunner), 2);
    assert_eq!(count(UnitType::Sniper), 2);
    assert_eq!(count(UnitType::Scout), 2);
    assert_eq!(count(UnitType::Runner), 2);
    assert_eq!(count(UnitType::Artillery), 3);
}

#[test]
fn fire_trench_positions() {
    let g = garrison_plan(Faction::Central);
    assert_eq!(g[0].x_cm, -2500);
    assert_eq!(g[0].kind, UnitType::Sniper);
    assert_eq!(g[3].x_cm, -1660);
    assert_eq!(g[3].kind, UnitType::MachineGunner);
    assert_eq!(g[16].x_cm, 1980);
    assert_eq!(g[16].kind, UnitType::MachineGunner);
    assert_eq!(g[17].x_cm, 2260);
    assert_eq!(g[17].kind, UnitType::Sniper);
    assert!(g[1..17].iter().all(|s| s.kind != UnitType::Sniper));
    assert!(g[..18].iter().all(|s| s.z_cm == 1200 && s.jitter));
}

#[test]
fn support_units_behind_and_ahead() {
    let g = garrison_plan(Faction::British);
    assert_eq!((g[18].kind, g[18].x_cm, g[18].z_cm), (UnitType::Scout, -800, -940));
    assert_eq!((g[19].kind, g[19].x_cm, g[19].z_cm), (UnitType::Scout, 800, -940));
    assert_eq!((g[20].kind, g[20].x_cm, g[20].z_cm), (UnitType::Runner, -400, -1550));
    assert_eq!((g[21].kind, g[21].x_cm, g[21].z_cm), (UnitType::Runner, 400, -1550));
    assert_eq!((g[22].kind, g[22].x_cm, g[22].z_cm), (UnitType::Artillery, -1200, -1900));
    assert_eq!((g[23].kind, g[23].x_cm, g[23].z_cm), (UnitType::Artillery, 0, -1900));
    assert_eq!((g[24].kind, g[24].x_cm, g[24].z_cm), (UnitType::Artillery, 1200, -1900));
    assert!(!g[22].jitter && !g[23].jitter && !g[24].jitter);
}

#[test]
fn garrisons_mirror_each_other() {
    let b = garrison_plan(Faction::British);
    let c = garrison_plan(Faction::Central);
    for (sb, sc) in b.iter().zip(c.iter()) {
        assert_eq!(sb.kind, sc.kind);
        assert_eq!(sb.x_cm, sc.x_cm);
        assert_eq!(sb.z_cm, -sc.z_cm);
    }
}

#[test]
fn garrison_units_keep_their_distance() {
    for f in [Faction::British, Faction::Central] {
        let g = garrison_plan(f);
        for (i, a) in g.iter().enumerate() {
            for b in &g[i + 1..] {
                let dx = (a.x_cm - b.x_cm).abs();
                let dz = (a.z_cm - b.z_cm).abs();
                assert!(dx >= 250 || dz >= 250);
                assert!(dx - 2 * JITTER_CM >= 200 || dz - 2 * JITTER_CM >= 200);
            }
        }
    }
}
