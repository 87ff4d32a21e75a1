use war_v2::roster::{Faction, Headgear, Kit, Pose, UnitType, Weapon};

#[test]
fn unit_codes() {
    assert_eq!(UnitType::parse("inf"), Some(UnitType::Infantry));
    assert_eq!(UnitType::parse("sni"), Some(UnitType::Sniper));
    assert_eq!(UnitType::parse("mg"), Some(UnitType::MachineGunner));
    assert_eq!(UnitType::parse("art"), Some(UnitType::Artillery));
    assert_eq!(UnitType::parse("run"), Some(UnitType::Runner));
    assert_eq!(UnitType::parse("sco"), Some(UnitType::Scout));
    assert_eq!(UnitType::parse("infantry"), None);
    assert_eq!(UnitType::parse(""), None);
}

#[test]
fn factions_face_each_other() {
    assert_eq!(Faction::British.front(), 1);
    assert_eq!(Faction::Central.front(), -1);
}

#[test]
fn loadouts() {
    let l = UnitType::Infantry.loadout();
    assert_eq!((l.pose, l.head, l.weapon, l.kit), (Pose::Stand, Headgear::Helmet, Weapon::Rifle, Kit::NoKit));
    let l = UnitType::Sniper.loadout();
    assert_eq!((l.pose, l.head, l.weapon, l.kit), (Pose::Kneel, Headgear::Helmet, Weapon::LongRifle, Kit::NoKit));
    let l = UnitType::Runner.loadout();
    assert_eq!((l.pose, l.head, l.weapon, l.kit), (Pose::Stand, Headgear::Cap, Weapon::Unarmed, Kit::Satchel));
    let l = UnitType::Scout.loadout();
    assert_eq!((l.pose, l.head, l.weapon, l.kit), (Pose::Stand, Headgear::Cap, Weapon::Rifle, Kit::Binoculars));
    let l = UnitType::MachineGunner.loadout();
    assert_eq!((l.pose, l.head, l.weapon, l.kit), (Pose::Kneel, Headgear::Helmet, Weapon::Unarmed, Kit::MachineGun));
    let l = UnitType::Artillery.loadout();
    assert_eq!((l.pose, l.head, l.weapon, l.kit), (Pose::Kneel, Headgear::Helmet, Weapon::Unarmed, Kit::FieldGun));
    assert!(l.kit_first);
    assert!(!UnitType::Scout.loadout().kit_first);
}
