use vstd::prelude::*;
use crate::text::{chars_of, range_eq};

verus! {

/// The two belligerents: the British hold the south (-Z) and face north, the
/// Central Powers hold the north (+Z) and face south.
#[derive(Clone, Copy, Debug, PartialEq, Eq, Structural)]
pub enum Faction {
    British,
    Central,
}

/// The roster of unit types.
#[derive(Clone, Copy, Debug, PartialEq, Eq, Structural)]
pub enum UnitType {
    Infantry,
    Sniper,
    MachineGunner,
    Artillery,
    Runner,
    Scout,
}

/// How a soldier model stands.
#[derive(Clone, Copy, Debug, PartialEq, Eq, Structural)]
pub enum Pose {
    Stand,
    Kneel,
}

/// What a soldier model wears on the head.
#[derive(Clone, Copy, Debug, PartialEq, Eq, Structural)]
pub enum Headgear {
    Helmet,
    Cap,
}

/// What a soldier model carries.
#[derive(Clone, Copy, Debug, PartialEq, Eq, Structural)]
pub enum Weapon {
    Rifle,
    LongRifle,
    Unarmed,
}

/// Extra equipment modelled beside the soldier.
#[derive(Clone, Copy, Debug, PartialEq, Eq, Structural)]
pub enum Kit {
    NoKit,
    Satchel,
    Binoculars,
    MachineGun,
    FieldGun,
}

/// The parts a unit's model is assembled from; `kit_first` puts the kit in
/// the scene before the soldier.
#[derive(Clone, Copy, Debug, PartialEq, Eq, Structural)]
pub struct Loadout {
    pub pose: Pose,
    pub head: Headgear,
    pub weapon: Weapon,
    pub kit: Kit,
    pub kit_first: bool,
}

/// The sign of a faction's facing along Z: +1 for the British, -1 for the
/// Central Powers.
pub open spec fn front_of(f: Faction) -> i32 {
    match f {
        Faction::British => 1,
        Faction::Central => -1i32,
    }
}

/// The faction a placement code names: `"c"` is the Central Powers, any
/// other text the British.
pub open spec fn faction_of(code: Seq<char>) -> Faction {
    if code == "c"@ {
        Faction::Central
    } else {
        Faction::British
    }
}

/// The unit type a placement code names, if any.
pub open spec fn unit_type_of(code: Seq<char>) -> Option<UnitType> {
    if code == "inf"@ {
        Some(UnitType::Infantry)
    } else if code == "sni"@ {
        Some(UnitType::Sniper)
    } else if code == "mg"@ {
        Some(UnitType::MachineGunner)
    } else if code == "art"@ {
        Some(UnitType::Artillery)
    } else if code == "run"@ {
        Some(UnitType::Runner)
    } else if code == "sco"@ {
        Some(UnitType::Scout)
    } else {
        None
    }
}

/// The model of each unit type.
pub open spec fn loadout_of(kind: UnitType) -> Loadout {
    match kind {
        UnitType::Infantry => Loadout {
            pose: Pose::Stand,
            head: Headgear::Helmet,
            weapon: Weapon::Rifle,
            kit: Kit::NoKit,
            kit_first: false,
        },
        UnitType::Sniper => Loadout {
            pose: Pose::Kneel,
            head: Headgear::Helmet,
            weapon: Weapon::LongRifle,
            kit: Kit::NoKit,
            kit_first: false,
        },
        UnitType::Runner => Loadout {
            pose: Pose::Stand,
            head: Headgear::Cap,
            weapon: Weapon::Unarmed,
            kit: Kit::Satchel,
            kit_first: false,
        },
        UnitType::Scout => Loadout {
            pose: Pose::Stand,
            head: Headgear::Cap,
            weapon: Weapon::Rifle,
            kit: Kit::Binoculars,
            kit_first: false,
        },
        UnitType::MachineGunner => Loadout {
            pose: Pose::Kneel,
            head: Headgear::Helmet,
            weapon: Weapon::Unarmed,
            kit: Kit::MachineGun,
            kit_first: false,
        },
        UnitType::Artillery => Loadout {
            pose: Pose::Kneel,
            head: Headgear::Helmet,
            weapon: Weapon::Unarmed,
            kit: Kit::FieldGun,
            kit_first: true,
        },
    }
}

impl Faction {
    /// The direction from this faction's trench toward the enemy, as a sign
    /// along Z.
    pub fn front(self) -> (r: i32)
        ensures
            r == front_of(self),
            r == 1 || r == -1,
    {
        match self {
            Faction::British => 1,
            Faction::Central => -1,
        }
    }

    /// The faction of the characters `s[lo..hi]` read as a placement code.
    pub fn parse_range(s: &Vec<char>, lo: usize, hi: usize) -> (r: Faction)
        requires
            lo <= hi <= s@.len(),
        ensures
            r == faction_of(s@.subrange(lo as int, hi as int)),
    {
        if range_eq(s, lo, hi, "c") {
            Faction::Central
        } else {
            Faction::British
        }
    }
}

impl UnitType {
    /// The unit type of the characters `s[lo..hi]` read as a placement code
    /// (`inf`, `sni`, `mg`, `art`, `run`, `sco`), if they are one.
    pub fn parse_range(s: &Vec<char>, lo: usize, hi: usize) -> (r: Option<UnitType>)
        requires
            lo <= hi <= s@.len(),
        ensures
            r == unit_type_of(s@.subrange(lo as int, hi as int)),
    {
        if range_eq(s, lo, hi, "inf") {
            Some(UnitType::Infantry)
        } else if range_eq(s, lo, hi, "sni") {
            Some(UnitType::Sniper)
        } else if range_eq(s, lo, hi, "mg") {
            Some(UnitType::MachineGunner)
        } else if range_eq(s, lo, hi, "art") {
            Some(UnitType::Artillery)
        } else if range_eq(s, lo, hi, "run") {
            Some(UnitType::Runner)
        } else if range_eq(s, lo, hi, "sco") {
            Some(UnitType::Scout)
        } else {
            None
        }
    }

    /// The unit type a placement code names, if it names one.
    pub fn parse(code: &str) -> (r: Option<UnitType>)
        ensures
            r == unit_type_of(code@),
    {
        let c = chars_of(code);
        let n = c.len();
        proof {
            assert(c@.subrange(0, n as int) =~= code@);
        }
        UnitType::parse_range(&c, 0, n)
    }

    /// The parts of this unit type's model.
    pub fn loadout(self) -> (r: Loadout)
        ensures
            r == loadout_of(self),
    {
        match self {
            UnitType::Infantry => Loadout {
                pose: Pose::Stand,
                head: Headgear::Helmet,
                weapon: Weapon::Rifle,
                kit: Kit::NoKit,
                kit_first: false,
            },
            UnitType::Sniper => Loadout {
                pose: Pose::Kneel,
                head: Headgear::Helmet,
                weapon: Weapon::LongRifle,
                kit: Kit::NoKit,
                kit_first: false,
            },
            UnitType::Runner => Loadout {
                pose: Pose::Stand,
                head: Headgear::Cap,
                weapon: Weapon::Unarmed,
                kit: Kit::Satchel,
                kit_first: false,
            },
            UnitType::Scout => Loadout {
                pose: Pose::Stand,
                head: Headgear::Cap,
                weapon: Weapon::Rifle,
                kit: Kit::Binoculars,
                kit_first: false,
            },
            UnitType::MachineGunner => Loadout {
                pose: Pose::Kneel,
                head: Headgear::Helmet,
                weapon: Weapon::Unarmed,
                kit: Kit::MachineGun,
                kit_first: false,
            },
            UnitType::Artillery => Loadout {
                pose: Pose::Kneel,
                head: Headgear::Helmet,
                weapon: Weapon::Unarmed,
                kit: Kit::FieldGun,
                kit_first: true,
            },
        }
    }
}

} // verus!
