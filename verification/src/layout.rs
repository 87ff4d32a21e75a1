use vstd::prelude::*;
use crate::roster::{Faction, UnitType, front_of};

verus! {

// Battlefield geometry, in centimetres of world space.

/// Each side's trench sits this far from the centre line.
pub const TRENCH_Z_CM: i32 = 1200;
/// The trench runs from `-LINE_HALF_CM` to `+LINE_HALF_CM` along X.
pub const LINE_HALF_CM: i32 = 2600;
/// Spacing of the sandbags along the trench.
pub const BAG_STEP_CM: i32 = 90;
/// Distance of the front parapet and of the rear parados from the trench line.
pub const PARAPET_OFFSET_CM: i32 = 135;
/// Spacing of the riflemen manning the fire trench.
pub const RIFLE_STEP_CM: i32 = 280;
/// The most by which the scene scatters a garrison unit along X and along Z.
pub const JITTER_CM: i32 = 25;

/// One sandbag of the front parapet; a tall bag carries a second bag on top
/// (every third bag is left low, making the crenellations).
#[derive(Clone, Copy, Debug, PartialEq, Eq, Structural)]
pub struct SandbagSlot {
    pub x_cm: i32,
    pub tall: bool,
}

/// A faction's trench: its duckboard line, front parapet and rear parados
/// rows, and the sandbags along them (each bag stands once in each row).
pub struct TrenchPlan {
    pub line_z_cm: i32,
    pub parapet_z_cm: i32,
    pub parados_z_cm: i32,
    pub bags: Vec<SandbagSlot>,
}

/// One unit of the automatic garrison: its type, its position, and whether
/// the scene scatters it by a small random offset.
#[derive(Clone, Copy, Debug, PartialEq, Eq, Structural)]
pub struct GarrisonSlot {
    pub kind: UnitType,
    pub x_cm: i32,
    pub z_cm: i32,
    pub jitter: bool,
}

/// The Z of a faction's trench line: on the friendly side of the centre.
pub open spec fn line_z(f: Faction) -> int {
    -front_of(f) * TRENCH_Z_CM
}

/// The X of the `i`-th sandbag.
pub open spec fn bag_x(i: int) -> int {
    -LINE_HALF_CM + BAG_STEP_CM * i
}

/// The X of the `k`-th rifleman of the fire trench.
pub open spec fn rifle_x(k: int) -> int {
    -(LINE_HALF_CM - 100) + RIFLE_STEP_CM * k
}

/// The number of riflemen in the fire trench: the line runs from one metre
/// inside each end of the trench.
pub open spec fn rifle_count() -> int {
    18
}

/// The type of the `k`-th unit of the fire trench: machine-gun nests
/// punctuate the line every nine metres, snipers hold the two flanks (the
/// first and the last unit of the line), and infantry man the rest.
pub open spec fn fire_kind(k: int) -> UnitType {
    if (rifle_x(k) + LINE_HALF_CM) % 900 < 90 {
        UnitType::MachineGunner
    } else if k == 0 || k == rifle_count() - 1 {
        UnitType::Sniper
    } else {
        UnitType::Infantry
    }
}

/// The `i`-th unit of a faction's garrison: the fire trench first, then two
/// scouts pushed toward no-man's-land, two runners behind the line and a
/// battery of three guns dug in further back (the guns are not scattered).
pub open spec fn garrison_slot(f: Faction, i: int) -> GarrisonSlot {
    let front = front_of(f) as int;
    let line = line_z(f);
    if i < rifle_count() {
        GarrisonSlot {
            kind: fire_kind(i),
            x_cm: rifle_x(i) as i32,
            z_cm: line as i32,
            jitter: true,
        }
    } else if i < rifle_count() + 2 {
        GarrisonSlot {
            kind: UnitType::Scout,
            x_cm: (-800 + 1600 * (i - rifle_count())) as i32,
            z_cm: (line + front * 260) as i32,
            jitter: true,
        }
    } else if i < rifle_count() + 4 {
        GarrisonSlot {
            kind: UnitType::Runner,
            x_cm: (-400 + 800 * (i - rifle_count() - 2)) as i32,
            z_cm: (line - front * 350) as i32,
            jitter: true,
        }
    } else {
        GarrisonSlot {
            kind: UnitType::Artillery,
            x_cm: (-1200 + 1200 * (i - rifle_count() - 4)) as i32,
            z_cm: (line - front * 700) as i32,
            jitter: false,
        }
    }
}

/// The number of units in a faction's garrison.
pub open spec fn garrison_len() -> int {
    rifle_count() + 7
}

/// The type of the `k`-th unit of the fire trench, which stands at `x_cm`
/// (see `fire_kind`).
fn fire_trench_kind(k: i32, x_cm: i32) -> (r: UnitType)
    requires
        0 <= k < rifle_count(),
        x_cm == rifle_x(k as int),
    ensures
        r == fire_kind(k as int),
{
    if (x_cm + LINE_HALF_CM) % 900 < 90 {
        UnitType::MachineGunner
    } else if k == 0 || k == 17 {
        UnitType::Sniper
    } else {
        UnitType::Infantry
    }
}

/// The sandbagged trench line of one faction: bags every 90 cm from one end
/// of the trench to the other, every third one low.
pub fn trench_plan(faction: Faction) -> (r: TrenchPlan)
    ensures
        r.line_z_cm == line_z(faction),
        r.parapet_z_cm == line_z(faction) + front_of(faction) * PARAPET_OFFSET_CM,
        r.parados_z_cm == line_z(faction) - front_of(faction) * PARAPET_OFFSET_CM,
        forall|i: int|
            0 <= i < r.bags@.len() ==> {
                &&& (#[trigger] r.bags@[i]).x_cm == bag_x(i)
                &&& r.bags@[i].tall == (i % 3 != 0)
                &&& bag_x(i) <= LINE_HALF_CM
            },
        bag_x(r.bags@.len() as int) > LINE_HALF_CM,
        // The bags cover the whole trench evenly: the first at its west end,
        // each next one 90 cm further east, the last within 90 cm of its
        // east end.
        r.bags@.len() >= 1,
        r.bags@[0].x_cm == -2600,
        forall|i: int|
            0 <= i < r.bags@.len() - 1 ==> #[trigger] r.bags@[i + 1].x_cm - r.bags@[i].x_cm == 90,
        r.bags@.last().x_cm <= 2600 < r.bags@.last().x_cm + 90,
        // The British dig in 12 m south of the centre line, the Central
        // Powers 12 m north; the parapet is 1.35 m toward the enemy and the
        // parados 1.35 m away from it.
        faction == Faction::British ==> r.line_z_cm == -1200 && r.parapet_z_cm == -1065
            && r.parados_z_cm == -1335,
        faction == Faction::Central ==> r.line_z_cm == 1200 && r.parapet_z_cm == 1065
            && r.parados_z_cm == 1335,
{
    let front = faction.front();
    let line = -front * TRENCH_Z_CM;
    let mut bags: Vec<SandbagSlot> = Vec::new();
    let mut x: i32 = -LINE_HALF_CM;
    let mut i: i32 = 0;
    while x <= LINE_HALF_CM
        invariant
            0 <= i <= 58,
            x == bag_x(i as int),
            bags@.len() == i,
            forall|j: int|
                0 <= j < bags@.len() ==> {
                    &&& (#[trigger] bags@[j]).x_cm == bag_x(j)
                    &&& bags@[j].tall == (j % 3 != 0)
                    &&& bag_x(j) <= LINE_HALF_CM
                },
        decreases LINE_HALF_CM + BAG_STEP_CM - x,
    {
        bags.push(SandbagSlot { x_cm: x, tall: i % 3 != 0 });
        x = x + BAG_STEP_CM;
        i = i + 1;
    }
    proof {
        assert(bags@[0].x_cm == bag_x(0));
        assert forall|j: int| 0 <= j < bags@.len() - 1 implies #[trigger] bags@[j + 1].x_cm
            - bags@[j].x_cm == 90 by {
            assert(bags@[j].x_cm == bag_x(j));
        }
        assert(bags@.last() == bags@[bags@.len() - 1]);
    }
    TrenchPlan {
        line_z_cm: line,
        parapet_z_cm: line + front * PARAPET_OFFSET_CM,
        parados_z_cm: line - front * PARAPET_OFFSET_CM,
        bags,
    }
}

/// The automatic garrison of one faction, used when the player placed no
/// units: riflemen every 2.8 m along the fire trench, two scouts, two runners
/// and three field guns.
pub fn garrison_plan(faction: Faction) -> (r: Vec<GarrisonSlot>)
    ensures
        r@.len() == garrison_len(),
        forall|i: int| 0 <= i < r@.len() ==> #[trigger] r@[i] == garrison_slot(faction, i),
        rifle_x(rifle_count() - 1) <= LINE_HALF_CM - 100 < rifle_x(rifle_count()),
        // The riflemen stand in order, evenly 2.8 m apart, from one metre
        // inside the west end of the trench, all inside the trench and on
        // the trench line.
        r@[0].x_cm == -2500,
        forall|k: int| 0 <= k < 17 ==> #[trigger] r@[k + 1].x_cm - r@[k].x_cm == 280,
        forall|k: int|
            0 <= k < 18 ==> -2600 <= #[trigger] r@[k].x_cm <= 2600 && r@[k].z_cm == r@[0].z_cm,
        faction == Faction::British ==> r@[0].z_cm == -1200,
        faction == Faction::Central ==> r@[0].z_cm == 1200,
        // Scouts are pushed toward the enemy; runners and guns stand behind
        // the line, the guns furthest back.
        forall|i: int|
            18 <= i < 25 ==> {
                &&& faction == Faction::British ==> (i < 20 <==> #[trigger] r@[i].z_cm
                    > r@[0].z_cm)
                &&& faction == Faction::Central ==> (i < 20 <==> r@[i].z_cm < r@[0].z_cm)
            },
{
    let front = faction.front();
    let line = -front * TRENCH_Z_CM;
    let mut r: Vec<GarrisonSlot> = Vec::new();
    let mut x: i32 = -(LINE_HALF_CM - 100);
    let mut k: i32 = 0;
    while x <= LINE_HALF_CM - 100
        invariant
            0 <= k <= rifle_count(),
            x == rifle_x(k as int),
            front == front_of(faction),
            line == line_z(faction),
            r@.len() == k,
            forall|i: int| 0 <= i < r@.len() ==> #[trigger] r@[i] == garrison_slot(faction, i),
        decreases LINE_HALF_CM - x,
    {
        let kind = fire_trench_kind(k, x);
        r.push(GarrisonSlot { kind, x_cm: x, z_cm: line, jitter: true });
        x = x + RIFLE_STEP_CM;
        k = k + 1;
    }
    let scout_z = line + front * 260;
    r.push(GarrisonSlot { kind: UnitType::Scout, x_cm: -800, z_cm: scout_z, jitter: true });
    r.push(GarrisonSlot { kind: UnitType::Scout, x_cm: 800, z_cm: scout_z, jitter: true });
    let runner_z = line - front * 350;
    r.push(GarrisonSlot { kind: UnitType::Runner, x_cm: -400, z_cm: runner_z, jitter: true });
    r.push(GarrisonSlot { kind: UnitType::Runner, x_cm: 400, z_cm: runner_z, jitter: true });
    let gun_z = line - front * 700;
    r.push(GarrisonSlot { kind: UnitType::Artillery, x_cm: -1200, z_cm: gun_z, jitter: false });
    r.push(GarrisonSlot { kind: UnitType::Artillery, x_cm: 0, z_cm: gun_z, jitter: false });
    r.push(GarrisonSlot { kind: UnitType::Artillery, x_cm: 1200, z_cm: gun_z, jitter: false });
    proof {
        assert(r@[0] == garrison_slot(faction, 0));
        assert forall|j: int| 0 <= j < 17 implies #[trigger] r@[j + 1].x_cm - r@[j].x_cm
            == 280 by {
            assert(r@[j] == garrison_slot(faction, j));
            assert(r@[j + 1] == garrison_slot(faction, j + 1));
        }
        assert forall|j: int| 0 <= j < 18 implies -2600 <= #[trigger] r@[j].x_cm <= 2600
            && r@[j].z_cm == r@[0].z_cm by {
            assert(r@[j] == garrison_slot(faction, j));
        }
        assert forall|j: int| 18 <= j < 25 implies {
            &&& faction == Faction::British ==> (j < 20 <==> #[trigger] r@[j].z_cm > r@[0].z_cm)
            &&& faction == Faction::Central ==> (j < 20 <==> r@[j].z_cm < r@[0].z_cm)
        } by {
            assert(r@[j] == garrison_slot(faction, j));
        }
    }
    r
}

/// Every unit type of the roster stands in each garrison: infantry,
/// snipers, machine gunners, artillery, runners and scouts.
pub proof fn lemma_garrison_has_every_type(f: Faction, kind: UnitType)
    ensures
        exists|i: int| 0 <= i < garrison_len() && #[trigger] garrison_slot(f, i).kind == kind,
{
    let i: int = match kind {
        UnitType::Sniper => 0,
        UnitType::Infantry => 1,
        UnitType::MachineGunner => 3,
        UnitType::Scout => rifle_count(),
        UnitType::Runner => rifle_count() + 2,
        UnitType::Artillery => rifle_count() + 4,
    };
    assert(garrison_slot(f, i).kind == kind);
}

/// Snipers hold both flanks of the fire trench, and only the flanks: the
/// first and the last unit of the line are snipers, no other line unit is.
pub proof fn lemma_snipers_hold_the_flanks(f: Faction, i: int)
    requires
        0 <= i < rifle_count(),
    ensures
        garrison_slot(f, 0).kind == UnitType::Sniper,
        garrison_slot(f, rifle_count() - 1).kind == UnitType::Sniper,
        garrison_slot(f, i).kind == UnitType::Sniper <==> (i == 0 || i == rifle_count() - 1),
{
}

/// Garrison units never crowd each other: any two of them stand at least
/// 2.5 m apart along X or along Z, more than the two scatters together, so
/// after scattering they are still at least 2 m apart along that axis.
pub proof fn lemma_garrison_spacing(f: Faction, i: int, j: int)
    requires
        0 <= i < garrison_len(),
        0 <= j < garrison_len(),
        i != j,
    ensures
        ({
            let dx = garrison_slot(f, i).x_cm - garrison_slot(f, j).x_cm;
            let dz = garrison_slot(f, i).z_cm - garrison_slot(f, j).z_cm;
            dx >= 250 || dx <= -250 || dz >= 250 || dz <= -250
        }),
        250 - 2 * JITTER_CM >= 200,
{
}

/// The two trenches are mirror images of each other across the centre line:
/// same bags, with every row at the opposite Z.
pub proof fn lemma_trenches_mirror()
    ensures
        line_z(Faction::Central) == -line_z(Faction::British),
        line_z(Faction::British) + front_of(Faction::British) * PARAPET_OFFSET_CM == -(
        line_z(Faction::Central) + front_of(Faction::Central) * PARAPET_OFFSET_CM),
        line_z(Faction::British) - front_of(Faction::British) * PARAPET_OFFSET_CM == -(
        line_z(Faction::Central) - front_of(Faction::Central) * PARAPET_OFFSET_CM),
{
}

/// The two garrisons are mirror images of each other across the centre
/// line: the same units at the same X, at opposite Z.
pub proof fn lemma_garrisons_mirror(i: int)
    requires
        0 <= i < garrison_len(),
    ensures
        garrison_slot(Faction::Central, i).kind == garrison_slot(Faction::British, i).kind,
        garrison_slot(Faction::Central, i).x_cm == garrison_slot(Faction::British, i).x_cm,
        garrison_slot(Faction::Central, i).jitter == garrison_slot(Faction::British, i).jitter,
        garrison_slot(Faction::Central, i).z_cm == -garrison_slot(Faction::British, i).z_cm,
{
}

} // verus!
