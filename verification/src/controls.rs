use vstd::prelude::*;

verus! {

/// The direction, on the ground plane, in which the camera focus moves for
/// the held pan keys (up, down, left, right), as `(dx, dz)`. The iso camera
/// looks along the diagonal, so "up" is toward -X -Z and "right" toward
/// +X -Z; the scene scales it to the pan speed.
pub open spec fn pan_of(up: bool, down: bool, left: bool, right: bool) -> (int, int) {
    let u: int = if up { 1 } else { 0 };
    let d: int = if down { 1 } else { 0 };
    let l: int = if left { 1 } else { 0 };
    let r: int = if right { 1 } else { 0 };
    (-u + d - l + r, -u + d + l - r)
}

/// Sums the pan direction of each held key. Opposite keys cancel: the camera
/// stays put exactly when up and down, and left and right, are held alike.
pub fn pan_direction(up: bool, down: bool, left: bool, right: bool) -> (r: (i32, i32))
    ensures
        r.0 == pan_of(up, down, left, right).0,
        r.1 == pan_of(up, down, left, right).1,
        (r.0 == 0 && r.1 == 0) <==> (up == down && left == right),
{
    let mut dx: i32 = 0;
    let mut dz: i32 = 0;
    if up {
        dx = dx - 1;
        dz = dz - 1;
    }
    if down {
        dx = dx + 1;
        dz = dz + 1;
    }
    if left {
        dx = dx - 1;
        dz = dz + 1;
    }
    if right {
        dx = dx + 1;
        dz = dz - 1;
    }
    (dx, dz)
}

/// Each pan key has its own direction, and holding several keys pans by the
/// sum of their directions: up (W) is (-1, -1), down (S) is (1, 1), left (A)
/// is (-1, 1) and right (D) is (1, -1), whatever else is held.
pub proof fn lemma_pan_sums_held_keys(up: bool, down: bool, left: bool, right: bool)
    ensures
        pan_of(true, false, false, false) == (-1int, -1int),
        pan_of(false, true, false, false) == (1int, 1int),
        pan_of(false, false, true, false) == (-1int, 1int),
        pan_of(false, false, false, true) == (1int, -1int),
        pan_of(false, false, false, false) == (0int, 0int),
        pan_of(up, down, left, right).0 == pan_of(up, false, false, false).0 + pan_of(
            false,
            down,
            false,
            false,
        ).0 + pan_of(false, false, left, false).0 + pan_of(false, false, false, right).0,
        pan_of(up, down, left, right).1 == pan_of(up, false, false, false).1 + pan_of(
            false,
            down,
            false,
            false,
        ).1 + pan_of(false, false, left, false).1 + pan_of(false, false, false, right).1,
{
}

/// The two armies of the skirmish.
#[derive(Clone, Copy, Debug, PartialEq, Eq, Structural)]
pub enum Side {
    Entente,
    Central,
}

/// The side the player commands.
#[derive(Clone, Copy, Debug, PartialEq, Eq, Structural)]
pub struct SelectedSide(pub Side);

impl Default for SelectedSide {
    /// The player starts in command of the Entente.
    fn default() -> (r: SelectedSide)
        ensures
            r == SelectedSide(Side::Entente),
    {
        SelectedSide(Side::Entente)
    }
}

/// The push the command keys give every unit of the selected side, along one
/// axis of the ground plane.
#[derive(Clone, Copy, Debug, PartialEq, Eq, Structural)]
pub enum Impulse {
    Still,
    PlusZ,
    MinusZ,
    MinusX,
    PlusX,
}

/// The side in command after this frame's keys: `1` selects the Entente,
/// `2` the Central Powers (and wins when both are pressed).
pub fn select_side(current: Side, key_1: bool, key_2: bool) -> (r: Side)
    ensures
        r == (if key_2 {
            Side::Central
        } else if key_1 {
            Side::Entente
        } else {
            current
        }),
{
    let mut s = current;
    if key_1 {
        s = Side::Entente;
    }
    if key_2 {
        s = Side::Central;
    }
    s
}

/// The push of the held arrow keys; only one axis at a time, with up before
/// down before left before right.
pub fn impulse_of(up: bool, down: bool, left: bool, right: bool) -> (r: Impulse)
    ensures
        r == (if up {
            Impulse::PlusZ
        } else if down {
            Impulse::MinusZ
        } else if left {
            Impulse::MinusX
        } else if right {
            Impulse::PlusX
        } else {
            Impulse::Still
        }),
{
    if up {
        Impulse::PlusZ
    } else if down {
        Impulse::MinusZ
    } else if left {
        Impulse::MinusX
    } else if right {
        Impulse::PlusX
    } else {
        Impulse::Still
    }
}

} // verus!
