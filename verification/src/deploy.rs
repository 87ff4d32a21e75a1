use vstd::prelude::*;
use vstd::string::StrSliceExecFns;
use vstd::string::StringExecFns;
use crate::text::{chars_of, split, split_ranges, lemma_split_join, lemma_split_whole};
use crate::roster::{Faction, UnitType, faction_of, unit_type_of};

verus! {

/// A unit placed on the Deploy mini-map, as the setup page wrote it: its
/// faction, its type, and its x and z coordinates still as text.
pub struct PlacementText {
    pub faction: Faction,
    pub kind: UnitType,
    pub x: String,
    pub z: String,
}

impl View for PlacementText {
    type V = (Faction, UnitType, Seq<char>, Seq<char>);

    open spec fn view(&self) -> (Faction, UnitType, Seq<char>, Seq<char>) {
        (self.faction, self.kind, self.x@, self.z@)
    }
}

/// One `side:type:x:z` token read as a placement: it needs at least four
/// `:`-separated fields (later ones are ignored) and a known unit type.
pub open spec fn placement_of(tok: Seq<char>) -> Option<(Faction, UnitType, Seq<char>, Seq<char>)> {
    let f = split(tok, ':');
    if f.len() >= 4 && unit_type_of(f[1]) is Some {
        Some((faction_of(f[0]), unit_type_of(f[1])->0, f[2], f[3]))
    } else {
        None
    }
}

/// The placements of a list of tokens, in order: empty tokens and tokens
/// that are no placement are skipped.
pub open spec fn placements_of(toks: Seq<Seq<char>>) -> Seq<(Faction, UnitType, Seq<char>, Seq<char>)>
    decreases toks.len(),
{
    if toks.len() == 0 {
        Seq::empty()
    } else {
        let rest = placements_of(toks.drop_last());
        if toks.last().len() > 0 && placement_of(toks.last()) is Some {
            rest.push(placement_of(toks.last())->0)
        } else {
            rest
        }
    }
}

/// The placements of a compact `side:type:x:z,...` placement string.
pub open spec fn deployment_of(raw: Seq<char>) -> Seq<(Faction, UnitType, Seq<char>, Seq<char>)> {
    placements_of(split(raw, ','))
}

/// The placements of two lists of tokens, one after the other, are the
/// placements of each list, one after the other.
pub proof fn lemma_placements_concat(x: Seq<Seq<char>>, y: Seq<Seq<char>>)
    ensures
        placements_of(x + y) == placements_of(x) + placements_of(y),
    decreases y.len(),
{
    if y.len() == 0 {
        assert(x + y =~= x);
        assert(placements_of(x) + placements_of(y) =~= placements_of(x));
    } else {
        assert((x + y).drop_last() =~= x + y.drop_last());
        assert((x + y).last() == y.last());
        lemma_placements_concat(x, y.drop_last());
        let px = placements_of(x);
        let py = placements_of(y.drop_last());
        if y.last().len() > 0 && placement_of(y.last()) is Some {
            assert((px + py).push(placement_of(y.last())->0) =~= px + py.push(
                placement_of(y.last())->0,
            ));
        }
    }
}

/// Placement strings compose: the placements of two strings joined by a
/// comma are the placements of the first followed by those of the second.
pub proof fn lemma_deployment_join(a: Seq<char>, b: Seq<char>)
    ensures
        deployment_of(a + seq![','] + b) == deployment_of(a) + deployment_of(b),
{
    lemma_split_join(a, b, ',');
    lemma_placements_concat(split(a, ','), split(b, ','));
}

/// A placement written as `side:code:x:z` (no field holding `:` or `,`)
/// reads back as exactly one placement of those fields when the code names a
/// unit type, and as nothing otherwise. Its faction depends on the side field
/// alone: the Central Powers exactly when the side is `c`, whatever the type.
pub proof fn lemma_token_reads_back(side: Seq<char>, code: Seq<char>, x: Seq<char>, z: Seq<char>)
    requires
        forall|i: int| 0 <= i < side.len() ==> side[i] != ':' && side[i] != ',',
        forall|i: int| 0 <= i < code.len() ==> code[i] != ':' && code[i] != ',',
        forall|i: int| 0 <= i < x.len() ==> x[i] != ':' && x[i] != ',',
        forall|i: int| 0 <= i < z.len() ==> z[i] != ':' && z[i] != ',',
    ensures
        ({
            let tok = side + seq![':'] + code + seq![':'] + x + seq![':'] + z;
            &&& unit_type_of(code) is Some ==> deployment_of(tok) == seq![
                (
                    if side == "c"@ {
                        Faction::Central
                    } else {
                        Faction::British
                    },
                    unit_type_of(code)->0,
                    x,
                    z,
                ),
            ]
            &&& unit_type_of(code) is None ==> deployment_of(tok) == Seq::<
                (Faction, UnitType, Seq<char>, Seq<char>),
            >::empty()
        }),
{
    let a1 = side + seq![':'] + code;
    let a2 = a1 + seq![':'] + x;
    let tok = a2 + seq![':'] + z;
    lemma_split_whole(side, ':');
    lemma_split_whole(code, ':');
    lemma_split_whole(x, ':');
    lemma_split_whole(z, ':');
    lemma_split_join(side, code, ':');
    lemma_split_join(a1, x, ':');
    lemma_split_join(a2, z, ':');
    let f = split(tok, ':');
    assert(f =~= seq![side, code, x, z]);
    assert forall|i: int| 0 <= i < tok.len() implies tok[i] != ',' by {
        if i < a2.len() {
            assert(tok[i] == a2[i]);
            if i < a1.len() {
                assert(a2[i] == a1[i]);
                if i >= side.len() + 1 {
                    assert(a1[i] == code[i - side.len() - 1]);
                }
            } else if i > a1.len() {
                assert(a2[i] == x[i - a1.len() - 1]);
            }
        } else if i > a2.len() {
            assert(tok[i] == z[i - a2.len() - 1]);
        }
    }
    lemma_split_whole(tok, ',');
    let toks = split(tok, ',');
    assert(toks.drop_last() =~= Seq::<Seq<char>>::empty());
    assert(tok.len() > 0) by {
        assert(tok.len() == a2.len() + 1 + z.len());
    }
    assert(placements_of(toks.drop_last()) =~= Seq::<(Faction, UnitType, Seq<char>, Seq<char>)>::empty());
}

/// Reads the compact `side:type:x:z,...` placement string from the setup
/// page. Tokens are separated by `,`; empty tokens, tokens with fewer than
/// four `:`-separated fields and tokens with an unknown unit type are
/// skipped; side `c` is the Central Powers and any other side the British.
pub fn parse_deployment(raw: &str) -> (r: Vec<PlacementText>)
    ensures
        r@.map_values(|p: PlacementText| p@) == deployment_of(raw@),
{
    let c = chars_of(raw);
    let n = c.len();
    proof {
        assert(c@.subrange(0, n as int) =~= c@);
    }
    let toks = split_ranges(&c, 0, n, ',');
    let ghost pieces = split(raw@, ',');
    let mut out: Vec<PlacementText> = Vec::new();
    let mut t: usize = 0;
    assert(pieces.take(0) =~= Seq::<Seq<char>>::empty());
    while t < toks.len()
        invariant
            c@ == raw@,
            n == c@.len(),
            pieces == split(raw@, ','),
            toks@.len() == pieces.len(),
            forall|k: int|
                0 <= k < toks@.len() ==> {
                    &&& 0 <= (#[trigger] toks@[k]).0 <= toks@[k].1 <= n
                    &&& c@.subrange(toks@[k].0 as int, toks@[k].1 as int) == pieces[k]
                },
            t <= toks@.len(),
            out@.map_values(|p: PlacementText| p@) == placements_of(pieces.take(t as int)),
        decreases toks@.len() - t,
    {
        let (a, b) = toks[t];
        let ghost tok = pieces[t as int];
        assert(pieces.take(t + 1).drop_last() =~= pieces.take(t as int));
        assert(pieces.take(t + 1).last() == tok);
        let ghost before = out@.map_values(|p: PlacementText| p@);
        if a < b {
            let fields = split_ranges(&c, a, b, ':');
            if fields.len() >= 4 {
                let (k0, e0) = fields[0];
                let (k1, e1) = fields[1];
                let (k2, e2) = fields[2];
                let (k3, e3) = fields[3];
                match UnitType::parse_range(&c, k1, e1) {
                    Some(kind) => {
                        let faction = Faction::parse_range(&c, k0, e0);
                        let x = String::from_str(raw.substring_char(k2, e2));
                        let z = String::from_str(raw.substring_char(k3, e3));
                        let p = PlacementText { faction, kind, x, z };
                        out.push(p);
                        assert(out@.map_values(|p: PlacementText| p@) =~= before.push(p@));
                    },
                    None => {},
                }
            }
        }
        t = t + 1;
    }
    assert(pieces.take(toks@.len() as int) =~= pieces);
    out
}

} // verus!
