//! The widget capability model: every visual entity supports uniform
//! measurement (`size`), hit-testing (`collides`) and selection
//! (`select`); drawing lives in [`crate::draw`].
//!
//! Hit-testing returns a region id: `Some(0)` is the widget's own body,
//! higher ids name sub-parts of a composite (a unit's heal affordance is
//! id 1, its pending perk choices are ids 2 and up; a detail panel's
//! equipment slots are ids 0 to 3).  Composites probe their parts in a
//! fixed priority order and return the first match.

use vstd::prelude::*;
use crate::geom::{V2, bounded, in_rect, lemma_mul_le, rect, COORD_BOUND};
use crate::model::{Equipment, MoveOption, Perk, Unit, UnitView, LIST_BOUND, STAT_BOUND};
use crate::view::ViewCtx;
use crate::layout::{gap, SIZE_BOUND};

verus! {

/// Base extent of a unit's body at full scale.
pub const UNIT_W: i64 = 4800;

pub const UNIT_H: i64 = 7200;

/// Side of a perk square at full scale.
pub const PERK_SIZE: i64 = 1500;

/// Side of an equipment slot at full scale.
pub const EQUIP_SIZE: i64 = 3200;

/// Base extent of a move-option widget and of most buttons.
pub const BUTTON_W: i64 = 4800;

pub const BUTTON_H: i64 = 1600;

/// Column width descriptions are word-wrapped to before display.
pub const DESC_WIDTH: usize = 20;

/// Cost in thousandths to heal one full unit with no perks.
pub const HEAL_COST: u64 = 1000;

/// Price in thousandths of a new unit.
pub const UNIT_COST: u64 = 5000;

/// Scales are per-mille factors: 1000 is full size.  Nothing is drawn
/// more than four times enlarged.
pub open spec fn scale_wf(s: V2) -> bool {
    0 <= s.x <= 4000 && 0 <= s.y <= 4000
}

/// Containment in the rectangle at `(ox, oy)` with extent `(sx, sy)`,
/// stated over plain integers so hit specifications can pass computed
/// extents directly.
pub open spec fn in_rect_i(p: V2, ox: int, oy: int, sx: int, sy: int) -> bool {
    &&& ox <= p.x < ox + sx
    &&& oy <= p.y < oy + sy
}

/// The region id conversion between specification integers and the
/// executable result type.
pub open spec fn opt_usize(h: Option<int>) -> Option<usize> {
    match h {
        Some(i) => Some(i as usize),
        None => None,
    }
}

/// A unit body's extent under a per-mille scale.
pub open spec fn unit_size_s(s: V2) -> (int, int) {
    (UNIT_W * s.x / 1000, UNIT_H * s.y / 1000)
}

/// A perk square's extent under a per-mille scale.
pub open spec fn perk_size_s(s: V2) -> (int, int) {
    (PERK_SIZE * s.x / 1000, PERK_SIZE * s.y / 1000)
}

/// An equipment slot's extent under a per-mille scale.
pub open spec fn slot_size_s(s: V2) -> (int, int) {
    (EQUIP_SIZE * s.x / 1000, EQUIP_SIZE * s.y / 1000)
}

/// An equipment item's extent: nine tenths of its slot.
pub open spec fn equip_size_s(s: V2) -> (int, int) {
    (EQUIP_SIZE * s.x / 1000 * 9 / 10, EQUIP_SIZE * s.y / 1000 * 9 / 10)
}

/// A move option's extent under a per-mille scale.
pub open spec fn option_size_s(s: V2) -> (int, int) {
    (BUTTON_W * s.x / 1000, BUTTON_H * s.y / 1000)
}

/// Whether `m` lies in rectangle `l` of an evenly spaced row.
pub open spec fn row_rect(m: V2, bx: int, by: int, step: int, sx: int, sy: int, l: int) -> bool {
    in_rect_i(m, bx + l * step, by, sx, sy)
}

/// First index at or after `i` (below `n`) of an evenly spaced row of
/// rectangles of extent `(sx, sy)`, starting at `(bx, by)` and stepping
/// right by `step`, that contains `m`.
pub open spec fn row_hit(m: V2, bx: int, by: int, step: int, sx: int, sy: int, i: int, n: int) -> Option<int>
    decreases n - i,
{
    if i >= n {
        None
    } else if in_rect_i(m, bx + i * step, by, sx, sy) {
        Some(i)
    } else {
        row_hit(m, bx, by, step, sx, sy, i + 1, n)
    }
}

/// A row hit names an index in range whose rectangle contains the point,
/// and earlier rectangles miss it; a row miss means every rectangle
/// misses it.
pub proof fn lemma_row_hit_props(m: V2, bx: int, by: int, step: int, sx: int, sy: int, i: int, n: int)
    ensures
        match row_hit(m, bx, by, step, sx, sy, i, n) {
            Some(j) => i <= j < n && row_rect(m, bx, by, step, sx, sy, j) && forall|l: int|
                i <= l < j ==> !#[trigger] row_rect(m, bx, by, step, sx, sy, l),
            None => forall|l: int| i <= l < n ==> !#[trigger] row_rect(m, bx, by, step, sx, sy, l),
        },
    decreases n - i,
{
    if i < n && !in_rect_i(m, bx + i * step, by, sx, sy) {
        lemma_row_hit_props(m, bx, by, step, sx, sy, i + 1, n);
    }
}

/// The hit regions of a unit: body first, then (when active) the heal
/// affordance above it, then any pending perk choices laid out in a row
/// above the body.
pub open spec fn unit_hit(u: Unit, m: V2, pos: V2, s: V2, heal_button: bool) -> Option<int> {
    let (w, h) = unit_size_s(s);
    let (pw, ph) = perk_size_s(s);
    if in_rect_i(m, pos.x as int, pos.y as int, w, h) {
        Some(0int)
    } else if heal_button && in_rect_i(m, pos.x as int, pos.y + h + 1600, w, h / 6) {
        Some(1int)
    } else {
        match u.perk_choice {
            Some(ps) => match row_hit(
                m,
                pos.x as int,
                pos.y - ph * 11 / 10,
                pw * 11 / 10,
                pw,
                ph,
                0,
                ps@.len() as int,
            ) {
                Some(i) => Some(i + 2),
                None => None,
            },
            None => None,
        }
    }
}

impl Unit {
    /// A unit's measured extent: its base size under the given scale,
    /// unaffected by whether the heal affordance is active.
    pub fn size(&self, s: V2, _heal_button: bool) -> (r: V2)
        requires
            scale_wf(s),
        ensures
            (r.x as int, r.y as int) == unit_size_s(s),
            0 <= r.x <= SIZE_BOUND,
            0 <= r.y <= SIZE_BOUND,
    {
        V2 { x: UNIT_W * s.x / 1000, y: UNIT_H * s.y / 1000 }
    }

    /// Probe the unit's regions at `pos`: body (0), heal affordance (1,
    /// only when `heal_button`), pending perk choices (2 and up), first
    /// match wins.
    pub fn collides(&self, m: V2, pos: V2, s: V2, heal_button: bool) -> (r: Option<usize>)
        requires
            self.wf(),
            scale_wf(s),
            bounded(pos, 2 * COORD_BOUND as int),
        ensures
            r == opt_usize(unit_hit(*self, m, pos, s, heal_button)),
    {
        let size = self.size(s, false);
        if rect(m, pos, size) {
            return Some(0);
        }
        let heal_origin = V2 { x: pos.x, y: pos.y + size.y + 1600 };
        let heal_size = V2 { x: size.x, y: size.y / 6 };
        if rect(m, heal_origin, heal_size) && heal_button {
            return Some(1);
        }
        match &self.perk_choice {
            Some(ps) => {
                let pw = PERK_SIZE * s.x / 1000;
                let ph = PERK_SIZE * s.y / 1000;
                let step = gap(pw);
                let by = pos.y - gap(ph);
                let n = ps.len();
                let ghost bx = pos.x as int;
                let mut i: usize = 0;
                while i < n
                    invariant
                        self.wf(),
                        scale_wf(s),
                        self.perk_choice == Some(*ps),
                        n == ps@.len(),
                        n <= LIST_BOUND,
                        i <= n,
                        pw == PERK_SIZE * s.x / 1000,
                        ph == PERK_SIZE * s.y / 1000,
                        0 <= pw <= 6000,
                        0 <= ph <= 6000,
                        step == pw * 11 / 10,
                        0 <= step <= 6600,
                        by == pos.y - ph * 11 / 10,
                        bounded(pos, 2 * COORD_BOUND as int),
                        bx == pos.x as int,
                        !in_rect_i(m, pos.x as int, pos.y as int, unit_size_s(s).0, unit_size_s(s).1),
                        !(heal_button && in_rect_i(
                            m,
                            pos.x as int,
                            pos.y + unit_size_s(s).1 + 1600,
                            unit_size_s(s).0,
                            unit_size_s(s).1 / 6,
                        )),
                        row_hit(m, bx, by as int, step as int, pw as int, ph as int, 0, n as int)
                            == row_hit(m, bx, by as int, step as int, pw as int, ph as int, i as int, n as int),
                    decreases n - i,
                {
                    proof {
                        lemma_mul_le(i as int, LIST_BOUND as int, step as int, 6600);
                    }
                    let origin = V2 { x: pos.x + (i as i64) * step, y: by };
                    if rect(m, origin, V2 { x: pw, y: ph }) {
                        proof {
                            assert(row_hit(m, bx, by as int, step as int, pw as int, ph as int, i as int, n as int)
                                == Some(i as int));
                        }
                        return Some(i + 2);
                    }
                    i += 1;
                }
                None
            },
            None => None,
        }
    }

    /// The inspectable composite this unit offers: its perks and its
    /// four equipment slots.
    pub fn select(&self, _heal_button: bool) -> (r: Option<Detail>)
        requires
            self.wf(),
        ensures
            match r {
                Some(d) => d.perks@ == self.perks@ && d.equipment@ == self.equipment@,
                None => false,
            },
    {
        Some(Detail { perks: dup_perks(&self.perks), equipment: dup_slots(&self.equipment) })
    }
}

impl UnitView {
    /// A redacted unit measures exactly as the unit it projects.
    pub fn size(&self, s: V2, _args: bool) -> (r: V2)
        requires
            scale_wf(s),
        ensures
            (r.x as int, r.y as int) == unit_size_s(s),
            0 <= r.x <= SIZE_BOUND,
            0 <= r.y <= SIZE_BOUND,
    {
        self.unit.size(s, false)
    }

    /// A redacted unit hit-tests as its body alone: redaction never
    /// exposes heal or perk-choice regions.
    pub fn collides(&self, m: V2, pos: V2, s: V2, _args: bool) -> (r: Option<usize>)
        requires
            self.wf(),
            scale_wf(s),
            bounded(pos, 2 * COORD_BOUND as int),
        ensures
            r == opt_usize(unit_hit(self.unit, m, pos, s, false)),
    {
        self.unit.collides(m, pos, s, false)
    }

    /// Selection passes through to the underlying unit.
    pub fn select(&self, _args: bool) -> (r: Option<Detail>)
        requires
            self.wf(),
        ensures
            match r {
                Some(d) => d.perks@ == self.unit.perks@ && d.equipment@ == self.unit.equipment@,
                None => false,
            },
    {
        self.unit.select(false)
    }
}

impl Perk {
    /// A perk's measured extent: a square under the given scale.
    pub fn size(&self, s: V2, _args: bool) -> (r: V2)
        requires
            scale_wf(s),
        ensures
            (r.x as int, r.y as int) == perk_size_s(s),
            0 <= r.x <= SIZE_BOUND,
            0 <= r.y <= SIZE_BOUND,
    {
        V2 { x: PERK_SIZE * s.x / 1000, y: PERK_SIZE * s.y / 1000 }
    }

    /// A perk's only region is its body rectangle.
    pub fn collides(&self, m: V2, pos: V2, s: V2, _args: bool) -> (r: Option<usize>)
        requires
            scale_wf(s),
            bounded(pos, 2 * COORD_BOUND as int),
        ensures
            r == (if in_rect_i(m, pos.x as int, pos.y as int, perk_size_s(s).0, perk_size_s(s).1) {
                Some(0usize)
            } else {
                None::<usize>
            }),
    {
        let size = self.size(s, false);
        if rect(m, pos, size) {
            Some(0)
        } else {
            None
        }
    }
}

/// Default hit-testing is consistent with measurement: a unit's
/// hit-test answers the body region, `Some(0)`, exactly when the point
/// lies within the rectangle spanned from the probe origin by the
/// unit's measured extent — inclusive on the lower edges, exclusive on
/// the upper.
pub proof fn lemma_unit_hit_body(u: Unit, m: V2, pos: V2, s: V2, heal_button: bool)
    ensures
        (unit_hit(u, m, pos, s, heal_button) == Some(0int)) <==> in_rect_i(
            m,
            pos.x as int,
            pos.y as int,
            unit_size_s(s).0,
            unit_size_s(s).1,
        ),
{
    let (pw, ph) = perk_size_s(s);
    if !in_rect_i(m, pos.x as int, pos.y as int, unit_size_s(s).0, unit_size_s(s).1) {
        match u.perk_choice {
            Some(ps) => {
                lemma_row_hit_props(
                    m,
                    pos.x as int,
                    pos.y - ph * 11 / 10,
                    pw * 11 / 10,
                    pw,
                    ph,
                    0,
                    ps@.len() as int,
                );
            },
            None => {},
        }
    }
}

/// Composite hit-testing never invents a hit unsupported by a child: a
/// non-zero region id of a unit names either its heal affordance, which
/// the point really lies on, or a pending perk whose own body rectangle
/// the point really lies in at the equivalent local position.
pub proof fn lemma_unit_hit_child(u: Unit, m: V2, pos: V2, s: V2, heal_button: bool)
    ensures
        match unit_hit(u, m, pos, s, heal_button) {
            Some(k) => {
                &&& k == 1 ==> heal_button && in_rect_i(
                    m,
                    pos.x as int,
                    pos.y + unit_size_s(s).1 + 1600,
                    unit_size_s(s).0,
                    unit_size_s(s).1 / 6,
                )
                &&& k >= 2 ==> match u.perk_choice {
                    Some(ps) => 0 <= k - 2 < ps@.len() && in_rect_i(
                        m,
                        pos.x + (k - 2) * (perk_size_s(s).0 * 11 / 10),
                        pos.y - perk_size_s(s).1 * 11 / 10,
                        perk_size_s(s).0,
                        perk_size_s(s).1,
                    ),
                    None => false,
                }
            },
            None => true,
        },
{
    let (pw, ph) = perk_size_s(s);
    match u.perk_choice {
        Some(ps) => {
            lemma_row_hit_props(
                m,
                pos.x as int,
                pos.y - ph * 11 / 10,
                pw * 11 / 10,
                pw,
                ph,
                0,
                ps@.len() as int,
            );
        },
        None => {},
    }
}

/// A detail panel's hit-test never invents a hit unsupported by a
/// child: region id `k` means equipment slot `k` itself contains the
/// point — the whole slot cell when empty slots are probed, the
/// occupied slot's item rectangle otherwise.
pub proof fn lemma_detail_hit_child(d: Detail, m: V2, pos: V2, s: V2, collide_slots: bool, i: int)
    ensures
        match detail_slot_hit(d, m, pos, s, collide_slots, i) {
            Some(k) => {
                &&& i <= k < 4
                &&& collide_slots ==> in_rect_i(
                    m,
                    pos.x + 160 + k * (slot_size_s(s).0 * 11 / 10),
                    pos.y + 160 + PERK_SIZE * 11 / 10,
                    slot_size_s(s).0,
                    slot_size_s(s).1,
                )
                &&& !collide_slots ==> d.equipment@[k] is Some && in_rect_i(
                    m,
                    pos.x + 160 + k * (slot_size_s(s).0 * 11 / 10),
                    pos.y + 160 + PERK_SIZE * 11 / 10,
                    equip_size_s(s).0,
                    equip_size_s(s).1,
                )
            },
            None => true,
        },
    decreases 4 - i,
{
    if i < 4 {
        let hit = if collide_slots {
            in_rect_i(
                m,
                pos.x + 160 + i * (slot_size_s(s).0 * 11 / 10),
                pos.y + 160 + PERK_SIZE * 11 / 10,
                slot_size_s(s).0,
                slot_size_s(s).1,
            )
        } else {
            d.equipment@[i] is Some && in_rect_i(
                m,
                pos.x + 160 + i * (slot_size_s(s).0 * 11 / 10),
                pos.y + 160 + PERK_SIZE * 11 / 10,
                equip_size_s(s).0,
                equip_size_s(s).1,
            )
        };
        if !hit {
            lemma_detail_hit_child(d, m, pos, s, collide_slots, i + 1);
        }
    }
}

/// An exact duplicate of a perk list.
pub fn dup_perks(v: &Vec<Perk>) -> (r: Vec<Perk>)
    ensures
        r@ == v@,
{
    let mut r: Vec<Perk> = Vec::new();
    let mut i: usize = 0;
    while i < v.len()
        invariant
            i <= v@.len(),
            r@ == v@.subrange(0, i as int),
        decreases v@.len() - i,
    {
        let p = &v[i];
        r.push(Perk { color: p.color, desc: p.desc.clone() });
        proof {
            assert(r@ =~= v@.subrange(0, i + 1));
        }
        i += 1;
    }
    proof {
        assert(r@ =~= v@);
    }
    r
}

/// An exact duplicate of one possibly-empty equipment slot.
pub fn dup_slot(o: &Option<Equipment>) -> (r: Option<Equipment>)
    ensures
        r == *o,
{
    match o {
        Some(e) => Some(
            Equipment {
                color: e.color,
                repair_cost: e.repair_cost,
                durability: e.durability,
                stat1: e.stat1,
                stat2: e.stat2,
                desc: e.desc.clone(),
            },
        ),
        None => None,
    }
}

/// An exact duplicate of a unit's four equipment slots.
pub fn dup_slots(v: &[Option<Equipment>; 4]) -> (r: [Option<Equipment>; 4])
    ensures
        r@ == v@,
{
    let r = [dup_slot(&v[0]), dup_slot(&v[1]), dup_slot(&v[2]), dup_slot(&v[3])];
    proof {
        assert(r@ =~= v@);
    }
    r
}

/// The floating read-only composite shown for a selected unit: its perks
/// and its four equipment slots.
#[derive(Debug)]
pub struct Detail {
    pub perks: Vec<Perk>,
    pub equipment: [Option<Equipment>; 4],
}

/// The hit regions of a detail panel, probing slot `i` onward: region id
/// `i` is equipment slot `i`.  With `collide_slots` the whole slot cell
/// counts, empty or not; without it only an occupied slot's item
/// rectangle counts.
pub open spec fn detail_slot_hit(d: Detail, m: V2, pos: V2, s: V2, collide_slots: bool, i: int) -> Option<int>
    decreases 4 - i,
{
    let (sw, sh) = slot_size_s(s);
    let (ew, eh) = equip_size_s(s);
    let bx = pos.x + 160;
    let by = pos.y + 160 + PERK_SIZE * 11 / 10;
    if i >= 4 {
        None
    } else {
        let hit = if collide_slots {
            in_rect_i(m, bx + i * (sw * 11 / 10), by, sw, sh)
        } else {
            d.equipment@[i] is Some && in_rect_i(m, bx + i * (sw * 11 / 10), by, ew, eh)
        };
        if hit {
            Some(i)
        } else {
            detail_slot_hit(d, m, pos, s, collide_slots, i + 1)
        }
    }
}

/// A detail-panel slot hit names one of the four slots.
pub proof fn lemma_detail_slot_hit_range(d: Detail, m: V2, pos: V2, s: V2, cs: bool, i: int)
    ensures
        match detail_slot_hit(d, m, pos, s, cs, i) {
            Some(j) => i <= j < 4,
            None => true,
        },
    decreases 4 - i,
{
    if i < 4 && detail_slot_hit(d, m, pos, s, cs, i) != Some(i) {
        lemma_detail_slot_hit_range(d, m, pos, s, cs, i + 1);
    }
}

impl Detail {
    pub open spec fn wf(self) -> bool {
        &&& self.perks@.len() <= LIST_BOUND
        &&& forall|i: int| 0 <= i < self.perks@.len() ==> (#[trigger] self.perks@[i]).wf()
        &&& forall|i: int| 0 <= i < 4 ==> match #[trigger] self.equipment@[i] {
            Some(e) => e.wf(),
            None => true,
        }
    }

    /// A detail panel measures as the base size it is handed.
    pub fn size(&self, s: V2, _args: bool) -> (r: V2)
        ensures
            r == s,
    {
        s
    }

    /// Probe the panel's equipment slots in order and return the index
    /// of the first slot hit; the panel body itself is not a region.
    pub fn collides(&self, m: V2, pos: V2, s: V2, collide_slots: bool) -> (r: Option<usize>)
        requires
            scale_wf(s),
            bounded(pos, 2 * COORD_BOUND as int),
        ensures
            r == opt_usize(detail_slot_hit(*self, m, pos, s, collide_slots, 0)),
            r is Some ==> r->0 < 4,
    {
        let sw = EQUIP_SIZE * s.x / 1000;
        let sh = EQUIP_SIZE * s.y / 1000;
        let ew = sw * 9 / 10;
        let eh = sh * 9 / 10;
        let step = gap(sw);
        let bx = pos.x + 160;
        let by = pos.y + 160 + PERK_SIZE * 11 / 10;
        let mut i: usize = 0;
        while i < 4
            invariant
                i <= 4,
                sw == EQUIP_SIZE * s.x / 1000,
                sh == EQUIP_SIZE * s.y / 1000,
                0 <= sw <= 12800,
                0 <= sh <= 12800,
                ew == sw * 9 / 10,
                eh == sh * 9 / 10,
                step == sw * 11 / 10,
                bx == pos.x + 160,
                by == pos.y + 160 + PERK_SIZE * 11 / 10,
                bounded(pos, 2 * COORD_BOUND as int),
                scale_wf(s),
                detail_slot_hit(*self, m, pos, s, collide_slots, 0)
                    == detail_slot_hit(*self, m, pos, s, collide_slots, i as int),
            decreases 4 - i,
        {
            proof {
                lemma_mul_le(i as int, 4, step as int, 14080);
            }
            let origin = V2 { x: bx + (i as i64) * step, y: by };
            let hit = if collide_slots {
                rect(m, origin, V2 { x: sw, y: sh })
            } else {
                match &self.equipment[i] {
                    Some(_) => rect(m, origin, V2 { x: ew, y: eh }),
                    None => false,
                }
            };
            if hit {
                return Some(i);
            }
            i += 1;
        }
        None
    }
}

impl Equipment {
    /// An equipment item's extent: nine tenths of the slot cell it
    /// occupies.
    pub fn size(&self, s: V2, _drag: bool) -> (r: V2)
        requires
            scale_wf(s),
        ensures
            (r.x as int, r.y as int) == equip_size_s(s),
            0 <= r.x <= SIZE_BOUND,
            0 <= r.y <= SIZE_BOUND,
    {
        V2 { x: EQUIP_SIZE * s.x / 1000 * 9 / 10, y: EQUIP_SIZE * s.y / 1000 * 9 / 10 }
    }

    /// An item's only region is its body rectangle.
    pub fn collides(&self, m: V2, pos: V2, s: V2, _drag: bool) -> (r: Option<usize>)
        requires
            scale_wf(s),
            bounded(pos, 2 * COORD_BOUND as int),
        ensures
            r == (if in_rect_i(m, pos.x as int, pos.y as int, equip_size_s(s).0, equip_size_s(s).1) {
                Some(0usize)
            } else {
                None::<usize>
            }),
    {
        let size = self.size(s, false);
        if rect(m, pos, size) {
            Some(0)
        } else {
            None
        }
    }
}

/// An empty or occupied slot cell's extent under a per-mille scale.
pub fn slot_size(s: V2) -> (r: V2)
    requires
        scale_wf(s),
    ensures
        (r.x as int, r.y as int) == slot_size_s(s),
        0 <= r.x <= SIZE_BOUND,
        0 <= r.y <= SIZE_BOUND,
{
    V2 { x: EQUIP_SIZE * s.x / 1000, y: EQUIP_SIZE * s.y / 1000 }
}

impl MoveOption {
    /// A move option measures as a button under the given scale.
    pub fn size(&self, s: V2, _args: bool) -> (r: V2)
        requires
            scale_wf(s),
        ensures
            (r.x as int, r.y as int) == option_size_s(s),
            0 <= r.x <= SIZE_BOUND,
            0 <= r.y <= SIZE_BOUND,
    {
        V2 { x: BUTTON_W * s.x / 1000, y: BUTTON_H * s.y / 1000 }
    }

    /// A move option's only region is its body rectangle.
    pub fn collides(&self, m: V2, pos: V2, s: V2, _args: bool) -> (r: Option<usize>)
        requires
            scale_wf(s),
            bounded(pos, 2 * COORD_BOUND as int),
        ensures
            r == (if in_rect_i(m, pos.x as int, pos.y as int, option_size_s(s).0, option_size_s(s).1) {
                Some(0usize)
            } else {
                None::<usize>
            }),
    {
        let size = self.size(s, false);
        if rect(m, pos, size) {
            Some(0)
        } else {
            None
        }
    }
}

/// A fixed on-screen button.  Unlike grid widgets it carries its own
/// position and extent and ignores the origin its caller probes from.
#[derive(Debug)]
pub struct Button {
    pub name: String,
    pub pos: V2,
    pub size: V2,
    pub tex: crate::vertex::Tex,
    /// When set, the stored x position is relative to the left (`true`)
    /// or right (`false`) edge of the visible area, so the button
    /// follows the viewport as it resizes.
    pub edge: Option<bool>,
}

impl Button {
    pub open spec fn wf(self) -> bool {
        &&& bounded(self.pos, COORD_BOUND as int)
        &&& 0 <= self.size.x <= SIZE_BOUND
        &&& 0 <= self.size.y <= SIZE_BOUND
        &&& self.name@.len() <= crate::model::TEXT_BOUND
        &&& crate::vertex::tex_channels_wf(self.tex)
    }

    /// Where the button stands under the current view.
    pub open spec fn pos_spec(self, ctx: ViewCtx) -> V2 {
        match self.edge {
            None => self.pos,
            Some(true) => (V2 { x: (self.pos.x - ctx.aspect) as i64, y: self.pos.y }),
            Some(false) => (V2 { x: (self.pos.x + ctx.aspect) as i64, y: self.pos.y }),
        }
    }

    pub fn pos(&self, ctx: ViewCtx) -> (r: V2)
        requires
            self.wf(),
            ctx.wf(),
        ensures
            r == self.pos_spec(ctx),
            bounded(r, 2 * COORD_BOUND as int),
    {
        match self.edge {
            None => self.pos,
            Some(true) => V2 { x: self.pos.x - ctx.aspect, y: self.pos.y },
            Some(false) => V2 { x: self.pos.x + ctx.aspect, y: self.pos.y },
        }
    }

    /// Pin the button to an edge of the visible area: its absolute
    /// position under the current view is kept, and from now on the x
    /// coordinate is stored relative to that edge.
    pub fn edgeified(self, e: bool, ctx: ViewCtx) -> (r: Button)
        requires
            self.wf(),
            ctx.wf(),
        ensures
            r.name == self.name,
            r.size == self.size,
            r.tex == self.tex,
            r.edge == Some(e),
            r.pos.y == self.pos.y,
            r.pos.x == self.pos.x - (if e {
                -ctx.aspect
            } else {
                ctx.aspect as int
            }),
    {
        let shift = if e {
            -ctx.aspect
        } else {
            ctx.aspect
        };
        Button {
            pos: V2 { x: self.pos.x - shift, y: self.pos.y },
            edge: Some(e),
            ..self
        }
    }

    /// A button's measured extent is its own, whatever scale the caller
    /// suggests.
    pub fn size(&self, _s: V2, _args: bool) -> (r: V2)
        ensures
            r == self.size,
    {
        V2 { x: self.size.x, y: self.size.y }
    }

    /// A button's only region is its body rectangle at its own
    /// edge-adjusted position.
    pub fn collides(&self, m: V2, ctx: ViewCtx) -> (r: Option<usize>)
        requires
            self.wf(),
            ctx.wf(),
        ensures
            r == (if in_rect_i(
                m,
                self.pos_spec(ctx).x as int,
                self.pos_spec(ctx).y as int,
                self.size.x as int,
                self.size.y as int,
            ) {
                Some(0usize)
            } else {
                None::<usize>
            }),
    {
        let p = self.pos(ctx);
        if rect(m, p, V2 { x: self.size.x, y: self.size.y }) {
            Some(0)
        } else {
            None
        }
    }
}

/// The healing price of a unit: proportional to the missing fraction
/// of its hit points and to how much it carries (perks and a pending
/// choice), in thousandths.
pub open spec fn heal_cost_s(u: Unit) -> int {
    (u.max_hp - u.hp) * HEAL_COST * (u.perks@.len() + 5
        + (if u.perk_choice is Some { 1int } else { 0int })) / (5 * u.max_hp)
}

/// The healing price of a unit: see [`heal_cost_s`].
pub fn heal_cost(u: &Unit) -> (r: u64)
    requires
        u.wf(),
    ensures
        r == heal_cost_s(*u),
        r <= 206200,
{
    let missing = u.max_hp - u.hp;
    let burden = (u.perks.len() as u64) + 5 + (if u.perk_choice.is_some() { 1u64 } else { 0u64 });
    proof {
        lemma_mul_le((missing * HEAL_COST) as int, 0x3E8_0000_0000, burden as int, (LIST_BOUND + 6) as int);
    }
    let r = missing * HEAL_COST * burden / (5 * u.max_hp);
    proof {
        assert(r <= 200 * burden) by (nonlinear_arith)
            requires
                0 < u.max_hp,
                missing <= u.max_hp,
                0 <= burden,
                HEAL_COST == 1000,
                r == missing * HEAL_COST * burden / (5 * u.max_hp),
        ;
        lemma_mul_le(200, 200, burden as int, (LIST_BOUND + 6) as int);
    }
    r
}

} // verus!
