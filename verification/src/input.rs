//! Pointer input: the drag-and-drop transfer resolver and the click
//! dispatcher.
//!
//! Screen space is reused by many logically distinct containers
//! depending on the current state, so resolution is state-aware and
//! ordered by priority: the player's team row, the carried equipment
//! grid, and — only while the safe zone is open — the stored units and
//! the stored equipment; a detail panel's equipment slots override all
//! of them.

use vstd::prelude::*;
use crate::geom::{bounded, rect, V2, COORD_BOUND, MOUSE_BOUND};
use crate::layout::{equip_box_pos, equip_pos, safe_equip_box_pos, storage_unit_pos, team_unit_pos, unit_storage_box_pos};
use crate::model::{ClientPacket, EquipType, InventoryType, LIST_BOUND};
use crate::session::{State, World};
use crate::view::ViewCtx;
use crate::widget::{detail_slot_hit, in_rect_i, opt_usize, Detail};

verus! {

/// Squared distance under which a press and a release count as one
/// click rather than a drag (a fiftieth of the screen height).
pub const EPS2: i64 = 102400;

pub open spec fn dist2_spec(a: V2, b: V2) -> int {
    (a.x - b.x) * (a.x - b.x) + (a.y - b.y) * (a.y - b.y)
}

/// Where team slot `i` of a row of `n` starts horizontally.
pub open spec fn team_slot_x(n: int, i: int) -> int {
    -((n * 4800) / 2) - 480 + i * 4800 * 11 / 10
}

/// First team body, at or after `i`, under the point.
pub open spec fn team_row_hit(n: int, p: V2, i: int) -> Option<int>
    decreases n - i,
{
    if i >= n {
        None
    } else if in_rect_i(p, team_slot_x(n, i), -12000, 4800, 7200) {
        Some(i)
    } else {
        team_row_hit(n, p, i + 1)
    }
}

pub proof fn lemma_team_row_hit_range(n: int, p: V2, i: int)
    ensures
        match team_row_hit(n, p, i) {
            Some(j) => i <= j < n,
            None => true,
        },
    decreases n - i,
{
    if i < n && !in_rect_i(p, team_slot_x(n, i), -12000, 4800, 7200) {
        lemma_team_row_hit_range(n, p, i + 1);
    }
}

/// Where stored-unit cell `i` starts, inside the storage panel.
pub open spec fn storage_slot(i: int, aspect: int) -> (int, int) {
    ((i % 14) * 1056 + 48 + (-aspect + 960), (6 - i / 14) * 1584 + 72 + 3952)
}

/// First stored-unit body, at or after `i`, under the point.
pub open spec fn storage_row_hit(n: int, p: V2, aspect: int, i: int) -> Option<int>
    decreases n - i,
{
    if i >= n {
        None
    } else if in_rect_i(p, storage_slot(i, aspect).0, storage_slot(i, aspect).1, 960, 1440) {
        Some(i)
    } else {
        storage_row_hit(n, p, aspect, i + 1)
    }
}

pub proof fn lemma_storage_row_hit_range(n: int, p: V2, aspect: int, i: int)
    ensures
        match storage_row_hit(n, p, aspect, i) {
            Some(j) => i <= j < n,
            None => true,
        },
    decreases n - i,
{
    if i < n && !in_rect_i(p, storage_slot(i, aspect).0, storage_slot(i, aspect).1, 960, 1440) {
        lemma_storage_row_hit_range(n, p, aspect, i + 1);
    }
}

/// Where stored-equipment item `i` starts, inside a panel whose lower
/// left corner is `(bx, by)`.
pub open spec fn equip_slot(i: int, bx: int, by: int) -> (int, int) {
    (bx + (i % 10) * 1280 + 64, by + (9 - i / 10) * 1280 + 64)
}

/// First stored-equipment item, at or after `i`, under the point.
pub open spec fn equips_row_hit(n: int, p: V2, bx: int, by: int, i: int) -> Option<int>
    decreases n - i,
{
    if i >= n {
        None
    } else if in_rect_i(p, equip_slot(i, bx, by).0, equip_slot(i, bx, by).1, 1152, 1152) {
        Some(i)
    } else {
        equips_row_hit(n, p, bx, by, i + 1)
    }
}

pub proof fn lemma_equips_row_hit_range(n: int, p: V2, bx: int, by: int, i: int)
    ensures
        match equips_row_hit(n, p, bx, by, i) {
            Some(j) => i <= j < n,
            None => true,
        },
    decreases n - i,
{
    if i < n && !in_rect_i(p, equip_slot(i, bx, by).0, equip_slot(i, bx, by).1, 1152, 1152) {
        lemma_equips_row_hit_range(n, p, bx, by, i + 1);
    }
}

/// The lower-left corner of the carried equipment panel.
pub open spec fn carried_base(ctx: ViewCtx) -> (int, int) {
    (ctx.aspect - 960 - 12928, -16000 + 960)
}

/// The lower-left corner of the safe-zone equipment panel.
pub open spec fn safe_base(ctx: ViewCtx) -> (int, int) {
    (ctx.aspect - 960 - 12928, 16000 - 960 - 12928)
}

/// The symbolic address a point resolves to, before any fallback: the
/// first positive hit among the team row, the carried equipment grid
/// and — while the safe zone is open — the stored units and stored
/// equipment; a hit on the selected detail panel's equipment slots
/// overrides it.  With `slots` the panel's empty slots count too (used
/// for the release point); without it only occupied slots do (the press
/// point).
pub open spec fn resolve_spec(w: World, p: V2, ctx: ViewCtx, slots: bool) -> Option<InventoryType> {
    let base = if team_row_hit(w.team@.len() as int, p, 0) is Some {
        Some(InventoryType::Team(team_row_hit(w.team@.len() as int, p, 0)->0 as usize))
    } else if equips_row_hit(
        w.equipment@.len() as int,
        p,
        carried_base(ctx).0,
        carried_base(ctx).1,
        0,
    ) is Some {
        Some(
            InventoryType::EquipmentStorage(
                false,
                equips_row_hit(
                    w.equipment@.len() as int,
                    p,
                    carried_base(ctx).0,
                    carried_base(ctx).1,
                    0,
                )->0 as usize,
            ),
        )
    } else {
        match w.state {
            State::SafeZone(us, es) => if storage_row_hit(
                us@.len() as int,
                p,
                ctx.aspect as int,
                0,
            ) is Some {
                Some(
                    InventoryType::UnitStorage(
                        storage_row_hit(us@.len() as int, p, ctx.aspect as int, 0)->0 as usize,
                    ),
                )
            } else if equips_row_hit(es@.len() as int, p, safe_base(ctx).0, safe_base(ctx).1, 0)
                is Some {
                Some(
                    InventoryType::EquipmentStorage(
                        true,
                        equips_row_hit(
                            es@.len() as int,
                            p,
                            safe_base(ctx).0,
                            safe_base(ctx).1,
                            0,
                        )->0 as usize,
                    ),
                )
            } else {
                None
            },
            _ => None,
        }
    };
    match w.selected {
        Some((d, Some(InventoryType::Team(u)))) => match detail_slot_hit(
            d,
            p,
            (V2 { x: (-ctx.aspect) as i64, y: -16000i64 }),
            (V2 { x: 1000, y: 1000 }),
            slots,
            0,
        ) {
            Some(k) => Some(
                InventoryType::Unit { in_team: true, uidx: u, eidx: EquipType::spec_from_idx(k) },
            ),
            None => base,
        },
        Some((d, Some(InventoryType::UnitStorage(u)))) => match detail_slot_hit(
            d,
            p,
            (V2 { x: (-ctx.aspect) as i64, y: -16000i64 }),
            (V2 { x: 1000, y: 1000 }),
            slots,
            0,
        ) {
            Some(k) => Some(
                InventoryType::Unit { in_team: false, uidx: u, eidx: EquipType::spec_from_idx(k) },
            ),
            None => base,
        },
        _ => base,
    }
}

/// First team body under the point, for a row of `n` members.
fn hit_team_row(n: usize, p: V2) -> (r: Option<usize>)
    requires
        n <= LIST_BOUND,
    ensures
        r == opt_usize(team_row_hit(n as int, p, 0)),
{
    let size = V2 { x: 4800, y: 7200 };
    let mut i: usize = 0;
    while i < n
        invariant
            n <= LIST_BOUND,
            i <= n,
            size == (V2 { x: 4800i64, y: 7200i64 }),
            team_row_hit(n as int, p, 0) == team_row_hit(n as int, p, i as int),
        decreases n - i,
    {
        let pos = team_unit_pos(n, i, size);
        proof {
            assert(pos.x == team_slot_x(n as int, i as int));
        }
        if rect(p, pos, size) {
            return Some(i);
        }
        i += 1;
    }
    None
}

/// First stored-unit body under the point, for `n` stored units.
pub fn hit_storage_row(n: usize, p: V2, ctx: ViewCtx) -> (r: Option<usize>)
    requires
        n <= LIST_BOUND,
        ctx.wf(),
    ensures
        r == opt_usize(storage_row_hit(n as int, p, ctx.aspect as int, 0)),
{
    let size = V2 { x: 960, y: 1440 };
    let box_pos = unit_storage_box_pos(ctx);
    let mut i: usize = 0;
    while i < n
        invariant
            n <= LIST_BOUND,
            i <= n,
            ctx.wf(),
            size == (V2 { x: 960i64, y: 1440i64 }),
            box_pos.x == -ctx.aspect + 960,
            box_pos.y == 3952,
            storage_row_hit(n as int, p, ctx.aspect as int, 0) == storage_row_hit(
                n as int,
                p,
                ctx.aspect as int,
                i as int,
            ),
        decreases n - i,
    {
        let cell = storage_unit_pos(i, size);
        let pos = V2 { x: cell.x + box_pos.x, y: cell.y + box_pos.y };
        proof {
            assert(pos.x == storage_slot(i as int, ctx.aspect as int).0);
            assert(pos.y == storage_slot(i as int, ctx.aspect as int).1);
        }
        if rect(p, pos, size) {
            return Some(i);
        }
        i += 1;
    }
    None
}

/// First stored-equipment item under the point, in the panel at `base`.
fn hit_equips_row(n: usize, p: V2, base: V2) -> (r: Option<usize>)
    requires
        n <= LIST_BOUND,
        bounded(base, 0x4_0000),
    ensures
        r == opt_usize(equips_row_hit(n as int, p, base.x as int, base.y as int, 0)),
{
    let size = V2 { x: 1152, y: 1152 };
    let mut i: usize = 0;
    while i < n
        invariant
            n <= LIST_BOUND,
            i <= n,
            bounded(base, 0x4_0000),
            size == (V2 { x: 1152i64, y: 1152i64 }),
            equips_row_hit(n as int, p, base.x as int, base.y as int, 0) == equips_row_hit(
                n as int,
                p,
                base.x as int,
                base.y as int,
                i as int,
            ),
        decreases n - i,
    {
        let cell = equip_pos(i);
        let pos = V2 { x: cell.x + base.x, y: cell.y + base.y };
        proof {
            assert(pos.x == equip_slot(i as int, base.x as int, base.y as int).0);
            assert(pos.y == equip_slot(i as int, base.x as int, base.y as int).1);
        }
        if rect(p, pos, size) {
            return Some(i);
        }
        i += 1;
    }
    None
}

/// Resolve a point to the symbolic address of what lies under it, if
/// anything: the ordered probe over every inventory-bearing widget,
/// with the selected detail panel's slots taking priority.
pub fn resolve_addr(w: &World, p: V2, ctx: ViewCtx, slots: bool) -> (r: Option<InventoryType>)
    requires
        w.wf(),
        ctx.wf(),
    ensures
        r == resolve_spec(*w, p, ctx, slots),
{
    let mut base: Option<InventoryType> = None;
    if let Some(i) = hit_team_row(w.team.len(), p) {
        base = Some(InventoryType::Team(i));
    } else if let Some(i) = hit_equips_row(w.equipment.len(), p, equip_box_pos(ctx)) {
        base = Some(InventoryType::EquipmentStorage(false, i));
    } else if let State::SafeZone(us, es) = &w.state {
        if let Some(i) = hit_storage_row(us.len(), p, ctx) {
            base = Some(InventoryType::UnitStorage(i));
        } else if let Some(i) = hit_equips_row(es.len(), p, safe_equip_box_pos(ctx)) {
            base = Some(InventoryType::EquipmentStorage(true, i));
        }
    }
    match &w.selected {
        Some((d, Some(InventoryType::Team(u)))) => {
            let panel_pos = V2 { x: -ctx.aspect, y: -16000 };
            proof {
                crate::widget::lemma_detail_slot_hit_range(
                    *d,
                    p,
                    panel_pos,
                    (V2 { x: 1000, y: 1000 }),
                    slots,
                    0,
                );
            }
            match d.collides(p, panel_pos, V2 { x: 1000, y: 1000 }, slots) {
                Some(k) => Some(
                    InventoryType::Unit { in_team: true, uidx: *u, eidx: EquipType::from_idx(k) },
                ),
                None => base,
            }
        },
        Some((d, Some(InventoryType::UnitStorage(u)))) => {
            let panel_pos = V2 { x: -ctx.aspect, y: -16000 };
            proof {
                crate::widget::lemma_detail_slot_hit_range(
                    *d,
                    p,
                    panel_pos,
                    (V2 { x: 1000, y: 1000 }),
                    slots,
                    0,
                );
            }
            match d.collides(p, panel_pos, V2 { x: 1000, y: 1000 }, slots) {
                Some(k) => Some(
                    InventoryType::Unit { in_team: false, uidx: *u, eidx: EquipType::from_idx(k) },
                ),
                None => base,
            }
        },
        _ => base,
    }
}

/// A resolved address names an existing entry of its collection.
pub proof fn lemma_resolve_bounds(w: World, p: V2, ctx: ViewCtx, slots: bool)
    ensures
        match resolve_spec(w, p, ctx, slots) {
            Some(InventoryType::Team(i)) => 0 < w.team@.len() && i < w.team@.len(),
            Some(InventoryType::UnitStorage(i)) => w.state matches State::SafeZone(us, _) && i
                < us@.len(),
            Some(InventoryType::EquipmentStorage(false, i)) => i < w.equipment@.len(),
            Some(InventoryType::EquipmentStorage(true, i)) => w.state matches State::SafeZone(
                _,
                es,
            ) && i < es@.len(),
            _ => true,
        },
{
    lemma_team_row_hit_range(w.team@.len() as int, p, 0);
    lemma_equips_row_hit_range(
        w.equipment@.len() as int,
        p,
        carried_base(ctx).0,
        carried_base(ctx).1,
        0,
    );
    if let State::SafeZone(us, es) = w.state {
        lemma_storage_row_hit_range(us@.len() as int, p, ctx.aspect as int, 0);
        lemma_equips_row_hit_range(es@.len() as int, p, safe_base(ctx).0, safe_base(ctx).1, 0);
    }
}

/// Whether the point lies on the repair button.
pub open spec fn repair_hit(m: V2, ctx: ViewCtx) -> bool {
    in_rect_i(m, ctx.aspect - 6080, -1792, 2400, 2400)
}

/// Whether the point lies on the juice button.
pub open spec fn juice_hit(m: V2, ctx: ViewCtx) -> bool {
    in_rect_i(m, ctx.aspect - 3360, -1792, 2400, 2400)
}

/// The cell size used for the append-to-panel drop rectangles: a fifth
/// of a unit body plus the sibling gap, or nothing when no unit exists
/// to measure by.
pub open spec fn drop_cell(w: World) -> (int, int) {
    if w.team@.len() > 0 {
        (1056int, 1584int)
    } else {
        match w.state {
            State::SafeZone(us, _) => if us@.len() > 0 {
                (1056int, 1584int)
            } else {
                (0int, 0int)
            },
            _ => (0int, 0int),
        }
    }
}

/// The index a release x-coordinate maps to when dropping a team
/// member between its siblings, clamped into the row.
pub open spec fn team_insert_idx(m: V2, len: int) -> int {
    let k: int = if len % 2 == 0 {
        4
    } else {
        3
    };
    let num = 2 * m.x + k * 5280;
    let idx: int = if num < 0 {
        0
    } else {
        num / 10560
    };
    if idx < len - 1 {
        idx
    } else {
        len - 1
    }
}

/// The index a release x-coordinate maps to when dropping a stored
/// unit into the team row, clamped one past the row's end.
pub open spec fn storage_insert_idx(m: V2, tlen: int) -> int {
    let k: int = if tlen % 2 == 0 {
        5
    } else {
        4
    };
    let num = 2 * m.x + k * 5280;
    let idx: int = if num < 0 {
        0
    } else {
        num / 10560
    };
    if idx < tlen {
        idx
    } else {
        tlen
    }
}

/// The destination after the fallback heuristics: an unresolved release
/// inside a storage panel's open space appends to that panel, and a
/// unit dragged from the team or from storage may be dropped between
/// team members at an index computed from the release x-coordinate.
pub open spec fn fallback_to(
    w: World,
    m: V2,
    ctx: ViewCtx,
    from: Option<InventoryType>,
    to0: Option<InventoryType>,
) -> Option<InventoryType> {
    let cell = drop_cell(w);
    let to1 = match w.state {
        State::SafeZone(us, es) => if to0 is None {
            if in_rect_i(m, -ctx.aspect + 960, 13440 - cell.1 * 6, cell.0 * 14, cell.1 * 7) {
                Some(
                    InventoryType::UnitStorage(
                        (us@.len() - (if from matches Some(InventoryType::UnitStorage(_)) {
                            1int
                        } else {
                            0int
                        })) as usize,
                    ),
                )
            } else if in_rect_i(m, ctx.aspect - 960 - 12800, 16000 - 960 - 12800, 12800, 12800) {
                Some(
                    InventoryType::EquipmentStorage(
                        true,
                        (es@.len() - (if from matches Some(
                            InventoryType::EquipmentStorage(true, _),
                        ) {
                            1int
                        } else {
                            0int
                        })) as usize,
                    ),
                )
            } else {
                None
            }
        } else {
            to0
        },
        _ => to0,
    };
    let to2 = if to1 is None && in_rect_i(m, ctx.aspect - 960 - 12800, -16000 + 960, 12800, 12800) {
        Some(
            InventoryType::EquipmentStorage(
                false,
                (w.equipment@.len() - (if from matches Some(
                    InventoryType::EquipmentStorage(false, _),
                ) {
                    1int
                } else {
                    0int
                })) as usize,
            ),
        )
    } else {
        to1
    };
    if to2 is None {
        match from {
            Some(InventoryType::Team(_)) => Some(
                InventoryType::Team(team_insert_idx(m, w.team@.len() as int) as usize),
            ),
            Some(InventoryType::UnitStorage(_)) => Some(
                InventoryType::Team(storage_insert_idx(m, w.team@.len() as int) as usize),
            ),
            _ => None,
        }
    } else {
        to2
    }
}

/// What releasing the pointer at `m` after pressing at `d` sends: a
/// release within epsilon of the press is a click and sends nothing; a
/// release on the repair button asks to repair the resolved target; one
/// on the juice button asks to distill the resolved source; otherwise a
/// transfer is sent exactly when both endpoints resolve.
pub open spec fn mouse_up_outcome(w: World, d: V2, m: V2, ctx: ViewCtx) -> Option<ClientPacket> {
    if dist2_spec(d, m) < EPS2 {
        None
    } else {
        let from = resolve_spec(w, d, ctx, false);
        let to = resolve_spec(w, m, ctx, true);
        if repair_hit(m, ctx) {
            match to {
                Some(t) => Some(ClientPacket::Repair(w.repair_target, t)),
                None => None,
            }
        } else if juice_hit(m, ctx) {
            match from {
                Some(f) => Some(ClientPacket::Juice(f)),
                None => None,
            }
        } else {
            match (from, fallback_to(w, m, ctx, from, to)) {
                (Some(f), Some(t)) => Some(ClientPacket::Transfer(f, t)),
                _ => None,
            }
        }
    }
}

/// Releasing at the press point (within epsilon) always resolves to a
/// click, never a transfer or any other request, whatever lies under
/// the point.
pub proof fn lemma_click_never_transfers(w: World, d: V2, m: V2, ctx: ViewCtx)
    requires
        dist2_spec(d, m) < EPS2,
    ensures
        mouse_up_outcome(w, d, m, ctx) is None,
{
}

/// Dragging a recognized source onto a recognized destination always
/// yields exactly the transfer of the two resolved addresses — unless
/// the repair or juice button intercepts the release point, in which
/// case no transfer is emitted.
pub proof fn lemma_transfer_symmetry(w: World, d: V2, m: V2, ctx: ViewCtx)
    requires
        dist2_spec(d, m) >= EPS2,
        resolve_spec(w, d, ctx, false) is Some,
        resolve_spec(w, m, ctx, true) is Some,
    ensures
        !repair_hit(m, ctx) && !juice_hit(m, ctx) ==> mouse_up_outcome(w, d, m, ctx) == Some(
            ClientPacket::Transfer(
                resolve_spec(w, d, ctx, false)->0,
                resolve_spec(w, m, ctx, true)->0,
            ),
        ),
        repair_hit(m, ctx) || juice_hit(m, ctx) ==> !(mouse_up_outcome(w, d, m, ctx) matches Some(
            ClientPacket::Transfer(_, _),
        )),
{
}

/// Record where the primary button went down; resolution happens at
/// release.
pub fn handle_mouse_down(w: &mut World, m: V2)
    requires
        old(w).wf(),
        bounded(m, MOUSE_BOUND as int),
    ensures
        final(w).wf(),
        *old(w) == (World { drag: old(w).drag, ..*final(w) }),
        final(w).drag == Some(m),
{
    w.drag = Some(m);
}

/// Resolve the gesture that ends at `m`: classify it as click or drag,
/// and for a drag run the transfer resolution; the returned packet, if
/// any, is what the host must send.
pub fn handle_mouse_up(w: &mut World, m: V2, ctx: ViewCtx) -> (r: Option<ClientPacket>)
    requires
        old(w).wf(),
        ctx.wf(),
        bounded(m, MOUSE_BOUND as int),
    ensures
        final(w).wf(),
        old(w).drag is None ==> *final(w) == *old(w) && r is None,
        match old(w).drag {
            Some(d) => {
                &&& *old(w) == (World {
                    drag: old(w).drag,
                    next_click: old(w).next_click,
                    ..*final(w)
                })
                &&& final(w).drag is None
                &&& final(w).next_click == (dist2_spec(d, m) < EPS2)
                &&& r == mouse_up_outcome(*old(w), d, m, ctx)
            },
            None => true,
        },
{
    let d = match w.drag {
        Some(d) => d,
        None => {
            return None;
        },
    };
    w.drag = None;
    let dd = crate::geom::dist2(d, m);
    w.next_click = dd < EPS2;
    if dd < EPS2 {
        return None;
    }
    let from = resolve_addr(w, d, ctx, false);
    let to = resolve_addr(w, m, ctx, true);
    proof {
        lemma_resolve_bounds(*w, d, ctx, false);
    }
    let repair = crate::buttons::repair_button(w.repair_target, w.repair_selected);
    if repair.collides(m, ctx).is_some() {
        return match to {
            Some(t) => Some(ClientPacket::Repair(w.repair_target, t)),
            None => None,
        };
    }
    let juice = crate::buttons::juice_button();
    if juice.collides(m, ctx).is_some() {
        return match from {
            Some(f) => Some(ClientPacket::Juice(f)),
            None => None,
        };
    }
    let mut to2 = to;
    let team_len = w.team.len();
    let cell: V2 = if team_len > 0 {
        V2 { x: 1056, y: 1584 }
    } else {
        match &w.state {
            State::SafeZone(us, _) => if us.len() > 0 {
                V2 { x: 1056, y: 1584 }
            } else {
                V2 { x: 0, y: 0 }
            },
            _ => V2 { x: 0, y: 0 },
        }
    };
    if let State::SafeZone(us, es) = &w.state {
        if to2.is_none() {
            let box_origin = V2 { x: -ctx.aspect + 960, y: 13440 - cell.y * 6 };
            let box_size = V2 { x: cell.x * 14, y: cell.y * 7 };
            let safe_origin = V2 { x: ctx.aspect - 960 - 12800, y: 16000 - 960 - 12800 };
            if rect(m, box_origin, box_size) {
                let adj: usize = if let Some(InventoryType::UnitStorage(_)) = from {
                    1
                } else {
                    0
                };
                to2 = Some(InventoryType::UnitStorage(us.len() - adj));
            } else if rect(m, safe_origin, V2 { x: 12800, y: 12800 }) {
                let adj: usize = if let Some(InventoryType::EquipmentStorage(true, _)) = from {
                    1
                } else {
                    0
                };
                to2 = Some(InventoryType::EquipmentStorage(true, es.len() - adj));
            }
        }
    }
    if to2.is_none() {
        let carried_origin = V2 { x: ctx.aspect - 960 - 12800, y: -16000 + 960 };
        if rect(m, carried_origin, V2 { x: 12800, y: 12800 }) {
            let adj: usize = if let Some(InventoryType::EquipmentStorage(false, _)) = from {
                1
            } else {
                0
            };
            to2 = Some(InventoryType::EquipmentStorage(false, w.equipment.len() - adj));
        }
    }
    if to2.is_none() {
        match from {
            Some(InventoryType::Team(_)) => {
                let k: i64 = if team_len % 2 == 0 {
                    4
                } else {
                    3
                };
                let num = 2 * m.x + k * 5280;
                let idx: usize = if num < 0 {
                    0
                } else {
                    (num / 10560) as usize
                };
                let clamped = if idx < team_len - 1 {
                    idx
                } else {
                    team_len - 1
                };
                to2 = Some(InventoryType::Team(clamped));
            },
            Some(InventoryType::UnitStorage(_)) => {
                let k: i64 = if team_len % 2 == 0 {
                    5
                } else {
                    4
                };
                let num = 2 * m.x + k * 5280;
                let idx: usize = if num < 0 {
                    0
                } else {
                    (num / 10560) as usize
                };
                let clamped = if idx < team_len {
                    idx
                } else {
                    team_len
                };
                to2 = Some(InventoryType::Team(clamped));
            },
            _ => {},
        }
    }
    match (from, to2) {
        (Some(f), Some(t)) => Some(ClientPacket::Transfer(f, t)),
        _ => None,
    }
}

} // verus!
