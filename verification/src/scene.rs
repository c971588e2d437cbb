//! Frame assembly: each animation tick rebuilds the whole scene from
//! the shared state into two ordered vertex lists — the opaque pass and
//! the overlay pass — which the host flushes in one draw call, overlay
//! after opaque so tooltips and floating text never get occluded.

use vstd::prelude::*;
use crate::draw::{
    body_color, equip_draw_pos, equip_overlay, extends, label_verts,
    unit_draw_overlay, unit_draw_verts, unit_view_overlay, unit_view_quads,
};
use crate::vertex::{quad_verts, string_verts, Tex as TexFill};
use crate::geom::{bounded, V2, COORD_BOUND, MOUSE_BOUND};
use crate::layout::{
    equip_box_pos, equip_box_size, equip_pos, equip_scale, opponent_unit_pos, safe_equip_box_pos,
    storage_unit_pos, storage_unit_scale, team_unit_pos, unit_storage_box_pos,
    unit_storage_box_size, TEXT_SIZE,
};
use crate::message::{messages_wf, Message};
use crate::model::{
    equips_wf, options_wf, units_wf, views_wf, Equipment, MoveOption, Unit, UnitView, LIST_BOUND,
    STAT_BOUND, TEXT_BOUND,
};
use crate::session::{State, World};
use crate::vertex::{draw_string, draw_string_blended, quad, Rgba, Tex, Vertex};
use crate::view::ViewCtx;
use crate::widget::scale_wf;

verus! {

/// The colors every unit, view and equipment carry stay within the
/// range drawing accepts; the server's snapshots satisfy this by
/// construction of the model, and the frame builder requires it.
pub open spec fn unit_colors_wf(u: Unit) -> bool {
    &&& crate::draw::perk_colors_wf(u.perks@)
    &&& match u.perk_choice {
        Some(ps) => crate::draw::perk_colors_wf(ps@),
        None => true,
    }
    &&& crate::draw::equip_colors_wf(u.equipment@)
}

pub open spec fn units_colors_wf(v: Seq<Unit>) -> bool {
    forall|i: int| 0 <= i < v.len() ==> unit_colors_wf(#[trigger] v[i])
}

pub open spec fn views_colors_wf(v: Seq<UnitView>) -> bool {
    forall|i: int| 0 <= i < v.len() ==> unit_colors_wf((#[trigger] v[i]).unit)
}

pub open spec fn equips_colors_wf(v: Seq<Equipment>) -> bool {
    forall|i: int| 0 <= i < v.len() ==> {
        &&& (#[trigger] v[i]).color[0] <= 2000
        &&& v[i].color[1] <= 2000
        &&& v[i].color[2] <= 2000
    }
}

/// A centered row of units: one unit's full draw per member, one body
/// width plus the sibling gap apart.
pub open spec fn unit_row_verts(us: Seq<Unit>, bx: int, by: int, m: V2, d: Option<V2>, heal: bool) -> Seq<Vertex>
    decreases us.len(),
{
    if us.len() == 0 {
        Seq::empty()
    } else {
        unit_draw_verts(us[0], (V2 { x: bx as i64, y: by as i64 }), (V2 { x: 1000, y: 1000 }), m, d, heal)
            + unit_row_verts(us.drop_first(), bx + 5280, by, m, d, heal)
    }
}

pub open spec fn unit_row_overlay(us: Seq<Unit>, bx: int, by: int, m: V2, d: Option<V2>, heal: bool, ctx: ViewCtx) -> Seq<Vertex>
    decreases us.len(),
{
    if us.len() == 0 {
        Seq::empty()
    } else {
        unit_draw_overlay(
            us[0],
            (V2 { x: bx as i64, y: by as i64 }),
            (V2 { x: 1000, y: 1000 }),
            m,
            d,
            heal,
            ctx,
        ) + unit_row_overlay(us.drop_first(), bx + 5280, by, m, d, heal, ctx)
    }
}

/// A centered row of redacted units.
pub open spec fn view_row_verts(os: Seq<UnitView>, bx: int, by: int) -> Seq<Vertex>
    decreases os.len(),
{
    if os.len() == 0 {
        Seq::empty()
    } else {
        unit_view_quads(os[0], (V2 { x: bx as i64, y: by as i64 }), (V2 { x: 1000, y: 1000 }))
            + view_row_verts(os.drop_first(), bx + 5280, by)
    }
}

pub open spec fn view_row_overlay(os: Seq<UnitView>, bx: int, by: int, m: V2, ctx: ViewCtx) -> Seq<Vertex>
    decreases os.len(),
{
    if os.len() == 0 {
        Seq::empty()
    } else {
        unit_view_overlay(
            os[0],
            (V2 { x: bx as i64, y: by as i64 }),
            (V2 { x: 1000, y: 1000 }),
            m,
            false,
            ctx,
        ) + view_row_overlay(os.drop_first(), bx + 5280, by, m, ctx)
    }
}

/// The stored units from slot `i` on, each drawn at a fifth of full
/// size in its grid cell.
pub open spec fn storage_units_verts(us: Seq<Unit>, aspect: int, m: V2, d: Option<V2>, i: int) -> Seq<Vertex>
    decreases us.len() - i,
{
    if i < 0 || i >= us.len() {
        Seq::empty()
    } else {
        let slot = crate::input::storage_slot(i, aspect);
        unit_draw_verts(
            us[i],
            (V2 { x: slot.0 as i64, y: slot.1 as i64 }),
            (V2 { x: 200, y: 200 }),
            m,
            d,
            false,
        ) + storage_units_verts(us, aspect, m, d, i + 1)
    }
}

pub open spec fn storage_units_overlay(us: Seq<Unit>, aspect: int, m: V2, d: Option<V2>, i: int, ctx: ViewCtx) -> Seq<Vertex>
    decreases us.len() - i,
{
    if i < 0 || i >= us.len() {
        Seq::empty()
    } else {
        let slot = crate::input::storage_slot(i, aspect);
        unit_draw_overlay(
            us[i],
            (V2 { x: slot.0 as i64, y: slot.1 as i64 }),
            (V2 { x: 200, y: 200 }),
            m,
            d,
            false,
            ctx,
        ) + storage_units_overlay(us, aspect, m, d, i + 1, ctx)
    }
}

/// The stored items from slot `i` on, each drawn in its grid cell of
/// the panel whose lower-left corner is `(bx, by)`.
pub open spec fn equips_grid_verts(es: Seq<Equipment>, bx: int, by: int, m: V2, d: Option<V2>, i: int) -> Seq<Vertex>
    decreases es.len() - i,
{
    if i < 0 || i >= es.len() {
        Seq::empty()
    } else {
        let slot = crate::input::equip_slot(i, bx, by);
        quad_verts(
            equip_draw_pos(
                es[i],
                (V2 { x: slot.0 as i64, y: slot.1 as i64 }),
                (V2 { x: 400, y: 400 }),
                m,
                d,
                true,
            ).spec_extend(10),
            (V2 { x: 1152, y: 1152 }),
            Tex::Color(body_color(es[i].color)),
        ) + equips_grid_verts(es, bx, by, m, d, i + 1)
    }
}

pub open spec fn equips_grid_overlay(es: Seq<Equipment>, bx: int, by: int, m: V2, d: Option<V2>, i: int, ctx: ViewCtx) -> Seq<Vertex>
    decreases es.len() - i,
{
    if i < 0 || i >= es.len() {
        Seq::empty()
    } else {
        let slot = crate::input::equip_slot(i, bx, by);
        equip_overlay(
            es[i],
            (V2 { x: slot.0 as i64, y: slot.1 as i64 }),
            (V2 { x: 400, y: 400 }),
            m,
            d,
            true,
            ctx,
        ) + equips_grid_overlay(es, bx, by, m, d, i + 1, ctx)
    }
}

/// The move-option grid from option `i` on.
pub open spec fn options_grid_verts(n: int, m: V2, i: int) -> Seq<Vertex>
    decreases n - i,
{
    if i < 0 || i >= n {
        Seq::empty()
    } else {
        let slot = crate::click::option_slot(n, i);
        move_option_verts((V2 { x: slot.0 as i64, y: slot.1 as i64 }), m) + options_grid_verts(
            n,
            m,
            i + 1,
        )
    }
}

pub open spec fn options_grid_overlay(mo: Seq<MoveOption>, m: V2, i: int) -> Seq<Vertex>
    decreases mo.len() - i,
{
    if i < 0 || i >= mo.len() {
        Seq::empty()
    } else {
        let slot = crate::click::option_slot(mo.len() as int, i);
        move_option_overlay(mo[i], (V2 { x: slot.0 as i64, y: slot.1 as i64 }), m)
            + options_grid_overlay(mo, m, i + 1)
    }
}

/// The transient messages from entry `i` on, climbing the right edge
/// from height `py`, each blended out as its lifetime runs down.
pub open spec fn messages_verts(q: Seq<Message>, aspect: int, py: int, i: int) -> Seq<Vertex>
    decreases q.len() - i,
{
    if i < 0 || i >= q.len() {
        Seq::empty()
    } else {
        let blend_raw = q[i].life * 1000 / 120;
        let blend: u32 = (if blend_raw > 1000 {
            1000int
        } else {
            blend_raw as int
        }) as u32;
        let px = aspect - q[i].text@.len() * 960;
        string_verts(
            (crate::geom::V3 { x: px as i64, y: py as i64, z: 30 }),
            (V2 { x: 960, y: 960 }),
            TexFill::Blend((Rgba { r: 0, g: 0, b: 0, a: 0 }), 0, blend),
            q[i].text@,
        ) + messages_verts(
            q,
            aspect,
            if py <= COORD_BOUND - 1056 {
                py + 1056
            } else {
                py as int
            },
            i + 1,
        )
    }
}

/// The opponent's name, centered above the fight.
pub open spec fn name_verts(name: Seq<char>) -> Seq<Vertex> {
    string_verts(
        (crate::geom::V3 { x: (-(name.len() as int) * 800) as i64, y: 3200i64, z: 20 }),
        (V2 { x: 1600, y: 1600 }),
        Tex::Texture(0),
        name,
    )
}

/// The depth readout under the origin; hidden at depth zero.
pub open spec fn depth_verts(d: int) -> Seq<Vertex> {
    if d > 0 {
        let t = "depth: "@ + crate::fmt::dec_digits(d);
        string_verts(
            (crate::geom::V3 { x: (-(t.len() as int) * 400) as i64, y: -16000i64, z: 20 }),
            (V2 { x: 800, y: 800 }),
            Tex::Texture(0),
            t,
        )
    } else {
        Seq::empty()
    }
}

/// Draw the team row: every member at its slot, with heal affordances
/// when the safe zone offers them.
pub fn draw_team(v: &mut Vec<Vertex>, v2: &mut Vec<Vertex>, m: V2, d: Option<V2>, t: &Vec<Unit>, heal_buttons: bool, ctx: ViewCtx)
    requires
        units_wf(t@),
        units_colors_wf(t@),
        ctx.wf(),
        bounded(m, MOUSE_BOUND as int),
        match d {
            Some(p) => bounded(p, MOUSE_BOUND as int),
            None => true,
        },
    ensures
        final(v)@ == old(v)@ + unit_row_verts(
            t@,
            -((t@.len() * 4800) / 2) - 480,
            -12000,
            m,
            d,
            heal_buttons,
        ),
        final(v2)@ == old(v2)@ + unit_row_overlay(
            t@,
            -((t@.len() * 4800) / 2) - 480,
            -12000,
            m,
            d,
            heal_buttons,
            ctx,
        ),
        extends(final(v)@, old(v)@),
        extends(final(v2)@, old(v2)@),
{
    let ghost v0 = v@;
    let ghost v2_0 = v2@;
    let size = V2 { x: 4800, y: 7200 };
    let n = t.len();
    let ghost bx = -((t@.len() * 4800) / 2) - 480;
    let mut i: usize = 0;
    proof {
        assert(t@.skip(0) =~= t@);
    }
    while i < n
        invariant
            n == t@.len() <= LIST_BOUND,
            units_wf(t@),
            units_colors_wf(t@),
            i <= n,
            size == (V2 { x: 4800i64, y: 7200i64 }),
            ctx.wf(),
            bounded(m, MOUSE_BOUND as int),
            match d {
                Some(p) => bounded(p, MOUSE_BOUND as int),
                None => true,
            },
            bx == -((t@.len() * 4800) / 2) - 480,
            v0 + unit_row_verts(t@, bx, -12000, m, d, heal_buttons) == v@ + unit_row_verts(
                t@.skip(i as int),
                bx + (i as int) * 5280,
                -12000,
                m,
                d,
                heal_buttons,
            ),
            v2_0 + unit_row_overlay(t@, bx, -12000, m, d, heal_buttons, ctx) == v2@
                + unit_row_overlay(
                t@.skip(i as int),
                bx + (i as int) * 5280,
                -12000,
                m,
                d,
                heal_buttons,
                ctx,
            ),
        decreases n - i,
    {
        let pos = team_unit_pos(n, i, size);
        proof {
            assert((i as int) * 4800 * 11 / 10 == (i as int) * 5280) by (nonlinear_arith);
            assert(((i as int) + 1) * 5280 == (i as int) * 5280 + 5280) by (nonlinear_arith);
            assert(pos.x == bx + (i as int) * 5280);
            assert(t@.skip(i as int)[0] == t@[i as int]);
            assert(t@.skip(i as int).drop_first() =~= t@.skip(i + 1));
        }
        let ghost va = v@;
        let ghost v2a = v2@;
        t[i].draw(v, v2, pos, V2 { x: 1000, y: 1000 }, m, d, heal_buttons, ctx);
        proof {
            assert(v@ + unit_row_verts(
                t@.skip(i + 1),
                bx + ((i as int) + 1) * 5280,
                -12000,
                m,
                d,
                heal_buttons,
            ) =~= va + unit_row_verts(
                t@.skip(i as int),
                bx + (i as int) * 5280,
                -12000,
                m,
                d,
                heal_buttons,
            ));
            assert(v2@ + unit_row_overlay(
                t@.skip(i + 1),
                bx + ((i as int) + 1) * 5280,
                -12000,
                m,
                d,
                heal_buttons,
                ctx,
            ) =~= v2a + unit_row_overlay(
                t@.skip(i as int),
                bx + (i as int) * 5280,
                -12000,
                m,
                d,
                heal_buttons,
                ctx,
            ));
        }
        i += 1;
    }
    proof {
        assert(t@.skip(n as int) =~= Seq::<Unit>::empty());
        assert(v@ + Seq::<Vertex>::empty() =~= v@);
        assert(v2@ + Seq::<Vertex>::empty() =~= v2@);
        assert(v@.take(v0.len() as int) =~= v0);
        assert(v2@.take(v2_0.len() as int) =~= v2_0);
    }
}

/// Draw the opponent row above the origin.
pub fn draw_opponent(v: &mut Vec<Vertex>, v2: &mut Vec<Vertex>, m: V2, d: Option<V2>, o: &Vec<UnitView>, ctx: ViewCtx)
    requires
        views_wf(o@),
        views_colors_wf(o@),
        ctx.wf(),
        bounded(m, MOUSE_BOUND as int),
    ensures
        final(v)@ == old(v)@ + view_row_verts(o@, -((o@.len() * 4800) / 2) - 480, 4800),
        final(v2)@ == old(v2)@ + view_row_overlay(
            o@,
            -((o@.len() * 4800) / 2) - 480,
            4800,
            m,
            ctx,
        ),
        extends(final(v)@, old(v)@),
        extends(final(v2)@, old(v2)@),
{
    let ghost v0 = v@;
    let ghost v2_0 = v2@;
    let size = V2 { x: 4800, y: 7200 };
    let n = o.len();
    let ghost bx = -((o@.len() * 4800) / 2) - 480;
    let mut i: usize = 0;
    proof {
        assert(o@.skip(0) =~= o@);
    }
    while i < n
        invariant
            n == o@.len() <= LIST_BOUND,
            views_wf(o@),
            views_colors_wf(o@),
            i <= n,
            size == (V2 { x: 4800i64, y: 7200i64 }),
            ctx.wf(),
            bounded(m, MOUSE_BOUND as int),
            bx == -((o@.len() * 4800) / 2) - 480,
            v0 + view_row_verts(o@, bx, 4800) == v@ + view_row_verts(
                o@.skip(i as int),
                bx + (i as int) * 5280,
                4800,
            ),
            v2_0 + view_row_overlay(o@, bx, 4800, m, ctx) == v2@ + view_row_overlay(
                o@.skip(i as int),
                bx + (i as int) * 5280,
                4800,
                m,
                ctx,
            ),
        decreases n - i,
    {
        let pos = opponent_unit_pos(n, i, size);
        proof {
            assert((i as int) * 4800 * 11 / 10 == (i as int) * 5280) by (nonlinear_arith);
            assert(((i as int) + 1) * 5280 == (i as int) * 5280 + 5280) by (nonlinear_arith);
            assert(pos.x == bx + (i as int) * 5280);
            assert(o@.skip(i as int)[0] == o@[i as int]);
            assert(o@.skip(i as int).drop_first() =~= o@.skip(i + 1));
        }
        let ghost va = v@;
        let ghost v2a = v2@;
        o[i].draw(v, v2, pos, V2 { x: 1000, y: 1000 }, m, None, false, ctx);
        proof {
            assert(v@ + view_row_verts(o@.skip(i + 1), bx + ((i as int) + 1) * 5280, 4800) =~= va
                + view_row_verts(o@.skip(i as int), bx + (i as int) * 5280, 4800));
            assert(v2@ + view_row_overlay(
                o@.skip(i + 1),
                bx + ((i as int) + 1) * 5280,
                4800,
                m,
                ctx,
            ) =~= v2a + view_row_overlay(
                o@.skip(i as int),
                bx + (i as int) * 5280,
                4800,
                m,
                ctx,
            ));
        }
        i += 1;
    }
    proof {
        assert(o@.skip(n as int) =~= Seq::<UnitView>::empty());
        assert(v@ + Seq::<Vertex>::empty() =~= v@);
        assert(v2@ + Seq::<Vertex>::empty() =~= v2@);
        assert(v@.take(v0.len() as int) =~= v0);
        assert(v2@.take(v2_0.len() as int) =~= v2_0);
    }
}

/// Draw the unit-storage panel: its backing and every stored unit at a
/// fifth of full size.
pub fn draw_unit_storage(v: &mut Vec<Vertex>, v2: &mut Vec<Vertex>, m: V2, d: Option<V2>, u: &Vec<Unit>, ctx: ViewCtx)
    requires
        units_wf(u@),
        units_colors_wf(u@),
        ctx.wf(),
        bounded(m, MOUSE_BOUND as int),
        match d {
            Some(p) => bounded(p, MOUSE_BOUND as int),
            None => true,
        },
    ensures
        final(v)@ == old(v)@ + quad_verts(
            (crate::geom::V3 { x: (-ctx.aspect + TEXT_SIZE) as i64, y: 3952, z: 0 }),
            (V2 { x: 14784, y: 11088 }),
            Tex::Color(Rgba { r: 100, g: 100, b: 100, a: 1000 }),
        ) + storage_units_verts(u@, ctx.aspect as int, m, d, 0),
        final(v2)@ == old(v2)@ + storage_units_overlay(u@, ctx.aspect as int, m, d, 0, ctx),
        extends(final(v)@, old(v)@),
        extends(final(v2)@, old(v2)@),
{
    let ghost v0 = v@;
    let ghost v2_0 = v2@;
    let box_pos = unit_storage_box_pos(ctx);
    quad(
        v,
        box_pos.extend(0),
        unit_storage_box_size(),
        Tex::Color(Rgba { r: 100, g: 100, b: 100, a: 1000 }),
    );
    let ghost v1 = v@;
    let scale = storage_unit_scale();
    let size = V2 { x: 960, y: 1440 };
    let n = u.len();
    let mut i: usize = 0;
    while i < n
        invariant
            n == u@.len() <= LIST_BOUND,
            units_wf(u@),
            units_colors_wf(u@),
            i <= n,
            scale == (V2 { x: 200i64, y: 200i64 }),
            size == (V2 { x: 960i64, y: 1440i64 }),
            box_pos.x == -ctx.aspect + TEXT_SIZE,
            box_pos.y == 3952,
            ctx.wf(),
            bounded(m, MOUSE_BOUND as int),
            match d {
                Some(p) => bounded(p, MOUSE_BOUND as int),
                None => true,
            },
            v1 + storage_units_verts(u@, ctx.aspect as int, m, d, 0) == v@ + storage_units_verts(
                u@,
                ctx.aspect as int,
                m,
                d,
                i as int,
            ),
            v2_0 + storage_units_overlay(u@, ctx.aspect as int, m, d, 0, ctx) == v2@
                + storage_units_overlay(u@, ctx.aspect as int, m, d, i as int, ctx),
        decreases n - i,
    {
        let cell = storage_unit_pos(i, size);
        let pos = V2 { x: cell.x + box_pos.x, y: cell.y + box_pos.y };
        proof {
            assert(pos.x == crate::input::storage_slot(i as int, ctx.aspect as int).0);
            assert(pos.y == crate::input::storage_slot(i as int, ctx.aspect as int).1);
        }
        let ghost va = v@;
        let ghost v2a = v2@;
        u[i].draw(v, v2, pos, scale, m, d, false, ctx);
        proof {
            assert(v@ + storage_units_verts(u@, ctx.aspect as int, m, d, i + 1) =~= va
                + storage_units_verts(u@, ctx.aspect as int, m, d, i as int));
            assert(v2@ + storage_units_overlay(u@, ctx.aspect as int, m, d, i + 1, ctx) =~= v2a
                + storage_units_overlay(u@, ctx.aspect as int, m, d, i as int, ctx));
        }
        i += 1;
    }
    proof {
        assert(v@ + Seq::<Vertex>::empty() =~= v@);
        assert(v2@ + Seq::<Vertex>::empty() =~= v2@);
        assert(v@ =~= v0 + quad_verts(
            (crate::geom::V3 { x: (-ctx.aspect + TEXT_SIZE) as i64, y: 3952, z: 0 }),
            (V2 { x: 14784, y: 11088 }),
            Tex::Color(Rgba { r: 100, g: 100, b: 100, a: 1000 }),
        ) + storage_units_verts(u@, ctx.aspect as int, m, d, 0));
        assert(v@.take(v0.len() as int) =~= v0);
        assert(v2@.take(v2_0.len() as int) =~= v2_0);
    }
}

/// Draw an equipment panel: its backing and every stored item in a
/// ten-column grid.
pub fn draw_equipment(v: &mut Vec<Vertex>, v2: &mut Vec<Vertex>, m: V2, d: Option<V2>, pos: V2, e: &Vec<Equipment>, ctx: ViewCtx)
    requires
        equips_wf(e@),
        equips_colors_wf(e@),
        ctx.wf(),
        bounded(pos, 0x4_0000),
        bounded(m, MOUSE_BOUND as int),
        match d {
            Some(p) => bounded(p, MOUSE_BOUND as int),
            None => true,
        },
    ensures
        final(v)@ == old(v)@ + quad_verts(
            pos.spec_extend(0),
            (V2 { x: 12928, y: 12928 }),
            Tex::Color(Rgba { r: 100, g: 100, b: 100, a: 1000 }),
        ) + equips_grid_verts(e@, pos.x as int, pos.y as int, m, d, 0),
        final(v2)@ == old(v2)@ + equips_grid_overlay(e@, pos.x as int, pos.y as int, m, d, 0, ctx),
        extends(final(v)@, old(v)@),
        extends(final(v2)@, old(v2)@),
{
    let ghost v0 = v@;
    let ghost v2_0 = v2@;
    quad(
        v,
        pos.extend(0),
        equip_box_size(),
        Tex::Color(Rgba { r: 100, g: 100, b: 100, a: 1000 }),
    );
    let ghost v1 = v@;
    let scale = equip_scale();
    let n = e.len();
    let mut i: usize = 0;
    while i < n
        invariant
            n == e@.len() <= LIST_BOUND,
            equips_wf(e@),
            equips_colors_wf(e@),
            i <= n,
            scale == (V2 { x: 400i64, y: 400i64 }),
            bounded(pos, 0x4_0000),
            ctx.wf(),
            bounded(m, MOUSE_BOUND as int),
            match d {
                Some(p) => bounded(p, MOUSE_BOUND as int),
                None => true,
            },
            v1 + equips_grid_verts(e@, pos.x as int, pos.y as int, m, d, 0) == v@
                + equips_grid_verts(e@, pos.x as int, pos.y as int, m, d, i as int),
            v2_0 + equips_grid_overlay(e@, pos.x as int, pos.y as int, m, d, 0, ctx) == v2@
                + equips_grid_overlay(e@, pos.x as int, pos.y as int, m, d, i as int, ctx),
        decreases n - i,
    {
        let cell = equip_pos(i);
        let p = V2 { x: pos.x + cell.x, y: pos.y + cell.y };
        proof {
            assert(p.x == crate::input::equip_slot(i as int, pos.x as int, pos.y as int).0);
            assert(p.y == crate::input::equip_slot(i as int, pos.x as int, pos.y as int).1);
        }
        let ghost va = v@;
        let ghost v2a = v2@;
        e[i].draw(v, v2, p, scale, m, d, true, ctx);
        proof {
            assert(v@ + equips_grid_verts(e@, pos.x as int, pos.y as int, m, d, i + 1) =~= va
                + equips_grid_verts(e@, pos.x as int, pos.y as int, m, d, i as int));
            assert(v2@ + equips_grid_overlay(e@, pos.x as int, pos.y as int, m, d, i + 1, ctx)
                =~= v2a + equips_grid_overlay(e@, pos.x as int, pos.y as int, m, d, i as int, ctx));
        }
        i += 1;
    }
    proof {
        assert(v@ + Seq::<Vertex>::empty() =~= v@);
        assert(v2@ + Seq::<Vertex>::empty() =~= v2@);
        assert(v@ =~= v0 + quad_verts(
            pos.spec_extend(0),
            (V2 { x: 12928, y: 12928 }),
            Tex::Color(Rgba { r: 100, g: 100, b: 100, a: 1000 }),
        ) + equips_grid_verts(e@, pos.x as int, pos.y as int, m, d, 0));
        assert(v@.take(v0.len() as int) =~= v0);
        assert(v2@.take(v2_0.len() as int) =~= v2_0);
    }
}

/// Draw the opponent's name centered above the fight.
pub fn draw_opponent_name(v2: &mut Vec<Vertex>, name: &str)
    requires
        name@.len() <= TEXT_BOUND,
    ensures
        final(v2)@ == old(v2)@ + name_verts(name@),
{
    let n = name.unicode_len();
    let size = V2 { x: 1600, y: 1600 };
    let pos = V2 { x: -(n as i64) * 800, y: 4000 - 800 };
    draw_string(v2, pos.extend(20), size, name);
}

/// Draw the current depth readout under the origin, hidden at depth
/// zero.
pub fn draw_depth(v2: &mut Vec<Vertex>, d: usize)
    ensures
        final(v2)@ == old(v2)@ + depth_verts(d as int),
{
    let ghost v2_0 = v2@;
    if d > 0 {
        proof {
            reveal_strlit("depth: ");
            crate::fmt::lemma_dec_digits_len_u64(d as int);
        }
        let s = crate::fmt::labelled("depth: ", crate::fmt::u64_string(d as u64));
        let n = s.as_str().unicode_len();
        let size = V2 { x: 800, y: 800 };
        let pos = V2 { x: -(n as i64) * 400, y: -16000 };
        draw_string(v2, pos.extend(20), size, s.as_str());
    }
    proof {
        assert(v2@ =~= v2_0 + depth_verts(d as int));
    }
}

/// Draw the transient messages up the right edge, each blended out as
/// its lifetime runs down.
pub fn draw_messages(v2: &mut Vec<Vertex>, q: &Vec<Message>, ctx: ViewCtx)
    requires
        messages_wf(q@),
        ctx.wf(),
    ensures
        final(v2)@ == old(v2)@ + messages_verts(q@, ctx.aspect as int, -16000, 0),
        extends(final(v2)@, old(v2)@),
{
    let ghost v2_0 = v2@;
    let n = q.len();
    let mut i: usize = 0;
    let mut py: i64 = ctx.bottom_edge();
    while i < n
        invariant
            n == q@.len(),
            messages_wf(q@),
            i <= n,
            ctx.wf(),
            -COORD_BOUND <= py <= COORD_BOUND,
            v2_0 + messages_verts(q@, ctx.aspect as int, -16000, 0) == v2@ + messages_verts(
                q@,
                ctx.aspect as int,
                py as int,
                i as int,
            ),
        decreases n - i,
    {
        let msg = &q[i];
        let len = msg.text.as_str().unicode_len();
        let blend_raw = msg.life * 1000 / 120;
        let blend: u32 = if blend_raw > 1000 {
            1000
        } else {
            blend_raw as u32
        };
        let px = ctx.right_edge() - (len as i64) * 960;
        let ghost v2a = v2@;
        draw_string_blended(
            v2,
            V2 { x: px, y: py }.extend(30),
            V2 { x: 960, y: 960 },
            msg.text.as_str(),
            blend,
            Rgba { r: 0, g: 0, b: 0, a: 0 },
        );
        let ghost py_next: int = if py <= COORD_BOUND - 1056 {
            py + 1056
        } else {
            py as int
        };
        proof {
            assert(v2@ + messages_verts(q@, ctx.aspect as int, py_next, i + 1) =~= v2a
                + messages_verts(q@, ctx.aspect as int, py as int, i as int));
        }
        if py <= COORD_BOUND - 1056 {
            py = py + 1056;
        }
        i += 1;
    }
    proof {
        assert(v2@ + Seq::<Vertex>::empty() =~= v2@);
        assert(v2@.take(v2_0.len() as int) =~= v2_0);
    }
}

/// Whether any team member is hurt: only then is the heal-all button
/// shown.
pub open spec fn any_hurt(t: Seq<Unit>) -> bool {
    exists|k: int| 0 <= k < t.len() && (#[trigger] t[k]).hp < t[k].max_hp
}

/// One fixed button's body: its quad, dimmed under the pointer.
pub open spec fn fixed_button_verts(px: int, py: int, wdt: int, hgt: int, col: Rgba, m: V2) -> Seq<Vertex> {
    quad_verts(
        (crate::geom::V3 { x: px as i64, y: py as i64, z: 1 }),
        (V2 { x: wdt as i64, y: hgt as i64 }),
        crate::draw::button_dim(
            Tex::Color(col),
            crate::widget::in_rect_i(m, px, py, wdt, hgt),
        ),
    )
}

/// One fixed button's centered label.
pub open spec fn fixed_button_label(name: Seq<char>, px: int, py: int, wdt: int, hgt: int) -> Seq<Vertex> {
    label_verts(name, (V2 { x: wdt as i64, y: hgt as i64 }), (V2 { x: px as i64, y: py as i64 }))
}

/// The repair button's body: dragged along with the pointer while the
/// drag origin rests on it, brightened while armed for typing.
pub open spec fn repair_button_verts(w: World, m: V2, ctx: ViewCtx) -> Seq<Vertex> {
    let base = V2 { x: (ctx.aspect - 6080) as i64, y: -1792i64 };
    let col = if w.repair_selected {
        Rgba { r: 0, g: 880, b: 880, a: 1000 }
    } else {
        Rgba { r: 0, g: 800, b: 800, a: 1000 }
    };
    let p = match w.drag {
        Some(dd) => if crate::widget::in_rect_i(dd, base.x as int, base.y as int, 2400, 2400) {
            V2 { x: (base.x + (m.x - dd.x)) as i64, y: (base.y + (m.y - dd.y)) as i64 }
        } else {
            base
        },
        None => base,
    };
    quad_verts(
        p.spec_extend(1),
        (V2 { x: 2400, y: 2400 }),
        crate::draw::button_dim(
            Tex::Color(col),
            crate::widget::in_rect_i(m, base.x as int, base.y as int, 2400, 2400),
        ),
    )
}

/// The repair button's label — the typed target, empty while armed —
/// centered on the possibly dragged body.
pub open spec fn repair_button_label(w: World, m: V2, ctx: ViewCtx) -> Seq<Vertex> {
    let base = V2 { x: (ctx.aspect - 6080) as i64, y: -1792i64 };
    let p = match w.drag {
        Some(dd) => if crate::widget::in_rect_i(dd, base.x as int, base.y as int, 2400, 2400) {
            V2 { x: (base.x + (m.x - dd.x)) as i64, y: (base.y + (m.y - dd.y)) as i64 }
        } else {
            base
        },
        None => base,
    };
    let name = if w.repair_selected {
        Seq::<char>::empty()
    } else {
        crate::fmt::fixed3(w.repair_target as int)
    };
    label_verts(name, (V2 { x: 2400, y: 2400 }), p)
}

/// The opaque pass of the state-dependent part of a frame: what the
/// replay shows while one is active, else what the current state
/// shows, in paint order.
pub open spec fn scene_state_opaque(w: World, m: V2, ctx: ViewCtx) -> Seq<Vertex> {
    let d = w.drag;
    match w.recording {
        Some(rp) => {
            let snap = rp.rec.snapshots@[rp.idx as int];
            fixed_button_verts(
                -800,
                -800,
                1600,
                1600,
                if rp.paused {
                    Rgba { r: 50, g: 240, b: 60, a: 1000 }
                } else {
                    Rgba { r: 0, g: 1000, b: 0, a: 1000 }
                },
                m,
            ) + fixed_button_verts(-2560, -800, 1600, 1600, (Rgba { r: 1000, g: 0, b: 0, a: 1000 }), m)
                + fixed_button_verts(960, -800, 1600, 1600, (Rgba { r: 0, g: 0, b: 1000, a: 1000 }), m)
                + unit_row_verts(snap.team@, -((snap.team@.len() * 4800) / 2) - 480, -12000, m, d, false)
                + view_row_verts(snap.opponent@, -((snap.opponent@.len() * 4800) / 2) - 480, 4800)
        },
        None => match w.state {
            State::SafeZone(us, es) => quad_verts(
                (crate::geom::V3 {
                    x: (ctx.aspect - 960 - 12928) as i64,
                    y: (16000 - 960 - 12928) as i64,
                    z: 0,
                }),
                (V2 { x: 12928, y: 12928 }),
                Tex::Color(Rgba { r: 100, g: 100, b: 100, a: 1000 }),
            ) + equips_grid_verts(es@, ctx.aspect - 960 - 12928, 16000 - 960 - 12928, m, d, 0)
                + unit_row_verts(w.team@, -((w.team@.len() * 4800) / 2) - 480, -12000, m, d, true)
                + fixed_button_verts(-6000, -15680, 12000, 1600, (Rgba { r: 0, g: 800, b: 800, a: 1000 }), m)
                + repair_button_verts(w, m, ctx)
                + fixed_button_verts(
                ctx.aspect - 3360,
                -1792,
                2400,
                2400,
                (Rgba { r: 1000, g: 0, b: 0, a: 1000 }),
                m,
            ) + (if any_hurt(w.team@) {
                fixed_button_verts(-3600, -1520, 7200, 2400, (Rgba { r: 0, g: 1000, b: 0, a: 1000 }), m)
            } else {
                Seq::empty()
            }) + options_grid_verts(w.move_options@.len() as int, m, 0) + quad_verts(
                (crate::geom::V3 { x: (-ctx.aspect + TEXT_SIZE) as i64, y: 3952, z: 0 }),
                (V2 { x: 14784, y: 11088 }),
                Tex::Color(Rgba { r: 100, g: 100, b: 100, a: 1000 }),
            ) + storage_units_verts(us@, ctx.aspect as int, m, d, 0),
            State::Looting => unit_row_verts(
                w.team@,
                -((w.team@.len() * 4800) / 2) - 480,
                -12000,
                m,
                d,
                false,
            ) + fixed_button_verts(-6000, 1600, 12000, 2400, (Rgba { r: 1000, g: 1000, b: 0, a: 1000 }), m)
                + fixed_button_verts(-6000, -1200, 12000, 2400, (Rgba { r: 300, g: 300, b: 300, a: 1000 }), m)
                + fixed_button_verts(-6000, -4000, 12000, 2400, (Rgba { r: 1000, g: 0, b: 1000, a: 1000 }), m),
            State::InQueue => unit_row_verts(
                w.team@,
                -((w.team@.len() * 4800) / 2) - 480,
                -12000,
                m,
                d,
                false,
            ),
            State::InFight(chosen) => unit_row_verts(
                w.team@,
                -((w.team@.len() * 4800) / 2) - 480,
                -12000,
                m,
                d,
                false,
            ) + view_row_verts(w.opponent@, -((w.opponent@.len() * 4800) / 2) - 480, 4800) + (
            if !chosen {
                fixed_button_verts(-14000, -1200, 12000, 2400, (Rgba { r: 1000, g: 0, b: 0, a: 1000 }), m)
                    + fixed_button_verts(2000, -1200, 12000, 2400, (Rgba { r: 0, g: 1000, b: 0, a: 1000 }), m)
            } else {
                Seq::empty()
            }),
        },
    }
}

/// The overlay pass of the state-dependent part of a frame, in paint
/// order.
pub open spec fn scene_state_overlay(w: World, m: V2, ctx: ViewCtx) -> Seq<Vertex> {
    let d = w.drag;
    match w.recording {
        Some(rp) => {
            let snap = rp.rec.snapshots@[rp.idx as int];
            fixed_button_label("pause"@, -800, -800, 1600, 1600) + fixed_button_label(
                "rewind"@,
                -2560,
                -800,
                1600,
                1600,
            ) + fixed_button_label("skip"@, 960, -800, 1600, 1600) + unit_row_overlay(
                snap.team@,
                -((snap.team@.len() * 4800) / 2) - 480,
                -12000,
                m,
                d,
                false,
                ctx,
            ) + view_row_overlay(
                snap.opponent@,
                -((snap.opponent@.len() * 4800) / 2) - 480,
                4800,
                m,
                ctx,
            ) + name_verts(w.opponent_name@)
        },
        None => match w.state {
            State::SafeZone(us, es) => equips_grid_overlay(
                es@,
                ctx.aspect - 960 - 12928,
                16000 - 960 - 12928,
                m,
                d,
                0,
                ctx,
            ) + unit_row_overlay(
                w.team@,
                -((w.team@.len() * 4800) / 2) - 480,
                -12000,
                m,
                d,
                true,
                ctx,
            ) + fixed_button_label("purchase unit: "@ + crate::fmt::fixed2(crate::widget::UNIT_COST as int), -6000, -15680, 12000, 1600)
                + repair_button_label(w, m, ctx)
                + fixed_button_label("juice"@, ctx.aspect - 3360, -1792, 2400, 2400)
                + (if any_hurt(w.team@) {
                fixed_button_label("heal all"@, -3600, -1520, 7200, 2400)
            } else {
                Seq::empty()
            }) + options_grid_overlay(w.move_options@, m, 0) + storage_units_overlay(
                us@,
                ctx.aspect as int,
                m,
                d,
                0,
                ctx,
            ),
            State::Looting => depth_verts(w.depth as int) + unit_row_overlay(
                w.team@,
                -((w.team@.len() * 4800) / 2) - 480,
                -12000,
                m,
                d,
                false,
                ctx,
            ) + fixed_button_label("up"@, -6000, 1600, 12000, 2400) + fixed_button_label(
                "stay"@,
                -6000,
                -1200,
                12000,
                2400,
            ) + fixed_button_label("down"@, -6000, -4000, 12000, 2400),
            State::InQueue => depth_verts(w.depth as int) + unit_row_overlay(
                w.team@,
                -((w.team@.len() * 4800) / 2) - 480,
                -12000,
                m,
                d,
                false,
                ctx,
            ),
            State::InFight(chosen) => depth_verts(w.depth as int) + unit_row_overlay(
                w.team@,
                -((w.team@.len() * 4800) / 2) - 480,
                -12000,
                m,
                d,
                false,
                ctx,
            ) + view_row_overlay(
                w.opponent@,
                -((w.opponent@.len() * 4800) / 2) - 480,
                4800,
                m,
                ctx,
            ) + (if !chosen {
                fixed_button_label("fight"@, -14000, -1200, 12000, 2400) + fixed_button_label(
                    "do not"@,
                    2000,
                    -1200,
                    12000,
                    2400,
                )
            } else {
                Seq::empty()
            }) + name_verts(w.opponent_name@),
        },
    }
}

/// The gold readout at the top-left corner.
pub open spec fn gold_verts(gold: u64, ctx: ViewCtx) -> Seq<Vertex> {
    string_verts(
        (crate::geom::V3 { x: (-ctx.aspect + 1056) as i64, y: 13888, z: 0 }),
        (V2 { x: 960, y: 960 }),
        Tex::Texture(0),
        "gold: "@ + crate::fmt::fixed2(gold as int),
    )
}

/// The distillable-currency readout under the safe-zone panel.
pub open spec fn juice_verts(juice: u64, ctx: ViewCtx) -> Seq<Vertex> {
    let t = "knife juice: "@ + crate::fmt::fixed2(juice as int);
    string_verts(
        (crate::geom::V3 { x: (ctx.aspect - (t.len() + 1) * 960) as i64, y: 1152, z: 0 }),
        (V2 { x: 960, y: 960 }),
        Tex::Texture(0),
        t,
    )
}

/// The whole opaque pass of one frame: the state-dependent scene, the
/// selected detail panel, and the carried equipment panel.
pub open spec fn frame_opaque(w: World, m: V2, ctx: ViewCtx) -> Seq<Vertex> {
    scene_state_opaque(w, m, ctx) + (match w.selected {
        Some((dt, a)) => crate::draw::detail_draw_verts(
            dt,
            (V2 { x: (-ctx.aspect) as i64, y: -16000i64 }),
            (V2 { x: 1000, y: 1000 }),
            m,
            w.drag,
            a is Some,
        ),
        None => Seq::empty(),
    }) + quad_verts(
        (crate::geom::V3 { x: (ctx.aspect - 960 - 12928) as i64, y: -15040i64, z: 0 }),
        (V2 { x: 12928, y: 12928 }),
        Tex::Color(Rgba { r: 100, g: 100, b: 100, a: 1000 }),
    ) + equips_grid_verts(w.equipment@, ctx.aspect - 960 - 12928, -15040, m, w.drag, 0)
}

/// The whole overlay pass of one frame: the state-dependent overlays,
/// the transient messages, the money readouts, the selected panel's
/// tooltips, and the carried items' tooltips — concatenated after the
/// opaque pass at flush time, so none of it is ever occluded.
pub open spec fn frame_overlay(w: World, m: V2, ctx: ViewCtx) -> Seq<Vertex> {
    scene_state_overlay(w, m, ctx) + messages_verts(w.messages@, ctx.aspect as int, -16000, 0)
        + gold_verts(w.gold, ctx) + (if w.state is SafeZone {
        juice_verts(w.juice, ctx)
    } else {
        Seq::empty()
    }) + (match w.selected {
        Some((dt, a)) => crate::draw::detail_draw_overlay(
            dt,
            (V2 { x: (-ctx.aspect) as i64, y: -16000i64 }),
            (V2 { x: 1000, y: 1000 }),
            m,
            w.drag,
            a is Some,
            ctx,
        ),
        None => Seq::empty(),
    }) + equips_grid_overlay(w.equipment@, ctx.aspect - 960 - 12928, -15040, m, w.drag, 0, ctx)
}

/// The world's contents stay drawable: every color within range.
pub open spec fn world_colors_wf(w: World) -> bool {
    &&& units_colors_wf(w.team@)
    &&& views_colors_wf(w.opponent@)
    &&& equips_colors_wf(w.equipment@)
    &&& match w.state {
        State::SafeZone(us, es) => units_colors_wf(us@) && equips_colors_wf(es@),
        _ => true,
    }
    &&& match w.recording {
        Some(rp) => forall|i: int| 0 <= i < rp.rec.snapshots@.len() ==> units_colors_wf(
            (#[trigger] rp.rec.snapshots@[i]).team@,
        ) && views_colors_wf(rp.rec.snapshots@[i].opponent@),
        None => true,
    }
    &&& match w.selected {
        Some((dt, _)) => crate::draw::perk_colors_wf(dt.perks@) && crate::draw::equip_colors_wf(
            dt.equipment@,
        ),
        None => true,
    }
}

/// Build one frame from scratch: the opaque pass and the overlay pass,
/// in the paint order the current state dictates.  While a replay is
/// active it fully overrides normal per-state rendering.
#[verifier::rlimit(100)]
#[verifier::spinoff_prover]
pub fn build_frame(w: &World, m: V2, ctx: ViewCtx) -> (r: (Vec<Vertex>, Vec<Vertex>))
    requires
        w.wf(),
        world_colors_wf(*w),
        ctx.wf(),
        bounded(m, MOUSE_BOUND as int),
    ensures
        r.0@ == frame_opaque(*w, m, ctx),
        r.1@ == frame_overlay(*w, m, ctx),
{
    let mut v: Vec<Vertex> = Vec::new();
    let mut v2: Vec<Vertex> = Vec::new();
    let d = w.drag;
    match &w.recording {
        Some(rp) => {
            crate::buttons::pause_button(rp.paused).draw(&mut v, &mut v2, m, d, false, ctx);
            crate::buttons::rewind_button().draw(&mut v, &mut v2, m, d, false, ctx);
            crate::buttons::skip_button().draw(&mut v, &mut v2, m, d, false, ctx);
            let snap = rp.rec.get(rp.idx);
            draw_team(&mut v, &mut v2, m, d, &snap.team, false, ctx);
            draw_opponent(&mut v, &mut v2, m, d, &snap.opponent, ctx);
            draw_opponent_name(&mut v2, w.opponent_name.as_str());
            proof {
                assert(v@ =~= scene_state_opaque(*w, m, ctx));
                assert(v2@ =~= scene_state_overlay(*w, m, ctx));
            }
        },
        None => {
            match &w.state {
                State::SafeZone(us, es) => {
                    draw_equipment(&mut v, &mut v2, m, d, safe_equip_box_pos(ctx), es, ctx);
                    draw_team(&mut v, &mut v2, m, d, &w.team, true, ctx);
                    crate::buttons::purchase_unit_button().draw(&mut v, &mut v2, m, d, false, ctx);
                    crate::buttons::repair_button(w.repair_target, w.repair_selected).draw(
                        &mut v,
                        &mut v2,
                        m,
                        d,
                        true,
                        ctx,
                    );
                    crate::buttons::juice_button().draw(&mut v, &mut v2, m, d, false, ctx);
                    let mut hurt = false;
                    let n = w.team.len();
                    let mut k: usize = 0;
                    while k < n
                        invariant
                            n == w.team@.len(),
                            k <= n,
                            units_wf(w.team@),
                            hurt == any_hurt(w.team@.take(k as int)),
                        decreases n - k,
                    {
                        proof {
                            let t = w.team@;
                            assert(t.take(k + 1).drop_last() =~= t.take(k as int));
                            if any_hurt(t.take(k + 1)) {
                                let j = choose|j: int|
                                    0 <= j < k + 1 && (#[trigger] t.take(k + 1)[j]).hp < t.take(
                                        k + 1,
                                    )[j].max_hp;
                                if j < k {
                                    assert((t.take(k as int)[j]).hp < t.take(k as int)[j].max_hp);
                                    assert(any_hurt(t.take(k as int)));
                                }
                            }
                            if any_hurt(t.take(k as int)) {
                                let j = choose|j: int|
                                    0 <= j < k && (#[trigger] t.take(k as int)[j]).hp < t.take(
                                        k as int,
                                    )[j].max_hp;
                                assert((t.take(k + 1)[j]).hp < t.take(k + 1)[j].max_hp);
                                assert(any_hurt(t.take(k + 1)));
                            }
                            if t[k as int].hp < t[k as int].max_hp {
                                assert((t.take(k + 1)[k as int]).hp < t.take(k + 1)[k as int].max_hp);
                                assert(any_hurt(t.take(k + 1)));
                            }
                        }
                        if w.team[k].hp < w.team[k].max_hp {
                            hurt = true;
                        }
                        k += 1;
                    }
                    proof {
                        assert(w.team@.take(n as int) =~= w.team@);
                    }
                    if hurt {
                        crate::buttons::heal_all_button().draw(&mut v, &mut v2, m, d, false, ctx);
                    } else {
                        proof {
                            assert(v@ =~= v@ + Seq::<Vertex>::empty());
                            assert(v2@ =~= v2@ + Seq::<Vertex>::empty());
                        }
                    }
                    draw_move_options(&mut v, &mut v2, m, &w.move_options, ctx);
                    draw_unit_storage(&mut v, &mut v2, m, d, us, ctx);
                    proof {
                        assert(v@ =~= scene_state_opaque(*w, m, ctx));
                        assert(v2@ =~= scene_state_overlay(*w, m, ctx));
                    }
                },
                State::Looting => {
                    draw_depth(&mut v2, w.depth);
                    draw_team(&mut v, &mut v2, m, d, &w.team, false, ctx);
                    crate::buttons::up_button().draw(&mut v, &mut v2, m, d, false, ctx);
                    crate::buttons::stay_button().draw(&mut v, &mut v2, m, d, false, ctx);
                    crate::buttons::down_button().draw(&mut v, &mut v2, m, d, false, ctx);
                    proof {
                        assert(v@ =~= scene_state_opaque(*w, m, ctx));
                        assert(v2@ =~= scene_state_overlay(*w, m, ctx));
                    }
                },
                State::InQueue => {
                    draw_depth(&mut v2, w.depth);
                    draw_team(&mut v, &mut v2, m, d, &w.team, false, ctx);
                    proof {
                        assert(v@ =~= scene_state_opaque(*w, m, ctx));
                        assert(v2@ =~= scene_state_overlay(*w, m, ctx));
                    }
                },
                State::InFight(chosen) => {
                    draw_depth(&mut v2, w.depth);
                    draw_team(&mut v, &mut v2, m, d, &w.team, false, ctx);
                    draw_opponent(&mut v, &mut v2, m, d, &w.opponent, ctx);
                    if !*chosen {
                        crate::buttons::fight_button().draw(&mut v, &mut v2, m, d, false, ctx);
                        crate::buttons::do_not_button().draw(&mut v, &mut v2, m, d, false, ctx);
                    }
                    draw_opponent_name(&mut v2, w.opponent_name.as_str());
                    proof {
                        assert(v@ =~= scene_state_opaque(*w, m, ctx));
                        assert(v2@ =~= scene_state_overlay(*w, m, ctx));
                    }
                },
            }
        },
    }
    let ghost vs = v@;
    let ghost v2s = v2@;
    draw_messages(&mut v2, &w.messages, ctx);
    proof {
        reveal_strlit("gold: ");
        reveal_strlit("knife juice: ");
        crate::fmt::lemma_fixed2_len(w.gold as int);
        crate::fmt::lemma_fixed2_len(w.juice as int);
    }
    let gold_text = crate::fmt::labelled("gold: ", crate::fmt::milli_2(w.gold));
    draw_string(
        &mut v2,
        V2 { x: ctx.left_edge() + 1056, y: ctx.top_edge() - 2112 }.extend(0),
        V2 { x: 960, y: 960 },
        gold_text.as_str(),
    );
    proof {
        assert(v2@ =~= v2s + messages_verts(w.messages@, ctx.aspect as int, -16000, 0)
            + gold_verts(w.gold, ctx));
    }
    if w.state.is_safe_zone() {
        let juice_text = crate::fmt::labelled("knife juice: ", crate::fmt::milli_2(w.juice));
        let jn = juice_text.as_str().unicode_len();
        draw_string(
            &mut v2,
            V2 {
                x: ctx.right_edge() - ((jn as i64) + 1) * 960,
                y: safe_equip_box_pos(ctx).y - 960,
            }.extend(0),
            V2 { x: 960, y: 960 },
            juice_text.as_str(),
        );
        proof {
            assert(v2@ =~= v2s + messages_verts(w.messages@, ctx.aspect as int, -16000, 0)
                + gold_verts(w.gold, ctx) + juice_verts(w.juice, ctx));
        }
    } else {
        proof {
            assert(v2@ =~= v2s + messages_verts(w.messages@, ctx.aspect as int, -16000, 0)
                + gold_verts(w.gold, ctx) + Seq::<Vertex>::empty());
        }
    }
    let ghost v2t = v2@;
    if let Some((dt, i)) = &w.selected {
        dt.draw(
            &mut v,
            &mut v2,
            V2 { x: -ctx.aspect, y: -16000 },
            V2 { x: 1000, y: 1000 },
            m,
            d,
            i.is_some(),
            ctx,
        );
    } else {
        proof {
            assert(v@ =~= vs + Seq::<Vertex>::empty());
            assert(v2@ =~= v2t + Seq::<Vertex>::empty());
        }
    }
    let ghost vu = v@;
    let ghost v2u = v2@;
    draw_equipment(&mut v, &mut v2, m, d, equip_box_pos(ctx), &w.equipment, ctx);
    proof {
        assert(v@ =~= frame_opaque(*w, m, ctx));
        assert(v2@ =~= frame_overlay(*w, m, ctx));
    }
    (v, v2)
}

/// Draw the move-option grid.
fn draw_move_options(v: &mut Vec<Vertex>, v2: &mut Vec<Vertex>, m: V2, mo: &Vec<MoveOption>, ctx: ViewCtx)
    requires
        options_wf(mo@),
        ctx.wf(),
        bounded(m, MOUSE_BOUND as int),
    ensures
        final(v)@ == old(v)@ + options_grid_verts(mo@.len() as int, m, 0),
        final(v2)@ == old(v2)@ + options_grid_overlay(mo@, m, 0),
        extends(final(v)@, old(v)@),
        extends(final(v2)@, old(v2)@),
{
    let ghost v0 = v@;
    let ghost v2_0 = v2@;
    let n = mo.len();
    let mut i: usize = 0;
    while i < n
        invariant
            n == mo@.len() <= LIST_BOUND,
            options_wf(mo@),
            i <= n,
            ctx.wf(),
            bounded(m, MOUSE_BOUND as int),
            v0 + options_grid_verts(n as int, m, 0) == v@ + options_grid_verts(
                n as int,
                m,
                i as int,
            ),
            v2_0 + options_grid_overlay(mo@, m, 0) == v2@ + options_grid_overlay(mo@, m, i as int),
        decreases n - i,
    {
        let col = (i as i64) % 10;
        let row = (i as i64) / 10;
        let pos = V2 { x: -26160 + col * 5280, y: ((n as i64) / 10) * 880 + 800 - row * 1760 };
        proof {
            assert(pos.x == crate::click::option_slot(n as int, i as int).0);
            assert(pos.y == crate::click::option_slot(n as int, i as int).1);
        }
        let ghost va = v@;
        let ghost v2a = v2@;
        mo[i].draw(v, v2, pos, m);
        proof {
            assert(v@ + options_grid_verts(n as int, m, i + 1) =~= va + options_grid_verts(
                n as int,
                m,
                i as int,
            ));
            assert(v2@ + options_grid_overlay(mo@, m, i + 1) =~= v2a + options_grid_overlay(
                mo@,
                m,
                i as int,
            ));
        }
        i += 1;
    }
    proof {
        assert(v@ + Seq::<Vertex>::empty() =~= v@);
        assert(v2@ + Seq::<Vertex>::empty() =~= v2@);
        assert(v@.take(v0.len() as int) =~= v0);
        assert(v2@.take(v2_0.len() as int) =~= v2_0);
    }
}

/// The opaque body of a move option: its grey quad, dimmed under the
/// pointer.
pub open spec fn move_option_verts(pos: V2, m: V2) -> Seq<Vertex> {
    quad_verts(
        pos.spec_extend(1),
        (V2 { x: 4800, y: 1600 }),
        Tex::Color(
            Rgba {
                r: 500,
                g: 500,
                b: 500,
                a: (if crate::widget::in_rect_i(m, pos.x as int, pos.y as int, 4800, 1600) {
                    600
                } else {
                    1000
                }),
            },
        ),
    )
}

/// The overlay of a move option: its group cap (when constrained)
/// above its name.
pub open spec fn move_option_overlay(o: MoveOption, pos: V2, m: V2) -> Seq<Vertex> {
    let tsize = V2 { x: 720, y: 720 };
    (match o.max_group_size {
        Some(cap) => string_verts(
            (crate::geom::V3 { x: pos.x, y: (pos.y + 800) as i64, z: 10 }),
            tsize,
            Tex::Texture(0),
            crate::fmt::dec_digits(cap as int),
        ),
        None => Seq::empty(),
    }) + string_verts(
        (crate::geom::V3 { x: pos.x, y: pos.y, z: 10 }),
        tsize,
        Tex::Texture(0),
        o.name@,
    )
}

impl MoveOption {
    /// Draw the option's body, dimmed under the pointer, with its group
    /// cap (if any) and its name beneath.
    pub fn draw(&self, v: &mut Vec<Vertex>, v2: &mut Vec<Vertex>, pos: V2, m: V2)
        requires
            self.wf(),
            bounded(pos, COORD_BOUND as int),
            bounded(m, MOUSE_BOUND as int),
        ensures
            final(v)@ == old(v)@ + move_option_verts(pos, m),
            final(v2)@ == old(v2)@ + move_option_overlay(*self, pos, m),
    {
        let ghost v0 = v@;
        let ghost v2_0 = v2@;
        let size = self.size(V2 { x: 1000, y: 1000 }, false);
        let hover = self.collides(m, pos, V2 { x: 1000, y: 1000 }, false).is_some();
        quad(
            v,
            pos.extend(1),
            size,
            Tex::Color(
                Rgba {
                    r: 500,
                    g: 500,
                    b: 500,
                    a: if hover {
                        600
                    } else {
                        1000
                    },
                },
            ),
        );
        let tsize = V2 { x: size.y * 45 / 100, y: size.y * 45 / 100 };
        let top = V2 { x: pos.x, y: pos.y + size.y };
        if let Some(cap) = self.max_group_size {
            proof {
                crate::fmt::lemma_dec_digits_len_u64(cap as int);
            }
            let cap_text = crate::fmt::u64_string(cap as u64);
            draw_string(
                v2,
                V2 { x: top.x, y: top.y - size.y / 2 }.extend(10),
                tsize,
                cap_text.as_str(),
            );
        } else {
            proof {
                assert(v2@ =~= v2_0 + Seq::<Vertex>::empty());
            }
        }
        draw_string(v2, V2 { x: top.x, y: top.y - size.y }.extend(10), tsize, self.name.as_str());
        proof {
            assert(v@ =~= v0 + move_option_verts(pos, m));
            assert(v2@ =~= v2_0 + move_option_overlay(*self, pos, m));
        }
    }
}

/// Concatenate the two passes for the single flush: overlay strictly
/// after opaque, so overlay geometry always paints on top regardless of
/// declared depth.
pub fn concat_passes(v: Vec<Vertex>, v2: Vec<Vertex>) -> (r: Vec<Vertex>)
    ensures
        r@ == v@ + v2@,
{
    let mut r = v;
    let mut i: usize = 0;
    let ghost head = r@;
    while i < v2.len()
        invariant
            i <= v2@.len(),
            r@ == head + v2@.take(i as int),
        decreases v2@.len() - i,
    {
        r.push(v2[i]);
        proof {
            assert(head + v2@.take(i as int) + seq![v2@[i as int]] =~= head + v2@.take(i + 1));
        }
        i += 1;
    }
    proof {
        assert(head + v2@.take(v2@.len() as int) =~= head + v2@);
    }
    r
}

} // verus!
