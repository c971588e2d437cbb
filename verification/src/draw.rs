//! Widget drawing: every visual entity emits its geometry into the
//! frame's two ordered lists — `v` for opaque world geometry, `v2` for
//! the overlay (tooltips, bars' text, floating panels) that must paint
//! over everything opaque.
//!
//! Both lists only ever grow: drawing appends, never rewrites, so the
//! frame is rebuilt from scratch each tick and flushed once.  When a
//! drag is in progress and a widget's body lies under the drag origin,
//! the body is drawn offset by the pointer's travel instead of at its
//! slot.

use vstd::prelude::*;
use crate::geom::{bounded, rect, V2, V3, COORD_BOUND, MOUSE_BOUND};
use crate::model::{Equipment, Perk, Unit, UnitView, TEXT_BOUND};
use crate::vertex::{
    draw_string, quad, quad_verts, string_verts, Rgba, Tex, Vertex,
};
use crate::view::ViewCtx;
use crate::layout::SIZE_BOUND;
use crate::widget::{
    equip_size_s, heal_cost_s, in_rect_i, perk_size_s, scale_wf, slot_size_s, unit_size_s, Button,
    DESC_WIDTH, PERK_SIZE,
};

verus! {

/// `new` is `old` with geometry appended after it: what every draw call
/// guarantees of the lists it is handed.
pub open spec fn extends(new: Seq<Vertex>, old: Seq<Vertex>) -> bool {
    &&& old.len() <= new.len()
    &&& new.take(old.len() as int) == old
}

/// Positions a drawing routine may be handed: anywhere on or near the
/// visible area, with room for a drag offset.
pub open spec fn draw_pos_wf(pos: V2) -> bool {
    bounded(pos, COORD_BOUND as int + 0x200_0000)
}

/// The geometry of a floating text panel: a backing quad one line high
/// and the panel's text over it, both in the overlay.
pub open spec fn text_panel_verts(pos: V3, size: V2, text: Seq<char>, back: Rgba) -> Seq<Vertex> {
    quad_verts(
        pos,
        (V2 { x: (DESC_WIDTH as i64 * size.x) as i64, y: size.y }),
        Tex::Color(back),
    ) + string_verts(pos, size, Tex::Texture(0), text)
}

/// Sizes of text panels stay small enough for the backing quad's
/// arithmetic.
pub open spec fn panel_size_wf(size: V2) -> bool {
    0 <= size.x <= 0x8000 && 0 <= size.y <= 0x8000
}

/// Appending preserves any earlier prefix: extension is transitive.
pub proof fn lemma_extends_trans(a: Seq<Vertex>, b: Seq<Vertex>, c: Seq<Vertex>)
    requires
        extends(b, a),
        extends(c, b),
    ensures
        extends(c, a),
{
    assert(c.take(a.len() as int) =~= a);
}

/// Draw a floating text panel into the overlay.
#[verifier::rlimit(100)]
#[verifier::spinoff_prover]
pub fn draw_text_panel(v2: &mut Vec<Vertex>, pos: V3, size: V2, text: &str, back: Rgba)
    requires
        draw_pos_wf((V2 { x: pos.x, y: pos.y })),
        panel_size_wf(size),
        text@.len() <= TEXT_BOUND,
    ensures
        final(v2)@ == old(v2)@ + text_panel_verts(pos, size, text@, back),
{
    let ghost v0 = v2@;
    let w = 20i64 * size.x;
    proof {
        assert(0 <= w <= 0xA0000);
        assert((DESC_WIDTH as i64) * size.x == w);
    }
    quad(v2, pos, V2 { x: w, y: size.y }, Tex::Color(back));
    draw_string(v2, pos, size, text);
    proof {
        assert(v2@ =~= v0 + text_panel_verts(pos, size, text@, back));
    }
}

/// The color of a widget body, opaque.
pub open spec fn body_color(c: [u32; 3]) -> Rgba {
    Rgba { r: c[0], g: c[1], b: c[2], a: 1000 }
}

/// A widget body color dimmed for a tooltip backing: eight tenths of
/// each channel at seven tenths opacity.
pub open spec fn back_color(c: [u32; 3]) -> Rgba {
    Rgba { r: (c[0] * 8 / 10) as u32, g: (c[1] * 8 / 10) as u32, b: (c[2] * 8 / 10) as u32, a: 700 }
}

fn body_color_exec(c: [u32; 3]) -> (r: Rgba)
    requires
        c[0] <= 2000,
        c[1] <= 2000,
        c[2] <= 2000,
    ensures
        r == body_color(c),
{
    Rgba { r: c[0], g: c[1], b: c[2], a: 1000 }
}

fn back_color_exec(c: [u32; 3]) -> (r: Rgba)
    requires
        c[0] <= 2000,
        c[1] <= 2000,
        c[2] <= 2000,
    ensures
        r == back_color(c),
{
    Rgba { r: c[0] * 8 / 10, g: c[1] * 8 / 10, b: c[2] * 8 / 10, a: 700 }
}

/// One stat row's text: the stat's name, a separator, and its value
/// with three decimal places.
pub open spec fn stat_text(k: crate::model::StatKind, v: u64) -> Seq<char> {
    k.spec_name() + ": "@ + crate::fmt::fixed3(v as int)
}

/// How many text rows an item tooltip stacks above its anchor: the
/// wrapped description's lines plus one row per secondary stat.
pub open spec fn equip_lines(e: Equipment) -> int {
    (if e.desc@.len() == 0 {
        0int
    } else {
        newline_count_spec(e.desc@, 0) + 1
    }) + (if e.stat1.secondary is Some {
        1int
    } else {
        0int
    }) + (if e.stat2.secondary is Some {
        1int
    } else {
        0int
    })
}

/// Where an item tooltip anchors: at the pointer, shifted left by the
/// panel width when it would pass the right edge or the item is being
/// dragged, and down by the block height when it would pass the top.
pub open spec fn equip_anchor(e: Equipment, m: V2, s: V2, shift_left: bool, ctx: ViewCtx) -> (
    int,
    int,
) {
    let cell = equip_size_s(s).0 * 3 / 10;
    let n = equip_lines(e);
    let px = if m.x + cell * 20 > ctx.aspect || shift_left {
        m.x - cell * 20
    } else {
        m.x as int
    };
    let py = if m.y + cell * (n + 3) > 16000 {
        m.y - cell * (n + 3)
    } else {
        m.y as int
    };
    (px, py)
}

/// The numeric rows of an item tooltip, stacked up from row `n` at the
/// anchor: repair cost, durability, then each stat line under its
/// optional secondary value.
pub open spec fn stat_lines_verts(e: Equipment, px: int, py: int, cell: int) -> Seq<Vertex> {
    let n = equip_lines(e);
    let s2: int = if e.stat2.secondary is Some {
        1
    } else {
        0
    };
    let s1: int = if e.stat1.secondary is Some {
        1
    } else {
        0
    };
    let size = V2 { x: cell as i64, y: cell as i64 };
    let back = back_color(e.color);
    text_panel_verts(
        (V3 { x: px as i64, y: (py + cell * n) as i64, z: 12 }),
        size,
        "repair cost: "@ + crate::fmt::fixed3(e.repair_cost as int),
        back,
    ) + text_panel_verts(
        (V3 { x: px as i64, y: (py + cell * (n + 1)) as i64, z: 12 }),
        size,
        "durability: "@ + crate::fmt::fixed3(e.durability as int),
        back,
    ) + (match e.stat2.secondary {
        Some((k, v)) => text_panel_verts(
            (V3 { x: px as i64, y: (py + cell * (n + 2)) as i64, z: 12 }),
            size,
            stat_text(k, v),
            back,
        ),
        None => Seq::empty(),
    }) + text_panel_verts(
        (V3 { x: px as i64, y: (py + cell * (n + s2 + 2)) as i64, z: 12 }),
        size,
        stat_text(e.stat2.kind, e.stat2.value),
        back,
    ) + (match e.stat1.secondary {
        Some((k, v)) => text_panel_verts(
            (V3 { x: px as i64, y: (py + cell * (n + s2 + 3)) as i64, z: 12 }),
            size,
            stat_text(k, v),
            back,
        ),
        None => Seq::empty(),
    }) + text_panel_verts(
        (V3 { x: px as i64, y: (py + cell * (n + s2 + s1 + 3)) as i64, z: 12 }),
        size,
        stat_text(e.stat1.kind, e.stat1.value),
        back,
    )
}

/// The whole item tooltip at its shifted anchor: the wrapped
/// description (when any) and the numeric rows, all in the overlay.
#[verifier::opaque]
pub open spec fn equip_tooltip_verts(e: Equipment, m: V2, s: V2, shift_left: bool, ctx: ViewCtx) -> Seq<Vertex> {
    let cell = equip_size_s(s).0 * 3 / 10;
    let a = equip_anchor(e, m, s, shift_left, ctx);
    (if e.desc@.len() > 0 {
        text_panel_verts(
            (V3 { x: a.0 as i64, y: a.1 as i64, z: 12 }),
            (V2 { x: cell as i64, y: cell as i64 }),
            e.desc@,
            back_color(e.color),
        )
    } else {
        Seq::empty()
    }) + stat_lines_verts(e, a.0, a.1, cell)
}

/// What an item's draw adds to the overlay: its tooltip, exactly when
/// the pointer rests on the drawn body.
#[verifier::opaque]
pub open spec fn equip_overlay(e: Equipment, pos: V2, s: V2, m: V2, drag_from: Option<V2>, drag: bool, ctx: ViewCtx) -> Seq<Vertex> {
    let p = equip_draw_pos(e, pos, s, m, drag_from, drag);
    let shift_left = match drag_from {
        Some(d) => drag && in_rect_i(d, pos.x as int, pos.y as int, equip_size_s(s).0, equip_size_s(s).1),
        None => false,
    };
    if in_rect_i(m, p.x as int, p.y as int, equip_size_s(s).0, equip_size_s(s).1) {
        equip_tooltip_verts(e, m, s, shift_left, ctx)
    } else {
        Seq::empty()
    }
}

impl Perk {
    /// Draw the perk's square; when the pointer rests on it, its
    /// wrapped description floats at the pointer in the overlay.
    pub fn draw(&self, v: &mut Vec<Vertex>, v2: &mut Vec<Vertex>, pos: V2, s: V2, m: V2, _drag_from: Option<V2>, _args: bool)
        requires
            self.wf(),
            self.color[0] <= 2000,
            self.color[1] <= 2000,
            self.color[2] <= 2000,
            scale_wf(s),
            draw_pos_wf(pos),
            bounded(m, MOUSE_BOUND as int),
        ensures
            final(v)@ == old(v)@ + quad_verts(
                pos.extend(12),
                (V2 { x: perk_size_s(s).0 as i64, y: perk_size_s(s).1 as i64 }),
                Tex::Color(body_color(self.color)),
            ),
            final(v2)@ == old(v2)@ + (if in_rect_i(
                m,
                pos.x as int,
                pos.y as int,
                perk_size_s(s).0,
                perk_size_s(s).1,
            ) {
                text_panel_verts(
                    m.extend(13),
                    (V2 { x: (PERK_SIZE * s.x / 1000 / 2) as i64, y: (PERK_SIZE * s.x / 1000 / 2) as i64 }),
                    self.desc@,
                    back_color(self.color),
                )
            } else {
                Seq::empty()
            }),
    {
        let size = self.size(s, false);
        quad(v, pos.extend(12), size, Tex::Color(body_color_exec(self.color)));
        let hover = self.collides(m, pos, s, false);
        if hover.is_some() {
            let half: i64 = PERK_SIZE * s.x / 1000 / 2;
            draw_text_panel(
                v2,
                m.extend(13),
                V2 { x: half, y: half },
                self.desc.as_str(),
                back_color_exec(self.color),
            );
        } else {
            proof {
                assert(v2@ =~= old(v2)@ + Seq::<Vertex>::empty());
            }
        }
    }
}

impl Equipment {
    /// Draw the item's square, shifted by the pointer's travel when it
    /// is the body under the drag origin; on mouse-over its wrapped
    /// description and stats float in the overlay.
    pub fn draw(&self, v: &mut Vec<Vertex>, v2: &mut Vec<Vertex>, pos: V2, s: V2, m: V2, drag_from: Option<V2>, drag: bool, ctx: ViewCtx)
        requires
            self.wf(),
            self.color[0] <= 2000,
            self.color[1] <= 2000,
            self.color[2] <= 2000,
            scale_wf(s),
            ctx.wf(),
            draw_pos_wf(pos),
            bounded(m, MOUSE_BOUND as int),
            match drag_from {
                Some(d) => bounded(d, MOUSE_BOUND as int),
                None => true,
            },
        ensures
            final(v)@ == old(v)@ + quad_verts(
                equip_draw_pos(*self, pos, s, m, drag_from, drag).extend(10),
                (V2 { x: equip_size_s(s).0 as i64, y: equip_size_s(s).1 as i64 }),
                Tex::Color(body_color(self.color)),
            ),
            final(v2)@ == old(v2)@ + equip_overlay(*self, pos, s, m, drag_from, drag, ctx),
            extends(final(v2)@, old(v2)@),
    {
        proof {
            reveal(equip_overlay);
        }
        let mut p = pos;
        let mut shift_left = false;
        if drag {
            if let Some(d) = drag_from {
                if self.collides(d, pos, s, false).is_some() {
                    p = V2 { x: pos.x + (m.x - d.x), y: pos.y + (m.y - d.y) };
                    shift_left = true;
                }
            }
        }
        let size = self.size(s, false);
        quad(v, p.extend(10), size, Tex::Color(body_color_exec(self.color)));
        if self.collides(m, p, s, false).is_some() {
            self.draw_mouseover(v2, m, s, shift_left, ctx);
        } else {
            proof {
                assert(v2@ =~= old(v2)@ + Seq::<Vertex>::empty());
            }
        }
        proof {
            assert(v2@.take(old(v2)@.len() as int) =~= old(v2)@);
        }
    }

    /// The item's stats and description floated at the pointer, shifted
    /// left or up when they would run past the visible area's edges, or
    /// left while the item itself is being dragged under the pointer.
    #[verifier::rlimit(100)]
    #[verifier::spinoff_prover]
    fn draw_mouseover(&self, v2: &mut Vec<Vertex>, m: V2, s: V2, shift_left: bool, ctx: ViewCtx)
        requires
            self.wf(),
            self.color[0] <= 2000,
            self.color[1] <= 2000,
            self.color[2] <= 2000,
            scale_wf(s),
            ctx.wf(),
            bounded(m, MOUSE_BOUND as int),
        ensures
            final(v2)@ == old(v2)@ + equip_tooltip_verts(*self, m, s, shift_left, ctx),
    {
        proof {
            reveal(equip_tooltip_verts);
        }
        let ghost v0 = v2@;
        let ew = equip_size_exec(s);
        let cell: i64 = ew * 3 / 10;
        let size = V2 { x: cell, y: cell };
        let mut px = m.x;
        let mut py = m.y;
        if px + cell * (DESC_WIDTH as i64) > ctx.right_edge() || shift_left {
            px = px - cell * (DESC_WIDTH as i64);
        }
        proof {
            reveal_strlit("repair cost: ");
            reveal_strlit("durability: ");
            reveal_strlit("attack");
            reveal_strlit("armor");
            reveal_strlit("block");
            reveal_strlit("regen");
            crate::fmt::lemma_fixed3_len(self.repair_cost as int);
            crate::fmt::lemma_fixed3_len(self.durability as int);
        }
        let lines = newline_count(self.desc.as_str());
        let n: i64 = if self.desc.as_str().unicode_len() == 0 {
            0
        } else {
            lines + 1
        };
        let n = n + (if self.stat1.secondary.is_some() {
            1i64
        } else {
            0
        }) + (if self.stat2.secondary.is_some() {
            1i64
        } else {
            0
        });
        proof {
            crate::geom::lemma_mul_le(cell as int, 3456, (n + 3) as int, 8192);
        }
        if py + cell * (n + 3) > ctx.top_edge() {
            py = py - cell * (n + 3);
        }
        proof {
            assert((px as int, py as int) == equip_anchor(*self, m, s, shift_left, ctx));
        }
        let back = back_color_exec(self.color);
        let base = V2 { x: px, y: py };
        if self.desc.as_str().unicode_len() > 0 {
            draw_text_panel(v2, base.extend(12), size, self.desc.as_str(), back);
        } else {
            proof {
                assert(v2@ =~= v0 + Seq::<Vertex>::empty());
            }
        }
        let ghost v1 = v2@;
        self.draw_stat_lines(v2, px, py, cell, n, size, back);
        proof {
            assert(v2@ =~= v0 + equip_tooltip_verts(*self, m, s, shift_left, ctx));
        }
    }

    /// The numeric rows of an item tooltip: repair cost, durability,
    /// and each stat line with its optional secondary value.
    #[verifier::rlimit(100)]
    #[verifier::spinoff_prover]
    fn draw_stat_lines(&self, v2: &mut Vec<Vertex>, px: i64, py: i64, cell: i64, n: i64, size: V2, back: Rgba)
        requires
            self.wf(),
            -0x2000_0000 <= px <= 0x2000_0000,
            -0x2000_0000 <= py <= 0x2000_0000,
            0 <= cell <= 3456,
            0 <= n <= 8000,
            n == equip_lines(*self),
            size == (V2 { x: cell, y: cell }),
            back == back_color(self.color),
        ensures
            final(v2)@ == old(v2)@ + stat_lines_verts(*self, px as int, py as int, cell as int),
    {
        proof {
            reveal_strlit("repair cost: ");
            reveal_strlit("durability: ");
            reveal_strlit("attack");
            reveal_strlit("armor");
            reveal_strlit("block");
            reveal_strlit("regen");
            crate::fmt::lemma_fixed3_len(self.repair_cost as int);
            crate::fmt::lemma_fixed3_len(self.durability as int);
        }
        let ghost v0 = v2@;
        let mut row: i64 = n;
        draw_text_panel(
            v2,
            V2 { x: px, y: row_y(py, cell, row) }.extend(12),
            size,
            crate::fmt::labelled("repair cost: ", crate::fmt::milli_3(self.repair_cost)).as_str(),
            back,
        );
        draw_text_panel(
            v2,
            V2 { x: px, y: row_y(py, cell, row + 1) }.extend(12),
            size,
            crate::fmt::labelled("durability: ", crate::fmt::milli_3(self.durability)).as_str(),
            back,
        );
        if let Some((k, val)) = self.stat2.secondary {
            draw_text_panel(
                v2,
                V2 { x: px, y: row_y(py, cell, row + 2) }.extend(12),
                size,
                stat_line_text(k.name(), val).as_str(),
                back,
            );
            row = row + 1;
        }
        draw_text_panel(
            v2,
            V2 { x: px, y: row_y(py, cell, row + 2) }.extend(12),
            size,
            stat_line_text(self.stat2.kind.name(), self.stat2.value).as_str(),
            back,
        );
        if let Some((k, val)) = self.stat1.secondary {
            draw_text_panel(
                v2,
                V2 { x: px, y: row_y(py, cell, row + 3) }.extend(12),
                size,
                stat_line_text(k.name(), val).as_str(),
                back,
            );
            row = row + 1;
        }
        draw_text_panel(
            v2,
            V2 { x: px, y: row_y(py, cell, row + 3) }.extend(12),
            size,
            stat_line_text(self.stat1.kind.name(), self.stat1.value).as_str(),
            back,
        );
        proof {
            assert(v2@ =~= v0 + stat_lines_verts(*self, px as int, py as int, cell as int));
        }
    }
}

/// Where an equipment body is drawn: at its slot, or shifted by the
/// pointer's travel while it is the body under the drag origin.
pub open spec fn equip_draw_pos(e: Equipment, pos: V2, s: V2, m: V2, drag_from: Option<V2>, drag: bool) -> V2 {
    match drag_from {
        Some(d) => if drag && in_rect_i(d, pos.x as int, pos.y as int, equip_size_s(s).0, equip_size_s(s).1) {
            V2 { x: (pos.x + (m.x - d.x)) as i64, y: (pos.y + (m.y - d.y)) as i64 }
        } else {
            pos
        },
        None => pos,
    }
}

/// An item's width under a per-mille scale.
fn equip_size_exec(s: V2) -> (r: i64)
    requires
        scale_wf(s),
    ensures
        r == equip_size_s(s).0,
        0 <= r <= SIZE_BOUND,
{
    crate::widget::EQUIP_SIZE * s.x / 1000 * 9 / 10
}

/// A vertical tooltip row position: `k` text cells above the anchor.
fn row_y(py: i64, cell: i64, k: i64) -> (r: i64)
    requires
        -0x2000_0000 <= py <= 0x2000_0000,
        0 <= cell <= 3456,
        0 <= k <= 8192,
    ensures
        r == py + cell * k,
        -0x2200_0000 <= r <= 0x2200_0000,
{
    proof {
        crate::geom::lemma_mul_le(cell as int, 3456, k as int, 8192);
    }
    py + cell * k
}

/// A stat label with its value: `name: value`.
fn stat_line_text(name: &str, val: u64) -> (r: String)
    requires
        name@.len() <= 64,
        val <= crate::model::STAT_BOUND,
    ensures
        r@ == name@ + ": "@ + crate::fmt::fixed3(val as int),
        r@.len() <= TEXT_BOUND,
{
    proof {
        reveal_strlit(": ");
        crate::fmt::lemma_fixed3_len(val as int);
    }
    let mut t = String::from_str(name);
    t.append(": ");
    t.append(crate::fmt::milli_3(val).as_str());
    t
}

/// The star ribbon summarizing a unit's perk count: one star per perk,
/// a line break before every tenth.
pub open spec fn star_spec(i: int) -> Seq<char>
    decreases i,
{
    if i <= 0 {
        Seq::empty()
    } else {
        star_spec(i - 1) + (if (i - 1) % 10 == 0 {
            seq!['\n', '*']
        } else {
            seq!['*']
        })
    }
}

fn star_string(n: usize) -> (r: String)
    requires
        n <= crate::model::LIST_BOUND,
    ensures
        r@ == star_spec(n as int),
        r@.len() <= 2 * n,
{
    let mut cs: Vec<char> = Vec::new();
    let mut i: usize = 0;
    while i < n
        invariant
            i <= n <= crate::model::LIST_BOUND,
            cs@ == star_spec(i as int),
            cs@.len() <= 2 * i,
        decreases n - i,
    {
        if i % 10 == 0 {
            cs.push('\n');
        }
        cs.push('*');
        proof {
            assert(cs@ =~= star_spec(i + 1));
        }
        i += 1;
    }
    crate::wrap::chars_to_string(&cs)
}

/// The color a unit's class band shows: its class color when revealed,
/// neutral grey otherwise.
pub open spec fn class_band_color(uv: UnitView) -> Rgba {
    if uv.class_revealed {
        match uv.unit.class {
            crate::model::Class::Melee => (Rgba { r: 590, g: 250, b: 250, a: 1000 }),
            crate::model::Class::Ranged => (Rgba { r: 50, g: 240, b: 60, a: 1000 }),
        }
    } else {
        Rgba { r: 500, g: 500, b: 500, a: 1000 }
    }
}

/// The color a unit's element band shows: its element color when
/// revealed, neutral grey otherwise.
pub open spec fn element_band_color(uv: UnitView) -> Rgba {
    if uv.element_revealed {
        match uv.unit.element {
            crate::model::Element::Red => (Rgba { r: 1000, g: 0, b: 0, a: 1000 }),
            crate::model::Element::Green => (Rgba { r: 0, g: 1000, b: 0, a: 1000 }),
            crate::model::Element::Blue => (Rgba { r: 0, g: 0, b: 1000, a: 1000 }),
        }
    } else {
        Rgba { r: 500, g: 500, b: 500, a: 1000 }
    }
}

/// The opaque geometry of a unit body: three stacked bands — class,
/// element, and hit points — with the healing-cap and current-health
/// bars over the third band when the health fraction is revealed.
/// Redacted attributes show as grey and expose no bar.
#[verifier::opaque]
pub open spec fn unit_view_quads(uv: UnitView, pos: V2, s: V2) -> Seq<Vertex> {
    let w = unit_size_s(s).0;
    let h3 = unit_size_s(s).1 / 3;
    let band = V2 { x: w as i64, y: h3 as i64 };
    let o1 = V2 { x: pos.x, y: (pos.y + h3) as i64 };
    let o2 = V2 { x: pos.x, y: (pos.y + 2 * h3) as i64 };
    quad_verts(pos.spec_extend(1), band, Tex::Color(class_band_color(uv))) + quad_verts(
        o1.spec_extend(1),
        band,
        Tex::Color(element_band_color(uv)),
    ) + quad_verts(
        o2.spec_extend(1),
        band,
        Tex::Color(
            if uv.frac_hp_revealed {
                Rgba { r: 300, g: 300, b: 300, a: 1000 }
            } else {
                Rgba { r: 500, g: 500, b: 500, a: 1000 }
            },
        ),
    ) + (if uv.frac_hp_revealed {
        quad_verts(
            o2.spec_extend(2),
            (V2 { x: (w * uv.unit.hp_lim as int / uv.unit.max_hp as int) as i64, y: h3 as i64 }),
            Tex::Color(Rgba { r: 1000, g: 0, b: 1000, a: 1000 }),
        ) + quad_verts(
            o2.spec_extend(2),
            (V2 { x: (w * uv.unit.hp as int / uv.unit.max_hp as int) as i64, y: h3 as i64 }),
            Tex::Color(Rgba { r: 1000, g: 1000, b: 0, a: 1000 }),
        )
    } else {
        Seq::empty()
    })
}

/// Where the attribute panel anchors: at the pointer, shifted down by
/// the panel height when it would pass the top edge, and left by the
/// panel width when it would pass the right edge or the unit is being
/// dragged.
pub open spec fn attr_anchor(m: V2, shift_left: bool, ctx: ViewCtx) -> (int, int) {
    let py = if m.y + 7200 > 16000 {
        m.y - 7200
    } else {
        m.y as int
    };
    let px = if m.x + 19200 > ctx.aspect || shift_left {
        m.x - 19200
    } else {
        m.x as int
    };
    (px, py)
}

/// What the class line shows: the class name when revealed, unknown
/// otherwise.
pub open spec fn class_text(uv: UnitView) -> Seq<char> {
    if uv.class_revealed {
        match uv.unit.class {
            crate::model::Class::Melee => "melee"@,
            crate::model::Class::Ranged => "ranged"@,
        }
    } else {
        "??"@
    }
}

/// What the element line shows: the element name when revealed,
/// unknown otherwise.
pub open spec fn element_text(uv: UnitView) -> Seq<char> {
    if uv.element_revealed {
        match uv.unit.element {
            crate::model::Element::Red => "red"@,
            crate::model::Element::Green => "green"@,
            crate::model::Element::Blue => "blue"@,
        }
    } else {
        "??"@
    }
}

/// What the hit-point line shows: current over maximum when the
/// fraction is revealed, unknown over maximum otherwise.
pub open spec fn hp_text(uv: UnitView) -> Seq<char> {
    if uv.frac_hp_revealed {
        "hp: "@ + crate::fmt::fixed2(uv.unit.hp as int) + "/"@ + crate::fmt::fixed2(
            uv.unit.max_hp as int,
        )
    } else {
        "hp: ??/"@ + crate::fmt::fixed2(uv.unit.max_hp as int)
    }
}

/// The floating attribute panel at its shifted anchor: a translucent
/// backing and one line per attribute, redacted fields shown as
/// unknown.  Unrevealed values cannot flow into these vertices.
pub open spec fn attr_panel_verts(uv: UnitView, m: V2, shift_left: bool, ctx: ViewCtx) -> Seq<Vertex> {
    let a = attr_anchor(m, shift_left, ctx);
    let px = a.0;
    let py = a.1;
    let tsize = V2 { x: 1371, y: 1371 };
    quad_verts(
        (V3 { x: px as i64, y: py as i64, z: 10 }),
        (V2 { x: 19200, y: 7200 }),
        Tex::Color(Rgba { r: 300, g: 300, b: 300, a: 750 }),
    ) + string_verts(
        (V3 { x: px as i64, y: py as i64, z: 11 }),
        tsize,
        Tex::Texture(0),
        "class: "@ + class_text(uv),
    ) + string_verts(
        (V3 { x: px as i64, y: (py + 1371) as i64, z: 11 }),
        tsize,
        Tex::Texture(0),
        "element: "@ + element_text(uv),
    ) + string_verts(
        (V3 { x: px as i64, y: (py + 2 * 1371) as i64, z: 11 }),
        tsize,
        Tex::Texture(0),
        "perks: "@ + crate::fmt::dec_digits(uv.unit.perks@.len() as int),
    ) + string_verts(
        (V3 { x: px as i64, y: (py + 3 * 1371) as i64, z: 11 }),
        tsize,
        Tex::Texture(0),
        "attack: "@ + crate::fmt::fixed2(uv.unit.attack as int),
    ) + string_verts(
        (V3 { x: px as i64, y: (py + 4 * 1371) as i64, z: 11 }),
        tsize,
        Tex::Texture(0),
        "armor: "@ + crate::fmt::fixed2(uv.unit.armor as int),
    ) + string_verts(
        (V3 { x: px as i64, y: (py + 5 * 1371) as i64, z: 11 }),
        tsize,
        Tex::Texture(0),
        "block: "@ + crate::fmt::fixed2(uv.unit.block as int),
    ) + string_verts(
        (V3 { x: px as i64, y: (py + 6 * 1371) as i64, z: 11 }),
        tsize,
        Tex::Texture(0),
        "regen: "@ + crate::fmt::fixed2(uv.unit.regen as int),
    ) + string_verts(
        (V3 { x: px as i64, y: (py + 7 * 1371) as i64, z: 11 }),
        tsize,
        Tex::Texture(0),
        hp_text(uv),
    )
}

/// What a redacted unit's draw adds to the overlay: the perk-count
/// ribbon, and the attribute panel exactly when the pointer rests on
/// the body.
#[verifier::opaque]
pub open spec fn unit_view_overlay(uv: UnitView, pos: V2, s: V2, m: V2, shift_left: bool, ctx: ViewCtx) -> Seq<Vertex> {
    let h3 = unit_size_s(s).1 / 3;
    string_verts(
        (V3 { x: pos.x, y: (pos.y + 3 * h3) as i64, z: 2 }),
        (V2 { x: (480 * s.x / 1000) as i64, y: (480 * s.y / 1000) as i64 }),
        Tex::Texture(0),
        star_spec(uv.unit.perks@.len() as int),
    ) + (if in_rect_i(m, pos.x as int, pos.y as int, unit_size_s(s).0, unit_size_s(s).1) {
        attr_panel_verts(uv, m, shift_left, ctx)
    } else {
        Seq::empty()
    })
}

impl UnitView {
    /// Draw the three redaction-aware bands of the unit's body with its
    /// health bars, the perk-count ribbon above them, and — while the
    /// pointer rests on the body — the floating attribute panel,
    /// shifted left or up to stay inside the visible area.
    #[verifier::rlimit(100)]
    #[verifier::spinoff_prover]
    pub fn draw(&self, v: &mut Vec<Vertex>, v2: &mut Vec<Vertex>, pos: V2, s: V2, m: V2, _drag_from: Option<V2>, mouseover_shift_left: bool, ctx: ViewCtx)
        requires
            self.wf(),
            scale_wf(s),
            ctx.wf(),
            draw_pos_wf(pos),
            bounded(m, MOUSE_BOUND as int),
        ensures
            final(v)@ == old(v)@ + unit_view_quads(*self, pos, s),
            final(v2)@ == old(v2)@ + unit_view_overlay(*self, pos, s, m, mouseover_shift_left, ctx),
            extends(final(v2)@, old(v2)@),
    {
        proof {
            reveal(unit_view_quads);
            reveal(unit_view_overlay);
        }
        let ghost v0 = v@;
        let size = self.size(s, false);
        let band = V2 { x: size.x, y: size.y / 3 };
        let o1 = V2 { x: pos.x, y: pos.y + band.y };
        let o2 = V2 { x: pos.x, y: pos.y + 2 * band.y };
        let class_c = if self.class_revealed {
            match self.unit.class {
                crate::model::Class::Melee => Rgba { r: 590, g: 250, b: 250, a: 1000 },
                crate::model::Class::Ranged => Rgba { r: 50, g: 240, b: 60, a: 1000 },
            }
        } else {
            Rgba { r: 500, g: 500, b: 500, a: 1000 }
        };
        let elem_c = if self.element_revealed {
            match self.unit.element {
                crate::model::Element::Red => Rgba { r: 1000, g: 0, b: 0, a: 1000 },
                crate::model::Element::Green => Rgba { r: 0, g: 1000, b: 0, a: 1000 },
                crate::model::Element::Blue => Rgba { r: 0, g: 0, b: 1000, a: 1000 },
            }
        } else {
            Rgba { r: 500, g: 500, b: 500, a: 1000 }
        };
        quad(v, pos.extend(1), band, Tex::Color(class_c));
        quad(v, o1.extend(1), band, Tex::Color(elem_c));
        quad(
            v,
            o2.extend(1),
            band,
            Tex::Color(
                if self.frac_hp_revealed {
                    Rgba { r: 300, g: 300, b: 300, a: 1000 }
                } else {
                    Rgba { r: 500, g: 500, b: 500, a: 1000 }
                },
            ),
        );
        if self.frac_hp_revealed {
            proof {
                crate::geom::lemma_mul_le(
                    size.x as int,
                    crate::layout::SIZE_BOUND as int,
                    self.unit.hp_lim as int,
                    crate::model::STAT_BOUND as int,
                );
                crate::geom::lemma_mul_le(
                    size.x as int,
                    crate::layout::SIZE_BOUND as int,
                    self.unit.hp as int,
                    crate::model::STAT_BOUND as int,
                );
            }
            let lim_w = size.x * (self.unit.hp_lim as i64) / (self.unit.max_hp as i64);
            let hp_w = size.x * (self.unit.hp as i64) / (self.unit.max_hp as i64);
            proof {
                assert(0 <= lim_w <= size.x && 0 <= hp_w <= size.x) by (nonlinear_arith)
                    requires
                        0 <= size.x,
                        0 < self.unit.max_hp,
                        self.unit.hp_lim <= self.unit.max_hp,
                        self.unit.hp <= self.unit.max_hp,
                        lim_w == size.x * (self.unit.hp_lim as int) / (self.unit.max_hp as int),
                        hp_w == size.x * (self.unit.hp as int) / (self.unit.max_hp as int),
                ;
            }
            quad(
                v,
                o2.extend(2),
                V2 { x: lim_w, y: band.y },
                Tex::Color(Rgba { r: 1000, g: 0, b: 1000, a: 1000 }),
            );
            quad(
                v,
                o2.extend(2),
                V2 { x: hp_w, y: band.y },
                Tex::Color(Rgba { r: 1000, g: 1000, b: 0, a: 1000 }),
            );
        }
        proof {
            assert(v@ =~= v0 + unit_view_quads(*self, pos, s));
        }
        let stars = star_string(self.unit.perks.len());
        let tsize = V2 { x: 480 * s.x / 1000, y: 480 * s.y / 1000 };
        let o3 = V2 { x: pos.x, y: pos.y + 3 * band.y };
        draw_string(v2, o3.extend(2), tsize, stars.as_str());
        let body_hit = rect(m, pos, size);
        if body_hit {
            self.draw_attributes(v2, m, mouseover_shift_left, ctx);
        }
        proof {
            assert(v2@ =~= old(v2)@ + unit_view_overlay(
                *self,
                pos,
                s,
                m,
                mouseover_shift_left,
                ctx,
            ));
            assert(v2@.take(old(v2)@.len() as int) =~= old(v2)@);
        }
    }

    /// The floating attribute panel: a translucent backing and one line
    /// per attribute, redacted fields shown as unknown.
    #[verifier::rlimit(100)]
    #[verifier::spinoff_prover]
    fn draw_attributes(&self, v2: &mut Vec<Vertex>, m: V2, mouseover_shift_left: bool, ctx: ViewCtx)
        requires
            self.wf(),
            ctx.wf(),
            bounded(m, MOUSE_BOUND as int),
        ensures
            final(v2)@ == old(v2)@ + attr_panel_verts(*self, m, mouseover_shift_left, ctx),
    {
        proof {
            reveal_strlit("class: ");
            reveal_strlit("element: ");
            reveal_strlit("perks: ");
            reveal_strlit("attack: ");
            reveal_strlit("armor: ");
            reveal_strlit("block: ");
            reveal_strlit("regen: ");
            reveal_strlit("hp: ");
            reveal_strlit("melee");
            reveal_strlit("ranged");
            reveal_strlit("red");
            reveal_strlit("green");
            reveal_strlit("blue");
            reveal_strlit("??");
            reveal_strlit("/");
            reveal_strlit("??/");
            crate::fmt::lemma_fixed2_len(self.unit.attack as int);
            crate::fmt::lemma_fixed2_len(self.unit.armor as int);
            crate::fmt::lemma_fixed2_len(self.unit.block as int);
            crate::fmt::lemma_fixed2_len(self.unit.regen as int);
            crate::fmt::lemma_fixed2_len(self.unit.hp as int);
            crate::fmt::lemma_fixed2_len(self.unit.max_hp as int);
            crate::fmt::lemma_dec_digits_len_u64(self.unit.perks@.len() as int);
        }
        let ghost v0 = v2@;
        let mut px = m.x;
        let mut py = m.y;
        if py + 7200 > ctx.top_edge() {
            py = py - 7200;
        }
        if px + 19200 > ctx.right_edge() || mouseover_shift_left {
            px = px - 19200;
        }
        let anchor = V2 { x: px, y: py };
        quad(
            v2,
            anchor.extend(10),
            V2 { x: 19200, y: 7200 },
            Tex::Color(Rgba { r: 300, g: 300, b: 300, a: 750 }),
        );
        let tsize = V2 { x: 1371, y: 1371 };
        let class_text = if self.class_revealed {
            match self.unit.class {
                crate::model::Class::Melee => "melee",
                crate::model::Class::Ranged => "ranged",
            }
        } else {
            "??"
        };
        let elem_text = if self.element_revealed {
            match self.unit.element {
                crate::model::Element::Red => "red",
                crate::model::Element::Green => "green",
                crate::model::Element::Blue => "blue",
            }
        } else {
            "??"
        };
        draw_string(
            v2,
            anchor.extend(11),
            tsize,
            crate::fmt::labelled("class: ", String::from_str(class_text)).as_str(),
        );
        draw_string(
            v2,
            V2 { x: px, y: py + 1371 }.extend(11),
            tsize,
            crate::fmt::labelled("element: ", String::from_str(elem_text)).as_str(),
        );
        draw_string(
            v2,
            V2 { x: px, y: py + 2 * 1371 }.extend(11),
            tsize,
            crate::fmt::labelled(
                "perks: ",
                crate::fmt::u64_string(self.unit.perks.len() as u64),
            ).as_str(),
        );
        draw_string(
            v2,
            V2 { x: px, y: py + 3 * 1371 }.extend(11),
            tsize,
            crate::fmt::labelled("attack: ", crate::fmt::milli_2(self.unit.attack)).as_str(),
        );
        draw_string(
            v2,
            V2 { x: px, y: py + 4 * 1371 }.extend(11),
            tsize,
            crate::fmt::labelled("armor: ", crate::fmt::milli_2(self.unit.armor)).as_str(),
        );
        draw_string(
            v2,
            V2 { x: px, y: py + 5 * 1371 }.extend(11),
            tsize,
            crate::fmt::labelled("block: ", crate::fmt::milli_2(self.unit.block)).as_str(),
        );
        draw_string(
            v2,
            V2 { x: px, y: py + 6 * 1371 }.extend(11),
            tsize,
            crate::fmt::labelled("regen: ", crate::fmt::milli_2(self.unit.regen)).as_str(),
        );
        let hp_text = if self.frac_hp_revealed {
            let mut t = crate::fmt::labelled("hp: ", crate::fmt::milli_2(self.unit.hp));
            t.append("/");
            t.append(crate::fmt::milli_2(self.unit.max_hp).as_str());
            t
        } else {
            crate::fmt::labelled("hp: ??/", crate::fmt::milli_2(self.unit.max_hp))
        };
        proof {
            reveal_strlit("hp: ??/");
        }
        draw_string(v2, V2 { x: px, y: py + 7 * 1371 }.extend(11), tsize, hp_text.as_str());
        proof {
            assert(v2@ =~= v0 + attr_panel_verts(*self, m, mouseover_shift_left, ctx));
        }
    }
}

/// A button fill dimmed while the pointer rests on it: its alpha at
/// six tenths.
pub open spec fn button_dim(tex: Tex, hover: bool) -> Tex {
    match tex {
        Tex::Color(c) => Tex::Color(
            Rgba {
                r: c.r,
                g: c.g,
                b: c.b,
                a: (if hover {
                    (c.a * 6 / 10) as u32
                } else {
                    c.a
                }),
            },
        ),
        Tex::Texture(n) => Tex::Texture(n),
        Tex::Blend(c, n, bl) => Tex::Blend(
            (Rgba {
                r: c.r,
                g: c.g,
                b: c.b,
                a: (if hover {
                    (c.a * 6 / 10) as u32
                } else {
                    c.a
                }),
            }),
            n,
            bl,
        ),
    }
}

impl Button {
    /// Draw the button's body at its edge-adjusted position — shifted
    /// by the pointer's travel while dragged — dimmed under the
    /// pointer, with its label centered on it in the overlay.
    #[verifier::rlimit(100)]
    pub fn draw(&self, v: &mut Vec<Vertex>, v2: &mut Vec<Vertex>, m: V2, drag_from: Option<V2>, drag: bool, ctx: ViewCtx)
        requires
            self.wf(),
            crate::vertex::tex_wf(self.tex),
            ctx.wf(),
            bounded(m, MOUSE_BOUND as int),
            match drag_from {
                Some(d) => bounded(d, MOUSE_BOUND as int),
                None => true,
            },
        ensures
            ({
                let base = self.pos_spec(ctx);
                let hover = in_rect_i(
                    m,
                    base.x as int,
                    base.y as int,
                    self.size.x as int,
                    self.size.y as int,
                );
                let p = match drag_from {
                    Some(d) => if drag && in_rect_i(
                        d,
                        base.x as int,
                        base.y as int,
                        self.size.x as int,
                        self.size.y as int,
                    ) {
                        V2 { x: (base.x + (m.x - d.x)) as i64, y: (base.y + (m.y - d.y)) as i64 }
                    } else {
                        base
                    },
                    None => base,
                };
                final(v)@ == old(v)@ + quad_verts(
                    p.spec_extend(1),
                    self.size,
                    button_dim(self.tex, hover),
                ) && final(v2)@ == old(v2)@ + button_label_verts(*self, p)
            }),
            extends(final(v2)@, old(v2)@),
    {
        let base = self.pos(ctx);
        let hover = self.collides(m, ctx).is_some();
        let tex = match self.tex {
            Tex::Color(c) => Tex::Color(
                Rgba {
                    r: c.r,
                    g: c.g,
                    b: c.b,
                    a: if hover {
                        c.a * 6 / 10
                    } else {
                        c.a
                    },
                },
            ),
            Tex::Texture(n) => Tex::Texture(n),
            Tex::Blend(c, n, bl) => Tex::Blend(
                Rgba {
                    r: c.r,
                    g: c.g,
                    b: c.b,
                    a: if hover {
                        c.a * 6 / 10
                    } else {
                        c.a
                    },
                },
                n,
                bl,
            ),
        };
        let mut p = base;
        if drag {
            if let Some(d) = drag_from {
                if self.collides(d, ctx).is_some() {
                    p = V2 { x: base.x + (m.x - d.x), y: base.y + (m.y - d.y) };
                }
            }
        }
        quad(v, p.extend(1), V2 { x: self.size.x, y: self.size.y }, tex);
        let len = self.name.as_str().unicode_len();
        if len > 0 {
            let fit = (self.size.x * 9 / 10) / (len as i64);
            let tall = self.size.y * 9 / 10;
            let csize = if fit < tall {
                fit
            } else {
                tall
            };
            proof {
                crate::geom::lemma_mul_le(len as int, 8192, csize as int, 0x8000);
                assert(len as int * csize <= self.size.x * 9 / 10) by (nonlinear_arith)
                    requires
                        1 <= len as int,
                        0 <= csize,
                        csize <= (self.size.x * 9 / 10) / (len as int),
                        0 <= self.size.x,
                ;
            }
            let tp = V2 {
                x: p.x + (self.size.x - (len as i64) * csize) / 2,
                y: p.y + (self.size.y - csize) / 2,
            };
            draw_string(v2, tp.extend(10), V2 { x: csize, y: csize }, self.name.as_str());
        } else {
            proof {
                assert(v2@ =~= old(v2)@ + Seq::<Vertex>::empty());
            }
        }
        proof {
            assert(v2@.take(old(v2)@.len() as int) =~= old(v2)@);
        }
    }
}

/// `b` carries the same data as `a`, field for field.
pub open spec fn unit_like(a: Unit, b: Unit) -> bool {
    &&& b.hp == a.hp
    &&& b.max_hp == a.max_hp
    &&& b.hp_lim == a.hp_lim
    &&& b.class == a.class
    &&& b.element == a.element
    &&& b.attack == a.attack
    &&& b.armor == a.armor
    &&& b.block == a.block
    &&& b.regen == a.regen
    &&& b.perks@ == a.perks@
    &&& match (a.perk_choice, b.perk_choice) {
        (Some(ap), Some(bp)) => bp@ == ap@,
        (None, None) => true,
        _ => false,
    }
    &&& b.equipment@ == a.equipment@
}

/// The glyphs of a label, centered on a body of extent `size` at `p`:
/// the character cell shrinks to fit the label inside nine tenths of
/// the body.  An empty label draws nothing.
pub open spec fn label_verts(name: Seq<char>, size: V2, p: V2) -> Seq<Vertex> {
    let len = name.len() as int;
    if len == 0 {
        Seq::empty()
    } else {
        let fit = (size.x * 9 / 10) / len;
        let tall = size.y * 9 / 10;
        let csize: int = if fit < tall {
            fit
        } else {
            tall
        };
        string_verts(
            (V3 {
                x: (p.x + (size.x - len * csize) / 2) as i64,
                y: (p.y + (size.y - csize) / 2) as i64,
                z: 10,
            }),
            (V2 { x: csize as i64, y: csize as i64 }),
            Tex::Texture(0),
            name,
        )
    }
}

/// A button's label: its name centered on its body.
pub open spec fn button_label_verts(b: Button, p: V2) -> Seq<Vertex> {
    label_verts(b.name@, b.size, p)
}

/// An exact duplicate of a unit, data for data.
pub fn dup_unit(u: &Unit) -> (r: Unit)
    ensures
        unit_like(*u, r),
{
    let perk_choice = match &u.perk_choice {
        Some(ps) => Some(crate::widget::dup_perks(ps)),
        None => None,
    };
    Unit {
        hp: u.hp,
        max_hp: u.max_hp,
        hp_lim: u.hp_lim,
        class: u.class,
        element: u.element,
        attack: u.attack,
        armor: u.armor,
        block: u.block,
        regen: u.regen,
        perks: crate::widget::dup_perks(&u.perks),
        perk_choice,
        equipment: crate::widget::dup_slots(&u.equipment),
    }
}

/// Where a unit's body is drawn: at its slot, or shifted by the
/// pointer's travel while it is the body under the drag origin.
pub open spec fn unit_draw_pos(u: Unit, pos: V2, s: V2, m: V2, drag_from: Option<V2>) -> V2 {
    match drag_from {
        Some(d) => if in_rect_i(d, pos.x as int, pos.y as int, unit_size_s(s).0, unit_size_s(s).1) {
            V2 { x: (pos.x + (m.x - d.x)) as i64, y: (pos.y + (m.y - d.y)) as i64 }
        } else {
            pos
        },
        None => pos,
    }
}

/// Perks have bounded colors when well formed under the world's
/// invariant; drawing requires it of every perk it shows.
pub open spec fn perk_colors_wf(ps: Seq<Perk>) -> bool {
    forall|i: int| 0 <= i < ps.len() ==> {
        &&& (#[trigger] ps[i]).color[0] <= 2000
        &&& ps[i].color[1] <= 2000
        &&& ps[i].color[2] <= 2000
    }
}

pub open spec fn equip_colors_wf(sl: Seq<Option<Equipment>>) -> bool {
    forall|i: int| 0 <= i < sl.len() ==> match #[trigger] sl[i] {
        Some(e) => e.color[0] <= 2000 && e.color[1] <= 2000 && e.color[2] <= 2000,
        None => true,
    }
}

/// Redaction noninterference: two views that agree on their revealed
/// flags, on every always-shown attribute, and on each attribute that
/// is revealed, draw the same vertices — an unrevealed value cannot
/// flow into the rendered output, opaque or overlay.
#[verifier::rlimit(100)]
#[verifier::spinoff_prover]
pub proof fn lemma_redaction_noninterference(a: UnitView, b: UnitView, pos: V2, s: V2, m: V2, shift_left: bool, ctx: ViewCtx)
    requires
        a.class_revealed == b.class_revealed,
        a.element_revealed == b.element_revealed,
        a.frac_hp_revealed == b.frac_hp_revealed,
        a.class_revealed ==> a.unit.class == b.unit.class,
        a.element_revealed ==> a.unit.element == b.unit.element,
        a.frac_hp_revealed ==> a.unit.hp == b.unit.hp && a.unit.hp_lim == b.unit.hp_lim,
        a.unit.max_hp == b.unit.max_hp,
        a.unit.attack == b.unit.attack,
        a.unit.armor == b.unit.armor,
        a.unit.block == b.unit.block,
        a.unit.regen == b.unit.regen,
        a.unit.perks@.len() == b.unit.perks@.len(),
    ensures
        unit_view_quads(a, pos, s) == unit_view_quads(b, pos, s),
        unit_view_overlay(a, pos, s, m, shift_left, ctx) == unit_view_overlay(
            b,
            pos,
            s,
            m,
            shift_left,
            ctx,
        ),
{
    reveal(unit_view_quads);
    reveal(unit_view_overlay);
    assert(unit_view_quads(a, pos, s) =~= unit_view_quads(b, pos, s));
    assert(class_text(a) == class_text(b));
    assert(element_text(a) == element_text(b));
    assert(hp_text(a) == hp_text(b));
    assert(attr_panel_verts(a, m, shift_left, ctx) =~= attr_panel_verts(b, m, shift_left, ctx));
    assert(unit_view_overlay(a, pos, s, m, shift_left, ctx) =~= unit_view_overlay(
        b,
        pos,
        s,
        m,
        shift_left,
        ctx,
    ));
}

/// A unit seen with everything revealed: how a unit draws itself.
pub open spec fn revealed_view(u: Unit) -> UnitView {
    UnitView { unit: u, class_revealed: true, element_revealed: true, frac_hp_revealed: true }
}

/// Whether the drag origin rests on a unit body at `pos`.
pub open spec fn unit_drag_hit(pos: V2, s: V2, drag_from: Option<V2>) -> bool {
    match drag_from {
        Some(d) => in_rect_i(d, pos.x as int, pos.y as int, unit_size_s(s).0, unit_size_s(s).1),
        None => false,
    }
}

/// The squares of a perk row from slot `i` on: one colored quad per
/// perk, one slot width plus the sibling gap apart.
pub open spec fn perk_row_verts(ps: Seq<Perk>, bx: int, by: int, s: V2) -> Seq<Vertex>
    decreases ps.len(),
{
    if ps.len() == 0 {
        Seq::empty()
    } else {
        let step = perk_size_s(s).0 * 11 / 10;
        quad_verts(
            (V3 { x: bx as i64, y: by as i64, z: 12 }),
            (V2 { x: perk_size_s(s).0 as i64, y: perk_size_s(s).1 as i64 }),
            Tex::Color(body_color(ps[0].color)),
        ) + perk_row_verts(ps.drop_first(), bx + step, by, s)
    }
}

/// The overlay of a perk row: each hovered perk's floating description.
pub open spec fn perk_row_overlay(ps: Seq<Perk>, bx: int, by: int, s: V2, m: V2) -> Seq<Vertex>
    decreases ps.len(),
{
    if ps.len() == 0 {
        Seq::empty()
    } else {
        let step = perk_size_s(s).0 * 11 / 10;
        let half = PERK_SIZE * s.x / 1000 / 2;
        (if in_rect_i(m, bx, by, perk_size_s(s).0, perk_size_s(s).1) {
            text_panel_verts(
                m.spec_extend(13),
                (V2 { x: half as i64, y: half as i64 }),
                ps[0].desc@,
                back_color(ps[0].color),
            )
        } else {
            Seq::empty()
        }) + perk_row_overlay(ps.drop_first(), bx + step, by, s, m)
    }
}

/// The heal affordance's body: a green button over exactly the
/// rectangle the unit's hit-test maps to region id 1, dimmed under the
/// pointer; nothing when the unit is unhurt.
#[verifier::opaque]
pub open spec fn heal_quad(u: Unit, p: V2, s: V2, m: V2) -> Seq<Vertex> {
    let (w, h) = unit_size_s(s);
    if heal_cost_s(u) > 0 {
        quad_verts(
            (V3 { x: p.x, y: (p.y + h + 1600) as i64, z: 1 }),
            (V2 { x: w as i64, y: (h / 6) as i64 }),
            button_dim(
                Tex::Color(Rgba { r: 0, g: 1000, b: 0, a: 1000 }),
                in_rect_i(m, p.x as int, p.y + h + 1600, w, h / 6),
            ),
        )
    } else {
        Seq::empty()
    }
}

/// The heal affordance's label: the healing price, centered.
#[verifier::opaque]
pub open spec fn heal_label(u: Unit, p: V2, s: V2) -> Seq<Vertex> {
    let (w, h) = unit_size_s(s);
    if heal_cost_s(u) > 0 {
        label_verts(
            "heal: "@ + crate::fmt::fixed2(heal_cost_s(u)),
            (V2 { x: w as i64, y: (h / 6) as i64 }),
            (V2 { x: p.x, y: (p.y + h + 1600) as i64 }),
        )
    } else {
        Seq::empty()
    }
}

/// Everything a unit's draw adds to the opaque pass: its fully revealed
/// body (shifted by the pointer's travel while dragged), any pending
/// perk choice in a row above it, and — when the heal affordance is
/// active — its heal button.
#[verifier::opaque]
pub open spec fn unit_draw_verts(u: Unit, pos: V2, s: V2, m: V2, drag_from: Option<V2>, heal_button: bool) -> Seq<Vertex> {
    let p = unit_draw_pos(u, pos, s, m, drag_from);
    let ph = perk_size_s(s).1;
    unit_view_quads(revealed_view(u), p, s) + (match u.perk_choice {
        Some(ps) => perk_row_verts(ps@, p.x as int, p.y - ph * 11 / 10, s),
        None => Seq::empty(),
    }) + (if heal_button {
        heal_quad(u, p, s, m)
    } else {
        Seq::empty()
    })
}

/// Everything a unit's draw adds to the overlay: the body's ribbon and
/// attribute panel (the panel shifted away from a dragged body), the
/// perk choices' descriptions, and the heal button's label.
#[verifier::opaque]
pub open spec fn unit_draw_overlay(u: Unit, pos: V2, s: V2, m: V2, drag_from: Option<V2>, heal_button: bool, ctx: ViewCtx) -> Seq<Vertex> {
    let p = unit_draw_pos(u, pos, s, m, drag_from);
    let ph = perk_size_s(s).1;
    unit_view_overlay(revealed_view(u), p, s, m, unit_drag_hit(pos, s, drag_from), ctx) + (
    match u.perk_choice {
        Some(ps) => perk_row_overlay(ps@, p.x as int, p.y - ph * 11 / 10, s, m),
        None => Seq::empty(),
    }) + (if heal_button {
        heal_label(u, p, s)
    } else {
        Seq::empty()
    })
}

/// Draw a unit's heal affordance: a green price button over exactly
/// the rectangle hit-testing maps to region id 1; nothing when the
/// unit is unhurt.
#[verifier::rlimit(100)]
#[verifier::spinoff_prover]
fn draw_heal(u: &Unit, v: &mut Vec<Vertex>, v2: &mut Vec<Vertex>, p: V2, s: V2, m: V2, drag_from: Option<V2>, ctx: ViewCtx)
    requires
        u.wf(),
        scale_wf(s),
        ctx.wf(),
        bounded(p, COORD_BOUND as int / 2 + 0x100_0000),
        bounded(m, MOUSE_BOUND as int),
        match drag_from {
            Some(d) => bounded(d, MOUSE_BOUND as int),
            None => true,
        },
    ensures
        final(v)@ == old(v)@ + heal_quad(*u, p, s, m),
        final(v2)@ == old(v2)@ + heal_label(*u, p, s),
{
    proof {
        reveal(heal_quad);
        reveal(heal_label);
    }
    let size = u.size(s, false);
    let cost = crate::widget::heal_cost(u);
    if cost > 0 {
        proof {
            reveal_strlit("heal: ");
            crate::fmt::lemma_fixed2_len(cost as int);
        }
        let b = Button {
            name: crate::fmt::labelled("heal: ", crate::fmt::milli_2(cost)),
            pos: V2 { x: p.x, y: p.y + size.y + 1600 },
            size: V2 { x: size.x, y: size.y / 6 },
            tex: Tex::Color(Rgba { r: 0, g: 1000, b: 0, a: 1000 }),
            edge: None,
        };
        b.draw(v, v2, m, drag_from, false, ctx);
        proof {
            assert(v@ =~= old(v)@ + heal_quad(*u, p, s, m));
            assert(v2@ =~= old(v2)@ + heal_label(*u, p, s));
        }
    } else {
        proof {
            assert(v@ =~= old(v)@ + heal_quad(*u, p, s, m));
            assert(v2@ =~= old(v2)@ + heal_label(*u, p, s));
        }
    }
}

impl Unit {
    /// Draw the unit as a fully revealed view of itself — shifted by
    /// the pointer's travel while its body is under the drag origin —
    /// with any pending perk choice in a row above it and, when the
    /// heal affordance is active and the unit is hurt, its heal button
    /// on exactly the rectangle hit-testing maps to region id 1.
    #[verifier::rlimit(100)]
    #[verifier::spinoff_prover]
    pub fn draw(&self, v: &mut Vec<Vertex>, v2: &mut Vec<Vertex>, pos: V2, s: V2, m: V2, drag_from: Option<V2>, heal_button: bool, ctx: ViewCtx)
        requires
            self.wf(),
            perk_colors_wf(self.perks@),
            match self.perk_choice {
                Some(ps) => perk_colors_wf(ps@),
                None => true,
            },
            scale_wf(s),
            ctx.wf(),
            bounded(pos, COORD_BOUND as int / 2),
            bounded(m, MOUSE_BOUND as int),
            match drag_from {
                Some(d) => bounded(d, MOUSE_BOUND as int),
                None => true,
            },
        ensures
            final(v)@ == old(v)@ + unit_draw_verts(*self, pos, s, m, drag_from, heal_button),
            final(v2)@ == old(v2)@ + unit_draw_overlay(
                *self,
                pos,
                s,
                m,
                drag_from,
                heal_button,
                ctx,
            ),
            extends(final(v)@, old(v)@),
            extends(final(v2)@, old(v2)@),
    {
        let ghost v0 = v@;
        let ghost v2_0 = v2@;
        let size = self.size(s, false);
        let mut p = pos;
        let mut shifted = false;
        if let Some(d) = drag_from {
            if rect(d, pos, size) {
                p = V2 { x: pos.x + (m.x - d.x), y: pos.y + (m.y - d.y) };
                shifted = true;
            }
        }
        let view = UnitView {
            unit: dup_unit(self),
            class_revealed: true,
            element_revealed: true,
            frac_hp_revealed: true,
        };
        view.draw(v, v2, p, s, m, drag_from, shifted, ctx);
        let ghost uvq = unit_view_quads(revealed_view(*self), p, s);
        let ghost uvo = unit_view_overlay(revealed_view(*self), p, s, m, shifted, ctx);
        proof {
            lemma_redaction_noninterference(view, revealed_view(*self), p, s, m, shifted, ctx);
        }
        let ghost v_start = v@;
        let ghost v2_start = v2@;
        let ghost ph = perk_size_s(s).1;
        let ghost row_full: Seq<Vertex> = match &self.perk_choice {
            Some(ps) => perk_row_verts(ps@, p.x as int, p.y - ph * 11 / 10, s),
            None => Seq::empty(),
        };
        let ghost row_over: Seq<Vertex> = match &self.perk_choice {
            Some(ps) => perk_row_overlay(ps@, p.x as int, p.y - ph * 11 / 10, s, m),
            None => Seq::empty(),
        };
        if let Some(ps) = &self.perk_choice {
            let pw = crate::widget::PERK_SIZE * s.x / 1000;
            let phe = crate::widget::PERK_SIZE * s.y / 1000;
            let step = crate::layout::gap(pw);
            let by = p.y - crate::layout::gap(phe);
            let n = ps.len();
            let mut i: usize = 0;
            proof {
                assert(ps@.skip(0) =~= ps@);
            }
            while i < n
                invariant
                    n == ps@.len() <= crate::model::LIST_BOUND,
                    i <= n,
                    perk_colors_wf(ps@),
                    forall|k: int| 0 <= k < n ==> (#[trigger] ps@[k]).wf(),
                    scale_wf(s),
                    step == perk_size_s(s).0 * 11 / 10,
                    0 <= step <= 6600,
                    by == p.y - perk_size_s(s).1 * 11 / 10,
                    -0x2100_0000 <= p.x <= 0x2100_0000,
                    -0x2100_0000 <= by <= 0x2100_0000,
                    bounded(m, MOUSE_BOUND as int),
                    ctx.wf(),
                    v_start + perk_row_verts(ps@, p.x as int, by as int, s) == v@ + perk_row_verts(
                        ps@.skip(i as int),
                        p.x + (i as int) * step,
                        by as int,
                        s,
                    ),
                    v2_start + perk_row_overlay(ps@, p.x as int, by as int, s, m) == v2@
                        + perk_row_overlay(
                        ps@.skip(i as int),
                        p.x + (i as int) * step,
                        by as int,
                        s,
                        m,
                    ),
                decreases n - i,
            {
                proof {
                    crate::geom::lemma_mul_le(i as int, 1024, step as int, 6600);
                    assert(ps@.skip(i as int)[0] == ps@[i as int]);
                    assert(ps@.skip(i as int).drop_first() =~= ps@.skip(i + 1));
                    assert((i as int + 1) * step == (i as int) * step + step) by (nonlinear_arith);
                }
                let pp = V2 { x: p.x + (i as i64) * step, y: by };
                let ghost va = v@;
                let ghost v2a = v2@;
                ps[i].draw(v, v2, pp, s, m, drag_from, false);
                proof {
                    assert(va + (v@.skip(va.len() as int)) =~= v@);
                    assert(v@ + perk_row_verts(
                        ps@.skip(i + 1),
                        p.x + (i as int + 1) * step,
                        by as int,
                        s,
                    ) =~= va + perk_row_verts(
                        ps@.skip(i as int),
                        p.x + (i as int) * step,
                        by as int,
                        s,
                    ));
                    assert(v2@ + perk_row_overlay(
                        ps@.skip(i + 1),
                        p.x + (i as int + 1) * step,
                        by as int,
                        s,
                        m,
                    ) =~= v2a + perk_row_overlay(
                        ps@.skip(i as int),
                        p.x + (i as int) * step,
                        by as int,
                        s,
                        m,
                    ));
                }
                i += 1;
            }
            proof {
                assert(ps@.skip(n as int) =~= Seq::<Perk>::empty());
                assert(v@ + Seq::<Vertex>::empty() =~= v@);
                assert(v2@ + Seq::<Vertex>::empty() =~= v2@);
            }
        } else {
            proof {
                assert(v@ =~= v_start + row_full);
                assert(v2@ =~= v2_start + row_over);
            }
        }
        proof {
            assert(v@ == v_start + row_full);
            assert(v2@ == v2_start + row_over);
        }
        if heal_button {
            let ghost va = v@;
            let ghost v2a = v2@;
            draw_heal(self, v, v2, p, s, m, drag_from, ctx);
            proof {
                assert(v@ =~= v0 + (uvq + row_full + heal_quad(*self, p, s, m)));
                assert(v2@ =~= v2_0 + (uvo + row_over + heal_label(*self, p, s)));
            }
        } else {
            proof {
                assert(v@ =~= v0 + (uvq + row_full + Seq::<Vertex>::empty()));
                assert(v2@ =~= v2_0 + (uvo + row_over + Seq::<Vertex>::empty()));
            }
        }
        proof {
            reveal(unit_draw_verts);
            reveal(unit_draw_overlay);
            assert(unit_draw_verts(*self, pos, s, m, drag_from, heal_button) == uvq + row_full + (
            if heal_button {
                heal_quad(*self, p, s, m)
            } else {
                Seq::<Vertex>::empty()
            }));
            assert(unit_draw_overlay(*self, pos, s, m, drag_from, heal_button, ctx) == uvo
                + row_over + (if heal_button {
                heal_label(*self, p, s)
            } else {
                Seq::<Vertex>::empty()
            }));
            assert(v@.take(v0.len() as int) =~= v0);
            assert(v2@.take(v2_0.len() as int) =~= v2_0);
        }
    }
}

/// Everything one slot draws opaquely: its backing cell, and — when
/// occupied — the item's square a twentieth of a cell in, shifted by
/// the pointer's travel while dragged.
#[verifier::opaque]
pub open spec fn slot_verts(o: Option<Equipment>, pos: V2, s: V2, m: V2, drag_from: Option<V2>, drag: bool) -> Seq<Vertex> {
    let inner = V2 {
        x: (pos.x + slot_size_s(s).0 / 20) as i64,
        y: (pos.y + slot_size_s(s).1 / 20) as i64,
    };
    quad_verts(
        pos.spec_extend(1),
        (V2 { x: slot_size_s(s).0 as i64, y: slot_size_s(s).1 as i64 }),
        Tex::Color(Rgba { r: 300, g: 300, b: 300, a: 1000 }),
    ) + (match o {
        Some(e) => quad_verts(
            equip_draw_pos(e, inner, s, m, drag_from, drag).spec_extend(10),
            (V2 { x: equip_size_s(s).0 as i64, y: equip_size_s(s).1 as i64 }),
            Tex::Color(body_color(e.color)),
        ),
        None => Seq::empty(),
    })
}

/// What one slot adds to the overlay: its item's tooltip, when any.
#[verifier::opaque]
pub open spec fn slot_overlay(o: Option<Equipment>, pos: V2, s: V2, m: V2, drag_from: Option<V2>, drag: bool, ctx: ViewCtx) -> Seq<Vertex> {
    let inner = V2 {
        x: (pos.x + slot_size_s(s).0 / 20) as i64,
        y: (pos.y + slot_size_s(s).1 / 20) as i64,
    };
    match o {
        Some(e) => equip_overlay(e, inner, s, m, drag_from, drag, ctx),
        None => Seq::empty(),
    }
}

/// The opaque geometry of a slot row, one slot cell plus the sibling
/// gap apart.
pub open spec fn slot_row_verts(slots: Seq<Option<Equipment>>, bx: int, by: int, s: V2, m: V2, drag_from: Option<V2>, drag: bool) -> Seq<Vertex>
    decreases slots.len(),
{
    if slots.len() == 0 {
        Seq::empty()
    } else {
        let step = slot_size_s(s).0 * 11 / 10;
        slot_verts(slots[0], (V2 { x: bx as i64, y: by as i64 }), s, m, drag_from, drag)
            + slot_row_verts(slots.drop_first(), bx + step, by, s, m, drag_from, drag)
    }
}

/// The overlay of a slot row: each occupied, hovered slot's tooltip.
pub open spec fn slot_row_overlay(slots: Seq<Option<Equipment>>, bx: int, by: int, s: V2, m: V2, drag_from: Option<V2>, drag: bool, ctx: ViewCtx) -> Seq<Vertex>
    decreases slots.len(),
{
    if slots.len() == 0 {
        Seq::empty()
    } else {
        let step = slot_size_s(s).0 * 11 / 10;
        slot_overlay(slots[0], (V2 { x: bx as i64, y: by as i64 }), s, m, drag_from, drag, ctx)
            + slot_row_overlay(slots.drop_first(), bx + step, by, s, m, drag_from, drag, ctx)
    }
}

/// Everything a detail panel draws opaquely: the unit's perks in a row
/// and its four equipment slots in a row above them.
#[verifier::opaque]
pub open spec fn detail_draw_verts(d: crate::widget::Detail, pos: V2, s: V2, m: V2, drag_from: Option<V2>, drag: bool) -> Seq<Vertex> {
    perk_row_verts(d.perks@, pos.x + 160, pos.y + 160, s) + slot_row_verts(
        d.equipment@,
        pos.x + 160,
        pos.y + 160 + 1650,
        s,
        m,
        drag_from,
        drag,
    )
}

/// What a detail panel adds to the overlay: its perks' and items'
/// tooltips.
#[verifier::opaque]
pub open spec fn detail_draw_overlay(d: crate::widget::Detail, pos: V2, s: V2, m: V2, drag_from: Option<V2>, drag: bool, ctx: ViewCtx) -> Seq<Vertex> {
    perk_row_overlay(d.perks@, pos.x + 160, pos.y + 160, s, m) + slot_row_overlay(
        d.equipment@,
        pos.x + 160,
        pos.y + 160 + 1650,
        s,
        m,
        drag_from,
        drag,
        ctx,
    )
}

/// Draw one possibly-empty equipment slot: the slot cell, and the item
/// inside it a twentieth of a cell in, if any.
pub fn draw_slot(v: &mut Vec<Vertex>, v2: &mut Vec<Vertex>, o: &Option<Equipment>, pos: V2, s: V2, m: V2, drag_from: Option<V2>, drag: bool, ctx: ViewCtx)
    requires
        match o {
            Some(e) => e.wf() && e.color[0] <= 2000 && e.color[1] <= 2000 && e.color[2] <= 2000,
            None => true,
        },
        scale_wf(s),
        ctx.wf(),
        bounded(pos, COORD_BOUND as int),
        bounded(m, MOUSE_BOUND as int),
        match drag_from {
            Some(d) => bounded(d, MOUSE_BOUND as int),
            None => true,
        },
    ensures
        final(v)@ == old(v)@ + slot_verts(*o, pos, s, m, drag_from, drag),
        final(v2)@ == old(v2)@ + slot_overlay(*o, pos, s, m, drag_from, drag, ctx),
        extends(final(v)@, old(v)@),
        extends(final(v2)@, old(v2)@),
{
    proof {
        reveal(slot_verts);
        reveal(slot_overlay);
    }
    let ghost v0 = v@;
    let ghost v2_0 = v2@;
    let sz = crate::widget::slot_size(s);
    quad(v, pos.extend(1), sz, Tex::Color(Rgba { r: 300, g: 300, b: 300, a: 1000 }));
    if let Some(e) = o {
        let inner = V2 { x: pos.x + sz.x / 20, y: pos.y + sz.y / 20 };
        e.draw(v, v2, inner, s, m, drag_from, drag, ctx);
    }
    proof {
        assert(v@ =~= v0 + slot_verts(*o, pos, s, m, drag_from, drag));
        assert(v2@ =~= v2_0 + slot_overlay(*o, pos, s, m, drag_from, drag, ctx));
        assert(v@.take(v0.len() as int) =~= v0);
        assert(v2@.take(v2_0.len() as int) =~= v2_0);
    }
}


impl crate::widget::Detail {
    /// Draw the floating detail panel: the unit's perks in a row, its
    /// four equipment slots in a row above them.
    #[verifier::rlimit(100)]
    #[verifier::spinoff_prover]
    pub fn draw(&self, v: &mut Vec<Vertex>, v2: &mut Vec<Vertex>, pos: V2, s: V2, m: V2, drag_from: Option<V2>, drag: bool, ctx: ViewCtx)
        requires
            self.wf(),
            perk_colors_wf(self.perks@),
            equip_colors_wf(self.equipment@),
            scale_wf(s),
            ctx.wf(),
            bounded(pos, COORD_BOUND as int / 2),
            bounded(m, MOUSE_BOUND as int),
            match drag_from {
                Some(d) => bounded(d, MOUSE_BOUND as int),
                None => true,
            },
        ensures
            final(v)@ == old(v)@ + detail_draw_verts(*self, pos, s, m, drag_from, drag),
            final(v2)@ == old(v2)@ + detail_draw_overlay(*self, pos, s, m, drag_from, drag, ctx),
            extends(final(v)@, old(v)@),
            extends(final(v2)@, old(v2)@),
    {
        let ghost v0 = v@;
        let ghost v2_0 = v2@;
        let pw = crate::widget::PERK_SIZE * s.x / 1000;
        let step = crate::layout::gap(pw);
        let base = V2 { x: pos.x + 160, y: pos.y + 160 };
        let n = self.perks.len();
        let mut i: usize = 0;
        proof {
            assert(self.perks@.skip(0) =~= self.perks@);
        }
        while i < n
            invariant
                n == self.perks@.len() <= crate::model::LIST_BOUND,
                i <= n,
                self.wf(),
                perk_colors_wf(self.perks@),
                scale_wf(s),
                step == perk_size_s(s).0 * 11 / 10,
                0 <= step <= 6600,
                base == (V2 { x: (pos.x + 160) as i64, y: (pos.y + 160) as i64 }),
                -0x2100_0000 <= base.x <= 0x2100_0000,
                -0x2100_0000 <= base.y <= 0x2100_0000,
                bounded(m, MOUSE_BOUND as int),
                ctx.wf(),
                v0 + perk_row_verts(self.perks@, base.x as int, base.y as int, s) == v@
                    + perk_row_verts(
                    self.perks@.skip(i as int),
                    base.x + (i as int) * step,
                    base.y as int,
                    s,
                ),
                v2_0 + perk_row_overlay(self.perks@, base.x as int, base.y as int, s, m) == v2@
                    + perk_row_overlay(
                    self.perks@.skip(i as int),
                    base.x + (i as int) * step,
                    base.y as int,
                    s,
                    m,
                ),
            decreases n - i,
        {
            proof {
                crate::geom::lemma_mul_le(i as int, 1024, step as int, 6600);
                assert(self.perks@.skip(i as int)[0] == self.perks@[i as int]);
                assert(self.perks@.skip(i as int).drop_first() =~= self.perks@.skip(i + 1));
                assert((i as int + 1) * step == (i as int) * step + step) by (nonlinear_arith);
            }
            let pp = V2 { x: base.x + (i as i64) * step, y: base.y };
            let ghost va = v@;
            let ghost v2a = v2@;
            self.perks[i].draw(v, v2, pp, s, m, drag_from, drag);
            proof {
                assert(v@ + perk_row_verts(
                    self.perks@.skip(i + 1),
                    base.x + (i as int + 1) * step,
                    base.y as int,
                    s,
                ) =~= va + perk_row_verts(
                    self.perks@.skip(i as int),
                    base.x + (i as int) * step,
                    base.y as int,
                    s,
                ));
                assert(v2@ + perk_row_overlay(
                    self.perks@.skip(i + 1),
                    base.x + (i as int + 1) * step,
                    base.y as int,
                    s,
                    m,
                ) =~= v2a + perk_row_overlay(
                    self.perks@.skip(i as int),
                    base.x + (i as int) * step,
                    base.y as int,
                    s,
                    m,
                ));
            }
            i += 1;
        }
        proof {
            assert(self.perks@.skip(n as int) =~= Seq::<Perk>::empty());
            assert(v@ + Seq::<Vertex>::empty() =~= v@);
            assert(v2@ + Seq::<Vertex>::empty() =~= v2@);
        }
        let ghost v1 = v@;
        let ghost v2_1 = v2@;
        let sw = crate::widget::EQUIP_SIZE * s.x / 1000;
        let sstep = crate::layout::gap(sw);
        let srow = V2 { x: pos.x + 160, y: pos.y + 160 + 1650 };
        let mut k: usize = 0;
        proof {
            assert(self.equipment@.skip(0) =~= self.equipment@);
        }
        while k < 4
            invariant
                k <= 4,
                self.wf(),
                self.equipment@.len() == 4,
                equip_colors_wf(self.equipment@),
                scale_wf(s),
                sstep == slot_size_s(s).0 * 11 / 10,
                0 <= sstep <= 14100,
                srow == (V2 { x: (pos.x + 160) as i64, y: (pos.y + 160 + 1650) as i64 }),
                -0x2100_0000 <= srow.x <= 0x2100_0000,
                -0x2100_0000 <= srow.y <= 0x2100_0000,
                ctx.wf(),
                bounded(m, MOUSE_BOUND as int),
                match drag_from {
                    Some(d) => bounded(d, MOUSE_BOUND as int),
                    None => true,
                },
                v1 + slot_row_verts(self.equipment@, srow.x as int, srow.y as int, s, m, drag_from, drag)
                    == v@ + slot_row_verts(
                    self.equipment@.skip(k as int),
                    srow.x + (k as int) * sstep,
                    srow.y as int,
                    s,
                    m,
                    drag_from,
                    drag,
                ),
                v2_1 + slot_row_overlay(
                    self.equipment@,
                    srow.x as int,
                    srow.y as int,
                    s,
                    m,
                    drag_from,
                    drag,
                    ctx,
                ) == v2@ + slot_row_overlay(
                    self.equipment@.skip(k as int),
                    srow.x + (k as int) * sstep,
                    srow.y as int,
                    s,
                    m,
                    drag_from,
                    drag,
                    ctx,
                ),
            decreases 4 - k,
        {
            proof {
                crate::geom::lemma_mul_le(k as int, 4, sstep as int, 14100);
                assert(self.equipment@.skip(k as int)[0] == self.equipment@[k as int]);
                assert(self.equipment@.skip(k as int).drop_first() =~= self.equipment@.skip(k + 1));
                assert((k as int + 1) * sstep == (k as int) * sstep + sstep) by (nonlinear_arith);
            }
            let pp = V2 { x: srow.x + (k as i64) * sstep, y: srow.y };
            let ghost va = v@;
            let ghost v2a = v2@;
            draw_slot(v, v2, &self.equipment[k], pp, s, m, drag_from, drag, ctx);
            proof {
                assert(v@ + slot_row_verts(
                    self.equipment@.skip(k + 1),
                    srow.x + (k as int + 1) * sstep,
                    srow.y as int,
                    s,
                    m,
                    drag_from,
                    drag,
                ) =~= va + slot_row_verts(
                    self.equipment@.skip(k as int),
                    srow.x + (k as int) * sstep,
                    srow.y as int,
                    s,
                    m,
                    drag_from,
                    drag,
                ));
                assert(v2@ + slot_row_overlay(
                    self.equipment@.skip(k + 1),
                    srow.x + (k as int + 1) * sstep,
                    srow.y as int,
                    s,
                    m,
                    drag_from,
                    drag,
                    ctx,
                ) =~= v2a + slot_row_overlay(
                    self.equipment@.skip(k as int),
                    srow.x + (k as int) * sstep,
                    srow.y as int,
                    s,
                    m,
                    drag_from,
                    drag,
                    ctx,
                ));
            }
            k += 1;
        }
        proof {
            assert(self.equipment@.skip(4) =~= Seq::<Option<Equipment>>::empty());
            assert(v@ + Seq::<Vertex>::empty() =~= v@);
            assert(v2@ + Seq::<Vertex>::empty() =~= v2@);
            reveal(detail_draw_verts);
            reveal(detail_draw_overlay);
            assert(v@ =~= v0 + detail_draw_verts(*self, pos, s, m, drag_from, drag));
            assert(v2@ =~= v2_0 + detail_draw_overlay(*self, pos, s, m, drag_from, drag, ctx));
            assert(v@.take(v0.len() as int) =~= v0);
            assert(v2@.take(v2_0.len() as int) =~= v2_0);
        }
    }
}

/// How many line breaks the text holds at or after position `i`.
pub open spec fn newline_count_spec(s: Seq<char>, i: int) -> int
    decreases s.len() - i,
{
    if i < 0 || i >= s.len() {
        0
    } else {
        (if s[i] == '\n' {
            1int
        } else {
            0int
        }) + newline_count_spec(s, i + 1)
    }
}

fn newline_count(s: &str) -> (r: i64)
    requires
        s@.len() <= TEXT_BOUND,
    ensures
        r == newline_count_spec(s@, 0),
        0 <= r <= s@.len(),
{
    let n = s.unicode_len();
    let mut count: i64 = 0;
    let mut i: usize = 0;
    while i < n
        invariant
            n == s@.len() <= TEXT_BOUND,
            i <= n,
            0 <= count <= i,
            newline_count_spec(s@, 0) == count + newline_count_spec(s@, i as int),
        decreases n - i,
    {
        if s.get_char(i) == '\n' {
            count = count + 1;
        }
        i += 1;
    }
    count
}

} // verus!
