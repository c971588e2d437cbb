//! The immediate-mode vertex batcher: axis-aligned quads, solid,
//! textured or tint-blended, and text drawn one glyph quad per character
//! from a fixed atlas.  Every frame's geometry is rebuilt from scratch
//! into ordered vertex lists and flushed in one draw call by the host.
//!
//! Texture coordinates are fixed-point with [`UV_ONE`] units per
//! texture-space unit; colors and blend factors are per-mille.

use vstd::prelude::*;
use crate::geom::{bounded, V2, V3, COORD_BOUND};

verus! {

/// Fixed-point texture-coordinate scale: units per texture-space unit.
pub const UV_ONE: i64 = 10240;

/// An RGBA color, per-mille per channel (1000 is full intensity).
#[derive(Clone, Copy, Debug, PartialEq, Eq, Structural)]
pub struct Rgba {
    pub r: u32,
    pub g: u32,
    pub b: u32,
    pub a: u32,
}

/// How a quad is filled: a solid color, a cell of the texture atlas, or
/// a color blended over a cell by a per-mille factor.
#[derive(Clone, Copy, Debug, PartialEq, Eq, Structural)]
pub enum Tex {
    Color(Rgba),
    Texture(usize),
    Blend(Rgba, usize, u32),
}

/// One interleaved vertex as the host's vertex buffer expects it.
#[derive(Clone, Copy, Debug, PartialEq, Eq, Structural)]
pub struct Vertex {
    pub pos: V3,
    pub col: Rgba,
    pub uv: V2,
    pub blend: u32,
}

/// Atlas cells are addressed by index; only a few are in use.
pub const TEX_INDEX_BOUND: usize = 64;

/// The texture coordinates of atlas cell `n`, corner-ordered for the
/// two triangles of a quad, inset a few pixels to keep samples off the
/// cell border.
pub open spec fn quad_uvs_spec(n: int) -> Seq<V2> {
    let zx = 50int;
    let zy = -n * UV_ONE + 50;
    let w = UV_ONE - 100;
    seq![
        V2 { x: zx as i64, y: zy as i64 },
        V2 { x: (zx + w) as i64, y: zy as i64 },
        V2 { x: (zx + w) as i64, y: (zy + w) as i64 },
        V2 { x: zx as i64, y: zy as i64 },
        V2 { x: zx as i64, y: (zy + w) as i64 },
        V2 { x: (zx + w) as i64, y: (zy + w) as i64 },
    ]
}

pub fn quad_uvs(n: usize) -> (r: [V2; 6])
    requires
        n < TEX_INDEX_BOUND,
    ensures
        r@ == quad_uvs_spec(n as int),
{
    let zz = V2 { x: 50, y: -(n as i64) * UV_ONE + 50 };
    let w: i64 = UV_ONE - 100;
    let r = [
        zz,
        V2 { x: zz.x + w, y: zz.y },
        V2 { x: zz.x + w, y: zz.y + w },
        zz,
        V2 { x: zz.x, y: zz.y + w },
        V2 { x: zz.x + w, y: zz.y + w },
    ];
    proof {
        assert(r@ =~= quad_uvs_spec(n as int));
    }
    r
}

/// The fill parameters a `Tex` denotes: color, atlas cell (negative for
/// none), and blend factor.
pub open spec fn tex_color(tex: Tex) -> Rgba {
    match tex {
        Tex::Color(c) => c,
        Tex::Texture(_) => (Rgba { r: 0, g: 0, b: 0, a: 0 }),
        Tex::Blend(c, _, _) => c,
    }
}

pub open spec fn tex_blend(tex: Tex) -> u32 {
    match tex {
        Tex::Color(_) => 0,
        Tex::Texture(_) => 1000,
        Tex::Blend(_, _, b) => b,
    }
}

pub open spec fn tex_uvs(tex: Tex) -> Seq<V2> {
    match tex {
        Tex::Color(_) => seq![
            V2 { x: 0, y: 0 },
            V2 { x: 0, y: 0 },
            V2 { x: 0, y: 0 },
            V2 { x: 0, y: 0 },
            V2 { x: 0, y: 0 },
            V2 { x: 0, y: 0 },
        ],
        Tex::Texture(n) => quad_uvs_spec(n as int),
        Tex::Blend(_, n, _) => quad_uvs_spec(n as int),
    }
}

/// The rectangle normalized to nonnegative extent: a negative extent
/// flips around its origin.
pub open spec fn norm_origin(pos: V3, size: V2) -> V3 {
    V3 {
        x: (if size.x < 0 {
            pos.x + size.x
        } else {
            pos.x as int
        }) as i64,
        y: (if size.y < 0 {
            pos.y + size.y
        } else {
            pos.y as int
        }) as i64,
        z: pos.z,
    }
}

pub open spec fn norm_size(size: V2) -> V2 {
    V2 {
        x: (if size.x < 0 {
            -size.x
        } else {
            size.x as int
        }) as i64,
        y: (if size.y < 0 {
            -size.y
        } else {
            size.y as int
        }) as i64,
    }
}

/// The six vertices of a filled quad: two triangles over the normalized
/// rectangle, corner-ordered as [`quad_uvs_spec`] expects.
pub open spec fn quad_verts(pos: V3, size: V2, tex: Tex) -> Seq<Vertex> {
    let o = norm_origin(pos, size);
    let s = norm_size(size);
    let col = tex_color(tex);
    let blend = tex_blend(tex);
    let uvs = tex_uvs(tex);
    seq![
        Vertex { pos: o, col, uv: uvs[0], blend },
        Vertex {
            pos: (V3 { x: (o.x + s.x) as i64, y: o.y, z: o.z }),
            col,
            uv: uvs[1],
            blend,
        },
        Vertex {
            pos: (V3 { x: (o.x + s.x) as i64, y: (o.y + s.y) as i64, z: o.z }),
            col,
            uv: uvs[2],
            blend,
        },
        Vertex { pos: o, col, uv: uvs[3], blend },
        Vertex {
            pos: (V3 { x: o.x, y: (o.y + s.y) as i64, z: o.z }),
            col,
            uv: uvs[4],
            blend,
        },
        Vertex {
            pos: (V3 { x: (o.x + s.x) as i64, y: (o.y + s.y) as i64, z: o.z }),
            col,
            uv: uvs[5],
            blend,
        },
    ]
}

/// Geometry positions stay within this bound; it admits every on-screen
/// position with room for drag offsets.
pub open spec fn quad_args_wf(pos: V3, size: V2) -> bool {
    &&& -4 * COORD_BOUND <= pos.x <= 4 * COORD_BOUND
    &&& -4 * COORD_BOUND <= pos.y <= 4 * COORD_BOUND
    &&& -4 * COORD_BOUND <= size.x <= 4 * COORD_BOUND
    &&& -4 * COORD_BOUND <= size.y <= 4 * COORD_BOUND
}

pub open spec fn tex_wf(tex: Tex) -> bool {
    match tex {
        Tex::Color(_) => true,
        Tex::Texture(n) => n < TEX_INDEX_BOUND,
        Tex::Blend(_, n, _) => n < TEX_INDEX_BOUND,
    }
}

/// Color channels stay within twice full intensity, so dimming
/// arithmetic cannot overflow.
pub open spec fn tex_channels_wf(tex: Tex) -> bool {
    match tex {
        Tex::Color(c) => c.r <= 2000 && c.g <= 2000 && c.b <= 2000 && c.a <= 2000,
        Tex::Texture(_) => true,
        Tex::Blend(c, _, _) => c.r <= 2000 && c.g <= 2000 && c.b <= 2000 && c.a <= 2000,
    }
}

/// Text is drawn from the first atlas cell only, which keeps every
/// glyph texture coordinate nonnegative.
pub open spec fn text_tex_wf(tex: Tex) -> bool {
    match tex {
        Tex::Color(_) => true,
        Tex::Texture(n) => n == 0,
        Tex::Blend(_, n, _) => n == 0,
    }
}

/// Build the six vertices of one quad.
pub fn make_quad(pos: V3, size: V2, tex: Tex) -> (r: [Vertex; 6])
    requires
        quad_args_wf(pos, size),
        tex_wf(tex),
    ensures
        r@ == quad_verts(pos, size, tex),
{
    let mut px = pos.x;
    let mut py = pos.y;
    let mut sx = size.x;
    let mut sy = size.y;
    if sx < 0 {
        px = px + sx;
        sx = -sx;
    }
    if sy < 0 {
        py = py + sy;
        sy = -sy;
    }
    let mut col = Rgba { r: 0, g: 0, b: 0, a: 0 };
    let mut blend: u32 = 0;
    let mut uvs = [
        V2 { x: 0, y: 0 },
        V2 { x: 0, y: 0 },
        V2 { x: 0, y: 0 },
        V2 { x: 0, y: 0 },
        V2 { x: 0, y: 0 },
        V2 { x: 0, y: 0 },
    ];
    match tex {
        Tex::Color(c) => {
            col = c;
        },
        Tex::Texture(n) => {
            uvs = quad_uvs(n);
            blend = 1000;
        },
        Tex::Blend(c, n, b) => {
            col = c;
            uvs = quad_uvs(n);
            blend = b;
        },
    }
    let o = V3 { x: px, y: py, z: pos.z };
    let r = [
        Vertex { pos: o, col, uv: uvs[0], blend },
        Vertex { pos: V3 { x: px + sx, y: py, z: pos.z }, col, uv: uvs[1], blend },
        Vertex { pos: V3 { x: px + sx, y: py + sy, z: pos.z }, col, uv: uvs[2], blend },
        Vertex { pos: o, col, uv: uvs[3], blend },
        Vertex { pos: V3 { x: px, y: py + sy, z: pos.z }, col, uv: uvs[4], blend },
        Vertex { pos: V3 { x: px + sx, y: py + sy, z: pos.z }, col, uv: uvs[5], blend },
    ];
    proof {
        assert(r@ =~= quad_verts(pos, size, tex));
    }
    r
}

/// Append one filled quad to a vertex list.
pub fn quad(v: &mut Vec<Vertex>, pos: V3, size: V2, tex: Tex)
    requires
        quad_args_wf(pos, size),
        tex_wf(tex),
    ensures
        final(v)@ == old(v)@ + quad_verts(pos, size, tex),
{
    let q = make_quad(pos, size, tex);
    let mut i: usize = 0;
    while i < 6
        invariant
            i <= 6,
            q@ == quad_verts(pos, size, tex),
            v@ == old(v)@ + q@.take(i as int),
        decreases 6 - i,
    {
        v.push(q[i]);
        proof {
            assert(old(v)@ + q@.take(i as int) + seq![q@[i as int]] =~= old(v)@ + q@.take(i + 1));
        }
        i += 1;
    }
    proof {
        assert(q@.take(6) =~= q@);
    }
}

/// The atlas cell of a character: digits, lowercase letters, space and
/// a little punctuation; anything else falls back to the space cell.
pub open spec fn glyph_index(c: char) -> int {
    if c == ' ' {
        0
    } else if '0' <= c <= '9' {
        1 + (c as int - '0' as int)
    } else if 'a' <= c <= 'z' {
        11 + (c as int - 'a' as int)
    } else if c == '.' {
        37
    } else if c == ':' {
        38
    } else if c == '/' {
        39
    } else if c == '(' {
        40
    } else if c == ')' {
        41
    } else if c == ',' {
        42
    } else {
        0
    }
}

pub fn glyph_index_exec(c: char) -> (r: usize)
    ensures
        r == glyph_index(c),
        r <= 42,
{
    if c == ' ' {
        0
    } else if '0' <= c && c <= '9' {
        1 + (c as usize - '0' as usize)
    } else if 'a' <= c && c <= 'z' {
        11 + (c as usize - 'a' as usize)
    } else if c == '.' {
        37
    } else if c == ':' {
        38
    } else if c == '/' {
        39
    } else if c == '(' {
        40
    } else if c == ')' {
        41
    } else if c == ',' {
        42
    } else {
        0
    }
}

/// A vertex with its texture coordinates moved into character `c`'s
/// cell of the glyph sheet.
pub open spec fn char_uv_vertex(c: char, v: Vertex) -> Vertex {
    let ox = (glyph_index(c) % 9) * UV_ONE;
    let oy = (glyph_index(c) / 9) * UV_ONE;
    Vertex {
        pos: v.pos,
        col: v.col,
        uv: (V2 {
            x: ((v.uv.x + ox) * 10 / 92) as i64,
            y: ((v.uv.y + oy) * 10 / 55) as i64,
        }),
        blend: v.blend,
    }
}

/// The six vertices of one glyph quad for character `c`.
pub open spec fn char_verts(pos: V3, size: V2, tex: Tex, c: char) -> Seq<Vertex> {
    quad_verts(pos, size, tex).map_values(|v: Vertex| char_uv_vertex(c, v))
}

/// Build the six vertices of one glyph quad.
pub fn make_char_quad(pos: V3, size: V2, tex: Tex, c: char) -> (r: [Vertex; 6])
    requires
        quad_args_wf(pos, size),
        tex_wf(tex),
        text_tex_wf(tex),
    ensures
        r@ == char_verts(pos, size, tex, c),
{
    let q = make_quad(pos, size, tex);
    let g = glyph_index_exec(c);
    let ox: i64 = ((g % 9) as i64) * UV_ONE;
    let oy: i64 = ((g / 9) as i64) * UV_ONE;
    let r = [
        char_uv(q[0], ox, oy),
        char_uv(q[1], ox, oy),
        char_uv(q[2], ox, oy),
        char_uv(q[3], ox, oy),
        char_uv(q[4], ox, oy),
        char_uv(q[5], ox, oy),
    ];
    proof {
        assert(r@ =~= char_verts(pos, size, tex, c));
    }
    r
}

/// One vertex moved by a glyph-sheet offset and scaled into sheet
/// coordinates.
fn char_uv(v: Vertex, ox: i64, oy: i64) -> (r: Vertex)
    requires
        0 <= v.uv.x <= 0x100_0000,
        0 <= v.uv.y <= 0x100_0000,
        0 <= ox <= 8 * UV_ONE,
        0 <= oy <= 8 * UV_ONE,
    ensures
        r == (Vertex {
            pos: v.pos,
            col: v.col,
            uv: (V2 { x: ((v.uv.x + ox) * 10 / 92) as i64, y: ((v.uv.y + oy) * 10 / 55) as i64 }),
            blend: v.blend,
        }),
{
    Vertex {
        pos: v.pos,
        col: v.col,
        uv: V2 { x: (v.uv.x + ox) * 10 / 92, y: (v.uv.y + oy) * 10 / 55 },
        blend: v.blend,
    }
}

/// The vertices of a whole string: one glyph quad per character,
/// advancing one cell width to the right each time.
pub open spec fn string_verts(pos: V3, size: V2, tex: Tex, s: Seq<char>) -> Seq<Vertex>
    decreases s.len(),
{
    if s.len() == 0 {
        Seq::empty()
    } else {
        char_verts(pos, size, tex, s[0]) + string_verts(
            V3 { x: (pos.x + size.x) as i64, y: pos.y, z: pos.z },
            size,
            tex,
            s.drop_first(),
        )
    }
}

/// Where the pen stands after `i` characters.
pub open spec fn advanced(pos: V3, size: V2, i: int) -> V3 {
    V3 { x: (pos.x + i * size.x) as i64, y: pos.y, z: pos.z }
}

/// Text drawn into a list stays within this many characters.
pub const STRING_BOUND: usize = 8192;

/// Positions handed to text drawing leave room for the whole line.
pub open spec fn string_args_wf(pos: V3, size: V2) -> bool {
    &&& -2 * COORD_BOUND <= pos.x <= 2 * COORD_BOUND
    &&& -2 * COORD_BOUND <= pos.y <= 2 * COORD_BOUND
    &&& 0 <= size.x <= 0x8000
    &&& -0x8000 <= size.y <= 0x8000
}

/// Append a string's glyph quads to a vertex list with the given fill.
fn draw_string_tex(v: &mut Vec<Vertex>, pos: V3, size: V2, tex: Tex, s: &str)
    requires
        string_args_wf(pos, size),
        tex_wf(tex),
        text_tex_wf(tex),
        s@.len() <= STRING_BOUND,
    ensures
        final(v)@ == old(v)@ + string_verts(pos, size, tex, s@),
{
    let ghost s0 = s@;
    let n = s.unicode_len();
    let mut i: usize = 0;
    proof {
        assert(s0.skip(0) =~= s0);
        assert(old(v)@ + string_verts(pos, size, tex, s0) =~= old(v)@ + (Seq::empty()
            + string_verts(pos, size, tex, s0)));
    }
    while i < n
        invariant
            string_args_wf(pos, size),
            tex_wf(tex),
            text_tex_wf(tex),
            n == s0.len() <= STRING_BOUND,
            s0 == s@,
            i <= n,
            old(v)@ + string_verts(pos, size, tex, s0) == v@ + string_verts(
                advanced(pos, size, i as int),
                size,
                tex,
                s0.skip(i as int),
            ),
        decreases n - i,
    {
        let c = s.get_char(i);
        proof {
            crate::geom::lemma_mul_le(i as int, STRING_BOUND as int, size.x as int, 0x8000);
            assert(s0.skip(i as int)[0] == s0[i as int]);
            assert(s0.skip(i as int).drop_first() =~= s0.skip(i + 1));
        }
        let p = V3 { x: pos.x + (i as i64) * size.x, y: pos.y, z: pos.z };
        let q = make_char_quad(p, size, tex, c);
        let ghost v_pre = v@;
        let mut k: usize = 0;
        while k < 6
            invariant
                k <= 6,
                q@ == char_verts(advanced(pos, size, i as int), size, tex, s0[i as int]),
                v@ == v_pre + q@.take(k as int),
            decreases 6 - k,
        {
            v.push(q[k]);
            proof {
                assert(v_pre + q@.take(k as int) + seq![q@[k as int]] =~= v_pre + q@.take(k + 1));
            }
            k += 1;
        }
        proof {
            assert(q@.take(6) =~= q@);
            assert((i as int + 1) * size.x == i as int * size.x + size.x) by (nonlinear_arith);
            assert(string_verts(advanced(pos, size, i as int), size, tex, s0.skip(i as int))
                == char_verts(advanced(pos, size, i as int), size, tex, s0[i as int])
                + string_verts(advanced(pos, size, i + 1), size, tex, s0.skip(i + 1)));
            assert(v_pre + char_verts(advanced(pos, size, i as int), size, tex, s0[i as int])
                + string_verts(advanced(pos, size, i + 1), size, tex, s0.skip(i + 1)) =~= v_pre + (
            char_verts(advanced(pos, size, i as int), size, tex, s0[i as int]) + string_verts(
                advanced(pos, size, i + 1),
                size,
                tex,
                s0.skip(i + 1),
            )));
        }
        i += 1;
    }
    proof {
        assert(s0.skip(n as int) =~= Seq::<char>::empty());
        assert(v@ + Seq::<Vertex>::empty() =~= v@);
    }
}

/// Append a string drawn from the glyph atlas.
pub fn draw_string(v: &mut Vec<Vertex>, pos: V3, size: V2, s: &str)
    requires
        string_args_wf(pos, size),
        s@.len() <= STRING_BOUND,
    ensures
        final(v)@ == old(v)@ + string_verts(pos, size, Tex::Texture(0), s@),
{
    draw_string_tex(v, pos, size, Tex::Texture(0), s)
}

/// Append a string whose glyphs are tint-blended with `color` by the
/// per-mille factor `blend`: how fading transient messages are drawn.
pub fn draw_string_blended(v: &mut Vec<Vertex>, pos: V3, size: V2, s: &str, blend: u32, color: Rgba)
    requires
        string_args_wf(pos, size),
        s@.len() <= STRING_BOUND,
    ensures
        final(v)@ == old(v)@ + string_verts(pos, size, Tex::Blend(color, 0, blend), s@),
{
    draw_string_tex(v, pos, size, Tex::Blend(color, 0, blend), s)
}

} // verus!
