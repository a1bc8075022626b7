//! The vertex-to-instance conversion algorithm.
//!
//! A glyph layout engine hands the backend one vertex descriptor per
//! visible glyph: a pixel-space quad, a pixel-space clipping bounds
//! rectangle, the screen dimensions, a texture-coordinate rectangle into
//! the atlas, a color, and a depth. The algorithm
//!
//! 1. converts the quad and the bounds to normalized device coordinates,
//!    `ndc = 2 * (pixel / screen_dim) - 1` per axis — over a screen axis
//!    of `s` pixels that is the exact rational `(2*p - s) / s`;
//! 2. clips the quad against the bounds on each of the four edges
//!    independently; whenever an edge moves, the texture-coordinate edge
//!    on that axis is rescaled by the fraction of the quad retained on
//!    that axis, anchored at the opposite texture edge, so the texel
//!    density of the surviving portion is preserved;
//! 3. emits an instance with the y axis flipped: `left_top.y` carries the
//!    maximal y of the clipped rect and `right_bottom.y` the minimal y,
//!    and likewise for the texture rectangle.
//!
//! All four NDC coordinates of one axis share the denominator `s`, so the
//! clip comparisons and the retained fractions reduce to their
//! numerators; `lemma_ndc_order` shows that this reduction is faithful.

use vstd::prelude::*;

use crate::rational::{q_add, q_eq, q_mul, q_sub, q_wf, rat_wf, Q, Rat};

verus! {

/// Largest magnitude accepted for a pixel or bounds coordinate.
pub const COORD_LIMIT: i64 = 16_777_216;

/// Largest accepted screen dimension, in pixels.
pub const SCREEN_LIMIT: u32 = 131_072;

/// Largest accepted denominator (and so numerator) of a texture
/// coordinate: enough for a texel coordinate on an atlas axis of up to
/// a million texels.
pub const TEX_LIMIT: i128 = 1_048_576;

/// An axis-aligned rectangle in pixel space.
#[derive(Clone, Copy, Debug, PartialEq, Eq, Structural)]
pub struct PixelRect {
    pub min_x: i64,
    pub min_y: i64,
    pub max_x: i64,
    pub max_y: i64,
}

/// An axis-aligned rectangle of texture coordinates, each in `0..=1`.
#[derive(Clone, Copy, Debug, PartialEq, Eq, Structural)]
pub struct TexRect {
    pub min_x: Rat,
    pub min_y: Rat,
    pub max_x: Rat,
    pub max_y: Rat,
}

/// An RGBA color, each channel carried as the 32-bit word the shader
/// will read; the algorithm passes it through untouched.
#[derive(Clone, Copy, Debug, PartialEq, Eq, Structural)]
pub struct Color {
    pub r: u32,
    pub g: u32,
    pub b: u32,
    pub a: u32,
}

/// One glyph as the layout engine describes it: where it lands on the
/// screen, how far it may reach, and where its bitmap sits in the atlas.
#[derive(Clone, Copy, Debug, PartialEq, Eq, Structural)]
pub struct GlyphVertex {
    pub tex_coords: TexRect,
    pub pixel_coords: PixelRect,
    pub bounds: PixelRect,
    pub screen_width: u32,
    pub screen_height: u32,
    pub color: Color,
    pub z: u32,
}

/// One per-glyph record driving one instanced quad. Geometry and
/// texture coordinates are exact rationals in normalized device
/// coordinates and atlas space; `z` and `color` are the 32-bit words the
/// shader will read, passed through from the vertex.
#[derive(Clone, Copy, Debug, PartialEq, Eq, Structural)]
pub struct Instance {
    pub left_top_x: Rat,
    pub left_top_y: Rat,
    pub z: u32,
    pub right_bottom_x: Rat,
    pub right_bottom_y: Rat,
    pub tex_left_top_x: Rat,
    pub tex_left_top_y: Rat,
    pub tex_right_bottom_x: Rat,
    pub tex_right_bottom_y: Rat,
    pub color: Color,
}

pub open spec fn coord_ok(c: int) -> bool {
    -(COORD_LIMIT as int) <= c <= COORD_LIMIT as int
}

pub open spec fn screen_ok(s: int) -> bool {
    0 < s <= SCREEN_LIMIT as int
}

/// A texture coordinate lies in `0..=1` with a bounded denominator.
pub open spec fn tex_coord_ok(r: Rat) -> bool {
    0 < r.den <= TEX_LIMIT && 0 <= r.num <= r.den
}

pub open spec fn tex_rect_ok(t: TexRect) -> bool {
    tex_coord_ok(t.min_x) && tex_coord_ok(t.min_y) && tex_coord_ok(t.max_x) && tex_coord_ok(
        t.max_y,
    )
}

pub open spec fn pixel_rect_in_range(r: PixelRect) -> bool {
    coord_ok(r.min_x as int) && coord_ok(r.min_y as int) && coord_ok(r.max_x as int) && coord_ok(
        r.max_y as int,
    )
}

/// What the algorithm asks of a descriptor: coordinates within machine
/// limits, a quad of positive extent (a zero extent would leave the
/// retained fraction undefined), and bounds that are a rectangle.
pub open spec fn vertex_wf(v: GlyphVertex) -> bool {
    &&& pixel_rect_in_range(v.pixel_coords)
    &&& pixel_rect_in_range(v.bounds)
    &&& v.pixel_coords.min_x < v.pixel_coords.max_x
    &&& v.pixel_coords.min_y < v.pixel_coords.max_y
    &&& v.bounds.min_x <= v.bounds.max_x
    &&& v.bounds.min_y <= v.bounds.max_y
    &&& screen_ok(v.screen_width as int)
    &&& screen_ok(v.screen_height as int)
    &&& tex_rect_ok(v.tex_coords)
}

/// Numerator of the normalized device coordinate of pixel coordinate `p`
/// on a screen axis of `s` pixels: the NDC value is `(2*p - s) / s`.
pub open spec fn ndc_num(p: int, s: int) -> int {
    2 * p - s
}

/// The NDC value itself, as a rational.
pub open spec fn ndc_q(p: int, s: int) -> Q {
    Q { n: ndc_num(p, s), d: s }
}

/// The result of clipping one axis: the surviving NDC numerators and the
/// rescaled texture edge coordinates.
pub ghost struct AxisClip {
    pub g_min: int,
    pub g_max: int,
    pub t_min: Q,
    pub t_max: Q,
}

/// Clips one axis of the NDC quad `(g_min, g_max)` against the NDC
/// bounds `(b_min, b_max)` — all four given as numerators over the
/// common positive denominator of the axis — and rescales the texture
/// edges `(t_min, t_max)` on that axis. An edge that moves takes with it
/// the same fraction of the texture interval that it takes of the
/// geometric interval, anchored at the opposite edge; when both edges
/// move, the minimal texture edge is anchored at the original minimal
/// edge, which the maximal edge's rescale kept in place.
pub open spec fn spec_clip_axis(
    g_min: int,
    g_max: int,
    b_min: int,
    b_max: int,
    t_min: Q,
    t_max: Q,
) -> AxisClip {
    let w = q_sub(t_max, t_min);
    let clipped_max = g_max > b_max;
    let clipped_min = g_min < b_min;
    AxisClip {
        g_min: if clipped_min {
            b_min
        } else {
            g_min
        },
        g_max: if clipped_max {
            b_max
        } else {
            g_max
        },
        t_max: if clipped_max {
            q_add(t_min, q_mul(w, Q { n: b_max - g_min, d: g_max - g_min }))
        } else {
            t_max
        },
        t_min: if clipped_min {
            if clipped_max {
                q_add(t_min, q_mul(w, Q { n: b_min - g_min, d: g_max - g_min }))
            } else {
                q_add(t_max, q_mul(w, Q { n: b_min - g_max, d: g_max - g_min }))
            }
        } else {
            t_min
        },
    }
}

/// The clipped x axis of a descriptor, in NDC numerators over
/// `screen_width`.
pub open spec fn spec_clip_x(v: GlyphVertex) -> AxisClip {
    spec_clip_axis(
        ndc_num(v.pixel_coords.min_x as int, v.screen_width as int),
        ndc_num(v.pixel_coords.max_x as int, v.screen_width as int),
        ndc_num(v.bounds.min_x as int, v.screen_width as int),
        ndc_num(v.bounds.max_x as int, v.screen_width as int),
        v.tex_coords.min_x@,
        v.tex_coords.max_x@,
    )
}

/// The clipped y axis of a descriptor, in NDC numerators over
/// `screen_height`.
pub open spec fn spec_clip_y(v: GlyphVertex) -> AxisClip {
    spec_clip_axis(
        ndc_num(v.pixel_coords.min_y as int, v.screen_height as int),
        ndc_num(v.pixel_coords.max_y as int, v.screen_height as int),
        ndc_num(v.bounds.min_y as int, v.screen_height as int),
        ndc_num(v.bounds.max_y as int, v.screen_height as int),
        v.tex_coords.min_y@,
        v.tex_coords.max_y@,
    )
}

/// Comparing NDC coordinates that share a positive screen denominator is
/// comparing their pixel coordinates: the clip conditions on numerators
/// are the clip conditions on the NDC rationals.
pub proof fn lemma_ndc_order(a: int, b: int, s: int)
    requires
        s > 0,
    ensures
        crate::rational::q_lt(ndc_q(a, s), ndc_q(b, s)) <==> a < b,
{
    assert(((2 * a - s) * s < (2 * b - s) * s) <==> a < b) by (nonlinear_arith)
        requires
            s > 0,
    ;
}

impl Instance {
    /// Converts one glyph vertex descriptor into the instance record the
    /// GPU consumes: NDC conversion, clipping against the bounds with
    /// aspect-preserving texture rescale, and the y-flipped packaging of
    /// the result. Pure; every descriptor the precondition admits yields
    /// exactly the instance the clipping model describes.
    pub fn from(v: &GlyphVertex) -> (r: Instance)
        requires
            vertex_wf(*v),
        ensures
            r.left_top_x@ == (Q { n: spec_clip_x(*v).g_min, d: v.screen_width as int }),
            r.left_top_y@ == (Q { n: spec_clip_y(*v).g_max, d: v.screen_height as int }),
            r.right_bottom_x@ == (Q { n: spec_clip_x(*v).g_max, d: v.screen_width as int }),
            r.right_bottom_y@ == (Q { n: spec_clip_y(*v).g_min, d: v.screen_height as int }),
            r.tex_left_top_x@ == spec_clip_x(*v).t_min,
            r.tex_left_top_y@ == spec_clip_y(*v).t_max,
            r.tex_right_bottom_x@ == spec_clip_x(*v).t_max,
            r.tex_right_bottom_y@ == spec_clip_y(*v).t_min,
            r.z == v.z,
            r.color == v.color,
            instance_wf(r),
    {
        let sx = v.screen_width as i128;
        let sy = v.screen_height as i128;

        let g_min_x = ndc_num_exec(v.pixel_coords.min_x, v.screen_width);
        let g_max_x = ndc_num_exec(v.pixel_coords.max_x, v.screen_width);
        let b_min_x = ndc_num_exec(v.bounds.min_x, v.screen_width);
        let b_max_x = ndc_num_exec(v.bounds.max_x, v.screen_width);

        let g_min_y = ndc_num_exec(v.pixel_coords.min_y, v.screen_height);
        let g_max_y = ndc_num_exec(v.pixel_coords.max_y, v.screen_height);
        let b_min_y = ndc_num_exec(v.bounds.min_y, v.screen_height);
        let b_max_y = ndc_num_exec(v.bounds.max_y, v.screen_height);

        let (out_min_x, out_max_x, out_t_min_x, out_t_max_x) = clip_axis(
            g_min_x,
            g_max_x,
            b_min_x,
            b_max_x,
            &v.tex_coords.min_x,
            &v.tex_coords.max_x,
        );
        let (out_min_y, out_max_y, out_t_min_y, out_t_max_y) = clip_axis(
            g_min_y,
            g_max_y,
            b_min_y,
            b_max_y,
            &v.tex_coords.min_y,
            &v.tex_coords.max_y,
        );

        Instance {
            left_top_x: Rat { num: out_min_x, den: sx },
            left_top_y: Rat { num: out_max_y, den: sy },
            z: v.z,
            right_bottom_x: Rat { num: out_max_x, den: sx },
            right_bottom_y: Rat { num: out_min_y, den: sy },
            tex_left_top_x: out_t_min_x,
            tex_left_top_y: out_t_max_y,
            tex_right_bottom_x: out_t_max_x,
            tex_right_bottom_y: out_t_min_y,
            color: v.color,
        }
    }
}

/// Every rational of an emitted instance keeps a positive denominator.
pub open spec fn instance_wf(r: Instance) -> bool {
    &&& rat_wf(r.left_top_x)
    &&& rat_wf(r.left_top_y)
    &&& rat_wf(r.right_bottom_x)
    &&& rat_wf(r.right_bottom_y)
    &&& rat_wf(r.tex_left_top_x)
    &&& rat_wf(r.tex_left_top_y)
    &&& rat_wf(r.tex_right_bottom_x)
    &&& rat_wf(r.tex_right_bottom_y)
}

/// The NDC numerator `2*p - s` of a pixel coordinate.
fn ndc_num_exec(p: i64, s: u32) -> (r: i128)
    requires
        coord_ok(p as int),
        screen_ok(s as int),
    ensures
        r == ndc_num(p as int, s as int),
        -3 * (COORD_LIMIT as int) <= r <= 3 * (COORD_LIMIT as int),
{
    2 * (p as i128) - (s as i128)
}

/// One axis of the conversion: clip the NDC interval
/// `(g_min, g_max)` — numerators over the common screen denominator —
/// against `(b_min, b_max)`, rescaling the texture edges. Returns the
/// clipped numerators and the texture edges, exactly as the clipping
/// model describes them.
#[verifier::rlimit(30)]
fn clip_axis(g_min: i128, g_max: i128, b_min: i128, b_max: i128, t_min: &Rat, t_max: &Rat) -> (r:
    (i128, i128, Rat, Rat))
    requires
        -3 * (COORD_LIMIT as int) <= g_min <= 3 * (COORD_LIMIT as int),
        -3 * (COORD_LIMIT as int) <= g_max <= 3 * (COORD_LIMIT as int),
        -3 * (COORD_LIMIT as int) <= b_min <= 3 * (COORD_LIMIT as int),
        -3 * (COORD_LIMIT as int) <= b_max <= 3 * (COORD_LIMIT as int),
        g_min < g_max,
        b_min <= b_max,
        tex_coord_ok(*t_min),
        tex_coord_ok(*t_max),
    ensures
        ({
            let c = spec_clip_axis(g_min as int, g_max as int, b_min as int, b_max as int, t_min@, t_max@);
            &&& r.0 == c.g_min
            &&& r.1 == c.g_max
            &&& r.2@ == c.t_min
            &&& r.3@ == c.t_max
            &&& rat_wf(r.2)
            &&& rat_wf(r.3)
        }),
{
    let clipped_max = g_max > b_max;
    let clipped_min = g_min < b_min;

    let width = tex_width(t_min, t_max);
    let span = g_max - g_min;

    let out_max = if clipped_max { b_max } else { g_max };
    let out_min = if clipped_min { b_min } else { g_min };

    let out_t_max = if clipped_max {
        rat_scale_add(t_min, &width, b_max - g_min, span)
    } else {
        *t_max
    };
    let out_t_min = if clipped_min {
        if clipped_max {
            rat_scale_add(t_min, &width, b_min - g_min, span)
        } else {
            rat_scale_add(t_max, &width, b_min - g_max, span)
        }
    } else {
        *t_min
    };

    (out_min, out_max, out_t_min, out_t_max)
}

/// The texture interval width `t_max - t_min`, as the unreduced
/// difference the clipping model uses.
fn tex_width(t_min: &Rat, t_max: &Rat) -> (r: Rat)
    requires
        tex_coord_ok(*t_min),
        tex_coord_ok(*t_max),
    ensures
        r@ == q_sub(t_max@, t_min@),
        r.den > 0,
        -2 * TEX_LIMIT * TEX_LIMIT <= r.num <= 2 * TEX_LIMIT * TEX_LIMIT,
        r.den <= TEX_LIMIT * TEX_LIMIT,
{
    proof {
        assert(t_max.num * t_min.den <= TEX_LIMIT * TEX_LIMIT && 0 <= t_max.num * t_min.den)
            by (nonlinear_arith)
            requires
                0 <= t_max.num <= TEX_LIMIT,
                0 < t_min.den <= TEX_LIMIT,
        ;
        assert(t_min.num * t_max.den <= TEX_LIMIT * TEX_LIMIT && 0 <= t_min.num * t_max.den)
            by (nonlinear_arith)
            requires
                0 <= t_min.num <= TEX_LIMIT,
                0 < t_max.den <= TEX_LIMIT,
        ;
        assert(0 < t_max.den * t_min.den <= TEX_LIMIT * TEX_LIMIT) by (nonlinear_arith)
            requires
                0 < t_max.den <= TEX_LIMIT,
                0 < t_min.den <= TEX_LIMIT,
        ;
    }
    Rat { num: t_max.num * t_min.den - t_min.num * t_max.den, den: t_max.den * t_min.den }
}

/// `anchor + width * (delta / span)`: the rescaled texture edge, built
/// exactly as `q_add(anchor, q_mul(width, Q { n: delta, d: span }))`.
fn rat_scale_add(anchor: &Rat, width: &Rat, delta: i128, span: i128) -> (r: Rat)
    requires
        tex_coord_ok(*anchor),
        -2 * TEX_LIMIT * TEX_LIMIT <= width.num <= 2 * TEX_LIMIT * TEX_LIMIT,
        0 < width.den <= TEX_LIMIT * TEX_LIMIT,
        -6 * (COORD_LIMIT as int) <= delta <= 6 * (COORD_LIMIT as int),
        0 < span <= 6 * (COORD_LIMIT as int),
    ensures
        r@ == q_add(anchor@, q_mul(width@, Q { n: delta as int, d: span as int })),
        rat_wf(r),
{
    proof {
        let lim: int = 2 * TEX_LIMIT * TEX_LIMIT * 6 * (COORD_LIMIT as int);
        assert(-lim <= width.num * delta <= lim) by (nonlinear_arith)
            requires
                -2 * TEX_LIMIT * TEX_LIMIT <= width.num <= 2 * TEX_LIMIT * TEX_LIMIT,
                -6 * (COORD_LIMIT as int) <= delta <= 6 * (COORD_LIMIT as int),
                lim == 2 * TEX_LIMIT * TEX_LIMIT * 6 * (COORD_LIMIT as int),
        ;
        assert(0 < width.den * span <= lim) by (nonlinear_arith)
            requires
                0 < width.den <= TEX_LIMIT * TEX_LIMIT,
                0 < span <= 6 * (COORD_LIMIT as int),
                lim == 2 * TEX_LIMIT * TEX_LIMIT * 6 * (COORD_LIMIT as int),
        ;
        assert(-TEX_LIMIT * lim <= anchor.num * (width.den * span) <= TEX_LIMIT * lim)
            by (nonlinear_arith)
            requires
                0 <= anchor.num <= TEX_LIMIT,
                0 < width.den * span <= lim,
        ;
        assert(-TEX_LIMIT * lim <= (width.num * delta) * anchor.den <= TEX_LIMIT * lim)
            by (nonlinear_arith)
            requires
                0 < anchor.den <= TEX_LIMIT,
                -lim <= width.num * delta <= lim,
        ;
        assert(0 < anchor.den * (width.den * span) <= TEX_LIMIT * lim) by (nonlinear_arith)
            requires
                0 < anchor.den <= TEX_LIMIT,
                0 < width.den * span <= lim,
        ;
    }
    let m_num = width.num * delta;
    let m_den = width.den * span;
    Rat { num: anchor.num * m_den + m_num * anchor.den, den: anchor.den * m_den }
}

} // verus!
