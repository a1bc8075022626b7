//! Laws of the conversion algorithm: what clipping leaves alone, what it
//! preserves when it acts, and that acting twice is acting once.

use vstd::prelude::*;

use crate::convert::{
    ndc_num, ndc_q, spec_clip_axis, spec_clip_x, spec_clip_y, vertex_wf, GlyphVertex,
};
use crate::rational::{
    lemma_q_add_sub, lemma_q_eq_add, lemma_q_eq_mul, lemma_q_eq_sub, lemma_q_eq_trans, q_add,
    q_div, q_eq, q_lt, q_mul, q_sub, q_wf, Q,
};

verus! {

/// A descriptor whose quad lies fully inside its bounds converts with no
/// clipping at all: the emitted geometry is the plain NDC conversion of
/// the pixel quad, and the texture rectangle is passed through with no
/// rescaling.
pub proof fn lemma_inside_bounds_unclipped(v: GlyphVertex)
    requires
        vertex_wf(v),
        v.bounds.min_x <= v.pixel_coords.min_x,
        v.pixel_coords.max_x <= v.bounds.max_x,
        v.bounds.min_y <= v.pixel_coords.min_y,
        v.pixel_coords.max_y <= v.bounds.max_y,
    ensures
        spec_clip_x(v).g_min == ndc_num(v.pixel_coords.min_x as int, v.screen_width as int),
        spec_clip_x(v).g_max == ndc_num(v.pixel_coords.max_x as int, v.screen_width as int),
        spec_clip_y(v).g_min == ndc_num(v.pixel_coords.min_y as int, v.screen_height as int),
        spec_clip_y(v).g_max == ndc_num(v.pixel_coords.max_y as int, v.screen_height as int),
        spec_clip_x(v).t_min == v.tex_coords.min_x@,
        spec_clip_x(v).t_max == v.tex_coords.max_x@,
        spec_clip_y(v).t_min == v.tex_coords.min_y@,
        spec_clip_y(v).t_max == v.tex_coords.max_y@,
{
}

/// When only the maximal edge of an axis is clipped, the minimal edge of
/// geometry and texture is untouched, and the retained texture interval
/// is the original texture interval scaled by exactly the retained
/// geometric fraction `(b_max - g_min) / (g_max - g_min)`: the texel
/// density of the surviving portion is preserved.
pub proof fn lemma_max_edge_clip_preserves_aspect(
    g_min: int,
    g_max: int,
    b_min: int,
    b_max: int,
    t_min: Q,
    t_max: Q,
)
    requires
        q_wf(t_min),
        q_wf(t_max),
        g_min < g_max,
        b_max < g_max,
        b_min <= g_min,
    ensures
        ({
            let c = spec_clip_axis(g_min, g_max, b_min, b_max, t_min, t_max);
            &&& c.g_min == g_min
            &&& c.t_min == t_min
            &&& c.g_max == b_max
            &&& q_eq(
                q_sub(c.t_max, c.t_min),
                q_mul(q_sub(t_max, t_min), Q { n: b_max - g_min, d: g_max - g_min }),
            )
        }),
{
    let w = q_sub(t_max, t_min);
    let scaled = q_mul(w, Q { n: b_max - g_min, d: g_max - g_min });
    assert(w.d > 0) by (nonlinear_arith)
        requires
            t_max.d > 0,
            t_min.d > 0,
            w.d == t_max.d * t_min.d,
    ;
    assert(scaled.d == w.d * (g_max - g_min));
    assert(w.d * (g_max - g_min) > 0) by (nonlinear_arith)
        requires
            w.d > 0,
            g_max - g_min > 0,
    ;
    lemma_q_add_sub(t_min, scaled);
}

/// When only the minimal edge of an axis is clipped, the maximal edge of
/// geometry and texture is untouched, and the retained texture interval
/// is the original texture interval scaled by exactly the retained
/// geometric fraction `(g_max - b_min) / (g_max - g_min)`.
pub proof fn lemma_min_edge_clip_preserves_aspect(
    g_min: int,
    g_max: int,
    b_min: int,
    b_max: int,
    t_min: Q,
    t_max: Q,
)
    requires
        q_wf(t_min),
        q_wf(t_max),
        g_min < g_max,
        g_min < b_min,
        g_max <= b_max,
    ensures
        ({
            let c = spec_clip_axis(g_min, g_max, b_min, b_max, t_min, t_max);
            &&& c.g_max == g_max
            &&& c.t_max == t_max
            &&& c.g_min == b_min
            &&& q_eq(
                q_sub(c.t_max, c.t_min),
                q_mul(q_sub(t_max, t_min), Q { n: g_max - b_min, d: g_max - g_min }),
            )
        }),
{
    let w = q_sub(t_max, t_min);
    let c = spec_clip_axis(g_min, g_max, b_min, b_max, t_min, t_max);
    let dropped = q_mul(w, Q { n: b_min - g_max, d: g_max - g_min });
    let kept = q_mul(w, Q { n: g_max - b_min, d: g_max - g_min });
    assert(c.t_min == q_add(t_max, dropped));
    // t_max - (t_max + dropped) represents -dropped, which is kept.
    let s = q_sub(t_max, q_add(t_max, dropped));
    assert(s.n == t_max.n * (t_max.d * dropped.d) - (t_max.n * dropped.d + dropped.n * t_max.d)
        * t_max.d);
    assert(s.d == t_max.d * (t_max.d * dropped.d));
    assert(kept.n == w.n * (g_max - b_min) && dropped.n == w.n * (b_min - g_max) && kept.d
        == dropped.d);
    assert(kept.n == -dropped.n) by (nonlinear_arith)
        requires
            kept.n == w.n * (g_max - b_min),
            dropped.n == w.n * (b_min - g_max),
    ;
    assert((t_max.n * (t_max.d * dropped.d) - (t_max.n * dropped.d + dropped.n * t_max.d)
        * t_max.d) * kept.d == kept.n * (t_max.d * (t_max.d * dropped.d))) by (nonlinear_arith)
        requires
            kept.d == dropped.d,
            kept.n == -dropped.n,
    ;
    assert(q_eq(s, kept));
}

/// A descriptor clipped on exactly one edge — here the maximal x edge —
/// keeps the other three edges of geometry and texture exactly as the
/// unclipped conversion would emit them, and rescales the one affected
/// texture edge by precisely the retained geometric fraction of its
/// axis.
pub proof fn lemma_single_edge_clip(v: GlyphVertex)
    requires
        vertex_wf(v),
        v.pixel_coords.max_x > v.bounds.max_x,
        v.bounds.min_x <= v.pixel_coords.min_x,
        v.bounds.min_y <= v.pixel_coords.min_y,
        v.pixel_coords.max_y <= v.bounds.max_y,
    ensures
        ({
            let sx = v.screen_width as int;
            let sy = v.screen_height as int;
            let cx = spec_clip_x(v);
            let cy = spec_clip_y(v);
            // The three unclipped edges, on both axes, are unchanged.
            &&& cx.g_min == ndc_num(v.pixel_coords.min_x as int, sx)
            &&& cx.t_min == v.tex_coords.min_x@
            &&& cy.g_min == ndc_num(v.pixel_coords.min_y as int, sy)
            &&& cy.g_max == ndc_num(v.pixel_coords.max_y as int, sy)
            &&& cy.t_min == v.tex_coords.min_y@
            &&& cy.t_max == v.tex_coords.max_y@
            // The clipped edge lands on the bound.
            &&& cx.g_max == ndc_num(v.bounds.max_x as int, sx)
            // Aspect preserved: the retained texture interval is the
            // whole interval scaled by the retained geometric fraction.
            &&& q_eq(
                q_sub(cx.t_max, cx.t_min),
                q_mul(
                    q_sub(v.tex_coords.max_x@, v.tex_coords.min_x@),
                    Q {
                        n: ndc_num(v.bounds.max_x as int, sx) - ndc_num(
                            v.pixel_coords.min_x as int,
                            sx,
                        ),
                        d: ndc_num(v.pixel_coords.max_x as int, sx) - ndc_num(
                            v.pixel_coords.min_x as int,
                            sx,
                        ),
                    },
                ),
            )
        }),
{
    let sx = v.screen_width as int;
    lemma_max_edge_clip_preserves_aspect(
        ndc_num(v.pixel_coords.min_x as int, sx),
        ndc_num(v.pixel_coords.max_x as int, sx),
        ndc_num(v.bounds.min_x as int, sx),
        ndc_num(v.bounds.max_x as int, sx),
        v.tex_coords.min_x@,
        v.tex_coords.max_x@,
    );
}

/// The result of clipping one axis over rationals, edge by edge.
pub ghost struct AxisClipSteps {
    pub g_min: Q,
    pub g_max: Q,
    pub t_min: Q,
    pub t_max: Q,
}

/// One axis of the clipping stage written as the edge-by-edge
/// procedure: first the maximal edge is clipped, rescaling the maximal
/// texture edge by the ratio of the width after the move to the width
/// before it; then the minimal edge is clipped the same way against the
/// already updated quad and texture interval. `spec_clip_axis` is the
/// per-case closed form of this procedure over the shared-denominator
/// numerators; `lemma_clip_axis_matches_steps` proves the two agree.
pub open spec fn spec_clip_axis_steps(
    g_min: Q,
    g_max: Q,
    b_min: Q,
    b_max: Q,
    t_min: Q,
    t_max: Q,
) -> AxisClipSteps {
    let g_max1 = if q_lt(b_max, g_max) {
        b_max
    } else {
        g_max
    };
    let t_max1 = if q_lt(b_max, g_max) {
        q_add(t_min, q_mul(q_sub(t_max, t_min), q_div(q_sub(b_max, g_min), q_sub(g_max, g_min))))
    } else {
        t_max
    };
    let g_min1 = if q_lt(g_min, b_min) {
        b_min
    } else {
        g_min
    };
    let t_min1 = if q_lt(g_min, b_min) {
        q_sub(
            t_max1,
            q_mul(q_sub(t_max1, t_min), q_div(q_sub(g_max1, b_min), q_sub(g_max1, g_min))),
        )
    } else {
        t_min
    };
    AxisClipSteps { g_min: g_min1, g_max: g_max1, t_min: t_min1, t_max: t_max1 }
}

/// The closed per-case clipping model computes, value for value, what
/// the edge-by-edge procedure computes on the NDC rationals: the same
/// surviving geometry, and rationally equal texture edges.
#[verifier::rlimit(60)]
pub proof fn lemma_clip_axis_matches_steps(
    g_min: int,
    g_max: int,
    b_min: int,
    b_max: int,
    s: int,
    t_min: Q,
    t_max: Q,
)
    requires
        s > 0,
        g_min < g_max,
        b_min <= b_max,
        q_wf(t_min),
        q_wf(t_max),
    ensures
        ({
            let c = spec_clip_axis(g_min, g_max, b_min, b_max, t_min, t_max);
            let steps = spec_clip_axis_steps(
                Q { n: g_min, d: s },
                Q { n: g_max, d: s },
                Q { n: b_min, d: s },
                Q { n: b_max, d: s },
                t_min,
                t_max,
            );
            &&& steps.g_min == (Q { n: c.g_min, d: s })
            &&& steps.g_max == (Q { n: c.g_max, d: s })
            &&& q_eq(steps.t_min, c.t_min)
            &&& q_eq(steps.t_max, c.t_max)
        }),
{
    let c = spec_clip_axis(g_min, g_max, b_min, b_max, t_min, t_max);
    let qgmin = Q { n: g_min, d: s };
    let qgmax = Q { n: g_max, d: s };
    let qbmin = Q { n: b_min, d: s };
    let qbmax = Q { n: b_max, d: s };
    let steps = spec_clip_axis_steps(qgmin, qgmax, qbmin, qbmax, t_min, t_max);
    let w = q_sub(t_max, t_min);
    let span: int = g_max - g_min;

    // The clip conditions on the rationals are the conditions on the
    // shared-denominator numerators.
    assert((b_max * s < g_max * s) <==> b_max < g_max) by (nonlinear_arith)
        requires
            s > 0,
    ;
    assert(q_lt(qbmax, qgmax) <==> b_max < g_max);
    assert((g_min * s < b_min * s) <==> g_min < b_min) by (nonlinear_arith)
        requires
            s > 0,
    ;
    assert(q_lt(qgmin, qbmin) <==> g_min < b_min);

    assert(w.d > 0) by (nonlinear_arith)
        requires
            t_max.d > 0,
            t_min.d > 0,
            w.d == t_max.d * t_min.d,
    ;

    // The maximal edge's ratio, in rationals and as the numerator pair.
    let r1s = q_div(q_sub(qbmax, qgmin), q_sub(qgmax, qgmin));
    let r1 = Q { n: b_max - g_min, d: span };
    assert(((b_max * s - g_min * s) * (s * s)) * (g_max - g_min) == (b_max - g_min) * ((s * s) * (
    g_max * s - g_min * s))) by (nonlinear_arith);
    assert(q_eq(r1s, r1));
    lemma_q_eq_mul(w, w, r1s, r1);
    lemma_q_eq_add(t_min, t_min, q_mul(w, r1s), q_mul(w, r1));
    let t_max_closed = q_add(t_min, q_mul(w, r1));
    assert(q_eq(q_add(t_min, q_mul(w, r1s)), t_max_closed));

    if b_max < g_max {
        assert(steps.t_max == q_add(t_min, q_mul(w, r1s)));
        assert(c.t_max == t_max_closed);
    } else {
        assert(steps.t_max == t_max && c.t_max == t_max);
    }
    assert(q_eq(steps.t_max, c.t_max));

    if g_min < b_min {
        if b_max < g_max {
            // Both edges clipped: the procedure rescales the minimal
            // edge against the already clipped quad and texture.
            let t_max1 = q_add(t_min, q_mul(w, r1s));
            assert(steps.t_max == t_max1);
            let x = q_mul(w, r1);
            assert(x.d == w.d * span);
            assert(w.d * span > 0) by (nonlinear_arith)
                requires
                    w.d > 0,
                    span > 0,
            ;
            assert(t_max_closed.d == t_min.d * (w.d * span));
            assert(t_min.d * (w.d * span) > 0) by (nonlinear_arith)
                requires
                    t_min.d > 0,
                    w.d * span > 0,
            ;
            // The procedure's current texture width is rationally the
            // original width scaled by the maximal edge's ratio.
            let d2s = q_sub(t_max1, t_min);
            let mid = q_sub(t_max_closed, t_min);
            lemma_q_eq_sub(t_max1, t_max_closed, t_min, t_min);
            lemma_q_add_sub(t_min, x);
            assert(mid.d == t_max_closed.d * t_min.d);
            assert(t_max_closed.d * t_min.d > 0) by (nonlinear_arith)
                requires
                    t_max_closed.d > 0,
                    t_min.d > 0,
            ;
            lemma_q_eq_trans(d2s, mid, x);
            // The minimal edge's ratio against the clipped quad.
            let r3s = q_div(q_sub(qbmax, qbmin), q_sub(qbmax, qgmin));
            let r3 = Q { n: b_max - b_min, d: b_max - g_min };
            assert(((b_max * s - b_min * s) * (s * s)) * (b_max - g_min) == (b_max - b_min) * ((s
                * s) * (b_max * s - g_min * s))) by (nonlinear_arith);
            assert(q_eq(r3s, r3));
            lemma_q_eq_mul(d2s, x, r3s, r3);
            lemma_q_eq_sub(t_max1, t_max_closed, q_mul(d2s, r3s), q_mul(x, r3));
            assert(steps.t_min == q_sub(t_max1, q_mul(d2s, r3s)));
            let almost = q_sub(t_max_closed, q_mul(x, r3));
            assert(q_eq(steps.t_min, almost));
            // Closing the algebra: dropping the clipped tail of the
            // rescaled interval lands exactly on the closed form.
            let p: int = b_max - g_min;
            let k: int = b_max - b_min;
            let l: int = b_min - g_min;
            let u: int = w.d * span;
            assert(almost.n == (t_min.n * u + (w.n * p) * t_min.d) * (u * p) - ((w.n * p) * k) * (
            t_min.d * u));
            assert(almost.d == (t_min.d * u) * (u * p));
            assert(c.t_min == q_add(t_min, q_mul(w, Q { n: l, d: span })));
            assert(c.t_min.n == t_min.n * u + (w.n * l) * t_min.d);
            assert(c.t_min.d == t_min.d * u);
            // Dropping the clipped tail scales both parts of the closed
            // form by the same factor.
            let a: int = w.n * t_min.d;
            assert((t_min.n * u + (w.n * p) * t_min.d) * (u * p) == (t_min.n * u) * (u * p) + (a
                * p) * (u * p)) by (nonlinear_arith)
                requires
                    a == w.n * t_min.d,
            ;
            assert(((w.n * p) * k) * (t_min.d * u) == (a * p) * (k * u)) by (nonlinear_arith)
                requires
                    a == w.n * t_min.d,
            ;
            assert((a * p) * (u * p) - (a * p) * (k * u) == (a * l) * (u * p)) by (nonlinear_arith)
                requires
                    p == k + l,
            ;
            assert((t_min.n * u + (w.n * l) * t_min.d) * (u * p) == (t_min.n * u) * (u * p) + (a
                * l) * (u * p)) by (nonlinear_arith)
                requires
                    a == w.n * t_min.d,
            ;
            assert(almost.n == c.t_min.n * (u * p));
            assert(almost.d == c.t_min.d * (u * p)) by (nonlinear_arith)
                requires
                    almost.d == (t_min.d * u) * (u * p),
                    c.t_min.d == t_min.d * u,
            ;
            assert(almost.n * c.t_min.d == c.t_min.n * almost.d) by (nonlinear_arith)
                requires
                    almost.n == c.t_min.n * (u * p),
                    almost.d == c.t_min.d * (u * p),
            ;
            assert(q_eq(almost, c.t_min));
            assert(almost.d != 0) by (nonlinear_arith)
                requires
                    t_min.d * u > 0,
                    p > 0,
                    almost.d == (t_min.d * u) * (u * p),
                    u > 0,
            ;
            lemma_q_eq_trans(steps.t_min, almost, c.t_min);
        } else {
            // Only the minimal edge is clipped: anchored at the maximal
            // texture edge, which stays.
            let r2s = q_div(q_sub(qgmax, qbmin), q_sub(qgmax, qgmin));
            let r2 = Q { n: g_max - b_min, d: span };
            assert(((g_max * s - b_min * s) * (s * s)) * (g_max - g_min) == (g_max - b_min) * ((s
                * s) * (g_max * s - g_min * s))) by (nonlinear_arith);
            assert(q_eq(r2s, r2));
            lemma_q_eq_mul(w, w, r2s, r2);
            lemma_q_eq_sub(t_max, t_max, q_mul(w, r2s), q_mul(w, r2));
            assert(steps.t_min == q_sub(t_max, q_mul(w, r2s)));
            let bridged = q_sub(t_max, q_mul(w, r2));
            assert(q_eq(steps.t_min, bridged));
            // The closed form writes the same value as an addition of
            // the negated ratio.
            assert(c.t_min == q_add(t_max, q_mul(w, Q { n: b_min - g_max, d: span })));
            assert((w.n * (b_min - g_max)) * t_max.d == -((w.n * (g_max - b_min)) * t_max.d))
                by (nonlinear_arith);
            assert(bridged.n == t_max.n * (w.d * span) - (w.n * (g_max - b_min)) * t_max.d);
            assert(c.t_min.n == t_max.n * (w.d * span) + (w.n * (b_min - g_max)) * t_max.d);
            assert(bridged.n == c.t_min.n);
            assert(bridged.d == c.t_min.d);
            assert(bridged == c.t_min);
        }
    } else {
        assert(steps.t_min == t_min && c.t_min == t_min);
    }
    assert(q_eq(steps.t_min, c.t_min));
}

/// The contract of the conversion speaks the edge-by-edge language too:
/// on both axes of any well-formed descriptor, the clip the instance is
/// built from agrees with the edge-by-edge procedure run on the NDC
/// rationals of the quad and the bounds.
pub proof fn lemma_vertex_clip_matches_steps(v: GlyphVertex)
    requires
        vertex_wf(v),
    ensures
        ({
            let sx = v.screen_width as int;
            let cx = spec_clip_x(v);
            let steps_x = spec_clip_axis_steps(
                ndc_q(v.pixel_coords.min_x as int, sx),
                ndc_q(v.pixel_coords.max_x as int, sx),
                ndc_q(v.bounds.min_x as int, sx),
                ndc_q(v.bounds.max_x as int, sx),
                v.tex_coords.min_x@,
                v.tex_coords.max_x@,
            );
            &&& steps_x.g_min == (Q { n: cx.g_min, d: sx })
            &&& steps_x.g_max == (Q { n: cx.g_max, d: sx })
            &&& q_eq(steps_x.t_min, cx.t_min)
            &&& q_eq(steps_x.t_max, cx.t_max)
        }),
        ({
            let sy = v.screen_height as int;
            let cy = spec_clip_y(v);
            let steps_y = spec_clip_axis_steps(
                ndc_q(v.pixel_coords.min_y as int, sy),
                ndc_q(v.pixel_coords.max_y as int, sy),
                ndc_q(v.bounds.min_y as int, sy),
                ndc_q(v.bounds.max_y as int, sy),
                v.tex_coords.min_y@,
                v.tex_coords.max_y@,
            );
            &&& steps_y.g_min == (Q { n: cy.g_min, d: sy })
            &&& steps_y.g_max == (Q { n: cy.g_max, d: sy })
            &&& q_eq(steps_y.t_min, cy.t_min)
            &&& q_eq(steps_y.t_max, cy.t_max)
        }),
{
    let sx = v.screen_width as int;
    lemma_clip_axis_matches_steps(
        ndc_num(v.pixel_coords.min_x as int, sx),
        ndc_num(v.pixel_coords.max_x as int, sx),
        ndc_num(v.bounds.min_x as int, sx),
        ndc_num(v.bounds.max_x as int, sx),
        sx,
        v.tex_coords.min_x@,
        v.tex_coords.max_x@,
    );
    let sy = v.screen_height as int;
    lemma_clip_axis_matches_steps(
        ndc_num(v.pixel_coords.min_y as int, sy),
        ndc_num(v.pixel_coords.max_y as int, sy),
        ndc_num(v.bounds.min_y as int, sy),
        ndc_num(v.bounds.max_y as int, sy),
        sy,
        v.tex_coords.min_y@,
        v.tex_coords.max_y@,
    );
}

/// Clipping is idempotent: clipping an already clipped axis against the
/// same bounds moves nothing and rescales nothing.
pub proof fn lemma_clip_idempotent(
    g_min: int,
    g_max: int,
    b_min: int,
    b_max: int,
    t_min: Q,
    t_max: Q,
)
    ensures
        ({
            let c = spec_clip_axis(g_min, g_max, b_min, b_max, t_min, t_max);
            spec_clip_axis(c.g_min, c.g_max, b_min, b_max, c.t_min, c.t_max) == c
        }),
{
}

} // verus!
