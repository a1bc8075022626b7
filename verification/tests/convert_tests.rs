use glyph_pipeline::convert::{Color, GlyphVertex, Instance, PixelRect, TexRect};
use glyph_pipeline::rational::Rat;

fn tex_unit_rect() -> TexRect {
    // The whole atlas: texture coordinates from zero to one.
    TexRect {
        min_x: Rat::new(0, 1),
        min_y: Rat::new(0, 1),
        max_x: Rat::new(1, 1),
        max_y: Rat::new(1, 1),
    }
}

fn tex_quarter_rect() -> TexRect {
    // A glyph bitmap between one and two quarters on each atlas axis.
    TexRect {
        min_x: Rat::new(1, 4),
        min_y: Rat::new(1, 4),
        max_x: Rat::new(2, 4),
        max_y: Rat::new(2, 4),
    }
}

fn zero_color() -> Color {
    Color { r: 0, g: 0, b: 0, a: 0 }
}

#[test]
fn glyph_filling_bounds_converts_without_adjustment() {
    // A single glyph exactly filling its bounds: the output corners are
    // the plain NDC conversion of the pixel rect, the texture rectangle
    // is untouched, and color and depth pass through.
    let v = GlyphVertex {
        tex_coords: tex_unit_rect(),
        pixel_coords: PixelRect { min_x: 0, min_y: 0, max_x: 800, max_y: 600 },
        bounds: PixelRect { min_x: 0, min_y: 0, max_x: 800, max_y: 600 },
        screen_width: 800,
        screen_height: 600,
        color: zero_color(),
        z: 0,
    };
    let i = Instance::from(&v);
    // ndc numerator is 2*p - s over denominator s.
    assert_eq!(i.left_top_x, Rat { num: -800, den: 800 });
    assert_eq!(i.left_top_y, Rat { num: 600, den: 600 });
    assert_eq!(i.right_bottom_x, Rat { num: 800, den: 800 });
    assert_eq!(i.right_bottom_y, Rat { num: -600, den: 600 });
    assert_eq!(i.tex_left_top_x, Rat { num: 0, den: 1 });
    assert_eq!(i.tex_left_top_y, Rat { num: 1, den: 1 });
    assert_eq!(i.tex_right_bottom_x, Rat { num: 1, den: 1 });
    assert_eq!(i.tex_right_bottom_y, Rat { num: 0, den: 1 });
    assert_eq!(i.color, zero_color());
    assert_eq!(i.z, 0);
}

#[test]
fn quad_inside_bounds_keeps_texture_rect() {
    let v = GlyphVertex {
        tex_coords: tex_quarter_rect(),
        pixel_coords: PixelRect { min_x: 10, min_y: 10, max_x: 30, max_y: 30 },
        bounds: PixelRect { min_x: 0, min_y: 0, max_x: 100, max_y: 100 },
        screen_width: 100,
        screen_height: 100,
        color: zero_color(),
        z: 7,
    };
    let i = Instance::from(&v);
    assert_eq!(i.left_top_x, Rat { num: -80, den: 100 });
    assert_eq!(i.left_top_y, Rat { num: -40, den: 100 });
    assert_eq!(i.right_bottom_x, Rat { num: -40, den: 100 });
    assert_eq!(i.right_bottom_y, Rat { num: -80, den: 100 });
    assert_eq!(i.tex_left_top_x, Rat { num: 1, den: 4 });
    assert_eq!(i.tex_left_top_y, Rat { num: 2, den: 4 });
    assert_eq!(i.tex_right_bottom_x, Rat { num: 2, den: 4 });
    assert_eq!(i.tex_right_bottom_y, Rat { num: 1, den: 4 });
    assert_eq!(i.z, 7);
}

#[test]
fn clip_on_max_x_rescales_texture_by_retained_fraction() {
    // The quad spans NDC numerators -80..-40 on x; the bounds end at
    // -60, so half the quad is retained. The texture edge must move to
    // min + width * (1/2): from 2/4 down to 3/8.
    let v = GlyphVertex {
        tex_coords: tex_quarter_rect(),
        pixel_coords: PixelRect { min_x: 10, min_y: 10, max_x: 30, max_y: 30 },
        bounds: PixelRect { min_x: 0, min_y: 0, max_x: 20, max_y: 100 },
        screen_width: 100,
        screen_height: 100,
        color: zero_color(),
        z: 0,
    };
    let i = Instance::from(&v);
    // Clipped geometry: max x becomes the bound.
    assert_eq!(i.right_bottom_x, Rat { num: -60, den: 100 });
    // Unclipped edges unchanged.
    assert_eq!(i.left_top_x, Rat { num: -80, den: 100 });
    assert_eq!(i.tex_left_top_x, Rat { num: 1, den: 4 });
    assert_eq!(i.tex_left_top_y, Rat { num: 2, den: 4 });
    assert_eq!(i.tex_right_bottom_y, Rat { num: 1, den: 4 });
    // Rescaled texture edge: 1/4 + (1/4)*(20/40) = 3/8, carried
    // unreduced as 960/2560.
    assert_eq!(i.tex_right_bottom_x, Rat { num: 960, den: 2560 });
    assert_eq!(i.tex_right_bottom_x.num * 8, 3 * i.tex_right_bottom_x.den);
}

#[test]
fn clip_on_min_x_anchors_at_max_edge() {
    // Only the minimal x edge is clipped: the texture minimum is pulled
    // toward the maximum edge, which stays in place.
    let v = GlyphVertex {
        tex_coords: tex_quarter_rect(),
        pixel_coords: PixelRect { min_x: 10, min_y: 10, max_x: 30, max_y: 30 },
        bounds: PixelRect { min_x: 20, min_y: 0, max_x: 100, max_y: 100 },
        screen_width: 100,
        screen_height: 100,
        color: zero_color(),
        z: 0,
    };
    let i = Instance::from(&v);
    assert_eq!(i.left_top_x, Rat { num: -60, den: 100 });
    assert_eq!(i.right_bottom_x, Rat { num: -40, den: 100 });
    assert_eq!(i.tex_right_bottom_x, Rat { num: 2, den: 4 });
    // 2/4 + (1/4)*(-20/40) = 3/8, carried unreduced as 960/2560.
    assert_eq!(i.tex_left_top_x, Rat { num: 960, den: 2560 });
    assert_eq!(i.tex_left_top_x.num * 8, 3 * i.tex_left_top_x.den);
}

#[test]
fn clip_on_both_x_edges_keeps_texel_density() {
    // Bounds cut both vertical edges: NDC -80..-40 against -70..-50.
    // Retained fractions anchored at the original minimum: the texture
    // interval 1/4..2/4 becomes 5/16..7/16.
    let v = GlyphVertex {
        tex_coords: tex_quarter_rect(),
        pixel_coords: PixelRect { min_x: 10, min_y: 10, max_x: 30, max_y: 30 },
        bounds: PixelRect { min_x: 15, min_y: 0, max_x: 25, max_y: 100 },
        screen_width: 100,
        screen_height: 100,
        color: zero_color(),
        z: 0,
    };
    let i = Instance::from(&v);
    assert_eq!(i.left_top_x, Rat { num: -70, den: 100 });
    assert_eq!(i.right_bottom_x, Rat { num: -50, den: 100 });
    // max: 1/4 + (1/4)*(30/40) = 7/16; min: 1/4 + (1/4)*(10/40) = 5/16.
    assert_eq!(i.tex_right_bottom_x, Rat { num: 1120, den: 2560 });
    assert_eq!(i.tex_right_bottom_x.num * 16, 7 * i.tex_right_bottom_x.den);
    assert_eq!(i.tex_left_top_x, Rat { num: 800, den: 2560 });
    assert_eq!(i.tex_left_top_x.num * 16, 5 * i.tex_left_top_x.den);
}

#[test]
fn y_axis_is_flipped_in_output() {
    // left_top.y always carries the maximal clipped NDC y and
    // right_bottom.y the minimal one, and the texture rectangle follows
    // the same convention.
    let v = GlyphVertex {
        tex_coords: tex_quarter_rect(),
        pixel_coords: PixelRect { min_x: 10, min_y: 10, max_x: 30, max_y: 30 },
        bounds: PixelRect { min_x: 0, min_y: 0, max_x: 100, max_y: 20 },
        screen_width: 100,
        screen_height: 100,
        color: zero_color(),
        z: 0,
    };
    let i = Instance::from(&v);
    // The maximal y edge is clipped from -40 to the bound -60; it is
    // reported in left_top.
    assert_eq!(i.left_top_y, Rat { num: -60, den: 100 });
    assert_eq!(i.right_bottom_y, Rat { num: -80, den: 100 });
    // Its texture edge sits in tex_left_top: 1/4 + (1/4)*(20/40) = 3/8.
    assert_eq!(i.tex_left_top_y, Rat { num: 960, den: 2560 });
    assert_eq!(i.tex_right_bottom_y, Rat { num: 1, den: 4 });
}

#[test]
fn axes_clip_independently() {
    // Bounds that cut the maximal edge of both axes at once: each axis
    // is clipped against its own bound, with its own retained fraction.
    let v = GlyphVertex {
        tex_coords: tex_quarter_rect(),
        pixel_coords: PixelRect { min_x: 10, min_y: 10, max_x: 30, max_y: 30 },
        bounds: PixelRect { min_x: 0, min_y: 5, max_x: 20, max_y: 25 },
        screen_width: 100,
        screen_height: 100,
        color: zero_color(),
        z: 0,
    };
    let i = Instance::from(&v);
    // x: clipped to the bound at NDC numerator -60, half retained.
    assert_eq!(i.right_bottom_x, Rat { num: -60, den: 100 });
    assert_eq!(i.tex_right_bottom_x, Rat { num: 960, den: 2560 });
    // y: clipped to the bound at NDC numerator -50, three quarters
    // retained: 1/4 + (1/4)*(3/4) = 7/16.
    assert_eq!(i.left_top_y, Rat { num: -50, den: 100 });
    assert_eq!(i.tex_left_top_y, Rat { num: 1120, den: 2560 });
    // The minimal edges of both axes are untouched.
    assert_eq!(i.left_top_x, Rat { num: -80, den: 100 });
    assert_eq!(i.right_bottom_y, Rat { num: -80, den: 100 });
    assert_eq!(i.tex_left_top_x, Rat { num: 1, den: 4 });
    assert_eq!(i.tex_right_bottom_y, Rat { num: 1, den: 4 });
}

#[test]
fn reconverting_a_clipped_quad_changes_nothing() {
    // Clipping is idempotent: a quad that was already cut down to its
    // bounds converts again, against the same bounds, with no further
    // movement and no texture rescale.
    let bounds = PixelRect { min_x: 15, min_y: 0, max_x: 25, max_y: 100 };
    let clipped = GlyphVertex {
        // The geometry that clipping 10..30 against 15..25 leaves, with
        // the texture interval it rescaled to: 5/16..7/16.
        tex_coords: TexRect {
            min_x: Rat::new(5, 16),
            min_y: Rat::new(1, 4),
            max_x: Rat::new(7, 16),
            max_y: Rat::new(2, 4),
        },
        pixel_coords: PixelRect { min_x: 15, min_y: 10, max_x: 25, max_y: 30 },
        bounds,
        screen_width: 100,
        screen_height: 100,
        color: zero_color(),
        z: 0,
    };
    let again = Instance::from(&clipped);
    assert_eq!(again.left_top_x, Rat { num: -70, den: 100 });
    assert_eq!(again.right_bottom_x, Rat { num: -50, den: 100 });
    assert_eq!(again.tex_left_top_x, Rat { num: 5, den: 16 });
    assert_eq!(again.tex_right_bottom_x, Rat { num: 7, den: 16 });
    assert_eq!(again.tex_left_top_y, Rat { num: 2, den: 4 });
    assert_eq!(again.tex_right_bottom_y, Rat { num: 1, den: 4 });
}

#[test]
fn quad_fully_outside_bounds_is_emitted_degenerate() {
    // A quad entirely left of the bounds: the minimal edge is clamped
    // past the maximal one. The record is emitted, not filtered; the
    // caller may drop degenerate instances.
    let v = GlyphVertex {
        tex_coords: tex_quarter_rect(),
        pixel_coords: PixelRect { min_x: 10, min_y: 10, max_x: 30, max_y: 30 },
        bounds: PixelRect { min_x: 40, min_y: 0, max_x: 100, max_y: 100 },
        screen_width: 100,
        screen_height: 100,
        color: zero_color(),
        z: 0,
    };
    let i = Instance::from(&v);
    assert_eq!(i.left_top_x, Rat { num: -20, den: 100 });
    assert_eq!(i.right_bottom_x, Rat { num: -40, den: 100 });
    // The emitted interval is inverted: min NDC above max NDC.
    assert!(i.left_top_x.num > i.right_bottom_x.num);
}
