//! The binary contract with the shader.
//!
//! The shader reads one tightly packed 52-byte record per instance —
//! five per-instance vertex attributes at fixed byte offsets — and a
//! bind group of three resources at fixed binding indices. Field order,
//! sizes and offsets are a wire format, not an ordinary data structure;
//! this module states them and proves the packing against them.

use vstd::prelude::*;

verus! {

/// Bytes per packed instance record.
pub const INSTANCE_STRIDE: u32 = 52;

/// Byte offset of the three `left_top` words (x, y, z).
pub const LEFT_TOP_OFFSET: u32 = 0;

/// Byte offset of the two `right_bottom` words.
pub const RIGHT_BOTTOM_OFFSET: u32 = 12;

/// Byte offset of the two `tex_left_top` words.
pub const TEX_LEFT_TOP_OFFSET: u32 = 20;

/// Byte offset of the two `tex_right_bottom` words.
pub const TEX_RIGHT_BOTTOM_OFFSET: u32 = 28;

/// Byte offset of the four color words.
pub const COLOR_OFFSET: u32 = 36;

/// One instance as the 13 little-endian 32-bit words the shader reads,
/// in the order the wire format fixes.
#[derive(Clone, Copy, Debug, PartialEq, Eq, Structural)]
pub struct InstanceWords {
    pub left_top_x: u32,
    pub left_top_y: u32,
    pub z: u32,
    pub right_bottom_x: u32,
    pub right_bottom_y: u32,
    pub tex_left_top_x: u32,
    pub tex_left_top_y: u32,
    pub tex_right_bottom_x: u32,
    pub tex_right_bottom_y: u32,
    pub color_r: u32,
    pub color_g: u32,
    pub color_b: u32,
    pub color_a: u32,
}

/// The little-endian bytes of one 32-bit word.
pub open spec fn u32_le(x: u32) -> Seq<u8> {
    seq![
        (x & 0xff) as u8,
        ((x >> 8) & 0xff) as u8,
        ((x >> 16) & 0xff) as u8,
        ((x >> 24) & 0xff) as u8,
    ]
}

/// The whole packed record: the 13 words in wire order.
pub open spec fn spec_instance_bytes(w: InstanceWords) -> Seq<u8> {
    u32_le(w.left_top_x) + u32_le(w.left_top_y) + u32_le(w.z) + u32_le(w.right_bottom_x) + u32_le(
        w.right_bottom_y,
    ) + u32_le(w.tex_left_top_x) + u32_le(w.tex_left_top_y) + u32_le(w.tex_right_bottom_x)
        + u32_le(w.tex_right_bottom_y) + u32_le(w.color_r) + u32_le(w.color_g) + u32_le(w.color_b)
        + u32_le(w.color_a)
}

/// Appends one word, little-endian.
fn push_word(out: &mut Vec<u8>, x: u32)
    ensures
        final(out)@ == old(out)@ + u32_le(x),
{
    out.push((x & 0xff) as u8);
    out.push(((x >> 8) & 0xff) as u8);
    out.push(((x >> 16) & 0xff) as u8);
    out.push(((x >> 24) & 0xff) as u8);
    proof {
        assert(out@ =~= old(out)@ + u32_le(x));
    }
}

/// Packs one instance record for upload: exactly `INSTANCE_STRIDE`
/// bytes, the 13 words little-endian in wire order.
pub fn instance_bytes(w: &InstanceWords) -> (r: Vec<u8>)
    ensures
        r@ == spec_instance_bytes(*w),
        r@.len() == INSTANCE_STRIDE as int,
{
    let mut out: Vec<u8> = Vec::new();
    push_word(&mut out, w.left_top_x);
    push_word(&mut out, w.left_top_y);
    push_word(&mut out, w.z);
    push_word(&mut out, w.right_bottom_x);
    push_word(&mut out, w.right_bottom_y);
    push_word(&mut out, w.tex_left_top_x);
    push_word(&mut out, w.tex_left_top_y);
    push_word(&mut out, w.tex_right_bottom_x);
    push_word(&mut out, w.tex_right_bottom_y);
    push_word(&mut out, w.color_r);
    push_word(&mut out, w.color_g);
    push_word(&mut out, w.color_b);
    push_word(&mut out, w.color_a);
    proof {
        assert(out@ =~= spec_instance_bytes(*w));
    }
    out
}

/// Each named offset is where its field's bytes land in the packed
/// record: the five vertex attributes are contiguous and cover the
/// stride.
pub proof fn lemma_attribute_offsets(w: InstanceWords)
    ensures
        spec_instance_bytes(w).subrange(
            LEFT_TOP_OFFSET as int,
            RIGHT_BOTTOM_OFFSET as int,
        ) == u32_le(w.left_top_x) + u32_le(w.left_top_y) + u32_le(w.z),
        spec_instance_bytes(w).subrange(
            RIGHT_BOTTOM_OFFSET as int,
            TEX_LEFT_TOP_OFFSET as int,
        ) == u32_le(w.right_bottom_x) + u32_le(w.right_bottom_y),
        spec_instance_bytes(w).subrange(
            TEX_LEFT_TOP_OFFSET as int,
            TEX_RIGHT_BOTTOM_OFFSET as int,
        ) == u32_le(w.tex_left_top_x) + u32_le(w.tex_left_top_y),
        spec_instance_bytes(w).subrange(
            TEX_RIGHT_BOTTOM_OFFSET as int,
            COLOR_OFFSET as int,
        ) == u32_le(w.tex_right_bottom_x) + u32_le(w.tex_right_bottom_y),
        spec_instance_bytes(w).subrange(COLOR_OFFSET as int, INSTANCE_STRIDE as int) == u32_le(
            w.color_r,
        ) + u32_le(w.color_g) + u32_le(w.color_b) + u32_le(w.color_a),
{
    assert(spec_instance_bytes(w).subrange(LEFT_TOP_OFFSET as int, RIGHT_BOTTOM_OFFSET as int)
        =~= u32_le(w.left_top_x) + u32_le(w.left_top_y) + u32_le(w.z));
    assert(spec_instance_bytes(w).subrange(RIGHT_BOTTOM_OFFSET as int, TEX_LEFT_TOP_OFFSET as int)
        =~= u32_le(w.right_bottom_x) + u32_le(w.right_bottom_y));
    assert(spec_instance_bytes(w).subrange(
        TEX_LEFT_TOP_OFFSET as int,
        TEX_RIGHT_BOTTOM_OFFSET as int,
    ) =~= u32_le(w.tex_left_top_x) + u32_le(w.tex_left_top_y));
    assert(spec_instance_bytes(w).subrange(TEX_RIGHT_BOTTOM_OFFSET as int, COLOR_OFFSET as int)
        =~= u32_le(w.tex_right_bottom_x) + u32_le(w.tex_right_bottom_y));
    assert(spec_instance_bytes(w).subrange(COLOR_OFFSET as int, INSTANCE_STRIDE as int) =~= u32_le(
        w.color_r,
    ) + u32_le(w.color_g) + u32_le(w.color_b) + u32_le(w.color_a));
}

/// The instance buffer's size in bytes: room for `max_instances` packed
/// records.
pub fn instance_buffer_size(max_instances: u32) -> (r: u64)
    ensures
        r == max_instances * INSTANCE_STRIDE,
{
    proof {
        assert((max_instances as int) * (INSTANCE_STRIDE as int) <= 0xffff_ffff * 52)
            by (nonlinear_arith)
            requires
                0 <= max_instances <= 0xffff_ffff,
        ;
    }
    (max_instances as u64) * (INSTANCE_STRIDE as u64)
}

/// What a binding holds.
#[derive(Clone, Copy, Debug, PartialEq, Eq, Structural)]
pub enum BindingKind {
    UniformBuffer,
    Sampler,
    SampledTexture,
}

/// Which shader stage reads a binding.
#[derive(Clone, Copy, Debug, PartialEq, Eq, Structural)]
pub enum ShaderStage {
    Vertex,
    Fragment,
}

/// One entry of the bind-group layout.
#[derive(Clone, Copy, Debug, PartialEq, Eq, Structural)]
pub struct LayoutBinding {
    pub index: u32,
    pub stage: ShaderStage,
    pub kind: BindingKind,
}

/// The three-binding resource layout the shader stages expect: the
/// transform uniform buffer for the vertex stage, then the sampler and
/// the sampled atlas texture for the fragment stage.
pub fn uniform_layout_bindings() -> (r: Vec<LayoutBinding>)
    ensures
        r@.len() == 3,
        r@[0] == (LayoutBinding {
            index: 0,
            stage: ShaderStage::Vertex,
            kind: BindingKind::UniformBuffer,
        }),
        r@[1] == (LayoutBinding {
            index: 1,
            stage: ShaderStage::Fragment,
            kind: BindingKind::Sampler,
        }),
        r@[2] == (LayoutBinding {
            index: 2,
            stage: ShaderStage::Fragment,
            kind: BindingKind::SampledTexture,
        }),
{
    let r: Vec<LayoutBinding> = vec![
        LayoutBinding { index: 0, stage: ShaderStage::Vertex, kind: BindingKind::UniformBuffer },
        LayoutBinding { index: 1, stage: ShaderStage::Fragment, kind: BindingKind::Sampler },
        LayoutBinding {
            index: 2,
            stage: ShaderStage::Fragment,
            kind: BindingKind::SampledTexture,
        },
    ];
    r
}

/// One per-instance vertex attribute: its shader location, how many
/// 32-bit words it holds, and its byte offset into the packed record.
#[derive(Clone, Copy, Debug, PartialEq, Eq, Structural)]
pub struct VertexAttribute {
    pub location: u32,
    pub word_count: u32,
    pub offset: u32,
}

/// The five per-instance attributes, contiguous in wire order and
/// covering the whole stride.
pub fn vertex_attributes() -> (r: Vec<VertexAttribute>)
    ensures
        r@.len() == 5,
        r@[0] == (VertexAttribute { location: 0, word_count: 3, offset: LEFT_TOP_OFFSET }),
        r@[1] == (VertexAttribute { location: 1, word_count: 2, offset: RIGHT_BOTTOM_OFFSET }),
        r@[2] == (VertexAttribute { location: 2, word_count: 2, offset: TEX_LEFT_TOP_OFFSET }),
        r@[3] == (VertexAttribute { location: 3, word_count: 2, offset: TEX_RIGHT_BOTTOM_OFFSET }),
        r@[4] == (VertexAttribute { location: 4, word_count: 4, offset: COLOR_OFFSET }),
        forall|i: int|
            0 <= i < 4 ==> #[trigger] r@[i + 1].offset == r@[i].offset + 4 * r@[i].word_count,
        r@[4].offset + 4 * r@[4].word_count == INSTANCE_STRIDE,
{
    let r: Vec<VertexAttribute> = vec![
        VertexAttribute { location: 0, word_count: 3, offset: LEFT_TOP_OFFSET },
        VertexAttribute { location: 1, word_count: 2, offset: RIGHT_BOTTOM_OFFSET },
        VertexAttribute { location: 2, word_count: 2, offset: TEX_LEFT_TOP_OFFSET },
        VertexAttribute { location: 3, word_count: 2, offset: TEX_RIGHT_BOTTOM_OFFSET },
        VertexAttribute { location: 4, word_count: 4, offset: COLOR_OFFSET },
    ];
    r
}

} // verus!
