//! The render pipeline's bookkeeping, modeled as a verified state
//! machine.
//!
//! The GPU objects themselves — device, buffers, sampler, bind group,
//! render passes — live with the caller that owns the device; this
//! module owns every decision about them: how many instances fit in the
//! instance buffer, how many are currently recorded, which atlas
//! generation the bind group references, and what one recorded render
//! pass must contain. The caller performs each returned [`DrawCommand`]
//! by recording a pass that loads (never clears) the target, binds the
//! pipeline and the bind group of the named atlas generation, and draws
//! `vertices_per_instance` procedural vertices for `instance_count`
//! instances.

use vstd::prelude::*;

use crate::convert::Instance;

verus! {

/// A generous default for the instance-buffer capacity: glyphs per
/// frame beyond this are rejected. The capacity is a construction
/// parameter so the bounds check stays testable.
pub const DEFAULT_MAX_INSTANCES: u32 = 50_000;

/// The 32-bit word of a transform entry equal to one: the IEEE
/// single-precision encoding of the unit value, as the shader reads it.
pub const TRANSFORM_ONE: u32 = 0x3F80_0000;

/// The glyph atlas as the pipeline tracks it: its dimensions and its
/// generation. Replacing the atlas makes a new generation; a handle to
/// an old generation stays a valid description of the old texture, but
/// the pipeline's bind group only ever references the current one.
#[derive(Clone, Copy, Debug, PartialEq, Eq, Structural)]
pub struct Cache {
    pub width: u32,
    pub height: u32,
    pub generation: u64,
}

/// One recorded render pass, as the verified core decides it.
#[derive(Clone, Copy, Debug, PartialEq, Eq, Structural)]
pub struct DrawCommand {
    /// The pass loads the target's prior contents; it never clears, so
    /// glyphs composite on top of what is already there.
    pub load_existing: bool,
    /// Procedural vertices per instance: one triangle-strip quad.
    pub vertices_per_instance: u32,
    /// How many instances of the instance buffer the pass draws.
    pub instance_count: u32,
    /// The atlas generation whose bind group the pass samples.
    pub atlas_generation: u64,
}

/// Rejection of a draw that offers more instances than the instance
/// buffer was built for.
#[derive(Clone, Copy, Debug, PartialEq, Eq, Structural)]
pub struct CapacityError {
    pub requested: usize,
    pub capacity: u32,
}

/// The pipeline's verified state.
pub struct Pipeline {
    pub cache: Cache,
    pub bound_generation: u64,
    pub max_instances: u32,
    pub current_instances: u32,
    pub transform: Vec<u32>,
}

/// The pipeline's invariant: the bind group references the current
/// atlas generation, the recorded instance count fits the buffer, and
/// the transform buffer holds a full four-by-four matrix.
pub open spec fn pipeline_wf(p: Pipeline) -> bool {
    &&& p.bound_generation == p.cache.generation
    &&& p.current_instances <= p.max_instances
    &&& p.transform@.len() == 16
}

/// The pass that `redraw` records, as a function of the state alone.
pub open spec fn spec_redraw_command(p: Pipeline) -> DrawCommand {
    DrawCommand {
        load_existing: true,
        vertices_per_instance: 4,
        instance_count: p.current_instances,
        atlas_generation: p.bound_generation,
    }
}

/// The state after replacing the atlas: a fresh generation at the new
/// dimensions, the bind group rebuilt to reference it, everything else
/// untouched.
pub open spec fn spec_increase_cache_size(p: Pipeline, width: u32, height: u32) -> Pipeline {
    Pipeline {
        cache: Cache { width, height, generation: (p.cache.generation + 1) as u64 },
        bound_generation: (p.cache.generation + 1) as u64,
        ..p
    }
}

/// The row-major identity matrix, as the 16 words uploaded to the
/// transform buffer.
pub open spec fn spec_identity_transform() -> Seq<u32> {
    seq![
        TRANSFORM_ONE, 0u32, 0u32, 0u32,
        0u32, TRANSFORM_ONE, 0u32, 0u32,
        0u32, 0u32, TRANSFORM_ONE, 0u32,
        0u32, 0u32, 0u32, TRANSFORM_ONE,
    ]
}

/// Builds the 16 identity-transform words.
pub fn identity_transform() -> (r: Vec<u32>)
    ensures
        r@ == spec_identity_transform(),
{
    let r: Vec<u32> = vec![
        TRANSFORM_ONE, 0u32, 0u32, 0u32,
        0u32, TRANSFORM_ONE, 0u32, 0u32,
        0u32, 0u32, TRANSFORM_ONE, 0u32,
        0u32, 0u32, 0u32, TRANSFORM_ONE,
    ];
    proof {
        assert(r@ =~= spec_identity_transform());
    }
    r
}

impl Pipeline {
    /// A fresh pipeline: the first atlas generation at the given
    /// dimensions, a bind group referencing it, an instance buffer for
    /// `max_instances` instances with none recorded, and the identity
    /// transform.
    pub fn new(cache_width: u32, cache_height: u32, max_instances: u32) -> (p: Pipeline)
        ensures
            pipeline_wf(p),
            p.cache == (Cache { width: cache_width, height: cache_height, generation: 0u64 }),
            p.max_instances == max_instances,
            p.current_instances == 0,
            p.transform@ == spec_identity_transform(),
    {
        Pipeline {
            cache: Cache { width: cache_width, height: cache_height, generation: 0 },
            bound_generation: 0,
            max_instances,
            current_instances: 0,
            transform: identity_transform(),
        }
    }

    /// A handle to the current atlas. The handle stays meaningful if the
    /// atlas is later replaced, but it then names an old generation.
    pub fn cache(&self) -> (c: Cache)
        ensures
            c == self.cache,
    {
        self.cache
    }

    /// The instance-buffer capacity this pipeline was built with.
    pub fn max_instances(&self) -> (n: u32)
        ensures
            n == self.max_instances,
    {
        self.max_instances
    }

    /// How many instances the last accepted draw recorded.
    pub fn current_instances(&self) -> (n: u32)
        ensures
            n == self.current_instances,
    {
        self.current_instances
    }

    /// The transform words the transform buffer currently holds.
    pub fn transform(&self) -> (t: &Vec<u32>)
        ensures
            t@ == self.transform@,
    {
        &self.transform
    }

    /// Replaces the atlas wholesale: the old generation is dropped, a
    /// new one is created at the given dimensions, and the bind group is
    /// rebuilt to reference it — before any later draw, so no draw ever
    /// samples a stale atlas. Pipeline state, sampler, transform and
    /// recorded instances are untouched.
    pub fn increase_cache_size(&mut self, width: u32, height: u32)
        requires
            pipeline_wf(*old(self)),
            old(self).cache.generation < u64::MAX,
        ensures
            *final(self) == spec_increase_cache_size(*old(self), width, height),
            pipeline_wf(*final(self)),
            final(self).cache.generation != old(self).cache.generation,
            final(self).bound_generation == final(self).cache.generation,
    {
        self.cache = Cache { width, height, generation: self.cache.generation + 1 };
        self.bound_generation = self.cache.generation;
    }

    /// Records a full draw: uploads the transform, uploads the
    /// instances, records their count, and returns the pass to record —
    /// exactly when the instances fit the buffer. A draw that offers
    /// more than `max_instances` instances is rejected whole and leaves
    /// every part of the state unchanged.
    pub fn draw(&mut self, transform: Vec<u32>, instances: &Vec<Instance>) -> (r: Result<
        DrawCommand,
        CapacityError,
    >)
        requires
            pipeline_wf(*old(self)),
            transform@.len() == 16,
        ensures
            pipeline_wf(*final(self)),
            r is Ok <==> instances@.len() <= old(self).max_instances,
            (match r {
                Ok(command) => {
                    &&& final(self).current_instances == instances@.len()
                    &&& final(self).transform@ == transform@
                    &&& final(self).cache == old(self).cache
                    &&& final(self).bound_generation == old(self).bound_generation
                    &&& final(self).max_instances == old(self).max_instances
                    &&& command == spec_redraw_command(*final(self))
                },
                Err(e) => {
                    &&& *final(self) == *old(self)
                    &&& e.requested == instances@.len()
                    &&& e.capacity == old(self).max_instances
                },
            }),
    {
        if instances.len() > self.max_instances as usize {
            return Err(CapacityError { requested: instances.len(), capacity: self.max_instances });
        }
        self.transform = transform;
        self.current_instances = instances.len() as u32;
        Ok(self.redraw())
    }

    /// The pass that composites the recorded instances onto a target:
    /// load the target's prior contents, bind the pipeline and the
    /// current atlas generation's bind group, and draw four procedural
    /// vertices per recorded instance. Reads the state and changes
    /// nothing, so it may be recorded any number of times for the same
    /// uploaded data.
    pub fn redraw(&self) -> (command: DrawCommand)
        ensures
            command == spec_redraw_command(*self),
    {
        DrawCommand {
            load_existing: true,
            vertices_per_instance: 4,
            instance_count: self.current_instances,
            atlas_generation: self.bound_generation,
        }
    }
}

/// Two redraws from the same recorded state record identical passes,
/// and each loads the target rather than clearing it: repeating a
/// redraw composites the same instances the same way.
pub proof fn lemma_redraw_deterministic(p: Pipeline, first: DrawCommand, second: DrawCommand)
    requires
        first == spec_redraw_command(p),
        second == spec_redraw_command(p),
    ensures
        first == second,
        first.load_existing,
{
}

/// A draw recorded after the atlas was replaced samples the new atlas
/// generation and not the old one, whoever still holds a handle to the
/// old one.
pub proof fn lemma_redraw_after_resize_samples_new_atlas(p: Pipeline, width: u32, height: u32)
    requires
        pipeline_wf(p),
        p.cache.generation < u64::MAX,
    ensures
        ({
            let replaced = spec_increase_cache_size(p, width, height);
            &&& spec_redraw_command(replaced).atlas_generation == replaced.cache.generation
            &&& spec_redraw_command(replaced).atlas_generation != p.cache.generation
        }),
{
}

} // verus!
