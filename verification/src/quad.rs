//! The quad renderer: rectangles, batched into one instanced draw per layer,
//! behind a backdrop rectangle that every layer paints first.

use vstd::prelude::*;
use crate::layout::{BindGroup, BindGroupLayout, create_instance_group, create_instance_layout, instance_group, instance_layout};
use crate::renderer::{create_pipeline, DrawCall, DrawCallView, DrawError, Drawable, DrawableKind, PipelinePlan};
use crate::resources::Resources;
use crate::scalar::{Scalar, Vec2, Vec4};
use crate::scene::{spec_default_layer, Layer, LayerView, Quad};
use crate::shader::{lemma_packed_len, pack_instances, packed, InstancedQuad, ShaderConstants, INSTANCE_BYTES, INSTANCE_WORDS, VERTICES_PER_INSTANCE};

verus! {

/// The number of instances that the instance buffer of a quad renderer holds.
pub const QUAD_CAPACITY: usize = 100_000;

/// A buffer of the device.
#[derive(Clone, Copy, Debug, PartialEq, Eq, Structural)]
pub struct BufferSpec {
    /// Its size in bytes.
    pub size: u64,
    pub storage: bool,
    pub copy_dst: bool,
    pub mapped_at_creation: bool,
}

/// The instance buffer of a quad renderer: a storage buffer that can be
/// written to, with room for [`QUAD_CAPACITY`] records.
pub open spec fn instance_buffer() -> BufferSpec {
    BufferSpec { size: 4_800_000, storage: true, copy_dst: true, mapped_at_creation: false }
}

/// The rectangle that a layer paints before its content: over the clip where
/// there is one and over the whole surface otherwise, in the layer's backdrop
/// colour, opaque white where it names none, blurring what lies behind by the
/// layer's radius.
pub open spec fn backdrop(layer: LayerView, constants: ShaderConstants) -> Quad {
    Quad {
        top_left: match layer.clip {
            Some(clip) => clip.spec_xy(),
            None => Vec2::spec_zero(),
        },
        size: match layer.clip {
            Some(clip) => clip.spec_zw(),
            None => constants.surface_size,
        },
        color: match layer.background_color {
            Some(color) => color,
            None => Vec4::spec_one(),
        },
        background_blur: layer.background_blur_radius,
    }
}

/// The instances that a layer gives rise to: its backdrop, then its quads in
/// the order in which they were added.
pub open spec fn quad_instances(layer: LayerView, constants: ShaderConstants) -> Seq<InstancedQuad> {
    seq![backdrop(layer, constants).instanced()] + layer.quads.map_values(|q: Quad| q.instanced())
}

/// The draw call for a list of instances on a buffer of a given capacity: the
/// whole list, six vertices for each, or an error where the list is longer
/// than the buffer or than an instance count can say. The error names the
/// length of the list, held to the range of `usize`.
pub open spec fn draw_call(constants: ShaderConstants, instances: Seq<InstancedQuad>, capacity: usize) -> Result<
    DrawCallView,
    DrawError,
> {
    if instances.len() <= capacity && instances.len() <= u32::MAX {
        Ok(
            DrawCallView {
                constants,
                instances: packed(instances),
                vertex_count: 6,
                instance_count: instances.len() as u32,
            },
        )
    } else {
        Err(
            DrawError::CapacityExceeded {
                instances: if instances.len() > usize::MAX {
                    usize::MAX
                } else {
                    instances.len() as usize
                },
                capacity,
            },
        )
    }
}

/// The instance list of a layer holds one record more than the layer has
/// quads: the backdrop in front, then each quad at the place after its own.
pub proof fn lemma_quad_instances(layer: LayerView, constants: ShaderConstants)
    ensures
        quad_instances(layer, constants).len() == 1 + layer.quads.len(),
        quad_instances(layer, constants)[0] == backdrop(layer, constants).instanced(),
        forall|j: int|
            0 <= j < layer.quads.len() ==> #[trigger] quad_instances(layer, constants)[j + 1]
                == layer.quads[j].instanced(),
{
}

/// A layer without a clip paints its backdrop from the origin over the whole
/// surface, as the constants give it.
pub proof fn lemma_unclipped_backdrop(layer: LayerView, constants: ShaderConstants)
    requires
        layer.clip is None,
    ensures
        backdrop(layer, constants).top_left == Vec2::spec_zero(),
        backdrop(layer, constants).size == constants.surface_size,
{
}

/// A layer with a clip paints its backdrop over the clip.
pub proof fn lemma_clipped_backdrop(layer: LayerView, constants: ShaderConstants)
    requires
        layer.clip is Some,
    ensures
        backdrop(layer, constants).top_left == layer.clip->Some_0.spec_xy(),
        backdrop(layer, constants).size == layer.clip->Some_0.spec_zw(),
{
}

/// The layer that a scene starts with gives rise to one instance only: the
/// whole surface in opaque white, blurring nothing.
pub proof fn lemma_default_layer_instances(constants: ShaderConstants)
    ensures
        quad_instances(spec_default_layer(), constants) == seq![
            InstancedQuad {
                top_left: Vec2::spec_zero(),
                size: constants.surface_size,
                color: Vec4::spec_one(),
                blur: Scalar::spec_zero(),
            },
        ],
{
    assert(quad_instances(spec_default_layer(), constants) =~= seq![
        InstancedQuad {
            top_left: Vec2::spec_zero(),
            size: constants.surface_size,
            color: Vec4::spec_one(),
            blur: Scalar::spec_zero(),
        },
    ]);
}

/// A list that fits the buffer is drawn whole: as many instances as it has
/// records, twelve words for each, six vertices per instance. The empty list
/// is drawn too, as no instance at all. A list that does not fit is not drawn.
pub proof fn lemma_draw_call_counts(constants: ShaderConstants, instances: Seq<InstancedQuad>, capacity: usize)
    requires
        capacity <= u32::MAX,
    ensures
        instances.len() <= capacity ==> {
            &&& draw_call(constants, instances, capacity) matches Ok(call)
            &&& call.instance_count == instances.len()
            &&& call.vertex_count == VERTICES_PER_INSTANCE
            &&& call.instances.len() == INSTANCE_WORDS * instances.len()
            &&& call.constants == constants
        },
        instances.len() > capacity ==> draw_call(constants, instances, capacity) is Err,
{
    lemma_packed_len(instances);
}

/// The state of the quad renderer.
#[derive(Debug)]
pub struct QuadState {
    pub buffer: BufferSpec,
    /// The instances staged for the next draw.
    pub quads: Vec<InstancedQuad>,
    pub bind_group_layout: BindGroupLayout,
    pub bind_group: BindGroup,
    pub render_pipeline: Option<PipelinePlan>,
}

impl QuadState {
    /// Whether buffer, layout and bind group are those of a quad renderer.
    pub open spec fn wf(&self) -> bool {
        &&& self.buffer == instance_buffer()
        &&& self.bind_group_layout@ == instance_layout()
        &&& self.bind_group@ == instance_group()
    }

    /// Unstages every instance.
    pub fn clear(&mut self)
        ensures
            final(self).quads@ == Seq::<InstancedQuad>::empty(),
            final(self).buffer == old(self).buffer,
            final(self).bind_group_layout == old(self).bind_group_layout,
            final(self).bind_group == old(self).bind_group,
            final(self).render_pipeline == old(self).render_pipeline,
    {
        self.quads.clear();
    }

    /// Stages the instances of a layer in place of what was staged: the
    /// backdrop first, then the layer's quads in order.
    fn stage(&mut self, constants: ShaderConstants, layer: &Layer)
        requires
            layer.quads@.len() < usize::MAX,
        ensures
            final(self).quads@ == quad_instances(layer@, constants),
            final(self).buffer == old(self).buffer,
            final(self).bind_group_layout == old(self).bind_group_layout,
            final(self).bind_group == old(self).bind_group,
            final(self).render_pipeline == old(self).render_pipeline,
    {
        self.quads.clear();
        let top_left = match layer.clip {
            Some(clip) => clip.xy(),
            None => Vec2::zero(),
        };
        let size = match layer.clip {
            Some(clip) => clip.zw(),
            None => constants.surface_size,
        };
        let color = match layer.background_color {
            Some(color) => color,
            None => Vec4::one(),
        };
        let first = Quad::new(top_left, size, color).with_background_blur(layer.background_blur_radius);
        self.quads.push(first.to_instanced());
        let n = layer.quads.len();
        let mut i: usize = 0;
        while i < n
            invariant
                i <= n,
                n == layer.quads@.len(),
                n < usize::MAX,
                first == backdrop(layer@, constants),
                self.quads@ == seq![first.instanced()] + layer.quads@.take(i as int).map_values(
                    |q: Quad| q.instanced(),
                ),
                self.buffer == old(self).buffer,
                self.bind_group_layout == old(self).bind_group_layout,
                self.bind_group == old(self).bind_group,
                self.render_pipeline == old(self).render_pipeline,
            decreases n - i,
        {
            let record = layer.quads[i].to_instanced();
            self.quads.push(record);
            proof {
                let f = |q: Quad| q.instanced();
                assert(layer.quads@.take(i + 1).map_values(f) =~= layer.quads@.take(i as int).map_values(f).push(
                    record,
                ));
            }
            i = i + 1;
        }
        proof {
            assert(layer.quads@.take(n as int) =~= layer.quads@);
        }
    }

    /// The draw call for what is staged: the whole list, which may be empty,
    /// with as many instances as it has records; or an error where the list
    /// is longer than the instance buffer.
    pub fn draw_staged(&self, constants: ShaderConstants) -> (call: Result<DrawCall, DrawError>)
        ensures
            match call {
                Ok(call) => draw_call(constants, self.quads@, QUAD_CAPACITY) == Ok::<DrawCallView, DrawError>(call@),
                Err(error) => draw_call(constants, self.quads@, QUAD_CAPACITY) == Err::<DrawCallView, DrawError>(
                    error,
                ),
            },
    {
        let n = self.quads.len();
        if n <= QUAD_CAPACITY {
            let instances = pack_instances(&self.quads);
            Ok(DrawCall { constants, instances, vertex_count: VERTICES_PER_INSTANCE, instance_count: n as u32 })
        } else {
            Err(DrawError::CapacityExceeded { instances: n, capacity: QUAD_CAPACITY })
        }
    }
}

impl Drawable for QuadState {
    open spec fn kind(&self) -> DrawableKind {
        DrawableKind::Quads
    }

    open spec fn pipeline(&self) -> Option<PipelinePlan> {
        self.render_pipeline
    }

    open spec fn batch(&self, constants: ShaderConstants, layer: LayerView) -> Result<DrawCallView, DrawError> {
        draw_call(constants, quad_instances(layer, constants), QUAD_CAPACITY)
    }

    proof fn batch_shape(&self, constants: ShaderConstants, layer: LayerView) {
    }

    /// A quad renderer with nothing staged and no pipeline: an instance
    /// buffer for [`QUAD_CAPACITY`] records, bound in slot 0 of its own
    /// layout.
    fn new(resources: &Resources) -> (drawable: Self)
        ensures
            drawable.wf(),
            drawable.quads@ == Seq::<InstancedQuad>::empty(),
    {
        QuadState {
            buffer: BufferSpec {
                size: INSTANCE_BYTES * 100_000,
                storage: true,
                copy_dst: true,
                mapped_at_creation: false,
            },
            quads: Vec::new(),
            bind_group_layout: create_instance_layout(),
            bind_group: create_instance_group(),
            render_pipeline: None,
        }
    }

    fn surface_updated(&mut self, resources: &Resources)
        ensures
            final(self).quads == old(self).quads,
            final(self).buffer == old(self).buffer,
            final(self).bind_group_layout == old(self).bind_group_layout,
            final(self).bind_group == old(self).bind_group,
    {
        let format = resources.surface_resources_manager.format();
        self.render_pipeline = Some(create_pipeline(DrawableKind::Quads, format));
    }

    /// Stages the instances of the layer and yields their draw call. Where
    /// the layer needs more instances than the buffer holds, nothing is
    /// staged and the error says how many it needs.
    fn draw(&mut self, constants: ShaderConstants, layer: &Layer) -> (call: Result<DrawCall, DrawError>)
        ensures
            call is Ok ==> final(self).quads@ == quad_instances(layer@, constants),
            call is Err ==> final(self).quads == old(self).quads,
            final(self).buffer == old(self).buffer,
            final(self).bind_group_layout == old(self).bind_group_layout,
            final(self).bind_group == old(self).bind_group,
    {
        let n = layer.quads.len();
        if n >= QUAD_CAPACITY {
            let instances = if n == usize::MAX {
                usize::MAX
            } else {
                n + 1
            };
            return Err(DrawError::CapacityExceeded { instances, capacity: QUAD_CAPACITY });
        }
        self.stage(constants, layer);
        self.draw_staged(constants)
    }
}

} // verus!
