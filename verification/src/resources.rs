//! What the compositor owns besides its drawables, and the plan of a frame.
//!
//! A frame is planned, not drawn: [`Resources::render`] turns a scene into the
//! sequence of passes that composite it, one submission per layer and one
//! pass per layer and drawable, and the caller records them on the device.

use vstd::prelude::*;
use crate::layout::{BindGroupLayout, create_universal_layout, universal_layout};
use crate::renderer::{DrawCall, DrawCallView, DrawError, Drawable};
use crate::scalar::{lemma_pixels_round_trip, Scalar, Vec2, Vec4, EXACT_PIXELS};
use crate::scene::{LayerView, Scene};
use crate::shader::{ShaderConstants, VERTICES_PER_INSTANCE};
use crate::surface_wrapper::{SurfaceAction, SurfaceEvent, SurfaceResourcesManager};

verus! {

/// The largest block of push constants that the device is asked to support.
pub const MAX_PUSH_CONSTANT_SIZE: u32 = 256;

/// What the device must be able to do.
#[derive(Clone, Copy, Debug, PartialEq, Eq, Structural)]
pub struct DeviceRequirements {
    pub push_constants: bool,
    pub spirv_shader_passthrough: bool,
    pub vertex_writable_storage: bool,
    pub clear_texture: bool,
    pub max_push_constant_size: u32,
}

/// How a sampler treats coordinates outside the texture.
#[derive(Clone, Copy, Debug, PartialEq, Eq, Structural)]
pub enum AddressMode {
    ClampToEdge,
    Repeat,
    MirrorRepeat,
}

/// How a sampler picks a texel.
#[derive(Clone, Copy, Debug, PartialEq, Eq, Structural)]
pub enum FilterMode {
    Nearest,
    Linear,
}

/// The sampler through which shaders read the backdrop.
#[derive(Clone, Copy, Debug, PartialEq, Eq, Structural)]
pub struct SamplerSpec {
    pub address_mode_u: AddressMode,
    pub address_mode_v: AddressMode,
    pub address_mode_w: AddressMode,
    pub mag_filter: FilterMode,
    pub min_filter: FilterMode,
    pub mipmap_filter: FilterMode,
}

/// Every capability the compositor uses, and push constants of 256 bytes.
pub open spec fn device_requirements() -> DeviceRequirements {
    DeviceRequirements {
        push_constants: true,
        spirv_shader_passthrough: true,
        vertex_writable_storage: true,
        clear_texture: true,
        max_push_constant_size: 256,
    }
}

/// Clamped at the edges, nearest texel at every level.
pub open spec fn backdrop_sampler() -> SamplerSpec {
    SamplerSpec {
        address_mode_u: AddressMode::ClampToEdge,
        address_mode_v: AddressMode::ClampToEdge,
        address_mode_w: AddressMode::ClampToEdge,
        mag_filter: FilterMode::Nearest,
        min_filter: FilterMode::Nearest,
        mipmap_filter: FilterMode::Nearest,
    }
}

/// How the backdrop texture is brought up to date before a pass.
#[derive(Clone, Copy, Debug, PartialEq, Eq, Structural)]
pub enum BackdropRefresh {
    /// Clear it: nothing has been composited yet.
    Clear,
    /// Copy the frame into it, over the given extent from the origin.
    CopyFrame { width: u32, height: u32 },
}

/// What a pass starts from.
#[derive(Clone, Copy, Debug, PartialEq, Eq, Structural)]
pub enum LoadOp {
    /// Opaque white.
    ClearWhite,
    /// What the target holds.
    Load,
}

/// What becomes of a pass's result.
#[derive(Clone, Copy, Debug, PartialEq, Eq, Structural)]
pub enum StoreOp {
    Store,
    Discard,
}

/// A texture that a pass renders to or resolves into.
#[derive(Clone, Copy, Debug, PartialEq, Eq, Structural)]
pub enum Attachment {
    /// The multisampled render target.
    Multisampled,
    /// The presentable frame.
    Frame,
}

/// The pixels that a pass may touch.
#[derive(Clone, Copy, Debug, PartialEq, Eq, Structural)]
pub struct ScissorRect {
    pub x: u32,
    pub y: u32,
    pub width: u32,
    pub height: u32,
}

/// One drawable drawing one layer: the backdrop is refreshed, a pass is begun
/// on its target, the scissor is set where there is one, and the call is
/// drawn.
#[derive(Clone, Debug)]
pub struct Pass {
    pub refresh: BackdropRefresh,
    pub target: Attachment,
    pub resolve_target: Option<Attachment>,
    pub load: LoadOp,
    pub store: StoreOp,
    pub scissor: Option<ScissorRect>,
    pub call: DrawCall,
}

/// The view of a [`Pass`].
pub struct PassView {
    pub refresh: BackdropRefresh,
    pub target: Attachment,
    pub resolve_target: Option<Attachment>,
    pub load: LoadOp,
    pub store: StoreOp,
    pub scissor: Option<ScissorRect>,
    pub call: DrawCallView,
}

impl View for Pass {
    type V = PassView;

    open spec fn view(&self) -> PassView {
        PassView {
            refresh: self.refresh,
            target: self.target,
            resolve_target: self.resolve_target,
            load: self.load,
            store: self.store,
            scissor: self.scissor,
            call: self.call@,
        }
    }
}

/// The passes of one layer, recorded in one encoder and submitted together.
#[derive(Clone, Debug)]
pub struct LayerPlan {
    pub passes: Vec<Pass>,
}

impl View for LayerPlan {
    type V = Seq<PassView>;

    open spec fn view(&self) -> Seq<PassView> {
        self.passes@.map_values(|p: Pass| p@)
    }
}

/// The plan of a frame: the layers in paint order, each submitted before the
/// next is recorded, and the frame presented after the last.
#[derive(Clone, Debug)]
pub struct FramePlan {
    pub layers: Vec<LayerPlan>,
}

impl View for FramePlan {
    type V = Seq<Seq<PassView>>;

    open spec fn view(&self) -> Seq<Seq<PassView>> {
        self.layers@.map_values(|l: LayerPlan| l@)
    }
}

/// One step of carrying out a plan on the device.
#[derive(Clone, Copy, Debug, PartialEq, Eq, Structural)]
pub enum Step {
    /// Open the encoder that records a layer.
    Encode { layer: usize },
    /// Record a pass of a layer.
    Record { layer: usize, pass: usize },
    /// Finish the encoder of a layer and submit it to the queue.
    Submit { layer: usize },
    /// Present the frame.
    Present,
}

/// The steps that carry out the first `n` layers of a plan, of which `shape`
/// gives the number of passes in each: for every layer in order its encoder
/// is opened, its passes are recorded in order, and it is submitted before
/// the next layer begins.
pub open spec fn layer_steps(shape: Seq<nat>, n: nat) -> Seq<Step>
    decreases n,
{
    if n == 0 {
        Seq::empty()
    } else {
        let layer = (n - 1) as nat;
        layer_steps(shape, layer) + seq![Step::Encode { layer: layer as usize }] + Seq::new(
            shape[layer as int],
            |k: int| Step::Record { layer: layer as usize, pass: k as usize },
        ) + seq![Step::Submit { layer: layer as usize }]
    }
}

/// The steps that carry out a plan: those of all its layers, then the frame
/// is presented.
pub open spec fn frame_steps(shape: Seq<nat>) -> Seq<Step> {
    layer_steps(shape, shape.len()) + seq![Step::Present]
}

impl FramePlan {
    /// The number of passes in each layer.
    pub open spec fn shape(&self) -> Seq<nat> {
        self.layers@.map_values(|l: LayerPlan| l.passes@.len())
    }

    /// The steps that carry out the plan, in order; see [`frame_steps`].
    pub fn steps(&self) -> (steps: Vec<Step>)
        ensures
            steps@ == frame_steps(self.shape()),
    {
        let mut steps: Vec<Step> = Vec::new();
        let n = self.layers.len();
        let mut i: usize = 0;
        while i < n
            invariant
                i <= n,
                n == self.layers@.len(),
                steps@ == layer_steps(self.shape(), i as nat),
            decreases n - i,
        {
            let ghost before = steps@;
            steps.push(Step::Encode { layer: i });
            let m = self.layers[i].passes.len();
            let mut k: usize = 0;
            while k < m
                invariant
                    k <= m,
                    i < n,
                    n == self.layers@.len(),
                    m == self.shape()[i as int],
                    steps@ == before + seq![Step::Encode { layer: i }] + Seq::new(
                        k as nat,
                        |j: int| Step::Record { layer: i, pass: j as usize },
                    ),
                decreases m - k,
            {
                steps.push(Step::Record { layer: i, pass: k });
                assert(steps@ =~= before + seq![Step::Encode { layer: i }] + Seq::new(
                    (k + 1) as nat,
                    |j: int| Step::Record { layer: i, pass: j as usize },
                ));
                k = k + 1;
            }
            steps.push(Step::Submit { layer: i });
            assert(steps@ =~= layer_steps(self.shape(), (i + 1) as nat));
            i = i + 1;
        }
        steps.push(Step::Present);
        steps
    }
}

/// The layer that a step belongs to; presenting the frame stands behind all
/// of them.
pub open spec fn step_layer(step: Step) -> int {
    match step {
        Step::Encode { layer } => layer as int,
        Step::Record { layer, .. } => layer as int,
        Step::Submit { layer } => layer as int,
        Step::Present => usize::MAX + 1,
    }
}

/// The steps of the first `n` layers begin with the first layer's encoder,
/// belong to those layers, never present the frame, and never go back to an
/// earlier layer.
pub proof fn lemma_layer_steps(shape: Seq<nat>, n: nat)
    requires
        n <= usize::MAX,
    ensures
        n > 0 ==> layer_steps(shape, n).len() > 0 && layer_steps(shape, n)[0] == (Step::Encode { layer: 0 }),
        forall|i: int|
            0 <= i < layer_steps(shape, n).len() ==> 0 <= step_layer(#[trigger] layer_steps(shape, n)[i]) < n,
        forall|a: int, b: int|
            0 <= a <= b < layer_steps(shape, n).len() ==> step_layer(#[trigger] layer_steps(shape, n)[a])
                <= step_layer(#[trigger] layer_steps(shape, n)[b]),
    decreases n,
{
    if n > 0 {
        let layer = (n - 1) as nat;
        lemma_layer_steps(shape, layer);
        let head = layer_steps(shape, layer);
        let tail = seq![Step::Encode { layer: layer as usize }] + Seq::new(
            shape[layer as int],
            |k: int| Step::Record { layer: layer as usize, pass: k as usize },
        ) + seq![Step::Submit { layer: layer as usize }];
        let all = layer_steps(shape, n);
        assert(all =~= head + tail);
        assert forall|i: int| 0 <= i < tail.len() implies step_layer(#[trigger] tail[i]) == layer by {}
        assert forall|i: int| 0 <= i < all.len() implies 0 <= step_layer(#[trigger] all[i]) < n by {
            if i >= head.len() {
                assert(all[i] == tail[i - head.len()]);
            }
        }
        assert forall|a: int, b: int| 0 <= a <= b < all.len() implies step_layer(#[trigger] all[a]) <= step_layer(
            #[trigger] all[b],
        ) by {
            if b >= head.len() {
                assert(all[b] == tail[b - head.len()]);
            }
            if a >= head.len() {
                assert(all[a] == tail[a - head.len()]);
            }
        }
    }
}

/// Submission order is paint order. The steps of a plan begin with the first
/// layer's encoder where there is a layer, never go back to an earlier layer,
/// and end with presenting the frame, which happens nowhere else.
pub proof fn lemma_frame_steps(shape: Seq<nat>)
    requires
        shape.len() <= usize::MAX,
    ensures
        frame_steps(shape).len() >= 1,
        frame_steps(shape).last() == Step::Present,
        shape.len() > 0 ==> frame_steps(shape)[0] == (Step::Encode { layer: 0 }),
        forall|i: int| 0 <= i < frame_steps(shape).len() - 1 ==> !(#[trigger] frame_steps(shape)[i] is Present),
        forall|a: int, b: int|
            0 <= a <= b < frame_steps(shape).len() ==> step_layer(#[trigger] frame_steps(shape)[a]) <= step_layer(
                #[trigger] frame_steps(shape)[b],
            ),
{
    lemma_layer_steps(shape, shape.len());
    let head = layer_steps(shape, shape.len());
    let all = frame_steps(shape);
    assert forall|i: int| 0 <= i < all.len() - 1 implies !(#[trigger] all[i] is Present) by {
        assert(all[i] == head[i]);
    }
    assert forall|a: int, b: int| 0 <= a <= b < all.len() implies step_layer(#[trigger] all[a]) <= step_layer(
        #[trigger] all[b],
    ) by {
        if a < head.len() {
            assert(all[a] == head[a]);
        }
        if b < head.len() {
            assert(all[b] == head[b]);
        }
    }
}

/// The smaller of two extents.
pub open spec fn min_extent(a: nat, b: u32) -> u32 {
    if a < b {
        a as u32
    } else {
        b
    }
}

/// The scissor of a layer on a frame: none without a clip; with one, the
/// clip's corner and extent as whole pixels, the corner held to zero or more
/// and the extent to the frame's at most.
pub open spec fn scissor_for(clip: Option<Vec4>, width: u32, height: u32) -> Option<ScissorRect> {
    match clip {
        None => None,
        Some(clip) => Some(
            ScissorRect {
                x: clip.x.pixels() as u32,
                y: clip.y.pixels() as u32,
                width: min_extent(clip.z.pixels(), width),
                height: min_extent(clip.w.pixels(), height),
            },
        ),
    }
}

/// The scissor of a layer on a frame; see [`scissor_for`].
pub fn scissor_rect(clip: Option<Vec4>, width: u32, height: u32) -> (scissor: Option<ScissorRect>)
    ensures
        scissor == scissor_for(clip, width, height),
{
    match clip {
        None => None,
        Some(clip) => {
            let x = clip.x.to_pixels();
            let y = clip.y.to_pixels();
            let w = clip.z.to_pixels();
            let h = clip.w.to_pixels();
            Some(
                ScissorRect {
                    x,
                    y,
                    width: if w < width {
                        w
                    } else {
                        width
                    },
                    height: if h < height {
                        h
                    } else {
                        height
                    },
                },
            )
        },
    }
}

/// The constants of a frame: its extent in pixels as numbers, the atlas size,
/// and a cleared clip.
pub open spec fn frame_constants(width: u32, height: u32, atlas_size: Vec2) -> ShaderConstants {
    ShaderConstants {
        surface_size: Vec2 { x: Scalar::nearest(width as nat), y: Scalar::nearest(height as nat) },
        atlas_size,
        clip: Vec4::spec_zero(),
    }
}

/// The pass in which drawable `k` draws layer `i`, or the reason why the
/// drawable cannot draw that layer. The very first pass of a frame clears
/// backdrop and target; every other pass copies the frame into the backdrop
/// and keeps what the target holds. Every pass renders to the multisampled
/// target, resolves into the frame and stores its result.
pub open spec fn frame_pass<D: Drawable>(
    scene: Seq<LayerView>,
    drawables: Seq<D>,
    atlas_size: Vec2,
    width: u32,
    height: u32,
    i: int,
    k: int,
) -> Result<PassView, DrawError> {
    let first = i == 0 && k == 0;
    match drawables[k].batch(frame_constants(width, height, atlas_size), scene[i]) {
        Ok(call) => Ok(
            PassView {
                refresh: if first {
                    BackdropRefresh::Clear
                } else {
                    BackdropRefresh::CopyFrame { width, height }
                },
                target: Attachment::Multisampled,
                resolve_target: Some(Attachment::Frame),
                load: if first {
                    LoadOp::ClearWhite
                } else {
                    LoadOp::Load
                },
                store: StoreOp::Store,
                scissor: scissor_for(scene[i].clip, width, height),
                call,
            },
        ),
        Err(error) => Err(error),
    }
}

/// Whether pass `(i1, k1)` comes before pass `(i2, k2)` in paint order:
/// layers first, drawables within a layer.
pub open spec fn earlier(i1: int, k1: int, i2: int, k2: int) -> bool {
    i1 < i2 || (i1 == i2 && k1 < k2)
}

/// A scissor never reaches beyond the frame's extent.
pub proof fn lemma_scissor_within_frame(clip: Vec4, width: u32, height: u32)
    ensures
        scissor_for(Some(clip), width, height) matches Some(scissor) && scissor.width <= width && scissor.height
            <= height,
{
}

/// No clip, no scissor.
pub proof fn lemma_unclipped_scissor(width: u32, height: u32)
    ensures
        scissor_for(None, width, height) is None,
{
}

/// A clip of whole pixels that fits the frame is the scissor exactly. Whole
/// numbers are binary32 numbers up to two to the power 24.
pub proof fn lemma_scissor_exact(x: u32, y: u32, clip_width: u32, clip_height: u32, width: u32, height: u32)
    requires
        x <= EXACT_PIXELS,
        y <= EXACT_PIXELS,
        clip_width <= EXACT_PIXELS,
        clip_height <= EXACT_PIXELS,
        clip_width <= width,
        clip_height <= height,
    ensures
        scissor_for(
            Some(
                Vec4 {
                    x: Scalar::nearest(x as nat),
                    y: Scalar::nearest(y as nat),
                    z: Scalar::nearest(clip_width as nat),
                    w: Scalar::nearest(clip_height as nat),
                },
            ),
            width,
            height,
        ) == Some(ScissorRect { x, y, width: clip_width, height: clip_height }),
{
    lemma_pixels_round_trip(x as nat);
    lemma_pixels_round_trip(y as nat);
    lemma_pixels_round_trip(clip_width as nat);
    lemma_pixels_round_trip(clip_height as nat);
}

/// The constants of a frame give its extent back, pixel for pixel, up to two
/// to the power 24 each way.
pub proof fn lemma_frame_constants_exact(width: u32, height: u32, atlas_size: Vec2)
    requires
        width <= EXACT_PIXELS,
        height <= EXACT_PIXELS,
    ensures
        frame_constants(width, height, atlas_size).surface_size.x.pixels() == width,
        frame_constants(width, height, atlas_size).surface_size.y.pixels() == height,
        frame_constants(width, height, atlas_size).atlas_size == atlas_size,
{
    lemma_pixels_round_trip(width as nat);
    lemma_pixels_round_trip(height as nat);
}

/// Paint order. The first pass of a frame starts from a cleared backdrop and
/// a white target. Every later pass, in the same layer or a later one, starts
/// from a backdrop that holds the frame as the passes before it left it, and
/// keeps what the target holds. Each pass is clipped as its layer says and
/// draws what its drawable makes of its layer.
pub proof fn lemma_paint_order<D: Drawable>(
    scene: Seq<LayerView>,
    drawables: Seq<D>,
    atlas_size: Vec2,
    width: u32,
    height: u32,
    i: int,
    k: int,
)
    requires
        0 <= i < scene.len(),
        0 <= k < drawables.len(),
    ensures
        frame_pass(scene, drawables, atlas_size, width, height, i, k) matches Ok(pass) ==> {
            &&& pass.refresh == if i == 0 && k == 0 {
                BackdropRefresh::Clear
            } else {
                BackdropRefresh::CopyFrame { width, height }
            }
            &&& pass.load == if i == 0 && k == 0 {
                LoadOp::ClearWhite
            } else {
                LoadOp::Load
            }
            &&& pass.target == Attachment::Multisampled
            &&& pass.resolve_target == Some(Attachment::Frame)
            &&& pass.store == StoreOp::Store
            &&& pass.scissor == scissor_for(scene[i].clip, width, height)
            &&& drawables[k].batch(frame_constants(width, height, atlas_size), scene[i]) == Ok::<
                DrawCallView,
                DrawError,
            >(pass.call)
            &&& pass.call.constants == frame_constants(width, height, atlas_size)
            &&& pass.call.vertex_count == VERTICES_PER_INSTANCE
        },
        frame_pass(scene, drawables, atlas_size, width, height, i, k) is Err <==> drawables[k].batch(
            frame_constants(width, height, atlas_size),
            scene[i],
        ) is Err,
{
    drawables[k].batch_shape(frame_constants(width, height, atlas_size), scene[i]);
}

/// What the compositor owns besides its drawables.
#[derive(Debug)]
pub struct Resources {
    pub surface_resources_manager: SurfaceResourcesManager,
    pub requirements: DeviceRequirements,
    pub sampler: SamplerSpec,
    pub universal_bind_group_layout: BindGroupLayout,
    pub atlas_size: Vec2,
}

impl Resources {
    /// Whether the surface manager is well-formed and the universal layout is
    /// the one that every pipeline expects.
    pub open spec fn wf(&self) -> bool {
        &&& self.surface_resources_manager.wf()
        &&& self.universal_bind_group_layout@ == universal_layout()
        &&& self.requirements == device_requirements()
        &&& self.sampler == backdrop_sampler()
    }

    /// The resources of a compositor whose atlas has the given size: no
    /// surface yet, the requirements on the device, the backdrop sampler and
    /// the universal layout.
    pub fn new(atlas_size: Vec2) -> (resources: Resources)
        ensures
            resources.wf(),
            !resources.surface_resources_manager.spec_ready(),
            resources.atlas_size == atlas_size,
    {
        Resources {
            surface_resources_manager: SurfaceResourcesManager::new(),
            requirements: DeviceRequirements {
                push_constants: true,
                spirv_shader_passthrough: true,
                vertex_writable_storage: true,
                clear_texture: true,
                max_push_constant_size: MAX_PUSH_CONSTANT_SIZE,
            },
            sampler: SamplerSpec {
                address_mode_u: AddressMode::ClampToEdge,
                address_mode_v: AddressMode::ClampToEdge,
                address_mode_w: AddressMode::ClampToEdge,
                mag_filter: FilterMode::Nearest,
                min_filter: FilterMode::Nearest,
                mipmap_filter: FilterMode::Nearest,
            },
            universal_bind_group_layout: create_universal_layout(),
            atlas_size,
        }
    }

    /// Hands an event to the surface manager, which keeps linear formats; see
    /// [`SurfaceResourcesManager::handle_event`].
    pub fn handle_event(&mut self, event: SurfaceEvent) -> (action: SurfaceAction)
        requires
            old(self).wf(),
            event is Resized ==> old(self).surface_resources_manager.spec_ready(),
        ensures
            final(self).wf(),
            final(self).atlas_size == old(self).atlas_size,
            crate::surface_wrapper::handled(
                old(self).surface_resources_manager,
                event,
                false,
                final(self).surface_resources_manager,
                action,
            ),
    {
        self.surface_resources_manager.handle_event(event, false)
    }

    /// The constants of a frame of the given extent; see [`frame_constants`].
    pub fn constants(&self, width: u32, height: u32) -> (constants: ShaderConstants)
        ensures
            constants == frame_constants(width, height, self.atlas_size),
    {
        ShaderConstants {
            surface_size: Vec2 { x: Scalar::from_pixels(width), y: Scalar::from_pixels(height) },
            atlas_size: self.atlas_size,
            clip: Vec4::zero(),
        }
    }

    /// Plans a frame of the given extent.
    ///
    /// The plan has one entry per layer, in the scene's order, and each entry
    /// one pass per drawable, in the drawables' order; pass `k` of layer `i`
    /// is [`frame_pass`]. Planning fails where a drawable cannot draw a layer,
    /// with the error of the first such pass in paint order. The drawables
    /// keep their pipelines and go on drawing as before. There is no frame
    /// to plan for before a surface has been created and configured, and none
    /// before every drawable has built its pipeline.
    pub fn render<D: Drawable>(
        &self,
        scene: &Scene,
        drawables: &mut Vec<D>,
        frame_width: u32,
        frame_height: u32,
    ) -> (plan: Result<FramePlan, DrawError>)
        requires
            self.surface_resources_manager.spec_ready(),
            forall|k: int| 0 <= k < old(drawables)@.len() ==> (#[trigger] old(drawables)@[k]).pipeline() is Some,
        ensures
            final(drawables)@.len() == old(drawables)@.len(),
            forall|k: int|
                0 <= k < old(drawables)@.len() ==> {
                    &&& (#[trigger] final(drawables)@[k]).kind() == old(drawables)@[k].kind()
                    &&& final(drawables)@[k].pipeline() == old(drawables)@[k].pipeline()
                },
            forall|k: int, constants: ShaderConstants, layer: LayerView|
                0 <= k < old(drawables)@.len() ==> #[trigger] final(drawables)@[k].batch(constants, layer) == old(
                    drawables,
                )@[k].batch(constants, layer),
            match plan {
                Ok(plan) => {
                    &&& plan@.len() == scene@.len()
                    &&& forall|i: int| 0 <= i < scene@.len() ==> (#[trigger] plan@[i]).len() == old(drawables)@.len()
                    &&& forall|i: int, k: int|
                        0 <= i < scene@.len() && 0 <= k < old(drawables)@.len() ==> #[trigger] frame_pass(
                            scene@,
                            old(drawables)@,
                            self.atlas_size,
                            frame_width,
                            frame_height,
                            i,
                            k,
                        ) == Ok::<PassView, DrawError>(plan@[i][k])
                },
                Err(error) => exists|i: int, k: int|
                    {
                        &&& 0 <= i < scene@.len()
                        &&& 0 <= k < old(drawables)@.len()
                        &&& #[trigger] frame_pass(
                            scene@,
                            old(drawables)@,
                            self.atlas_size,
                            frame_width,
                            frame_height,
                            i,
                            k,
                        ) == Err::<PassView, DrawError>(error)
                        &&& forall|j: int, l: int|
                            0 <= j < scene@.len() && 0 <= l < old(drawables)@.len() && earlier(j, l, i, k)
                                ==> (#[trigger] frame_pass(
                                scene@,
                                old(drawables)@,
                                self.atlas_size,
                                frame_width,
                                frame_height,
                                j,
                                l,
                            )) is Ok
                    },
            },
    {
        let constants = self.constants(frame_width, frame_height);
        let layer_count = scene.layers.len();
        let drawable_count = drawables.len();
        let mut layers: Vec<LayerPlan> = Vec::new();
        let mut first = true;
        let mut i: usize = 0;
        while i < layer_count
            invariant
                i <= layer_count,
                layer_count == scene.layers@.len(),
                drawable_count == drawables@.len(),
                drawable_count == old(drawables)@.len(),
                constants == frame_constants(frame_width, frame_height, self.atlas_size),
                first == (i == 0 || drawable_count == 0),
                forall|k: int|
                    0 <= k < drawable_count ==> {
                        &&& (#[trigger] drawables@[k]).kind() == old(drawables)@[k].kind()
                        &&& drawables@[k].pipeline() == old(drawables)@[k].pipeline()
                        &&& drawables@[k].pipeline() is Some
                    },
                forall|k: int, c: ShaderConstants, l: LayerView|
                    0 <= k < drawable_count ==> #[trigger] drawables@[k].batch(c, l) == old(drawables)@[k].batch(
                        c,
                        l,
                    ),
                layers@.len() == i,
                forall|j: int| 0 <= j < i ==> (#[trigger] layers@[j]).passes@.len() == drawable_count,
                forall|j: int, l: int|
                    0 <= j < i && 0 <= l < drawable_count ==> #[trigger] frame_pass(
                        scene@,
                        old(drawables)@,
                        self.atlas_size,
                        frame_width,
                        frame_height,
                        j,
                        l,
                    ) == Ok::<PassView, DrawError>(layers@[j].passes@[l]@),
            decreases layer_count - i,
        {
            let layer = &scene.layers[i];
            let scissor = scissor_rect(layer.clip, frame_width, frame_height);
            let mut passes: Vec<Pass> = Vec::new();
            let mut k: usize = 0;
            while k < drawable_count
                invariant
                    i < layer_count,
                    k <= drawable_count,
                    layer_count == scene.layers@.len(),
                    drawable_count == drawables@.len(),
                    drawable_count == old(drawables)@.len(),
                    *layer == scene.layers@[i as int],
                    scissor == scissor_for(scene@[i as int].clip, frame_width, frame_height),
                    constants == frame_constants(frame_width, frame_height, self.atlas_size),
                    first == ((i == 0 && k == 0) || drawable_count == 0),
                    forall|m: int|
                        0 <= m < drawable_count ==> {
                            &&& (#[trigger] drawables@[m]).kind() == old(drawables)@[m].kind()
                            &&& drawables@[m].pipeline() == old(drawables)@[m].pipeline()
                            &&& drawables@[m].pipeline() is Some
                        },
                    forall|m: int, c: ShaderConstants, l: LayerView|
                        0 <= m < drawable_count ==> #[trigger] drawables@[m].batch(c, l) == old(
                            drawables,
                        )@[m].batch(c, l),
                    passes@.len() == k,
                    forall|l: int|
                        0 <= l < k ==> #[trigger] frame_pass(
                            scene@,
                            old(drawables)@,
                            self.atlas_size,
                            frame_width,
                            frame_height,
                            i as int,
                            l,
                        ) == Ok::<PassView, DrawError>(passes@[l]@),
                    forall|j: int, l: int|
                        0 <= j < i && 0 <= l < drawable_count ==> (#[trigger] frame_pass(
                            scene@,
                            old(drawables)@,
                            self.atlas_size,
                            frame_width,
                            frame_height,
                            j,
                            l,
                        )) is Ok,
                decreases drawable_count - k,
            {
                let ghost before = drawables@;
                let drawable = &mut drawables[k];
                let drawn = drawable.draw(constants, layer);
                proof {
                    assert(scene@[i as int] == scene.layers@[i as int]@);
                    assert(before[k as int].batch(constants, layer@) == old(drawables)@[k as int].batch(
                        constants,
                        layer@,
                    ));
                }
                match drawn {
                    Ok(call) => {
                        let pass = Pass {
                            refresh: if first {
                                BackdropRefresh::Clear
                            } else {
                                BackdropRefresh::CopyFrame { width: frame_width, height: frame_height }
                            },
                            target: Attachment::Multisampled,
                            resolve_target: Some(Attachment::Frame),
                            load: if first {
                                LoadOp::ClearWhite
                            } else {
                                LoadOp::Load
                            },
                            store: StoreOp::Store,
                            scissor,
                            call,
                        };
                        passes.push(pass);
                    },
                    Err(error) => {
                        proof {
                            let fi = i as int;
                            let fk = k as int;
                            assert(frame_pass(
                                scene@,
                                old(drawables)@,
                                self.atlas_size,
                                frame_width,
                                frame_height,
                                fi,
                                fk,
                            ) == Err::<PassView, DrawError>(error));
                        }
                        return Err(error);
                    },
                }
                first = false;
                k = k + 1;
            }
            layers.push(LayerPlan { passes });
            i = i + 1;
        }
        let plan = FramePlan { layers };
        proof {
            assert(plan@.len() == scene@.len());
            assert forall|a: int, b: int| 0 <= a < scene@.len() && 0 <= b < old(drawables)@.len() implies #[trigger] frame_pass(
                scene@,
                old(drawables)@,
                self.atlas_size,
                frame_width,
                frame_height,
                a,
                b,
            ) == Ok::<PassView, DrawError>(plan@[a][b]) by {
                assert(plan@[a] == plan.layers@[a]@);
                assert(plan@[a][b] == plan.layers@[a].passes@[b]@);
            }
            assert forall|a: int| 0 <= a < scene@.len() implies (#[trigger] plan@[a]).len() == old(
                drawables,
            )@.len() by {
                assert(plan@[a] == plan.layers@[a]@);
            }
        }
        Ok(plan)
    }
}

} // verus!
