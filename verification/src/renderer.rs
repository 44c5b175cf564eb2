//! The drawable abstraction and the renderer that owns the drawables.
//!
//! A drawable renders one kind of content. It is created before any surface
//! exists, builds its pipeline whenever the surface changes, and for each
//! layer yields one instanced draw call. The renderer keeps the drawables in
//! the order in which they paint and drives them from scenes and events. By
//! default that order is one drawable of each kind: quads, glyphs, paths,
//! sprites.

use vstd::prelude::*;
use crate::quad::QuadState;
use crate::resources::{earlier, frame_pass, FramePlan, PassView, Resources};
use crate::scalar::Vec2;
use crate::scene::{Layer, LayerView, Scene};
use crate::shader::{bytes_be, bytes_le, words_to_bytes, ShaderConstants, CONSTANTS_BYTES, VERTICES_PER_INSTANCE};
use crate::surface_wrapper::{handled, SurfaceAction, SurfaceEvent, MULTISAMPLE_COUNT};

verus! {

/// The kinds of content, in the order in which they paint within a layer.
#[derive(Clone, Copy, Debug, PartialEq, Eq, Structural)]
pub enum DrawableKind {
    Quads,
    Glyphs,
    Paths,
    Sprites,
}

/// How primitives are assembled from vertices.
#[derive(Clone, Copy, Debug, PartialEq, Eq, Structural)]
pub enum Topology {
    TriangleList,
}

/// How a fragment is combined with what the target holds.
#[derive(Clone, Copy, Debug, PartialEq, Eq, Structural)]
pub enum Blend {
    /// Source over destination, weighted by the source's alpha.
    Alpha,
}

/// The bind-group set of a pipeline that holds a drawable's own bind group.
pub const LOCAL_SET: u32 = 0;

/// The bind-group set of a pipeline that holds the universal bind group.
pub const UNIVERSAL_SET: u32 = 1;

impl DrawableKind {
    /// The place of a kind in the paint order of a layer.
    pub open spec fn priority(self) -> nat {
        match self {
            DrawableKind::Quads => 0,
            DrawableKind::Glyphs => 1,
            DrawableKind::Paths => 2,
            DrawableKind::Sprites => 3,
        }
    }

    /// The name of the vertex entry point of a kind in the shader module:
    /// the kind's name, two colons, and `vertex`.
    pub open spec fn spec_vertex_entry(self) -> Seq<char> {
        match self {
            DrawableKind::Quads => "quad::vertex"@,
            DrawableKind::Glyphs => "glyph::vertex"@,
            DrawableKind::Paths => "path::vertex"@,
            DrawableKind::Sprites => "sprite::vertex"@,
        }
    }

    /// The name of the fragment entry point of a kind in the shader module:
    /// the kind's name, two colons, and `fragment`.
    pub open spec fn spec_fragment_entry(self) -> Seq<char> {
        match self {
            DrawableKind::Quads => "quad::fragment"@,
            DrawableKind::Glyphs => "glyph::fragment"@,
            DrawableKind::Paths => "path::fragment"@,
            DrawableKind::Sprites => "sprite::fragment"@,
        }
    }

    /// The name of the vertex entry point of this kind.
    pub fn vertex_entry(self) -> (name: &'static str)
        ensures
            name@ == self.spec_vertex_entry(),
    {
        match self {
            DrawableKind::Quads => "quad::vertex",
            DrawableKind::Glyphs => "glyph::vertex",
            DrawableKind::Paths => "path::vertex",
            DrawableKind::Sprites => "sprite::vertex",
        }
    }

    /// The name of the fragment entry point of this kind.
    pub fn fragment_entry(self) -> (name: &'static str)
        ensures
            name@ == self.spec_fragment_entry(),
    {
        match self {
            DrawableKind::Quads => "quad::fragment",
            DrawableKind::Glyphs => "glyph::fragment",
            DrawableKind::Paths => "path::fragment",
            DrawableKind::Sprites => "sprite::fragment",
        }
    }
}

/// The four kinds in paint order.
pub open spec fn default_order() -> Seq<DrawableKind> {
    seq![DrawableKind::Quads, DrawableKind::Glyphs, DrawableKind::Paths, DrawableKind::Sprites]
}

/// The four kinds in paint order.
pub fn default_kinds() -> (kinds: Vec<DrawableKind>)
    ensures
        kinds@ == default_order(),
{
    let mut kinds: Vec<DrawableKind> = Vec::new();
    kinds.push(DrawableKind::Quads);
    kinds.push(DrawableKind::Glyphs);
    kinds.push(DrawableKind::Paths);
    kinds.push(DrawableKind::Sprites);
    assert(kinds@ =~= default_order());
    kinds
}

/// The four kinds stand in paint order: each before those of higher priority.
pub proof fn lemma_default_order()
    ensures
        default_order().len() == 4,
        forall|a: int, b: int|
            0 <= a < b < 4 ==> (#[trigger] default_order()[a]).priority() < (#[trigger] default_order()[b]).priority(),
{
}

/// What a drawable's render pipeline is built from.
#[derive(Debug)]
pub struct PipelinePlan {
    /// The kind, which names the two entry points.
    pub kind: DrawableKind,
    /// The set at which the drawable's own bind-group layout stands.
    pub local_set: u32,
    /// The set at which the universal bind-group layout stands.
    pub universal_set: u32,
    /// The end of the push-constant range, which starts at zero and is
    /// visible to every stage.
    pub push_constant_bytes: u32,
    /// The format of the colour target.
    pub format: wgpu::TextureFormat,
    pub blend: Blend,
    pub sample_count: u32,
    pub topology: Topology,
    pub depth_stencil: bool,
    pub vertex_buffers: u32,
}

/// The pipeline of a kind for a surface format: the local layout in set 0 and
/// the universal one in set 1, push constants the size of
/// [`ShaderConstants`], alpha blending, four samples, a triangle list without
/// vertex buffers, and neither depth nor stencil.
pub open spec fn pipeline_plan(kind: DrawableKind, format: wgpu::TextureFormat) -> PipelinePlan {
    PipelinePlan {
        kind,
        local_set: 0,
        universal_set: 1,
        push_constant_bytes: 32,
        format,
        blend: Blend::Alpha,
        sample_count: 4,
        topology: Topology::TriangleList,
        depth_stencil: false,
        vertex_buffers: 0,
    }
}

/// Describes the pipeline of a kind for a surface format; see [`pipeline_plan`].
pub fn create_pipeline(kind: DrawableKind, format: wgpu::TextureFormat) -> (plan: PipelinePlan)
    ensures
        plan == pipeline_plan(kind, format),
{
    PipelinePlan {
        kind,
        local_set: LOCAL_SET,
        universal_set: UNIVERSAL_SET,
        push_constant_bytes: CONSTANTS_BYTES,
        format,
        blend: Blend::Alpha,
        sample_count: MULTISAMPLE_COUNT,
        topology: Topology::TriangleList,
        depth_stencil: false,
        vertex_buffers: 0,
    }
}

/// Why a drawable could not draw a layer.
#[derive(Clone, Copy, Debug, PartialEq, Eq, Structural)]
pub enum DrawError {
    /// The layer needs more instances than the instance buffer holds.
    CapacityExceeded { instances: usize, capacity: usize },
}

/// One instanced draw: the constants to push, the instance records to write
/// to the start of the instance buffer, and the counts to draw with.
#[derive(Clone, Debug)]
pub struct DrawCall {
    pub constants: ShaderConstants,
    /// The instance records as 32-bit words.
    pub instances: Vec<u32>,
    /// Vertices drawn per instance, from vertex zero.
    pub vertex_count: u32,
    /// Instances drawn, from instance zero.
    pub instance_count: u32,
}

/// The view of a [`DrawCall`].
pub struct DrawCallView {
    pub constants: ShaderConstants,
    pub instances: Seq<u32>,
    pub vertex_count: u32,
    pub instance_count: u32,
}

impl View for DrawCall {
    type V = DrawCallView;

    open spec fn view(&self) -> DrawCallView {
        DrawCallView {
            constants: self.constants,
            instances: self.instances@,
            vertex_count: self.vertex_count,
            instance_count: self.instance_count,
        }
    }
}

impl DrawCall {
    /// The instance records as the bytes to write to the start of the
    /// instance buffer: four for each word, in the machine's byte order.
    pub fn instance_bytes(&self) -> (bytes: Vec<u8>)
        ensures
            bytes@.len() == 4 * self.instances@.len(),
            bytes@ == bytes_le(self.instances@) || bytes@ == bytes_be(self.instances@),
    {
        words_to_bytes(&self.instances)
    }

    /// The constants as the bytes to push.
    pub fn constant_bytes(&self) -> (bytes: Vec<u8>)
        ensures
            bytes@.len() == CONSTANTS_BYTES,
            bytes@ == bytes_le(self.constants.words()) || bytes@ == bytes_be(self.constants.words()),
    {
        self.constants.to_bytes()
    }
}

/// A renderer of one kind of content.
pub trait Drawable: Sized {
    /// The kind of content drawn.
    spec fn kind(&self) -> DrawableKind;

    /// The pipeline built last, if any was.
    spec fn pipeline(&self) -> Option<PipelinePlan>;

    /// The draw call that a layer gives rise to under given constants, or the
    /// reason why there is none.
    spec fn batch(&self, constants: ShaderConstants, layer: LayerView) -> Result<DrawCallView, DrawError>;

    /// Every draw call pushes the constants it was given and draws six
    /// vertices per instance.
    proof fn batch_shape(&self, constants: ShaderConstants, layer: LayerView)
        ensures
            self.batch(constants, layer) matches Ok(call) ==> call.constants == constants
                && call.vertex_count == VERTICES_PER_INSTANCE,
    ;

    /// Creates the drawable. No pipeline is built yet: that takes a surface.
    fn new(resources: &Resources) -> (drawable: Self)
        ensures
            drawable.pipeline() is None,
    ;

    /// Builds the pipeline for the format of the current surface.
    fn surface_updated(&mut self, resources: &Resources)
        requires
            resources.surface_resources_manager.spec_ready(),
        ensures
            final(self).pipeline() == Some(
                pipeline_plan(old(self).kind(), resources.surface_resources_manager.spec_config().format),
            ),
            final(self).kind() == old(self).kind(),
            forall|constants: ShaderConstants, layer: LayerView| #[trigger]
                final(self).batch(constants, layer) == old(self).batch(constants, layer),
    ;

    /// Yields the draw call for a layer; see [`Drawable::batch`].
    fn draw(&mut self, constants: ShaderConstants, layer: &Layer) -> (call: Result<DrawCall, DrawError>)
        requires
            old(self).pipeline() is Some,
        ensures
            match call {
                Ok(call) => old(self).batch(constants, layer@) == Ok::<DrawCallView, DrawError>(call@),
                Err(error) => old(self).batch(constants, layer@) == Err::<DrawCallView, DrawError>(error),
            },
            final(self).pipeline() == old(self).pipeline(),
            final(self).kind() == old(self).kind(),
            forall|constants: ShaderConstants, layer: LayerView| #[trigger]
                final(self).batch(constants, layer) == old(self).batch(constants, layer),
    ;
}

/// The compositor: its resources and its drawables in paint order.
pub struct Renderer<D: Drawable> {
    pub resources: Resources,
    pub drawables: Vec<D>,
}

impl<D: Drawable> Renderer<D> {
    /// Whether the resources are well-formed.
    pub open spec fn wf(&self) -> bool {
        self.resources.wf()
    }

    /// Whether every drawable has built its pipeline.
    pub open spec fn pipelines_built(&self) -> bool {
        forall|k: int| 0 <= k < self.drawables@.len() ==> (#[trigger] self.drawables@[k]).pipeline() is Some
    }

    /// A compositor without surface and without drawables, for an atlas of
    /// the given size.
    pub fn new(atlas_size: Vec2) -> (renderer: Self)
        ensures
            renderer.wf(),
            renderer.drawables@.len() == 0,
            !renderer.resources.surface_resources_manager.spec_ready(),
            renderer.resources.atlas_size == atlas_size,
    {
        Renderer { resources: Resources::new(atlas_size), drawables: Vec::new() }
    }

    /// Adds a drawable, created from the renderer's resources, which paints
    /// after those already there. It has no pipeline until the surface
    /// changes next.
    pub fn with_drawable(self) -> (renderer: Self)
        ensures
            renderer.resources == self.resources,
            renderer.drawables@.len() == self.drawables@.len() + 1,
            renderer.drawables@.drop_last() == self.drawables@,
            renderer.drawables@.last().pipeline() is None,
    {
        let drawable = D::new(&self.resources);
        self.with(drawable)
    }

    /// Adds a drawable behind those already there.
    fn with(self, drawable: D) -> (renderer: Self)
        ensures
            renderer.resources == self.resources,
            renderer.drawables@ == self.drawables@.push(drawable),
            renderer.drawables@.drop_last() == self.drawables@,
            renderer.drawables@.last() == drawable,
    {
        let mut renderer = self;
        renderer.drawables.push(drawable);
        assert(renderer.drawables@.drop_last() =~= self.drawables@);
        renderer
    }

    /// Plans a frame of the given extent for a scene; see
    /// [`Resources::render`]. The frame is that of the surface as acquired.
    pub fn draw_scene(&mut self, scene: &Scene, frame_width: u32, frame_height: u32) -> (plan: Result<
        FramePlan,
        DrawError,
    >)
        requires
            old(self).resources.surface_resources_manager.spec_ready(),
            old(self).pipelines_built(),
        ensures
            final(self).resources == old(self).resources,
            final(self).pipelines_built(),
            final(self).drawables@.len() == old(self).drawables@.len(),
            forall|k: int|
                0 <= k < old(self).drawables@.len() ==> {
                    &&& (#[trigger] final(self).drawables@[k]).kind() == old(self).drawables@[k].kind()
                    &&& final(self).drawables@[k].pipeline() == old(self).drawables@[k].pipeline()
                },
            forall|k: int, constants: ShaderConstants, layer: LayerView|
                0 <= k < old(self).drawables@.len() ==> #[trigger] final(self).drawables@[k].batch(
                    constants,
                    layer,
                ) == old(self).drawables@[k].batch(constants, layer),
            match plan {
                Ok(plan) => {
                    &&& plan@.len() == scene@.len()
                    &&& forall|i: int|
                        0 <= i < scene@.len() ==> (#[trigger] plan@[i]).len() == old(self).drawables@.len()
                    &&& forall|i: int, k: int|
                        0 <= i < scene@.len() && 0 <= k < old(self).drawables@.len() ==> #[trigger] frame_pass(
                            scene@,
                            old(self).drawables@,
                            old(self).resources.atlas_size,
                            frame_width,
                            frame_height,
                            i,
                            k,
                        ) == Ok::<PassView, DrawError>(plan@[i][k])
                },
                Err(error) => exists|i: int, k: int|
                    {
                        &&& 0 <= i < scene@.len()
                        &&& 0 <= k < old(self).drawables@.len()
                        &&& #[trigger] frame_pass(
                            scene@,
                            old(self).drawables@,
                            old(self).resources.atlas_size,
                            frame_width,
                            frame_height,
                            i,
                            k,
                        ) == Err::<PassView, DrawError>(error)
                        &&& forall|j: int, l: int|
                            0 <= j < scene@.len() && 0 <= l < old(self).drawables@.len() && earlier(j, l, i, k)
                                ==> (#[trigger] frame_pass(
                                scene@,
                                old(self).drawables@,
                                old(self).resources.atlas_size,
                                frame_width,
                                frame_height,
                                j,
                                l,
                            )) is Ok
                    },
            },
    {
        self.resources.render(scene, &mut self.drawables, frame_width, frame_height)
    }

    /// Hands an event to the surface manager and, where the surface changed,
    /// has every drawable build its pipeline anew.
    pub fn handle_event(&mut self, event: SurfaceEvent) -> (action: SurfaceAction)
        requires
            old(self).wf(),
            event is Resized ==> old(self).resources.surface_resources_manager.spec_ready(),
        ensures
            final(self).wf(),
            final(self).resources.atlas_size == old(self).resources.atlas_size,
            handled(
                old(self).resources.surface_resources_manager,
                event,
                false,
                final(self).resources.surface_resources_manager,
                action,
            ),
            final(self).drawables@.len() == old(self).drawables@.len(),
            forall|k: int|
                0 <= k < old(self).drawables@.len() ==> {
                    &&& (#[trigger] final(self).drawables@[k]).kind() == old(self).drawables@[k].kind()
                    &&& final(self).drawables@[k].pipeline() == if action is Rebuild {
                        Some(
                            pipeline_plan(
                                old(self).drawables@[k].kind(),
                                final(self).resources.surface_resources_manager.spec_config().format,
                            ),
                        )
                    } else {
                        old(self).drawables@[k].pipeline()
                    }
                },
            forall|k: int, constants: ShaderConstants, layer: LayerView|
                0 <= k < old(self).drawables@.len() ==> #[trigger] final(self).drawables@[k].batch(
                    constants,
                    layer,
                ) == old(self).drawables@[k].batch(constants, layer),
    {
        let action = self.resources.handle_event(event);
        let ghost settled = self.resources;
        match action {
            SurfaceAction::Rebuild => {
                let n = self.drawables.len();
                let mut i: usize = 0;
                while i < n
                    invariant
                        i <= n,
                        n == self.drawables@.len(),
                        n == old(self).drawables@.len(),
                        self.resources == settled,
                        self.resources.surface_resources_manager.spec_ready(),
                        forall|k: int|
                            0 <= k < n ==> {
                                &&& (#[trigger] self.drawables@[k]).kind() == old(self).drawables@[k].kind()
                                &&& k < i ==> self.drawables@[k].pipeline() == Some(
                                    pipeline_plan(
                                        old(self).drawables@[k].kind(),
                                        self.resources.surface_resources_manager.spec_config().format,
                                    ),
                                )
                            },
                        forall|k: int, c: ShaderConstants, l: LayerView|
                            0 <= k < n ==> #[trigger] self.drawables@[k].batch(c, l) == old(self).drawables@[k].batch(
                                c,
                                l,
                            ),
                    decreases n - i,
                {
                    let drawable = &mut self.drawables[i];
                    drawable.surface_updated(&self.resources);
                    i = i + 1;
                }
            },
            _ => {},
        }
        action
    }
}

/// A drawable of any of the four kinds. The variant says which place in the
/// paint order the drawable takes; the renderers of glyphs, paths and sprites
/// are whatever the application brings for them.
pub enum KindDrawable<G, P, S> {
    Quads(QuadState),
    Glyphs(G),
    Paths(P),
    Sprites(S),
}

impl<G, P, S> KindDrawable<G, P, S> {
    /// The kind whose place in the paint order the drawable takes.
    pub open spec fn slot(&self) -> DrawableKind {
        match self {
            KindDrawable::Quads(_) => DrawableKind::Quads,
            KindDrawable::Glyphs(_) => DrawableKind::Glyphs,
            KindDrawable::Paths(_) => DrawableKind::Paths,
            KindDrawable::Sprites(_) => DrawableKind::Sprites,
        }
    }
}

impl<G: Drawable, P: Drawable, S: Drawable> Drawable for KindDrawable<G, P, S> {
    open spec fn kind(&self) -> DrawableKind {
        match self {
            KindDrawable::Quads(drawable) => drawable.kind(),
            KindDrawable::Glyphs(drawable) => drawable.kind(),
            KindDrawable::Paths(drawable) => drawable.kind(),
            KindDrawable::Sprites(drawable) => drawable.kind(),
        }
    }

    open spec fn pipeline(&self) -> Option<PipelinePlan> {
        match self {
            KindDrawable::Quads(drawable) => drawable.pipeline(),
            KindDrawable::Glyphs(drawable) => drawable.pipeline(),
            KindDrawable::Paths(drawable) => drawable.pipeline(),
            KindDrawable::Sprites(drawable) => drawable.pipeline(),
        }
    }

    open spec fn batch(&self, constants: ShaderConstants, layer: LayerView) -> Result<DrawCallView, DrawError> {
        match self {
            KindDrawable::Quads(drawable) => drawable.batch(constants, layer),
            KindDrawable::Glyphs(drawable) => drawable.batch(constants, layer),
            KindDrawable::Paths(drawable) => drawable.batch(constants, layer),
            KindDrawable::Sprites(drawable) => drawable.batch(constants, layer),
        }
    }

    proof fn batch_shape(&self, constants: ShaderConstants, layer: LayerView) {
        match self {
            KindDrawable::Quads(drawable) => drawable.batch_shape(constants, layer),
            KindDrawable::Glyphs(drawable) => drawable.batch_shape(constants, layer),
            KindDrawable::Paths(drawable) => drawable.batch_shape(constants, layer),
            KindDrawable::Sprites(drawable) => drawable.batch_shape(constants, layer),
        }
    }

    /// A drawable of the first kind: a new quad renderer.
    fn new(resources: &Resources) -> (drawable: Self)
        ensures
            drawable is Quads,
    {
        KindDrawable::Quads(QuadState::new(resources))
    }

    /// Builds the pipeline of the drawable held; its place stays.
    fn surface_updated(&mut self, resources: &Resources)
        ensures
            final(self).slot() == old(self).slot(),
    {
        match self {
            KindDrawable::Quads(drawable) => drawable.surface_updated(resources),
            KindDrawable::Glyphs(drawable) => drawable.surface_updated(resources),
            KindDrawable::Paths(drawable) => drawable.surface_updated(resources),
            KindDrawable::Sprites(drawable) => drawable.surface_updated(resources),
        }
    }

    /// Yields the draw call of the drawable held; its place stays.
    fn draw(&mut self, constants: ShaderConstants, layer: &Layer) -> (call: Result<DrawCall, DrawError>)
        ensures
            final(self).slot() == old(self).slot(),
    {
        match self {
            KindDrawable::Quads(drawable) => drawable.draw(constants, layer),
            KindDrawable::Glyphs(drawable) => drawable.draw(constants, layer),
            KindDrawable::Paths(drawable) => drawable.draw(constants, layer),
            KindDrawable::Sprites(drawable) => drawable.draw(constants, layer),
        }
    }
}

impl<G: Drawable, P: Drawable, S: Drawable> Renderer<KindDrawable<G, P, S>> {
    /// Adds one drawable of each kind behind those already there, in paint
    /// order: quads, glyphs, paths, sprites. Each is created from the
    /// renderer's resources and has no pipeline until the surface changes
    /// next.
    pub fn with_default_drawables(self) -> (renderer: Self)
        ensures
            renderer.resources == self.resources,
            renderer.drawables@.len() == self.drawables@.len() + 4,
            renderer.drawables@.subrange(0, self.drawables@.len() as int) == self.drawables@,
            renderer.drawables@[self.drawables@.len() as int] is Quads,
            renderer.drawables@[self.drawables@.len() as int + 1] is Glyphs,
            renderer.drawables@[self.drawables@.len() as int + 2] is Paths,
            renderer.drawables@[self.drawables@.len() as int + 3] is Sprites,
            forall|j: int|
                0 <= j < 4 ==> (#[trigger] renderer.drawables@[self.drawables@.len() + j]).slot()
                    == default_order()[j],
            forall|j: int|
                self.drawables@.len() <= j < self.drawables@.len() + 4 ==> (#[trigger] renderer.drawables@[j]).pipeline()
                    is None,
            renderer.drawables@[self.drawables@.len() as int] matches KindDrawable::Quads(quads) && quads.wf()
                && quads.quads@.len() == 0,
    {
        let quads = QuadState::new(&self.resources);
        let glyphs = G::new(&self.resources);
        let paths = P::new(&self.resources);
        let sprites = S::new(&self.resources);
        let ghost before = self.drawables@;
        let renderer = self.with(KindDrawable::Quads(quads)).with(KindDrawable::Glyphs(glyphs)).with(
            KindDrawable::Paths(paths),
        ).with(KindDrawable::Sprites(sprites));
        assert(renderer.drawables@ =~= before.push(KindDrawable::Quads(quads)).push(
            KindDrawable::Glyphs(glyphs),
        ).push(KindDrawable::Paths(paths)).push(KindDrawable::Sprites(sprites)));
        assert(renderer.drawables@.subrange(0, before.len() as int) =~= before);
        renderer
    }
}

} // verus!
