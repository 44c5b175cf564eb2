//! The scene model: what to draw, as plain data.
//!
//! A [`Scene`] is an ordered list of [`Layer`]s, painted back to front. Each
//! layer carries its clip, its backdrop colour and blur, its current font, and
//! its content by kind. Every type has a view that replaces vectors and
//! strings by sequences; the contracts of this crate are stated over views.

use vstd::prelude::*;
use crate::scalar::{Scalar, Vec2, Vec4};
use crate::shader::InstancedQuad;

verus! {

/// A filled rectangle.
#[derive(Clone, Copy, Debug, PartialEq, Eq, Structural)]
pub struct Quad {
    pub top_left: Vec2,
    pub size: Vec2,
    pub color: Vec4,
    /// Radius by which what lies behind the rectangle is blurred; zero for none.
    pub background_blur: Scalar,
}

impl Quad {
    /// The rectangle as an instance record: the same corner, extent, colour
    /// and blur.
    pub open spec fn instanced(self) -> InstancedQuad {
        InstancedQuad {
            top_left: self.top_left,
            size: self.size,
            color: self.color,
            blur: self.background_blur,
        }
    }

    /// A rectangle that blurs nothing.
    pub fn new(top_left: Vec2, size: Vec2, color: Vec4) -> (quad: Quad)
        ensures
            quad == (Quad { top_left, size, color, background_blur: Scalar::spec_zero() }),
    {
        Quad { top_left, size, color, background_blur: Scalar::zero() }
    }

    /// The rectangle with its blur radius replaced.
    pub fn with_background_blur(self, radius: Scalar) -> (quad: Quad)
        ensures
            quad == (Quad { background_blur: radius, ..self }),
    {
        Quad { background_blur: radius, ..self }
    }

    /// The rectangle as an instance record; see [`Quad::instanced`].
    pub fn to_instanced(&self) -> (record: InstancedQuad)
        ensures
            record == self.instanced(),
    {
        InstancedQuad {
            top_left: self.top_left,
            size: self.size,
            color: self.color,
            blur: self.background_blur,
        }
    }
}

/// A run of text, anchored at the left end of its baseline.
#[derive(Clone, Debug)]
pub struct Text {
    pub text: String,
    pub bottom_left: Vec2,
    pub size: Scalar,
    pub color: Vec4,
    pub bold: bool,
    pub italic: bool,
    pub subpixel: bool,
}

/// The view of a [`Text`].
pub struct TextView {
    pub text: Seq<char>,
    pub bottom_left: Vec2,
    pub size: Scalar,
    pub color: Vec4,
    pub bold: bool,
    pub italic: bool,
    pub subpixel: bool,
}

impl View for Text {
    type V = TextView;

    open spec fn view(&self) -> TextView {
        TextView {
            text: self.text@,
            bottom_left: self.bottom_left,
            size: self.size,
            color: self.color,
            bold: self.bold,
            italic: self.italic,
            subpixel: self.subpixel,
        }
    }
}

/// One segment of a vector path, from where the previous one ended.
#[derive(Clone, Copy, Debug, PartialEq, Eq, Structural)]
pub enum PathCommand {
    CubicBezierTo { control1: Vec2, control2: Vec2, to: Vec2 },
    QuadraticBezierTo { control: Vec2, to: Vec2 },
    LineTo { to: Vec2 },
}

/// A vector path: a start point and the segments that follow it, filled,
/// stroked, both or neither.
#[derive(Clone, Debug)]
pub struct Path {
    pub fill: Option<Vec4>,
    /// Stroke width and colour.
    pub stroke: Option<(Scalar, Vec4)>,
    pub start: Vec2,
    pub commands: Vec<PathCommand>,
}

/// The view of a [`Path`].
pub struct PathView {
    pub fill: Option<Vec4>,
    pub stroke: Option<(Scalar, Vec4)>,
    pub start: Vec2,
    pub commands: Seq<PathCommand>,
}

impl View for Path {
    type V = PathView;

    open spec fn view(&self) -> PathView {
        PathView {
            fill: self.fill,
            stroke: self.stroke,
            start: self.start,
            commands: self.commands@,
        }
    }
}

/// A textured rectangle; the texture is named, and found in the atlas by
/// whoever draws sprites.
#[derive(Clone, Debug)]
pub struct Sprite {
    pub top_left: Vec2,
    pub size: Vec2,
    pub color: Vec4,
    pub texture: String,
}

/// The view of a [`Sprite`].
pub struct SpriteView {
    pub top_left: Vec2,
    pub size: Vec2,
    pub color: Vec4,
    pub texture: Seq<char>,
}

impl View for Sprite {
    type V = SpriteView;

    open spec fn view(&self) -> SpriteView {
        SpriteView {
            top_left: self.top_left,
            size: self.size,
            color: self.color,
            texture: self.texture@,
        }
    }
}

/// One paint step: a clip, a backdrop, and content of each kind in the order
/// it was added.
#[derive(Clone, Debug)]
pub struct Layer {
    /// Left, top, width and height in device pixels; `None` for the whole surface.
    pub clip: Option<Vec4>,
    pub background_blur_radius: Scalar,
    /// `None` stands for opaque white, not for the absence of a backdrop.
    pub background_color: Option<Vec4>,
    pub font_name: String,
    pub font_size: Scalar,
    pub quads: Vec<Quad>,
    pub texts: Vec<Text>,
    pub paths: Vec<Path>,
    pub sprites: Vec<Sprite>,
}

/// The view of a [`Layer`].
pub struct LayerView {
    pub clip: Option<Vec4>,
    pub background_blur_radius: Scalar,
    pub background_color: Option<Vec4>,
    pub font_name: Seq<char>,
    pub font_size: Scalar,
    pub quads: Seq<Quad>,
    pub texts: Seq<TextView>,
    pub paths: Seq<PathView>,
    pub sprites: Seq<SpriteView>,
}

impl View for Layer {
    type V = LayerView;

    open spec fn view(&self) -> LayerView {
        LayerView {
            clip: self.clip,
            background_blur_radius: self.background_blur_radius,
            background_color: self.background_color,
            font_name: self.font_name@,
            font_size: self.font_size,
            quads: self.quads@,
            texts: self.texts@.map_values(|t: Text| t@),
            paths: self.paths@.map_values(|p: Path| p@),
            sprites: self.sprites@.map_values(|s: Sprite| s@),
        }
    }
}

/// The top-level input: layers in paint order. A scene made by [`Scene::new`]
/// and grown by the methods here is never empty.
#[derive(Clone, Debug)]
pub struct Scene {
    pub layers: Vec<Layer>,
}

impl View for Scene {
    type V = Seq<LayerView>;

    open spec fn view(&self) -> Seq<LayerView> {
        self.layers@.map_values(|l: Layer| l@)
    }
}

/// The name of the font that a layer starts with.
pub open spec fn spec_default_font() -> Seq<char> {
    "Courier New"@
}

/// The font size that a layer starts with: sixteen.
pub open spec fn spec_default_size() -> Scalar {
    Scalar { bits: 0x4180_0000 }
}

/// The layer that a scene starts with: no clip, no blur, an opaque white
/// backdrop, the default font, and no content.
pub open spec fn spec_default_layer() -> LayerView {
    LayerView {
        clip: None,
        background_blur_radius: Scalar::spec_zero(),
        background_color: Some(Vec4::spec_one()),
        font_name: spec_default_font(),
        font_size: spec_default_size(),
        quads: Seq::empty(),
        texts: Seq::empty(),
        paths: Seq::empty(),
        sprites: Seq::empty(),
    }
}

/// The name of the font that a layer starts with.
pub fn default_font() -> (name: String)
    ensures
        name@ == spec_default_font(),
{
    "Courier New".to_owned()
}

/// The font size that a layer starts with.
pub fn default_size() -> (size: Scalar)
    ensures
        size == spec_default_size(),
{
    Scalar { bits: 0x4180_0000 }
}

/// Whether text is drawn with subpixel rendering unless it says otherwise.
pub fn default_subpixel() -> (on: bool)
    ensures
        on,
{
    true
}

impl Default for Layer {
    fn default() -> (layer: Layer)
        ensures
            layer@ == spec_default_layer(),
    {
        let layer = Layer {
            clip: None,
            background_blur_radius: Scalar::zero(),
            background_color: Some(Vec4::one()),
            font_name: default_font(),
            font_size: default_size(),
            quads: Vec::new(),
            texts: Vec::new(),
            paths: Vec::new(),
            sprites: Vec::new(),
        };
        assert(layer@.texts =~= Seq::empty());
        assert(layer@.paths =~= Seq::empty());
        assert(layer@.sprites =~= Seq::empty());
        layer
    }
}

impl Text {
    /// Upright text of regular weight, drawn with subpixel rendering.
    pub fn new(text: String, bottom_left: Vec2, size: Scalar, color: Vec4) -> (made: Text)
        ensures
            made@ == (TextView {
                text: text@,
                bottom_left,
                size,
                color,
                bold: false,
                italic: false,
                subpixel: true,
            }),
    {
        Text { text, bottom_left, size, color, bold: false, italic: false, subpixel: default_subpixel() }
    }

    /// The text in bold.
    pub fn with_bold(self) -> (made: Text)
        ensures
            made@ == (TextView { bold: true, ..self@ }),
    {
        let mut made = self;
        made.bold = true;
        made
    }

    /// The text in italics.
    pub fn with_italic(self) -> (made: Text)
        ensures
            made@ == (TextView { italic: true, ..self@ }),
    {
        let mut made = self;
        made.italic = true;
        made
    }

    /// The text without subpixel rendering.
    pub fn without_subpixel(self) -> (made: Text)
        ensures
            made@ == (TextView { subpixel: false, ..self@ }),
    {
        let mut made = self;
        made.subpixel = false;
        made
    }
}

impl Path {
    /// A filled path without segments.
    pub fn new_fill(fill: Vec4, start: Vec2) -> (path: Path)
        ensures
            path@ == (PathView { fill: Some(fill), stroke: None, start, commands: Seq::empty() }),
    {
        Path { fill: Some(fill), stroke: None, start, commands: Vec::new() }
    }

    /// A stroked path without segments; the stroke is width and colour.
    pub fn new_stroke(stroke: (Scalar, Vec4), start: Vec2) -> (path: Path)
        ensures
            path@ == (PathView { fill: None, stroke: Some(stroke), start, commands: Seq::empty() }),
    {
        Path { fill: None, stroke: Some(stroke), start, commands: Vec::new() }
    }

    /// A path without segments, neither filled nor stroked.
    pub fn new(start: Vec2) -> (path: Path)
        ensures
            path@ == (PathView { fill: None, stroke: None, start, commands: Seq::empty() }),
    {
        Path { fill: None, stroke: None, start, commands: Vec::new() }
    }

    /// The path with its fill replaced.
    pub fn with_fill(self, fill: Vec4) -> (path: Path)
        ensures
            path@ == (PathView { fill: Some(fill), ..self@ }),
    {
        let mut path = self;
        path.fill = Some(fill);
        path
    }

    /// The path with its stroke replaced.
    pub fn with_stroke(self, stroke: (Scalar, Vec4)) -> (path: Path)
        ensures
            path@ == (PathView { stroke: Some(stroke), ..self@ }),
    {
        let mut path = self;
        path.stroke = Some(stroke);
        path
    }

    /// The path with a cubic curve added at its end.
    pub fn cubic_bezier_to(self, control1: Vec2, control2: Vec2, to: Vec2) -> (path: Path)
        ensures
            path@ == (PathView {
                commands: self@.commands.push(PathCommand::CubicBezierTo { control1, control2, to }),
                ..self@
            }),
    {
        let mut path = self;
        path.commands.push(PathCommand::CubicBezierTo { control1, control2, to });
        path
    }

    /// The path with a quadratic curve added at its end.
    pub fn quadratic_bezier_to(self, control: Vec2, to: Vec2) -> (path: Path)
        ensures
            path@ == (PathView {
                commands: self@.commands.push(PathCommand::QuadraticBezierTo { control, to }),
                ..self@
            }),
    {
        let mut path = self;
        path.commands.push(PathCommand::QuadraticBezierTo { control, to });
        path
    }

    /// The path with a straight line added at its end.
    pub fn line_to(self, to: Vec2) -> (path: Path)
        ensures
            path@ == (PathView { commands: self@.commands.push(PathCommand::LineTo { to }), ..self@ }),
    {
        let mut path = self;
        path.commands.push(PathCommand::LineTo { to });
        path
    }
}

impl Layer {
    /// The layer with its clip replaced.
    pub fn with_clip(self, clip: Vec4) -> (layer: Layer)
        ensures
            layer@ == (LayerView { clip: Some(clip), ..self@ }),
    {
        let mut layer = self;
        layer.set_clip(clip);
        layer
    }

    /// Replaces the layer's clip.
    pub fn set_clip(&mut self, clip: Vec4)
        ensures
            final(self)@ == (LayerView { clip: Some(clip), ..old(self)@ }),
    {
        self.clip = Some(clip);
    }

    /// The layer with the blur radius of its backdrop replaced.
    pub fn with_blur(self, radius: Scalar) -> (layer: Layer)
        ensures
            layer@ == (LayerView { background_blur_radius: radius, ..self@ }),
    {
        let mut layer = self;
        layer.set_blur(radius);
        layer
    }

    /// Replaces the blur radius of the layer's backdrop.
    pub fn set_blur(&mut self, radius: Scalar)
        ensures
            final(self)@ == (LayerView { background_blur_radius: radius, ..old(self)@ }),
    {
        self.background_blur_radius = radius;
    }

    /// The layer with its backdrop colour replaced.
    pub fn with_background(self, color: Vec4) -> (layer: Layer)
        ensures
            layer@ == (LayerView { background_color: Some(color), ..self@ }),
    {
        let mut layer = self;
        layer.set_background(color);
        layer
    }

    /// Replaces the layer's backdrop colour.
    pub fn set_background(&mut self, color: Vec4)
        ensures
            final(self)@ == (LayerView { background_color: Some(color), ..old(self)@ }),
    {
        self.background_color = Some(color);
    }

    /// The layer with its font replaced.
    pub fn with_font(self, font_name: String) -> (layer: Layer)
        ensures
            layer@ == (LayerView { font_name: font_name@, ..self@ }),
    {
        let mut layer = self;
        layer.set_font(font_name);
        layer
    }

    /// Replaces the layer's font.
    pub fn set_font(&mut self, font_name: String)
        ensures
            final(self)@ == (LayerView { font_name: font_name@, ..old(self)@ }),
    {
        self.font_name = font_name;
    }

    /// Adds a quad, which paints after those of its kind already there.
    pub fn add_quad(&mut self, quad: Quad)
        ensures
            final(self)@ == (LayerView { quads: old(self)@.quads.push(quad), ..old(self)@ }),
    {
        self.quads.push(quad);
    }

    /// The layer with a quad added.
    pub fn with_quad(self, quad: Quad) -> (layer: Layer)
        ensures
            layer@ == (LayerView { quads: self@.quads.push(quad), ..self@ }),
    {
        let mut layer = self;
        layer.add_quad(quad);
        layer
    }

    /// Adds a run of text, which paints after those of its kind already there.
    pub fn add_text(&mut self, text: Text)
        ensures
            final(self)@ == (LayerView { texts: old(self)@.texts.push(text@), ..old(self)@ }),
    {
        let ghost added = text@;
        self.texts.push(text);
        proof {
            let view = |t: Text| t@;
            assert(self.texts@.map_values(view) =~= old(self).texts@.map_values(view).push(added));
        }
    }

    /// The layer with a run of text added.
    pub fn with_text(self, text: Text) -> (layer: Layer)
        ensures
            layer@ == (LayerView { texts: self@.texts.push(text@), ..self@ }),
    {
        let mut layer = self;
        layer.add_text(text);
        layer
    }

    /// Adds a path, which paints after those of its kind already there.
    pub fn add_path(&mut self, path: Path)
        ensures
            final(self)@ == (LayerView { paths: old(self)@.paths.push(path@), ..old(self)@ }),
    {
        let ghost added = path@;
        self.paths.push(path);
        proof {
            let view = |p: Path| p@;
            assert(self.paths@.map_values(view) =~= old(self).paths@.map_values(view).push(added));
        }
    }

    /// The layer with a path added.
    pub fn with_path(self, path: Path) -> (layer: Layer)
        ensures
            layer@ == (LayerView { paths: self@.paths.push(path@), ..self@ }),
    {
        let mut layer = self;
        layer.add_path(path);
        layer
    }

    /// Adds a sprite, which paints after those of its kind already there.
    pub fn add_sprite(&mut self, sprite: Sprite)
        ensures
            final(self)@ == (LayerView { sprites: old(self)@.sprites.push(sprite@), ..old(self)@ }),
    {
        let ghost added = sprite@;
        self.sprites.push(sprite);
        proof {
            let view = |s: Sprite| s@;
            assert(self.sprites@.map_values(view) =~= old(self).sprites@.map_values(view).push(added));
        }
    }

    /// The layer with a sprite added.
    pub fn with_sprite(self, sprite: Sprite) -> (layer: Layer)
        ensures
            layer@ == (LayerView { sprites: self@.sprites.push(sprite@), ..self@ }),
    {
        let mut layer = self;
        layer.add_sprite(sprite);
        layer
    }

}

/// A sequence of layers with its last one replaced.
pub open spec fn with_last(layers: Seq<LayerView>, layer: LayerView) -> Seq<LayerView> {
    layers.update(layers.len() - 1, layer)
}

/// Replacing the last layer of a scene replaces the last layer of its view.
pub proof fn lemma_last_replaced(before: Seq<Layer>, after: Seq<Layer>, layer: Layer)
    requires
        before.len() > 0,
        after == before.update(before.len() - 1, layer),
    ensures
        after.map_values(|l: Layer| l@) == with_last(before.map_values(|l: Layer| l@), layer@),
{
    let view = |l: Layer| l@;
    assert(after.map_values(view) =~= with_last(before.map_values(view), layer@));
}

impl Scene {
    /// Whether the scene has a layer. Content is added to the last one.
    pub open spec fn wf(&self) -> bool {
        self.layers@.len() > 0
    }

    /// A scene of one layer, the default one.
    pub fn new() -> (scene: Scene)
        ensures
            scene.wf(),
            scene@ == seq![spec_default_layer()],
    {
        let mut layers: Vec<Layer> = Vec::new();
        layers.push(Layer::default());
        let scene = Scene { layers };
        assert(scene@ =~= seq![spec_default_layer()]);
        scene
    }

    /// Adds a layer, which paints over those already there and takes the
    /// content added from now on.
    pub fn add_layer(&mut self, layer: Layer)
        ensures
            final(self).wf(),
            final(self)@ == old(self)@.push(layer@),
    {
        let ghost added = layer@;
        self.layers.push(layer);
        proof {
            let view = |l: Layer| l@;
            assert(self.layers@.map_values(view) =~= old(self).layers@.map_values(view).push(added));
        }
    }

    /// The scene with a layer added.
    pub fn with_layer(self, layer: Layer) -> (scene: Scene)
        ensures
            scene.wf(),
            scene@ == self@.push(layer@),
    {
        let mut scene = self;
        scene.add_layer(layer);
        scene
    }

    /// The last layer.
    pub fn layer(&self) -> (layer: &Layer)
        requires
            self.wf(),
        ensures
            *layer == self.layers@.last(),
            layer@ == self@.last(),
    {
        let n = self.layers.len();
        &self.layers[n - 1]
    }

    /// The last layer, to change in place.
    pub fn layer_mut(&mut self) -> (layer: &mut Layer)
        requires
            old(self).wf(),
        ensures
            *layer == old(self).layers@.last(),
            final(self).layers@ == old(self).layers@.update(old(self).layers@.len() - 1, *final(layer)),
    {
        let n = self.layers.len();
        &mut self.layers[n - 1]
    }

    /// The font of the last layer.
    pub fn font(&self) -> (name: &str)
        requires
            self.wf(),
        ensures
            name@ == self@.last().font_name,
    {
        self.layer().font_name.as_str()
    }

    /// The font size of the last layer.
    pub fn font_size(&self) -> (size: Scalar)
        requires
            self.wf(),
        ensures
            size == self@.last().font_size,
    {
        self.layer().font_size
    }

    /// The scene with the font size of its last layer replaced.
    pub fn with_font_size(self, size: Scalar) -> (scene: Scene)
        requires
            self.wf(),
        ensures
            scene.wf(),
            scene@ == with_last(self@, LayerView { font_size: size, ..self@.last() }),
    {
        let mut scene = self;
        let layer = scene.layer_mut();
        layer.font_size = size;
        proof {
            lemma_last_replaced(self.layers@, scene.layers@, scene.layers@.last());
        }
        scene
    }

    /// The scene with the clip of its last layer replaced.
    pub fn with_clip(self, clip: Vec4) -> (scene: Scene)
        requires
            self.wf(),
        ensures
            scene.wf(),
            scene@ == with_last(self@, LayerView { clip: Some(clip), ..self@.last() }),
    {
        let mut scene = self;
        let layer = scene.layer_mut();
        layer.set_clip(clip);
        proof {
            lemma_last_replaced(self.layers@, scene.layers@, scene.layers@.last());
        }
        scene
    }

    /// The scene with the blur radius of the backdrop of its last layer replaced.
    pub fn with_blur(self, radius: Scalar) -> (scene: Scene)
        requires
            self.wf(),
        ensures
            scene.wf(),
            scene@ == with_last(self@, LayerView { background_blur_radius: radius, ..self@.last() }),
    {
        let mut scene = self;
        let layer = scene.layer_mut();
        layer.set_blur(radius);
        proof {
            lemma_last_replaced(self.layers@, scene.layers@, scene.layers@.last());
        }
        scene
    }

    /// The scene with the backdrop colour of its last layer replaced.
    pub fn with_background(self, color: Vec4) -> (scene: Scene)
        requires
            self.wf(),
        ensures
            scene.wf(),
            scene@ == with_last(self@, LayerView { background_color: Some(color), ..self@.last() }),
    {
        let mut scene = self;
        let layer = scene.layer_mut();
        layer.set_background(color);
        proof {
            lemma_last_replaced(self.layers@, scene.layers@, scene.layers@.last());
        }
        scene
    }

    /// The scene with the font of its last layer replaced.
    pub fn with_font(self, font_name: String) -> (scene: Scene)
        requires
            self.wf(),
        ensures
            scene.wf(),
            scene@ == with_last(self@, LayerView { font_name: font_name@, ..self@.last() }),
    {
        let mut scene = self;
        let layer = scene.layer_mut();
        layer.set_font(font_name);
        proof {
            lemma_last_replaced(self.layers@, scene.layers@, scene.layers@.last());
        }
        scene
    }

    /// Adds a quad to the last layer.
    pub fn add_quad(&mut self, quad: Quad)
        requires
            old(self).wf(),
        ensures
            final(self).wf(),
            final(self)@ == with_last(old(self)@, LayerView { quads: old(self)@.last().quads.push(quad), ..old(self)@.last() }),
    {
        let layer = self.layer_mut();
        layer.add_quad(quad);
        proof {
            lemma_last_replaced(old(self).layers@, self.layers@, self.layers@.last());
        }
    }

    /// The scene with a quad added to its last layer.
    pub fn with_quad(self, quad: Quad) -> (scene: Scene)
        requires
            self.wf(),
        ensures
            scene.wf(),
            scene@ == with_last(self@, LayerView { quads: self@.last().quads.push(quad), ..self@.last() }),
    {
        let mut scene = self;
        scene.add_quad(quad);
        scene
    }

    /// Adds a run of text to the last layer.
    pub fn add_text(&mut self, text: Text)
        requires
            old(self).wf(),
        ensures
            final(self).wf(),
            final(self)@ == with_last(old(self)@, LayerView { texts: old(self)@.last().texts.push(text@), ..old(self)@.last() }),
    {
        let layer = self.layer_mut();
        layer.add_text(text);
        proof {
            lemma_last_replaced(old(self).layers@, self.layers@, self.layers@.last());
        }
    }

    /// The scene with a run of text added to its last layer.
    pub fn with_text(self, text: Text) -> (scene: Scene)
        requires
            self.wf(),
        ensures
            scene.wf(),
            scene@ == with_last(self@, LayerView { texts: self@.last().texts.push(text@), ..self@.last() }),
    {
        let mut scene = self;
        scene.add_text(text);
        scene
    }

    /// Adds a path to the last layer.
    pub fn add_path(&mut self, path: Path)
        requires
            old(self).wf(),
        ensures
            final(self).wf(),
            final(self)@ == with_last(old(self)@, LayerView { paths: old(self)@.last().paths.push(path@), ..old(self)@.last() }),
    {
        let layer = self.layer_mut();
        layer.add_path(path);
        proof {
            lemma_last_replaced(old(self).layers@, self.layers@, self.layers@.last());
        }
    }

    /// The scene with a path added to its last layer.
    pub fn with_path(self, path: Path) -> (scene: Scene)
        requires
            self.wf(),
        ensures
            scene.wf(),
            scene@ == with_last(self@, LayerView { paths: self@.last().paths.push(path@), ..self@.last() }),
    {
        let mut scene = self;
        scene.add_path(path);
        scene
    }

    /// Adds a sprite to the last layer.
    pub fn add_sprite(&mut self, sprite: Sprite)
        requires
            old(self).wf(),
        ensures
            final(self).wf(),
            final(self)@ == with_last(old(self)@, LayerView { sprites: old(self)@.last().sprites.push(sprite@), ..old(self)@.last() }),
    {
        let layer = self.layer_mut();
        layer.add_sprite(sprite);
        proof {
            lemma_last_replaced(old(self).layers@, self.layers@, self.layers@.last());
        }
    }

    /// The scene with a sprite added to its last layer.
    pub fn with_sprite(self, sprite: Sprite) -> (scene: Scene)
        requires
            self.wf(),
        ensures
            scene.wf(),
            scene@ == with_last(self@, LayerView { sprites: self@.last().sprites.push(sprite@), ..self@.last() }),
    {
        let mut scene = self;
        scene.add_sprite(sprite);
        scene
    }

}

} // verus!
