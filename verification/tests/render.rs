use bedrock::quad::{QuadState, QUAD_CAPACITY};
use bedrock::renderer::{default_kinds, DrawError, DrawableKind, KindDrawable, Renderer};
use bedrock::resources::{scissor_rect, Attachment, BackdropRefresh, LoadOp, ScissorRect, Step, StoreOp};
use bedrock::scalar::{Scalar, Vec2, Vec4};
use bedrock::scene::{Layer, Quad, Scene};
use bedrock::surface_wrapper::{SurfaceAction, SurfaceConfig, SurfaceEvent, TextureUsage};

fn scalar(x: f32) -> Scalar {
    Scalar::from_bits(x.to_bits())
}

fn vec2(x: f32, y: f32) -> Vec2 {
    Vec2::new(scalar(x), scalar(y))
}

fn vec4(x: f32, y: f32, z: f32, w: f32) -> Vec4 {
    Vec4::new(scalar(x), scalar(y), scalar(z), scalar(w))
}

fn default_config(width: u32, height: u32) -> SurfaceConfig {
    SurfaceConfig {
        usage: TextureUsage {
            copy_src: false,
            copy_dst: false,
            texture_binding: false,
            storage_binding: false,
            render_attachment: true,
        },
        format: wgpu::TextureFormat::Bgra8UnormSrgb,
        width,
        height,
        present_mode: wgpu::PresentMode::Fifo,
        desired_maximum_frame_latency: 2,
        alpha_mode: wgpu::CompositeAlphaMode::Auto,
        view_formats: Vec::new(),
    }
}

fn ready_renderer(drawables: usize, width: u32, height: u32) -> Renderer<QuadState> {
    let mut renderer: Renderer<QuadState> = Renderer::new(vec2(1024.0, 1024.0));
    for _ in 0..drawables {
        renderer = renderer.with_drawable();
    }
    let action = renderer.handle_event(SurfaceEvent::WindowReady { width, height });
    assert_eq!(action, SurfaceAction::CreateSurface { width: width.max(1), height: height.max(1) });
    let action = renderer.handle_event(SurfaceEvent::SurfaceCreated { default_config: default_config(width, height) });
    assert_eq!(action, SurfaceAction::Rebuild);
    renderer
}

fn color_words(color: Vec4) -> Vec<u32> {
    vec![color.x.to_bits(), color.y.to_bits(), color.z.to_bits(), color.w.to_bits()]
}

#[test]
fn kinds_paint_in_the_fixed_order() {
    assert_eq!(
        default_kinds(),
        vec![DrawableKind::Quads, DrawableKind::Glyphs, DrawableKind::Paths, DrawableKind::Sprites]
    );
}

#[test]
fn entry_points_are_named_by_kind() {
    assert_eq!(DrawableKind::Quads.vertex_entry(), "quad::vertex");
    assert_eq!(DrawableKind::Quads.fragment_entry(), "quad::fragment");
    assert_eq!(DrawableKind::Glyphs.vertex_entry(), "glyph::vertex");
    assert_eq!(DrawableKind::Glyphs.fragment_entry(), "glyph::fragment");
    assert_eq!(DrawableKind::Paths.vertex_entry(), "path::vertex");
    assert_eq!(DrawableKind::Paths.fragment_entry(), "path::fragment");
    assert_eq!(DrawableKind::Sprites.vertex_entry(), "sprite::vertex");
    assert_eq!(DrawableKind::Sprites.fragment_entry(), "sprite::fragment");
}

#[test]
fn scissor_equals_a_clip_that_fits_the_frame() {
    assert_eq!(
        scissor_rect(Some(vec4(100.0, 100.0, 200.0, 150.0)), 800, 600),
        Some(ScissorRect { x: 100, y: 100, width: 200, height: 150 })
    );
}

#[test]
fn scissor_is_held_to_the_frame_and_to_the_origin() {
    assert_eq!(
        scissor_rect(Some(vec4(-20.0, -0.5, 2000.0, 150.9)), 800, 600),
        Some(ScissorRect { x: 0, y: 0, width: 800, height: 150 })
    );
    assert_eq!(
        scissor_rect(Some(vec4(f32::NAN, 10.5, f32::INFINITY, -3.0)), 800, 600),
        Some(ScissorRect { x: 0, y: 10, width: 800, height: 0 })
    );
}

#[test]
fn no_clip_means_no_scissor() {
    assert_eq!(scissor_rect(None, 800, 600), None);
}

#[test]
fn events_rebuild_every_pipeline() {
    let mut renderer = ready_renderer(2, 800, 600);
    assert_eq!(renderer.drawables.len(), 2);
    for drawable in renderer.drawables.iter() {
        let plan = drawable.render_pipeline.as_ref().expect("pipeline");
        assert_eq!(plan.format, wgpu::TextureFormat::Bgra8Unorm);
        assert_eq!(plan.sample_count, 4);
    }
    assert_eq!(renderer.handle_event(SurfaceEvent::Other), SurfaceAction::Nothing);
    assert_eq!(renderer.handle_event(SurfaceEvent::Resized { width: 0, height: 300 }), SurfaceAction::Rebuild);
    let config = renderer.resources.surface_resources_manager.config.as_ref().expect("config");
    assert_eq!(config.width, 1);
    assert_eq!(config.height, 300);
    for drawable in renderer.drawables.iter() {
        assert!(drawable.render_pipeline.is_some());
    }
}

#[test]
fn fresh_scene_renders_one_pass_with_one_backdrop() {
    let mut renderer = ready_renderer(1, 800, 600);
    let plan = renderer.draw_scene(&Scene::new(), 800, 600).expect("plan");
    assert_eq!(plan.layers.len(), 1);
    assert_eq!(plan.layers[0].passes.len(), 1);
    let pass = &plan.layers[0].passes[0];
    assert_eq!(pass.refresh, BackdropRefresh::Clear);
    assert_eq!(pass.load, LoadOp::ClearWhite);
    assert_eq!(pass.scissor, None);
    assert_eq!(pass.call.instance_count, 1);
    assert_eq!(pass.call.vertex_count, 6);
    assert_eq!(pass.call.constants.surface_size, vec2(800.0, 600.0));
    assert_eq!(pass.call.constants.atlas_size, vec2(1024.0, 1024.0));
    assert_eq!(pass.call.constants.clip, Vec4::zero());
    let words = &pass.call.instances;
    assert_eq!(words.len(), 12);
    assert_eq!(&words[0..2], &[0.0f32.to_bits(), 0.0f32.to_bits()]);
    assert_eq!(&words[2..4], &[800.0f32.to_bits(), 600.0f32.to_bits()]);
    assert_eq!(&words[4..8], &color_words(vec4(1.0, 1.0, 1.0, 1.0))[..]);
    assert_eq!(words[8], 0.0f32.to_bits());
}

#[test]
fn clipped_layer_renders_under_its_scissor() {
    let mut renderer = ready_renderer(1, 800, 600);
    let mut scene = Scene::new().with_clip(vec4(100.0, 100.0, 200.0, 150.0)).with_blur(scalar(3.0));
    scene.layer_mut().background_color = None;
    scene.add_quad(Quad::new(vec2(110.0, 110.0), vec2(20.0, 20.0), vec4(1.0, 0.0, 0.0, 1.0)));
    scene.add_quad(Quad::new(vec2(120.0, 120.0), vec2(20.0, 20.0), vec4(0.0, 1.0, 0.0, 1.0)));
    let plan = renderer.draw_scene(&scene, 800, 600).expect("plan");
    let pass = &plan.layers[0].passes[0];
    assert_eq!(pass.scissor, Some(ScissorRect { x: 100, y: 100, width: 200, height: 150 }));
    assert_eq!(pass.call.instance_count, 1 + 2);
    let words = &pass.call.instances;
    assert_eq!(&words[0..4], &[100.0f32.to_bits(), 100.0f32.to_bits(), 200.0f32.to_bits(), 150.0f32.to_bits()]);
    assert_eq!(&words[4..8], &color_words(vec4(1.0, 1.0, 1.0, 1.0))[..]);
    assert_eq!(words[8], 3.0f32.to_bits());
}

#[test]
fn two_layers_composite_in_order_over_a_refreshed_backdrop() {
    let mut renderer = ready_renderer(1, 800, 600);
    let red = vec4(1.0, 0.0, 0.0, 1.0);
    let blue = vec4(0.0, 0.0, 1.0, 1.0);
    let clear = vec4(0.0, 0.0, 0.0, 0.0);
    let scene = Scene::new()
        .with_quad(Quad::new(vec2(100.0, 100.0), vec2(200.0, 200.0), red))
        .with_layer(Layer::default().with_background(clear).with_blur(scalar(8.0)))
        .with_quad(Quad::new(vec2(200.0, 200.0), vec2(200.0, 200.0), blue));
    let plan = renderer.draw_scene(&scene, 800, 600).expect("plan");
    assert_eq!(plan.layers.len(), 2);
    assert_eq!(plan.layers[0].passes.len(), 1);
    assert_eq!(plan.layers[1].passes.len(), 1);

    let below = &plan.layers[0].passes[0];
    assert_eq!(below.refresh, BackdropRefresh::Clear);
    assert_eq!(below.load, LoadOp::ClearWhite);
    assert_eq!(below.call.instance_count, 2);
    assert_eq!(&below.call.instances[12 + 4..12 + 8], &color_words(red)[..]);

    // The second layer starts from a backdrop that holds the first layer as
    // drawn, and keeps the target: its blurring backdrop instance comes
    // first, its quad last, on top.
    let above = &plan.layers[1].passes[0];
    assert_eq!(above.refresh, BackdropRefresh::CopyFrame { width: 800, height: 600 });
    assert_eq!(above.load, LoadOp::Load);
    assert_eq!(above.call.instance_count, 2);
    assert_eq!(&above.call.instances[4..8], &color_words(clear)[..]);
    assert_eq!(above.call.instances[8], 8.0f32.to_bits());
    assert_eq!(&above.call.instances[12 + 4..12 + 8], &color_words(blue)[..]);
    assert_eq!(above.call.instances.len(), 24);
}

#[test]
fn every_drawable_gets_its_own_pass_and_only_the_first_clears() {
    let mut renderer = ready_renderer(3, 640, 480);
    let scene = Scene::new().with_layer(Layer::default());
    let plan = renderer.draw_scene(&scene, 640, 480).expect("plan");
    assert_eq!(plan.layers.len(), 2);
    for (i, layer) in plan.layers.iter().enumerate() {
        assert_eq!(layer.passes.len(), 3);
        for (k, pass) in layer.passes.iter().enumerate() {
            if i == 0 && k == 0 {
                assert_eq!(pass.refresh, BackdropRefresh::Clear);
                assert_eq!(pass.load, LoadOp::ClearWhite);
            } else {
                assert_eq!(pass.refresh, BackdropRefresh::CopyFrame { width: 640, height: 480 });
                assert_eq!(pass.load, LoadOp::Load);
            }
            assert_eq!(pass.call.vertex_count, 6);
            assert_eq!(pass.call.constants.surface_size, vec2(640.0, 480.0));
        }
    }
}

#[test]
fn renderer_without_drawables_plans_empty_layers() {
    let mut renderer = ready_renderer(0, 800, 600);
    let scene = Scene::new().with_layer(Layer::default());
    let plan = renderer.draw_scene(&scene, 800, 600).expect("plan");
    assert_eq!(plan.layers.len(), 2);
    assert!(plan.layers[0].passes.is_empty());
    assert!(plan.layers[1].passes.is_empty());
}

#[test]
fn overfull_layer_fails_the_frame() {
    let mut renderer = ready_renderer(1, 800, 600);
    let quad = Quad::new(vec2(0.0, 0.0), vec2(1.0, 1.0), vec4(0.0, 0.0, 0.0, 1.0));
    let mut crowded = Layer::default();
    for _ in 0..QUAD_CAPACITY {
        crowded.add_quad(quad);
    }
    let scene = Scene::new().with_layer(crowded);
    let failed = renderer.draw_scene(&scene, 800, 600);
    assert_eq!(
        failed.err(),
        Some(DrawError::CapacityExceeded { instances: QUAD_CAPACITY + 1, capacity: QUAD_CAPACITY })
    );
    assert!(renderer.draw_scene(&Scene::new(), 800, 600).is_ok());
}

#[test]
fn frame_constants_carry_the_frame_extent() {
    let renderer = ready_renderer(1, 800, 600);
    let constants = renderer.resources.constants(1920, 1080);
    assert_eq!(constants.surface_size, vec2(1920.0, 1080.0));
    assert_eq!(constants.atlas_size, vec2(1024.0, 1024.0));
    assert_eq!(constants.clip, vec4(0.0, 0.0, 0.0, 0.0));
}

#[test]
fn passes_render_to_the_multisampled_target_and_resolve_into_the_frame() {
    let mut renderer = ready_renderer(2, 800, 600);
    let plan = renderer.draw_scene(&Scene::new().with_layer(Layer::default()), 800, 600).expect("plan");
    for layer in plan.layers.iter() {
        for pass in layer.passes.iter() {
            assert_eq!(pass.target, Attachment::Multisampled);
            assert_eq!(pass.resolve_target, Some(Attachment::Frame));
            assert_eq!(pass.store, StoreOp::Store);
        }
    }
}

#[test]
fn steps_submit_each_layer_before_the_next_and_present_last() {
    let mut renderer = ready_renderer(2, 800, 600);
    let scene = Scene::new().with_layer(Layer::default()).with_layer(Layer::default());
    let plan = renderer.draw_scene(&scene, 800, 600).expect("plan");
    assert_eq!(
        plan.steps(),
        vec![
            Step::Encode { layer: 0 },
            Step::Record { layer: 0, pass: 0 },
            Step::Record { layer: 0, pass: 1 },
            Step::Submit { layer: 0 },
            Step::Encode { layer: 1 },
            Step::Record { layer: 1, pass: 0 },
            Step::Record { layer: 1, pass: 1 },
            Step::Submit { layer: 1 },
            Step::Encode { layer: 2 },
            Step::Record { layer: 2, pass: 0 },
            Step::Record { layer: 2, pass: 1 },
            Step::Submit { layer: 2 },
            Step::Present,
        ]
    );
}

#[test]
fn steps_of_a_plan_without_drawables_still_submit_every_layer() {
    let mut renderer = ready_renderer(0, 800, 600);
    let plan = renderer.draw_scene(&Scene::new(), 800, 600).expect("plan");
    assert_eq!(plan.steps(), vec![Step::Encode { layer: 0 }, Step::Submit { layer: 0 }, Step::Present]);
}

fn place(drawable: &KindDrawable<QuadState, QuadState, QuadState>) -> (usize, &QuadState) {
    match drawable {
        KindDrawable::Quads(state) => (0, state),
        KindDrawable::Glyphs(state) => (1, state),
        KindDrawable::Paths(state) => (2, state),
        KindDrawable::Sprites(state) => (3, state),
    }
}

#[test]
fn default_drawables_are_one_of_each_kind_in_paint_order() {
    let renderer: Renderer<KindDrawable<QuadState, QuadState, QuadState>> = Renderer::new(vec2(1024.0, 1024.0));
    let renderer = renderer.with_default_drawables();
    assert_eq!(renderer.drawables.len(), 4);
    assert!(matches!(renderer.drawables[0], KindDrawable::Quads(_)));
    assert!(matches!(renderer.drawables[1], KindDrawable::Glyphs(_)));
    assert!(matches!(renderer.drawables[2], KindDrawable::Paths(_)));
    assert!(matches!(renderer.drawables[3], KindDrawable::Sprites(_)));
    for (index, drawable) in renderer.drawables.iter().enumerate() {
        let (at, state) = place(drawable);
        assert_eq!(at, index);
        assert!(state.render_pipeline.is_none());
        assert!(state.quads.is_empty());
    }
}

#[test]
fn default_drawables_go_behind_those_already_there() {
    let renderer: Renderer<KindDrawable<QuadState, QuadState, QuadState>> = Renderer::new(vec2(1024.0, 1024.0));
    let renderer = renderer.with_drawable().with_default_drawables();
    assert_eq!(renderer.drawables.len(), 1 + 4);
    let places: Vec<usize> = renderer.drawables.iter().map(|drawable| place(drawable).0).collect();
    assert_eq!(places, vec![0, 0, 1, 2, 3]);
}

#[test]
fn default_drawables_each_get_a_pipeline_and_a_pass_per_layer() {
    let renderer: Renderer<KindDrawable<QuadState, QuadState, QuadState>> = Renderer::new(vec2(1024.0, 1024.0));
    let mut renderer = renderer.with_default_drawables();
    let action = renderer.handle_event(SurfaceEvent::SurfaceCreated { default_config: default_config(800, 600) });
    assert_eq!(action, SurfaceAction::Rebuild);
    for (index, drawable) in renderer.drawables.iter().enumerate() {
        let (at, state) = place(drawable);
        assert_eq!(at, index);
        let plan = state.render_pipeline.as_ref().expect("pipeline");
        assert_eq!(plan.format, wgpu::TextureFormat::Bgra8Unorm);
    }
    let scene = Scene::new().with_layer(Layer::default());
    let plan = renderer.draw_scene(&scene, 800, 600).expect("plan");
    assert_eq!(plan.layers.len(), 2);
    for (i, layer) in plan.layers.iter().enumerate() {
        assert_eq!(layer.passes.len(), 4);
        for (k, pass) in layer.passes.iter().enumerate() {
            if i == 0 && k == 0 {
                assert_eq!(pass.refresh, BackdropRefresh::Clear);
                assert_eq!(pass.load, LoadOp::ClearWhite);
            } else {
                assert_eq!(pass.refresh, BackdropRefresh::CopyFrame { width: 800, height: 600 });
                assert_eq!(pass.load, LoadOp::Load);
            }
            assert_eq!(pass.call.instance_count, 1);
        }
    }
    for (index, drawable) in renderer.drawables.iter().enumerate() {
        assert_eq!(place(drawable).0, index);
    }
}

#[test]
fn added_drawables_are_created_from_the_renderer_and_have_no_pipeline_yet() {
    let renderer: Renderer<QuadState> = Renderer::new(vec2(1024.0, 1024.0));
    let renderer = renderer.with_drawable().with_drawable();
    assert_eq!(renderer.drawables.len(), 2);
    for drawable in renderer.drawables.iter() {
        assert!(drawable.render_pipeline.is_none());
        assert!(drawable.quads.is_empty());
        assert_eq!(drawable.buffer.size, 4_800_000);
    }
}
