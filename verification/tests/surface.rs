use bedrock::layout::{BindingResource, BindingType};
use bedrock::resources::Resources;
use bedrock::scalar::{Scalar, Vec2};
use bedrock::surface_wrapper::{
    clamp_extent, create_bind_group, create_texture, AcquireAttempt, AcquireStep, SurfaceAction, SurfaceConfig,
    SurfaceError, SurfaceEvent, SurfaceResources, SurfaceResourcesManager, TextureUsage,
};

fn default_config(format: wgpu::TextureFormat, width: u32, height: u32) -> SurfaceConfig {
    SurfaceConfig {
        usage: TextureUsage {
            copy_src: false,
            copy_dst: false,
            texture_binding: false,
            storage_binding: false,
            render_attachment: true,
        },
        format,
        width,
        height,
        present_mode: wgpu::PresentMode::Fifo,
        desired_maximum_frame_latency: 2,
        alpha_mode: wgpu::CompositeAlphaMode::Opaque,
        view_formats: Vec::new(),
    }
}

fn ready_manager(width: u32, height: u32) -> SurfaceResourcesManager {
    let mut manager = SurfaceResourcesManager::new();
    let action = manager.handle_event(
        SurfaceEvent::SurfaceCreated { default_config: default_config(wgpu::TextureFormat::Bgra8UnormSrgb, width, height) },
        false,
    );
    assert_eq!(action, SurfaceAction::Rebuild);
    manager
}

#[test]
fn new_manager_is_uninitialized() {
    let manager = SurfaceResourcesManager::new();
    assert!(!manager.ready());
    assert!(manager.config.is_none());
    assert!(manager.surface_resources.is_none());
}

#[test]
fn extents_are_held_to_one_pixel_at_least() {
    assert_eq!(clamp_extent(0), 1);
    assert_eq!(clamp_extent(1), 1);
    assert_eq!(clamp_extent(2), 2);
    assert_eq!(clamp_extent(800), 800);
    assert_eq!(clamp_extent(u32::MAX), u32::MAX);
}

#[test]
fn ready_window_asks_for_a_surface_of_the_clamped_size() {
    let mut manager = SurfaceResourcesManager::new();
    let action = manager.handle_event(SurfaceEvent::WindowReady { width: 800, height: 0 }, false);
    assert_eq!(action, SurfaceAction::CreateSurface { width: 800, height: 1 });
    assert!(!manager.ready());
}

#[test]
fn created_surface_makes_the_manager_ready_with_linear_format() {
    let mut manager = SurfaceResourcesManager::new();
    let action = manager.handle_event(
        SurfaceEvent::SurfaceCreated { default_config: default_config(wgpu::TextureFormat::Bgra8UnormSrgb, 800, 600) },
        false,
    );
    assert_eq!(action, SurfaceAction::Rebuild);
    assert!(manager.ready());
    assert_eq!(manager.format(), wgpu::TextureFormat::Bgra8Unorm);
    let config = manager.config.as_ref().expect("config");
    assert_eq!(config.width, 800);
    assert_eq!(config.height, 600);
    assert_eq!(config.view_formats, vec![wgpu::TextureFormat::Bgra8Unorm]);
    assert_eq!(
        config.usage,
        TextureUsage {
            copy_src: true,
            copy_dst: false,
            texture_binding: false,
            storage_binding: false,
            render_attachment: true,
        }
    );
    assert_eq!(config.present_mode, wgpu::PresentMode::Fifo);
    assert_eq!(config.alpha_mode, wgpu::CompositeAlphaMode::Opaque);
    assert_eq!(config.desired_maximum_frame_latency, 2);
}

#[test]
fn srgb_policy_adds_the_srgb_view_format() {
    let config = SurfaceConfig::configure(default_config(wgpu::TextureFormat::Bgra8Unorm, 640, 480), true);
    assert_eq!(config.format, wgpu::TextureFormat::Bgra8Unorm);
    assert_eq!(config.view_formats, vec![wgpu::TextureFormat::Bgra8UnormSrgb]);
    let config = SurfaceConfig::configure(default_config(wgpu::TextureFormat::Rgba8UnormSrgb, 640, 480), true);
    assert_eq!(config.format, wgpu::TextureFormat::Rgba8UnormSrgb);
    assert_eq!(config.view_formats, vec![wgpu::TextureFormat::Rgba8UnormSrgb]);
}

#[test]
fn linear_policy_strips_the_srgb_suffix() {
    let config = SurfaceConfig::configure(default_config(wgpu::TextureFormat::Rgba8UnormSrgb, 640, 480), false);
    assert_eq!(config.format, wgpu::TextureFormat::Rgba8Unorm);
    assert_eq!(config.view_formats, vec![wgpu::TextureFormat::Rgba8Unorm]);
    let config = SurfaceConfig::configure(default_config(wgpu::TextureFormat::Rgba16Float, 640, 480), false);
    assert_eq!(config.format, wgpu::TextureFormat::Rgba16Float);
    assert_eq!(config.view_formats, vec![wgpu::TextureFormat::Rgba16Float]);
}

#[test]
fn configure_keeps_earlier_view_formats_and_clamps_extents() {
    let mut default = default_config(wgpu::TextureFormat::Bgra8Unorm, 0, 0);
    default.view_formats.push(wgpu::TextureFormat::Rgba8Unorm);
    let config = SurfaceConfig::configure(default, true);
    assert_eq!(config.width, 1);
    assert_eq!(config.height, 1);
    assert_eq!(config.view_formats, vec![wgpu::TextureFormat::Rgba8Unorm, wgpu::TextureFormat::Bgra8UnormSrgb]);
}

#[test]
fn auxiliary_textures_match_the_surface() {
    let manager = ready_manager(800, 600);
    let backdrop = manager.offscreen_texture();
    assert_eq!(backdrop.width, 800);
    assert_eq!(backdrop.height, 600);
    assert_eq!(backdrop.sample_count, 1);
    assert_eq!(backdrop.format, wgpu::TextureFormat::Bgra8Unorm);
    assert_eq!(backdrop.depth_or_array_layers, 1);
    assert_eq!(backdrop.mip_level_count, 1);
    assert_eq!(
        backdrop.usage,
        TextureUsage {
            copy_src: false,
            copy_dst: true,
            texture_binding: true,
            storage_binding: false,
            render_attachment: true,
        }
    );
    let target = manager.multisampled_texture();
    assert_eq!(target.width, 800);
    assert_eq!(target.height, 600);
    assert_eq!(target.sample_count, 4);
    assert_eq!(target.format, wgpu::TextureFormat::Bgra8Unorm);
    let group = manager.universal_bind_group();
    assert_eq!(group.entries.len(), 2);
    assert_eq!(group.entries[0].binding, 0);
    assert_eq!(group.entries[0].resource, BindingResource::BackdropView);
    assert_eq!(group.entries[1].binding, 1);
    assert_eq!(group.entries[1].resource, BindingResource::Sampler);
}

#[test]
fn texture_and_bind_group_descriptions_are_as_asked() {
    let texture = create_texture(320, 200, wgpu::TextureFormat::Rgba8Unorm, 4);
    assert_eq!(texture.width, 320);
    assert_eq!(texture.height, 200);
    assert_eq!(texture.sample_count, 4);
    assert_eq!(texture.format, wgpu::TextureFormat::Rgba8Unorm);
    let group = create_bind_group();
    assert_eq!(group.entries.len(), 2);
    let resources = SurfaceResources::new(&default_config(wgpu::TextureFormat::Rgba8Unorm, 5, 7));
    assert_eq!(resources.offscreen_texture.width, 5);
    assert_eq!(resources.offscreen_texture.height, 7);
    assert_eq!(resources.offscreen_texture.sample_count, 1);
    assert_eq!(resources.multisampled_texture.sample_count, 4);
}

#[test]
fn resize_to_nothing_leaves_one_pixel_by_one() {
    let mut manager = ready_manager(800, 600);
    let action = manager.handle_event(SurfaceEvent::Resized { width: 0, height: 0 }, false);
    assert_eq!(action, SurfaceAction::Rebuild);
    let config = manager.config.as_ref().expect("config");
    assert_eq!(config.width, 1);
    assert_eq!(config.height, 1);
    assert_eq!(config.format, wgpu::TextureFormat::Bgra8Unorm);
    assert_eq!(config.view_formats, vec![wgpu::TextureFormat::Bgra8Unorm]);
    assert_eq!(manager.offscreen_texture().width, 1);
    assert_eq!(manager.offscreen_texture().height, 1);
    assert_eq!(manager.offscreen_texture().sample_count, 1);
    assert_eq!(manager.multisampled_texture().width, 1);
    assert_eq!(manager.multisampled_texture().height, 1);
    assert_eq!(manager.multisampled_texture().sample_count, 4);
    assert_eq!(manager.universal_bind_group().entries.len(), 2);
}

#[test]
fn resize_replaces_the_extents_only() {
    let mut manager = ready_manager(800, 600);
    let action = manager.handle_event(SurfaceEvent::Resized { width: 1280, height: 720 }, false);
    assert_eq!(action, SurfaceAction::Rebuild);
    let config = manager.config.as_ref().expect("config");
    assert_eq!(config.width, 1280);
    assert_eq!(config.height, 720);
    assert_eq!(config.present_mode, wgpu::PresentMode::Fifo);
    assert_eq!(manager.offscreen_texture().width, 1280);
    assert_eq!(manager.multisampled_texture().height, 720);
}

#[test]
fn other_events_change_nothing() {
    let mut manager = ready_manager(800, 600);
    let action = manager.handle_event(SurfaceEvent::Other, false);
    assert_eq!(action, SurfaceAction::Nothing);
    assert_eq!(manager.config.as_ref().expect("config").width, 800);
    let mut fresh = SurfaceResourcesManager::new();
    assert_eq!(fresh.handle_event(SurfaceEvent::Other, true), SurfaceAction::Nothing);
    assert!(!fresh.ready());
}

#[test]
fn timeout_then_success_acquires_without_recreation() {
    let mut manager = ready_manager(800, 600);
    let step = manager.surface_texture(AcquireAttempt::First, Err(SurfaceError::Timeout));
    assert_eq!(step, AcquireStep::Retry);
    let step = manager.surface_texture(AcquireAttempt::AfterTimeout, Ok(()));
    assert_eq!(step, AcquireStep::Acquired);
    assert_eq!(manager.config.as_ref().expect("config").width, 800);
}

#[test]
fn outdated_recreates_once_and_retries_once() {
    let mut manager = ready_manager(800, 600);
    let step = manager.surface_texture(AcquireAttempt::First, Err(SurfaceError::Outdated));
    assert_eq!(step, AcquireStep::RecreateThenRetry);
    assert_eq!(manager.offscreen_texture().width, 800);
    assert_eq!(manager.multisampled_texture().sample_count, 4);
    let step = manager.surface_texture(AcquireAttempt::AfterRecreate, Ok(()));
    assert_eq!(step, AcquireStep::Acquired);
}

#[test]
fn lost_and_out_of_memory_are_recovered_like_outdated() {
    let mut manager = ready_manager(800, 600);
    assert_eq!(
        manager.surface_texture(AcquireAttempt::First, Err(SurfaceError::Lost)),
        AcquireStep::RecreateThenRetry
    );
    assert_eq!(
        manager.surface_texture(AcquireAttempt::First, Err(SurfaceError::OutOfMemory)),
        AcquireStep::RecreateThenRetry
    );
}

#[test]
fn failure_of_a_retry_is_fatal() {
    let mut manager = ready_manager(800, 600);
    for attempt in [AcquireAttempt::AfterTimeout, AcquireAttempt::AfterRecreate] {
        for error in [
            SurfaceError::Timeout,
            SurfaceError::Outdated,
            SurfaceError::Lost,
            SurfaceError::OutOfMemory,
            SurfaceError::Other,
        ] {
            assert_eq!(manager.surface_texture(attempt, Err(error)), AcquireStep::Fatal { error });
        }
    }
}

#[test]
fn unknown_first_error_is_fatal_at_once() {
    let mut manager = ready_manager(800, 600);
    assert_eq!(
        manager.surface_texture(AcquireAttempt::First, Err(SurfaceError::Other)),
        AcquireStep::Fatal { error: SurfaceError::Other }
    );
}

#[test]
fn first_success_acquires() {
    let mut manager = ready_manager(800, 600);
    assert_eq!(manager.surface_texture(AcquireAttempt::First, Ok(())), AcquireStep::Acquired);
}

#[test]
fn acquire_hands_unhandled_errors_back() {
    let resources = SurfaceResources::new(&default_config(wgpu::TextureFormat::Rgba8Unorm, 5, 7));
    assert_eq!(resources.acquire(AcquireAttempt::First, Ok(())), Ok(AcquireStep::Acquired));
    assert_eq!(resources.acquire(AcquireAttempt::First, Err(SurfaceError::Timeout)), Ok(AcquireStep::Retry));
    assert_eq!(
        resources.acquire(AcquireAttempt::AfterTimeout, Err(SurfaceError::Timeout)),
        Ok(AcquireStep::Fatal { error: SurfaceError::Timeout })
    );
    assert_eq!(resources.acquire(AcquireAttempt::First, Err(SurfaceError::Lost)), Err(SurfaceError::Lost));
}

#[test]
fn resources_start_without_surface_and_with_the_universal_layout() {
    let atlas = Vec2::new(Scalar::from_bits(1024.0f32.to_bits()), Scalar::from_bits(1024.0f32.to_bits()));
    let resources = Resources::new(atlas);
    assert!(!resources.surface_resources_manager.ready());
    assert_eq!(resources.atlas_size, atlas);
    assert_eq!(resources.requirements.max_push_constant_size, 256);
    assert!(resources.requirements.push_constants);
    assert!(resources.requirements.clear_texture);
    assert!(resources.requirements.vertex_writable_storage);
    assert!(resources.requirements.spirv_shader_passthrough);
    let layout = &resources.universal_bind_group_layout;
    assert_eq!(layout.entries.len(), 2);
    assert_eq!(layout.entries[0].binding, 0);
    assert_eq!(layout.entries[0].ty, BindingType::Texture);
    assert!(layout.entries[0].visibility.fragment);
    assert!(!layout.entries[0].visibility.vertex);
    assert_eq!(layout.entries[1].binding, 1);
    assert_eq!(layout.entries[1].ty, BindingType::Sampler);
}

#[test]
fn resources_keep_linear_formats() {
    let atlas = Vec2::new(Scalar::from_bits(1024.0f32.to_bits()), Scalar::from_bits(1024.0f32.to_bits()));
    let mut resources = Resources::new(atlas);
    let action = resources.handle_event(SurfaceEvent::SurfaceCreated {
        default_config: default_config(wgpu::TextureFormat::Rgba8UnormSrgb, 10, 20),
    });
    assert_eq!(action, SurfaceAction::Rebuild);
    assert_eq!(resources.surface_resources_manager.format(), wgpu::TextureFormat::Rgba8Unorm);
}

#[test]
fn policy_applies_the_given_formats() {
    let mut default = default_config(wgpu::TextureFormat::Bgra8Unorm, 0, 480);
    default.view_formats.push(wgpu::TextureFormat::Rgba8Unorm);
    let config =
        SurfaceConfig::with_formats(default, wgpu::TextureFormat::Rgba16Float, wgpu::TextureFormat::Rgba8UnormSrgb);
    assert_eq!(config.format, wgpu::TextureFormat::Rgba16Float);
    assert_eq!(config.view_formats, vec![wgpu::TextureFormat::Rgba8Unorm, wgpu::TextureFormat::Rgba8UnormSrgb]);
    assert_eq!(config.width, 1);
    assert_eq!(config.height, 480);
    assert!(config.usage.copy_src);
    assert!(config.usage.render_attachment);
    assert!(!config.usage.copy_dst);
    assert_eq!(config.alpha_mode, wgpu::CompositeAlphaMode::Opaque);
}

#[test]
fn acquire_makes_every_failure_of_a_retry_fatal() {
    let resources = SurfaceResources::new(&default_config(wgpu::TextureFormat::Rgba8Unorm, 5, 7));
    for attempt in [AcquireAttempt::AfterTimeout, AcquireAttempt::AfterRecreate] {
        for error in [
            SurfaceError::Timeout,
            SurfaceError::Outdated,
            SurfaceError::Lost,
            SurfaceError::OutOfMemory,
            SurfaceError::Other,
        ] {
            assert_eq!(resources.acquire(attempt, Err(error)), Ok(AcquireStep::Fatal { error }));
        }
        assert_eq!(resources.acquire(attempt, Ok(())), Ok(AcquireStep::Acquired));
    }
}

#[test]
fn acquire_hands_back_first_errors_that_are_no_timeout() {
    let resources = SurfaceResources::new(&default_config(wgpu::TextureFormat::Rgba8Unorm, 5, 7));
    for error in [SurfaceError::Outdated, SurfaceError::Lost, SurfaceError::OutOfMemory, SurfaceError::Other] {
        assert_eq!(resources.acquire(AcquireAttempt::First, Err(error)), Err(error));
    }
}

#[test]
fn timeout_then_any_failure_is_fatal_without_recreation() {
    for error in [SurfaceError::Timeout, SurfaceError::Outdated, SurfaceError::Lost, SurfaceError::OutOfMemory] {
        let mut manager = ready_manager(800, 600);
        assert_eq!(manager.surface_texture(AcquireAttempt::First, Err(SurfaceError::Timeout)), AcquireStep::Retry);
        assert_eq!(
            manager.surface_texture(AcquireAttempt::AfterTimeout, Err(error)),
            AcquireStep::Fatal { error }
        );
    }
}
