//! The surface lifecycle: the stored surface configuration, the auxiliary
//! render targets that go with it, and the decisions taken when the window
//! becomes ready, is resized, or fails to hand out a frame.
//!
//! Nothing here touches a device. A [`SurfaceResourcesManager`] holds the
//! configuration and the descriptions of the resources that belong to it; the
//! caller creates from them what the device needs and reports back what the
//! device said.

use vstd::prelude::*;
use crate::layout::{BindGroup, BindGroupEntry, BindingResource, universal_group};

verus! {

/// `wgpu::TextureFormat`, carried through as an opaque value.
#[verifier::external_type_specification]
#[verifier::external_body]
pub struct ExTextureFormat(wgpu::TextureFormat);

/// `wgpu::PresentMode`, carried through as an opaque value.
#[verifier::external_type_specification]
#[verifier::external_body]
pub struct ExPresentMode(wgpu::PresentMode);

/// `wgpu::CompositeAlphaMode`, carried through as an opaque value.
#[verifier::external_type_specification]
#[verifier::external_body]
pub struct ExCompositeAlphaMode(wgpu::CompositeAlphaMode);

/// What `wgpu::TextureFormat::add_srgb_suffix` returns for a format.
pub uninterp spec fn srgb_suffixed(format: wgpu::TextureFormat) -> wgpu::TextureFormat;

/// What `wgpu::TextureFormat::remove_srgb_suffix` returns for a format.
pub uninterp spec fn srgb_stripped(format: wgpu::TextureFormat) -> wgpu::TextureFormat;

/// `wgpu::TextureFormat::add_srgb_suffix`: the sRGB counterpart of a format
/// that has one, the format itself otherwise. It is a match on the format
/// alone and cannot fail.
#[verifier::external_body]
fn add_srgb_suffix(format: wgpu::TextureFormat) -> (suffixed: wgpu::TextureFormat)
    ensures
        suffixed == srgb_suffixed(format),
{
    format.add_srgb_suffix()
}

/// `wgpu::TextureFormat::remove_srgb_suffix`: the linear counterpart of an
/// sRGB format, the format itself otherwise. It is a match on the format alone
/// and cannot fail.
#[verifier::external_body]
fn remove_srgb_suffix(format: wgpu::TextureFormat) -> (stripped: wgpu::TextureFormat)
    ensures
        stripped == srgb_stripped(format),
{
    format.remove_srgb_suffix()
}

/// The smallest extent a surface may have in either direction.
pub const MIN_EXTENT: u32 = 1;

/// Samples per pixel of the backdrop texture.
pub const BACKDROP_SAMPLES: u32 = 1;

/// Samples per pixel of the multisampled render target.
pub const MULTISAMPLE_COUNT: u32 = 4;

/// What a texture may be used for.
#[derive(Clone, Copy, Debug, PartialEq, Eq, Structural)]
pub struct TextureUsage {
    pub copy_src: bool,
    pub copy_dst: bool,
    pub texture_binding: bool,
    pub storage_binding: bool,
    pub render_attachment: bool,
}

/// The uses of the presentable surface: rendered to, and copied from into the
/// backdrop.
pub open spec fn surface_usage() -> TextureUsage {
    TextureUsage {
        copy_src: true,
        copy_dst: false,
        texture_binding: false,
        storage_binding: false,
        render_attachment: true,
    }
}

/// The uses of an auxiliary texture: sampled, copied or cleared into, and
/// rendered to.
pub open spec fn auxiliary_usage() -> TextureUsage {
    TextureUsage {
        copy_src: false,
        copy_dst: true,
        texture_binding: true,
        storage_binding: false,
        render_attachment: true,
    }
}

/// An extent held to at least one pixel.
pub open spec fn clamped_extent(extent: u32) -> u32 {
    if extent < 1 {
        1
    } else {
        extent
    }
}

/// An extent held to at least one pixel.
pub fn clamp_extent(extent: u32) -> (clamped: u32)
    ensures
        clamped == clamped_extent(extent),
        clamped >= MIN_EXTENT,
{
    if extent < MIN_EXTENT {
        MIN_EXTENT
    } else {
        extent
    }
}

/// The configuration of the presentable surface.
#[derive(Debug)]
pub struct SurfaceConfig {
    pub usage: TextureUsage,
    pub format: wgpu::TextureFormat,
    pub width: u32,
    pub height: u32,
    pub present_mode: wgpu::PresentMode,
    pub desired_maximum_frame_latency: u32,
    pub alpha_mode: wgpu::CompositeAlphaMode,
    pub view_formats: Vec<wgpu::TextureFormat>,
}

/// The view of a [`SurfaceConfig`].
pub struct SurfaceConfigView {
    pub usage: TextureUsage,
    pub format: wgpu::TextureFormat,
    pub width: u32,
    pub height: u32,
    pub present_mode: wgpu::PresentMode,
    pub desired_maximum_frame_latency: u32,
    pub alpha_mode: wgpu::CompositeAlphaMode,
    pub view_formats: Seq<wgpu::TextureFormat>,
}

impl View for SurfaceConfig {
    type V = SurfaceConfigView;

    open spec fn view(&self) -> SurfaceConfigView {
        SurfaceConfigView {
            usage: self.usage,
            format: self.format,
            width: self.width,
            height: self.height,
            present_mode: self.present_mode,
            desired_maximum_frame_latency: self.desired_maximum_frame_latency,
            alpha_mode: self.alpha_mode,
            view_formats: self.view_formats@,
        }
    }
}

/// A default configuration with the surface policy applied, for a format to
/// render in and a format to view the surface in: the usage is forced to
/// [`surface_usage`], each extent held to at least one pixel, the format
/// replaced, and the view format added behind those already there.
pub open spec fn policy_applied(
    default: SurfaceConfigView,
    format: wgpu::TextureFormat,
    view_format: wgpu::TextureFormat,
) -> SurfaceConfigView {
    SurfaceConfigView {
        usage: surface_usage(),
        format,
        width: clamped_extent(default.width),
        height: clamped_extent(default.height),
        view_formats: default.view_formats.push(view_format),
        ..default
    }
}

/// The configuration that a surface is given when its window becomes ready,
/// from the default that the device offers. With `srgb` the format stays and
/// its sRGB counterpart is the view format; without, the linear counterpart
/// of the format is both.
pub open spec fn configured(default: SurfaceConfigView, srgb: bool) -> SurfaceConfigView {
    if srgb {
        policy_applied(default, default.format, srgb_suffixed(default.format))
    } else {
        policy_applied(default, srgb_stripped(default.format), srgb_stripped(default.format))
    }
}

/// A configuration with its extents replaced, each held to at least one pixel.
pub open spec fn resized(config: SurfaceConfigView, width: u32, height: u32) -> SurfaceConfigView {
    SurfaceConfigView { width: clamped_extent(width), height: clamped_extent(height), ..config }
}

impl SurfaceConfig {
    /// Applies the surface policy to a default configuration, for a format
    /// to render in and a format to view the surface in; see
    /// [`policy_applied`].
    pub fn with_formats(default: SurfaceConfig, format: wgpu::TextureFormat, view_format: wgpu::TextureFormat) -> (config:
        SurfaceConfig)
        ensures
            config@ == policy_applied(default@, format, view_format),
    {
        let mut config = default;
        config.usage = TextureUsage {
            copy_src: true,
            copy_dst: false,
            texture_binding: false,
            storage_binding: false,
            render_attachment: true,
        };
        config.width = clamp_extent(config.width);
        config.height = clamp_extent(config.height);
        config.format = format;
        config.view_formats.push(view_format);
        config
    }

    /// Applies the surface policy to the device's default; see [`configured`].
    pub fn configure(default: SurfaceConfig, srgb: bool) -> (config: SurfaceConfig)
        ensures
            config@ == configured(default@, srgb),
    {
        if srgb {
            // Not every platform has sRGB surfaces, so the sRGB form is a view format.
            let view_format = add_srgb_suffix(default.format);
            let format = default.format;
            SurfaceConfig::with_formats(default, format, view_format)
        } else {
            // Every platform has linear surfaces, so the linear form is used directly.
            let format = remove_srgb_suffix(default.format);
            SurfaceConfig::with_formats(default, format, format)
        }
    }
}

/// A two-dimensional texture with one layer and one mip level.
#[derive(Debug)]
pub struct TextureSpec {
    pub width: u32,
    pub height: u32,
    pub depth_or_array_layers: u32,
    pub mip_level_count: u32,
    pub sample_count: u32,
    pub format: wgpu::TextureFormat,
    pub usage: TextureUsage,
}

/// The auxiliary texture of a given size, format and sample count.
pub open spec fn texture_spec(width: u32, height: u32, format: wgpu::TextureFormat, samples: u32) -> TextureSpec {
    TextureSpec {
        width,
        height,
        depth_or_array_layers: 1,
        mip_level_count: 1,
        sample_count: samples,
        format,
        usage: auxiliary_usage(),
    }
}

/// Describes an auxiliary texture; see [`texture_spec`].
pub fn create_texture(width: u32, height: u32, format: wgpu::TextureFormat, samples: u32) -> (texture: TextureSpec)
    ensures
        texture == texture_spec(width, height, format, samples),
{
    TextureSpec {
        width,
        height,
        depth_or_array_layers: 1,
        mip_level_count: 1,
        sample_count: samples,
        format,
        usage: TextureUsage {
            copy_src: false,
            copy_dst: true,
            texture_binding: true,
            storage_binding: false,
            render_attachment: true,
        },
    }
}

/// Describes the bind group that exposes the backdrop texture and the sampler
/// to every pipeline.
pub fn create_bind_group() -> (group: BindGroup)
    ensures
        group@ == universal_group(),
{
    let mut entries: Vec<BindGroupEntry> = Vec::new();
    entries.push(BindGroupEntry { binding: 0, resource: BindingResource::BackdropView });
    entries.push(BindGroupEntry { binding: 1, resource: BindingResource::Sampler });
    assert(entries@ =~= universal_group());
    BindGroup { entries }
}

/// The three resources that accompany a configured surface.
#[derive(Debug)]
pub struct SurfaceResources {
    /// The backdrop: everything composited so far, for shaders to sample.
    pub offscreen_texture: TextureSpec,
    /// The target that passes render to before resolving into the frame.
    pub multisampled_texture: TextureSpec,
    pub universal_bind_group: BindGroup,
}

/// The view of a [`SurfaceResources`].
pub struct SurfaceResourcesView {
    pub offscreen_texture: TextureSpec,
    pub multisampled_texture: TextureSpec,
    pub universal_bind_group: Seq<BindGroupEntry>,
}

impl View for SurfaceResources {
    type V = SurfaceResourcesView;

    open spec fn view(&self) -> SurfaceResourcesView {
        SurfaceResourcesView {
            offscreen_texture: self.offscreen_texture,
            multisampled_texture: self.multisampled_texture,
            universal_bind_group: self.universal_bind_group@,
        }
    }
}

/// The resources that belong to a configuration: both textures of the
/// surface's size and format, the backdrop single-sampled and the render
/// target with four samples.
pub open spec fn resources_for(config: SurfaceConfigView) -> SurfaceResourcesView {
    SurfaceResourcesView {
        offscreen_texture: texture_spec(config.width, config.height, config.format, 1),
        multisampled_texture: texture_spec(config.width, config.height, config.format, 4),
        universal_bind_group: universal_group(),
    }
}

/// What an attempt to acquire a frame can fail with.
#[derive(Clone, Copy, Debug, PartialEq, Eq, Structural)]
pub enum SurfaceError {
    Timeout,
    Outdated,
    Lost,
    OutOfMemory,
    Other,
}

/// Which attempt to acquire a frame the caller has just made.
#[derive(Clone, Copy, Debug, PartialEq, Eq, Structural)]
pub enum AcquireAttempt {
    /// The first of this frame.
    First,
    /// The one that follows a timeout.
    AfterTimeout,
    /// The one that follows the recreation of the surface resources.
    AfterRecreate,
}

/// What to do after an attempt to acquire a frame.
#[derive(Clone, Copy, Debug, PartialEq, Eq, Structural)]
pub enum AcquireStep {
    /// The frame is there: render to it.
    Acquired,
    /// Try once more, as [`AcquireAttempt::AfterTimeout`].
    Retry,
    /// Configure the surface anew and recreate the auxiliary resources, then
    /// try once more, as [`AcquireAttempt::AfterRecreate`].
    RecreateThenRetry,
    /// Give up: the error cannot be recovered from.
    Fatal { error: SurfaceError },
}

/// Whether recreating the surface resources can cure an error.
pub open spec fn recoverable(error: SurfaceError) -> bool {
    error is Outdated || error is Lost || error is OutOfMemory
}

/// The decision after an attempt: `outcome` is `None` where a frame was
/// acquired and the error otherwise. A first timeout is retried; a first
/// recoverable error has the resources recreated and is retried; everything
/// else that is not a frame is fatal, and so is any failure of a retry.
pub open spec fn acquire_step(attempt: AcquireAttempt, outcome: Option<SurfaceError>) -> AcquireStep {
    match outcome {
        None => AcquireStep::Acquired,
        Some(error) => if attempt is First && error is Timeout {
            AcquireStep::Retry
        } else if attempt is First && recoverable(error) {
            AcquireStep::RecreateThenRetry
        } else {
            AcquireStep::Fatal { error }
        },
    }
}

/// What an attempt comes to without recreating anything. A frame is taken. On
/// the first attempt a timeout is retried, and any other error is handed back
/// for the manager to decide whether recreating the resources can cure it. On
/// a retry every error is fatal: none is handed back, and no further attempt
/// is made.
pub open spec fn acquired(attempt: AcquireAttempt, outcome: Option<SurfaceError>) -> Result<
    AcquireStep,
    SurfaceError,
> {
    match outcome {
        None => Ok(AcquireStep::Acquired),
        Some(error) => if !(attempt is First) {
            Ok(AcquireStep::Fatal { error })
        } else if error is Timeout {
            Ok(AcquireStep::Retry)
        } else {
            Err(error)
        },
    }
}

/// Where [`acquired`] decides, it decides as [`acquire_step`] does. It leaves
/// open only an error of the first attempt that is no timeout, where the step
/// is to recreate and retry if the error is recoverable and fatal otherwise.
pub proof fn lemma_acquired_agrees(attempt: AcquireAttempt, outcome: Option<SurfaceError>)
    ensures
        acquired(attempt, outcome) matches Ok(step) ==> step == acquire_step(attempt, outcome),
        acquired(attempt, outcome) matches Err(error) ==> {
            &&& attempt is First
            &&& outcome == Some(error)
            &&& !(error is Timeout)
            &&& acquire_step(attempt, outcome) == if recoverable(error) {
                AcquireStep::RecreateThenRetry
            } else {
                AcquireStep::Fatal { error }
            }
        },
        !(attempt is First) ==> acquired(attempt, outcome) is Ok,
{
}

/// A resize keeps everything but the extents, which it holds to one pixel at
/// least; the auxiliary textures follow the new extents and keep the format.
/// A resize to nothing therefore leaves a surface of one pixel by one.
pub proof fn lemma_resize(config: SurfaceConfigView, width: u32, height: u32)
    ensures
        resized(config, width, height).width == if width == 0 {
            1
        } else {
            width
        },
        resized(config, width, height).height == if height == 0 {
            1
        } else {
            height
        },
        resized(config, width, height).format == config.format,
        resized(config, width, height).usage == config.usage,
        resized(config, width, height).view_formats == config.view_formats,
        resources_for(resized(config, width, height)).offscreen_texture == texture_spec(
            resized(config, width, height).width,
            resized(config, width, height).height,
            config.format,
            1,
        ),
        resources_for(resized(config, width, height)).multisampled_texture == texture_spec(
            resized(config, width, height).width,
            resized(config, width, height).height,
            config.format,
            4,
        ),
        resources_for(resized(config, width, height)).universal_bind_group == universal_group(),
{
}

/// How an acquisition went: how often a frame was asked for, how often the
/// resources were recreated, and whether a frame was had.
pub struct AcquireRun {
    pub attempts: nat,
    pub recreations: nat,
    pub acquired: bool,
}

/// The acquisition that follows from what the first attempt gave and what a
/// second one would give: the caller starts with [`AcquireAttempt::First`]
/// and does as [`acquire_step`] says until it has a frame or gives up.
pub open spec fn acquire_run(first: Option<SurfaceError>, second: Option<SurfaceError>) -> AcquireRun {
    match acquire_step(AcquireAttempt::First, first) {
        AcquireStep::Acquired => AcquireRun { attempts: 1, recreations: 0, acquired: true },
        AcquireStep::Fatal { .. } => AcquireRun { attempts: 1, recreations: 0, acquired: false },
        AcquireStep::Retry => AcquireRun {
            attempts: 2,
            recreations: 0,
            acquired: acquire_step(AcquireAttempt::AfterTimeout, second) is Acquired,
        },
        AcquireStep::RecreateThenRetry => AcquireRun {
            attempts: 2,
            recreations: 1,
            acquired: acquire_step(AcquireAttempt::AfterRecreate, second) is Acquired,
        },
    }
}

/// A retry is the last attempt: it ends with a frame or for good.
pub proof fn lemma_retry_is_final(attempt: AcquireAttempt, outcome: Option<SurfaceError>)
    requires
        !(attempt is First),
    ensures
        acquire_step(attempt, outcome) is Acquired || acquire_step(attempt, outcome) is Fatal,
        acquire_step(attempt, outcome) is Acquired <==> outcome is None,
{
}

/// An acquisition asks for a frame twice at most and recreates the resources
/// once at most. After a first timeout it asks again without recreating
/// anything; after a first recoverable error it recreates once and asks once
/// more; either way it has a frame exactly if the second attempt gave one.
/// Any other first error ends it at once.
pub proof fn lemma_acquire_run(first: Option<SurfaceError>, second: Option<SurfaceError>)
    ensures
        1 <= acquire_run(first, second).attempts <= 2,
        acquire_run(first, second).recreations <= 1,
        first is None ==> acquire_run(first, second) == (AcquireRun { attempts: 1, recreations: 0, acquired: true }),
        first == Some(SurfaceError::Timeout) ==> acquire_run(first, second) == (AcquireRun {
            attempts: 2,
            recreations: 0,
            acquired: second is None,
        }),
        first matches Some(error) && recoverable(error) ==> acquire_run(first, second) == (AcquireRun {
            attempts: 2,
            recreations: 1,
            acquired: second is None,
        }),
        first == Some(SurfaceError::Other) ==> acquire_run(first, second) == (AcquireRun {
            attempts: 1,
            recreations: 0,
            acquired: false,
        }),
{
}

impl SurfaceResources {
    /// Describes the resources that belong to a configuration.
    pub fn new(config: &SurfaceConfig) -> (resources: SurfaceResources)
        ensures
            resources@ == resources_for(config@),
    {
        let offscreen_texture = create_texture(config.width, config.height, config.format, BACKDROP_SAMPLES);
        let multisampled_texture = create_texture(
            config.width,
            config.height,
            config.format,
            MULTISAMPLE_COUNT,
        );
        let universal_bind_group = create_bind_group();
        SurfaceResources { offscreen_texture, multisampled_texture, universal_bind_group }
    }

    /// The part of the decision that needs no recreation; see [`acquired`].
    pub fn acquire(&self, attempt: AcquireAttempt, outcome: Result<(), SurfaceError>) -> (step: Result<
        AcquireStep,
        SurfaceError,
    >)
        ensures
            step == acquired(
                attempt,
                match outcome {
                    Ok(_) => None,
                    Err(error) => Some(error),
                },
            ),
    {
        match outcome {
            Ok(_) => Ok(AcquireStep::Acquired),
            Err(error) => match attempt {
                AcquireAttempt::First => match error {
                    SurfaceError::Timeout => Ok(AcquireStep::Retry),
                    _ => Err(error),
                },
                _ => Ok(AcquireStep::Fatal { error }),
            },
        }
    }
}

/// What the window system reports, as far as the surface is concerned.
#[derive(Debug)]
pub enum SurfaceEvent {
    /// The window became ready or was resumed; its inner size in pixels.
    WindowReady { width: u32, height: u32 },
    /// A surface was created for the window; the configuration that the
    /// device offers for it by default.
    SurfaceCreated { default_config: SurfaceConfig },
    /// The window was resized; its new inner size in pixels.
    Resized { width: u32, height: u32 },
    /// Anything else.
    Other,
}

/// What the caller is to do after an event.
#[derive(Clone, Copy, Debug, PartialEq, Eq, Structural)]
pub enum SurfaceAction {
    /// Create a surface for the window, ask the device for its default
    /// configuration at this size, and report it as
    /// [`SurfaceEvent::SurfaceCreated`].
    CreateSurface { width: u32, height: u32 },
    /// The stored configuration changed: configure the surface with it,
    /// create the auxiliary resources from their descriptions, and rebuild
    /// every pipeline.
    Rebuild,
    /// Nothing.
    Nothing,
}

/// The surface lifecycle: uninitialized until a surface has been created and
/// configured, ready from then on.
#[derive(Debug)]
pub struct SurfaceResourcesManager {
    pub surface_resources: Option<SurfaceResources>,
    pub config: Option<SurfaceConfig>,
}

/// What [`SurfaceResourcesManager::handle_event`] does with an event: the
/// manager before, the event, the sRGB policy, the manager after, and the
/// action handed back.
pub open spec fn handled(
    before: SurfaceResourcesManager,
    event: SurfaceEvent,
    srgb: bool,
    after: SurfaceResourcesManager,
    action: SurfaceAction,
) -> bool {
    match event {
        SurfaceEvent::WindowReady { width, height } => {
            &&& action == (SurfaceAction::CreateSurface {
                width: clamped_extent(width),
                height: clamped_extent(height),
            })
            &&& after == before
        },
        SurfaceEvent::SurfaceCreated { default_config } => {
            &&& action == SurfaceAction::Rebuild
            &&& after.spec_ready()
            &&& after.spec_config() == configured(default_config@, srgb)
        },
        SurfaceEvent::Resized { width, height } => {
            &&& action == SurfaceAction::Rebuild
            &&& after.spec_ready()
            &&& after.spec_config() == resized(before.spec_config(), width, height)
        },
        SurfaceEvent::Other => {
            &&& action == SurfaceAction::Nothing
            &&& after == before
        },
    }
}

impl SurfaceResourcesManager {
    /// Whether the manager is in one of its two states, and, when ready,
    /// whether its resources are those of its configuration and the
    /// configuration spans at least one pixel each way.
    pub open spec fn wf(&self) -> bool {
        &&& self.surface_resources is Some <==> self.config is Some
        &&& self.config matches Some(config) ==> {
            &&& config.width >= 1
            &&& config.height >= 1
            &&& self.surface_resources->Some_0@ == resources_for(config@)
        }
    }

    /// Whether a surface has been created and configured.
    pub open spec fn spec_ready(&self) -> bool {
        self.surface_resources is Some && self.config is Some
    }

    /// The stored configuration of a ready manager.
    pub open spec fn spec_config(&self) -> SurfaceConfigView
        recommends
            self.spec_ready(),
    {
        self.config->Some_0@
    }

    /// The uninitialized manager.
    pub fn new() -> (manager: SurfaceResourcesManager)
        ensures
            manager.wf(),
            !manager.spec_ready(),
    {
        SurfaceResourcesManager { surface_resources: None, config: None }
    }

    /// Whether a surface has been created and configured.
    #[verifier::when_used_as_spec(spec_ready)]
    pub fn ready(&self) -> (ready: bool)
        ensures
            ready == self.spec_ready(),
    {
        self.surface_resources.is_some() && self.config.is_some()
    }

    /// The description of the backdrop texture.
    pub fn offscreen_texture(&self) -> (texture: &TextureSpec)
        requires
            self.spec_ready(),
        ensures
            *texture == self.surface_resources->Some_0.offscreen_texture,
    {
        &self.surface_resources.as_ref().unwrap().offscreen_texture
    }

    /// The description of the multisampled render target.
    pub fn multisampled_texture(&self) -> (texture: &TextureSpec)
        requires
            self.spec_ready(),
        ensures
            *texture == self.surface_resources->Some_0.multisampled_texture,
    {
        &self.surface_resources.as_ref().unwrap().multisampled_texture
    }

    /// The description of the universal bind group.
    pub fn universal_bind_group(&self) -> (group: &BindGroup)
        requires
            self.spec_ready(),
        ensures
            *group == self.surface_resources->Some_0.universal_bind_group,
    {
        &self.surface_resources.as_ref().unwrap().universal_bind_group
    }

    /// The pixel format of the surface.
    pub fn format(&self) -> (format: wgpu::TextureFormat)
        requires
            self.spec_ready(),
        ensures
            format == self.spec_config().format,
    {
        self.config.as_ref().unwrap().format
    }

    /// Takes an event and says what the caller is to do.
    ///
    /// A ready window asks for a surface of the window's size, held to at
    /// least one pixel each way, and changes nothing yet. A created surface
    /// makes the manager ready, with the configuration of [`configured`]. A
    /// resize replaces the extents of the stored configuration; see
    /// [`resized`]. Both describe the auxiliary resources anew. Any other
    /// event changes nothing.
    pub fn handle_event(&mut self, event: SurfaceEvent, srgb: bool) -> (action: SurfaceAction)
        requires
            old(self).wf(),
            event is Resized ==> old(self).spec_ready(),
        ensures
            final(self).wf(),
            handled(*old(self), event, srgb, *final(self), action),
    {
        match event {
            SurfaceEvent::WindowReady { width, height } => {
                SurfaceAction::CreateSurface { width: clamp_extent(width), height: clamp_extent(height) }
            },
            SurfaceEvent::SurfaceCreated { default_config } => {
                let config = SurfaceConfig::configure(default_config, srgb);
                self.surface_resources = Some(SurfaceResources::new(&config));
                self.config = Some(config);
                SurfaceAction::Rebuild
            },
            SurfaceEvent::Resized { width, height } => {
                let mut config = self.config.take().unwrap();
                config.width = clamp_extent(width);
                config.height = clamp_extent(height);
                self.surface_resources = Some(SurfaceResources::new(&config));
                self.config = Some(config);
                SurfaceAction::Rebuild
            },
            SurfaceEvent::Other => SurfaceAction::Nothing,
        }
    }

    /// Takes the outcome of an attempt to acquire a frame and says what the
    /// caller is to do; see [`acquire_step`]. Where the resources are to be
    /// recreated they are described anew from the stored configuration, which
    /// stays as it is.
    pub fn surface_texture(&mut self, attempt: AcquireAttempt, outcome: Result<(), SurfaceError>) -> (step:
        AcquireStep)
        requires
            old(self).wf(),
            old(self).spec_ready(),
        ensures
            step == acquire_step(
                attempt,
                match outcome {
                    Ok(_) => None,
                    Err(error) => Some(error),
                },
            ),
            final(self).wf(),
            final(self).spec_ready(),
            final(self).config == old(self).config,
            final(self).surface_resources->Some_0@ == old(self).surface_resources->Some_0@,
    {
        let decided = self.surface_resources.as_ref().unwrap().acquire(attempt, outcome);
        match decided {
            Ok(step) => step,
            Err(error) => {
                let curable = match error {
                    SurfaceError::Outdated | SurfaceError::Lost | SurfaceError::OutOfMemory => true,
                    _ => false,
                };
                if curable {
                    let resources = SurfaceResources::new(self.config.as_ref().unwrap());
                    self.surface_resources = Some(resources);
                    AcquireStep::RecreateThenRetry
                } else {
                    AcquireStep::Fatal { error }
                }
            },
        }
    }
}

} // verus!
