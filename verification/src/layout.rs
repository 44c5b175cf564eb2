//! Descriptions of the binding sets that pipelines are built against: which
//! slot holds what, and which shader stages may see it.

use vstd::prelude::*;

verus! {

/// The shader stages that may read a binding.
#[derive(Clone, Copy, Debug, PartialEq, Eq, Structural)]
pub struct ShaderStages {
    pub vertex: bool,
    pub fragment: bool,
}

/// What a slot of a layout accepts.
#[derive(Clone, Copy, Debug, PartialEq, Eq, Structural)]
pub enum BindingType {
    /// A storage buffer without dynamic offset or minimum size.
    StorageBuffer { read_only: bool },
    /// A two-dimensional, single-sampled texture of filterable floats.
    Texture,
    /// A filtering sampler.
    Sampler,
}

/// What a slot of a bind group holds.
#[derive(Clone, Copy, Debug, PartialEq, Eq, Structural)]
pub enum BindingResource {
    /// The whole of the owner's instance buffer.
    InstanceBuffer,
    /// A view of the backdrop texture.
    BackdropView,
    /// The compositor's sampler.
    Sampler,
}

/// One slot of a layout.
#[derive(Clone, Copy, Debug, PartialEq, Eq, Structural)]
pub struct BindGroupLayoutEntry {
    pub binding: u32,
    pub visibility: ShaderStages,
    pub ty: BindingType,
}

/// One slot of a bind group.
#[derive(Clone, Copy, Debug, PartialEq, Eq, Structural)]
pub struct BindGroupEntry {
    pub binding: u32,
    pub resource: BindingResource,
}

/// A layout: its slots in order.
#[derive(Clone, Debug)]
pub struct BindGroupLayout {
    pub entries: Vec<BindGroupLayoutEntry>,
}

/// A bind group: its slots in order.
#[derive(Clone, Debug)]
pub struct BindGroup {
    pub entries: Vec<BindGroupEntry>,
}

impl View for BindGroupLayout {
    type V = Seq<BindGroupLayoutEntry>;

    open spec fn view(&self) -> Seq<BindGroupLayoutEntry> {
        self.entries@
    }
}

impl View for BindGroup {
    type V = Seq<BindGroupEntry>;

    open spec fn view(&self) -> Seq<BindGroupEntry> {
        self.entries@
    }
}

/// Whether a resource is of the type that a slot accepts.
pub open spec fn resource_fits(resource: BindingResource, ty: BindingType) -> bool {
    match resource {
        BindingResource::InstanceBuffer => ty is StorageBuffer,
        BindingResource::BackdropView => ty is Texture,
        BindingResource::Sampler => ty is Sampler,
    }
}

/// Whether a bind group can be bound under a layout: slot for slot, the same
/// binding number and a resource of the accepted type.
pub open spec fn group_fits(group: Seq<BindGroupEntry>, layout: Seq<BindGroupLayoutEntry>) -> bool {
    &&& group.len() == layout.len()
    &&& forall|i: int|
        0 <= i < group.len() ==> (#[trigger] group[i]).binding == layout[i].binding && resource_fits(
            group[i].resource,
            layout[i].ty,
        )
}

/// The layout that every pipeline shares: the backdrop texture in slot 0 and
/// the sampler in slot 1, both for the fragment stage.
pub open spec fn universal_layout() -> Seq<BindGroupLayoutEntry> {
    seq![
        BindGroupLayoutEntry {
            binding: 0,
            visibility: ShaderStages { vertex: false, fragment: true },
            ty: BindingType::Texture,
        },
        BindGroupLayoutEntry {
            binding: 1,
            visibility: ShaderStages { vertex: false, fragment: true },
            ty: BindingType::Sampler,
        },
    ]
}

/// The bind group that exposes the backdrop to every pipeline.
pub open spec fn universal_group() -> Seq<BindGroupEntry> {
    seq![
        BindGroupEntry { binding: 0, resource: BindingResource::BackdropView },
        BindGroupEntry { binding: 1, resource: BindingResource::Sampler },
    ]
}

/// The layout that a drawable binds its instance buffer under: one storage
/// buffer in slot 0, read by the vertex and fragment stages.
pub open spec fn instance_layout() -> Seq<BindGroupLayoutEntry> {
    seq![
        BindGroupLayoutEntry {
            binding: 0,
            visibility: ShaderStages { vertex: true, fragment: true },
            ty: BindingType::StorageBuffer { read_only: true },
        },
    ]
}

/// The bind group that holds a drawable's instance buffer.
pub open spec fn instance_group() -> Seq<BindGroupEntry> {
    seq![BindGroupEntry { binding: 0, resource: BindingResource::InstanceBuffer }]
}

/// Builds [`universal_layout`].
pub fn create_universal_layout() -> (layout: BindGroupLayout)
    ensures
        layout@ == universal_layout(),
{
    let mut entries: Vec<BindGroupLayoutEntry> = Vec::new();
    entries.push(
        BindGroupLayoutEntry {
            binding: 0,
            visibility: ShaderStages { vertex: false, fragment: true },
            ty: BindingType::Texture,
        },
    );
    entries.push(
        BindGroupLayoutEntry {
            binding: 1,
            visibility: ShaderStages { vertex: false, fragment: true },
            ty: BindingType::Sampler,
        },
    );
    assert(entries@ =~= universal_layout());
    BindGroupLayout { entries }
}

/// Builds [`instance_layout`].
pub fn create_instance_layout() -> (layout: BindGroupLayout)
    ensures
        layout@ == instance_layout(),
{
    let mut entries: Vec<BindGroupLayoutEntry> = Vec::new();
    entries.push(
        BindGroupLayoutEntry {
            binding: 0,
            visibility: ShaderStages { vertex: true, fragment: true },
            ty: BindingType::StorageBuffer { read_only: true },
        },
    );
    assert(entries@ =~= instance_layout());
    BindGroupLayout { entries }
}

/// Builds [`instance_group`].
pub fn create_instance_group() -> (group: BindGroup)
    ensures
        group@ == instance_group(),
{
    let mut entries: Vec<BindGroupEntry> = Vec::new();
    entries.push(BindGroupEntry { binding: 0, resource: BindingResource::InstanceBuffer });
    assert(entries@ =~= instance_group());
    BindGroup { entries }
}

/// The universal bind group can be bound under the universal layout, and a
/// drawable's instance group under the instance layout.
pub proof fn lemma_groups_fit()
    ensures
        group_fits(universal_group(), universal_layout()),
        group_fits(instance_group(), instance_layout()),
{
}

} // verus!
