//! Resource bindings: what a shading stage sees under fixed slot numbers.

use vstd::prelude::*;

verus! {

/// The shading stages to which a binding is visible.
#[derive(Clone, Copy, Debug, PartialEq, Eq)]
pub struct ShaderStages {
    pub vertex: bool,
    pub fragment: bool,
    pub compute: bool,
}

/// The shape under which a texture is viewed.
#[derive(Clone, Copy, Debug, PartialEq, Eq)]
pub enum TextureViewDimension {
    D1,
    D2,
    D2Array,
    Cube,
    D3,
}

/// What sampling a texture yields.
#[derive(Clone, Copy, Debug, PartialEq, Eq)]
pub enum TextureSampleType {
    Float { filterable: bool },
    Depth,
    Sint,
    Uint,
}

/// What kind of sampler a binding takes.
#[derive(Clone, Copy, Debug, PartialEq, Eq)]
pub enum SamplerBindingType {
    Filtering,
    NonFiltering,
    Comparison,
}

/// The kind of resource that a binding slot takes.
#[derive(Clone, Copy, Debug, PartialEq, Eq)]
pub enum BindingType {
    Texture { multisampled: bool, view_dimension: TextureViewDimension, sample_type: TextureSampleType },
    Sampler(SamplerBindingType),
}

/// One slot of a bind-group layout.
#[derive(Clone, Copy, Debug, PartialEq, Eq)]
pub struct BindGroupLayoutEntry {
    pub binding: u32,
    pub visibility: ShaderStages,
    pub ty: BindingType,
}

/// The slots that a bind group must fill.
#[derive(Debug, PartialEq, Eq)]
pub struct BindGroupLayout {
    pub entries: Vec<BindGroupLayoutEntry>,
}

/// A resource of the object that owns the bind group.
#[derive(Clone, Copy, Debug, PartialEq, Eq)]
pub enum BindingResource {
    /// The view of the object's texture.
    TextureView,
    /// The sampler of the object's texture.
    Sampler,
}

/// One filled slot of a bind group.
#[derive(Clone, Copy, Debug, PartialEq, Eq)]
pub struct BindGroupEntry {
    pub binding: u32,
    pub resource: BindingResource,
}

/// The resources bound under the slots of a layout.
#[derive(Debug, PartialEq, Eq)]
pub struct BindGroup {
    pub entries: Vec<BindGroupEntry>,
}

impl View for BindGroupLayout {
    type V = Seq<BindGroupLayoutEntry>;

    open spec fn view(&self) -> Seq<BindGroupLayoutEntry> {
        self.entries@
    }
}

impl View for BindGroup {
    type V = Seq<BindGroupEntry>;

    open spec fn view(&self) -> Seq<BindGroupEntry> {
        self.entries@
    }
}

/// Visible to the fragment stage and to no other.
pub open spec fn fragment_only() -> ShaderStages {
    ShaderStages { vertex: false, fragment: true, compute: false }
}

/// The layout of a textured object: slot 0 takes a filterable 2D float
/// texture, slot 1 a filtering sampler, both for the fragment stage alone.
pub open spec fn texture_layout() -> Seq<BindGroupLayoutEntry> {
    seq![
        BindGroupLayoutEntry {
            binding: 0,
            visibility: fragment_only(),
            ty: BindingType::Texture {
                multisampled: false,
                view_dimension: TextureViewDimension::D2,
                sample_type: TextureSampleType::Float { filterable: true },
            },
        },
        BindGroupLayoutEntry {
            binding: 1,
            visibility: fragment_only(),
            ty: BindingType::Sampler(SamplerBindingType::Filtering),
        },
    ]
}

/// The bind group of a textured object: its texture view at slot 0, its sampler at slot 1.
pub open spec fn texture_bindings() -> Seq<BindGroupEntry> {
    seq![
        BindGroupEntry { binding: 0, resource: BindingResource::TextureView },
        BindGroupEntry { binding: 1, resource: BindingResource::Sampler },
    ]
}

/// The resource is of the kind that the slot takes.
pub open spec fn resource_fits(resource: BindingResource, ty: BindingType) -> bool {
    match resource {
        BindingResource::TextureView => ty is Texture,
        BindingResource::Sampler => ty is Sampler,
    }
}

/// The bind group fills every slot of the layout, in order, with a resource of the right kind.
pub open spec fn fills(group: Seq<BindGroupEntry>, layout: Seq<BindGroupLayoutEntry>) -> bool {
    &&& group.len() == layout.len()
    &&& forall|i: int|
        0 <= i < group.len() ==> {
            &&& (#[trigger] group[i]).binding == layout[i].binding
            &&& resource_fits(group[i].resource, layout[i].ty)
        }
}

impl BindGroupLayout {
    /// Builds the layout of a textured object.
    pub fn for_texture() -> (layout: BindGroupLayout)
        ensures
            layout@ == texture_layout(),
    {
        let visibility = ShaderStages { vertex: false, fragment: true, compute: false };
        let mut entries: Vec<BindGroupLayoutEntry> = Vec::new();
        entries.push(
            BindGroupLayoutEntry {
                binding: 0,
                visibility,
                ty: BindingType::Texture {
                    multisampled: false,
                    view_dimension: TextureViewDimension::D2,
                    sample_type: TextureSampleType::Float { filterable: true },
                },
            },
        );
        entries.push(
            BindGroupLayoutEntry {
                binding: 1,
                visibility,
                ty: BindingType::Sampler(SamplerBindingType::Filtering),
            },
        );
        assert(entries@ =~= texture_layout());
        BindGroupLayout { entries }
    }

    /// Copies the layout.
    pub fn duplicate(&self) -> (copy: BindGroupLayout)
        ensures
            copy@ == self@,
    {
        let mut entries: Vec<BindGroupLayoutEntry> = Vec::new();
        let mut i: usize = 0;
        while i < self.entries.len()
            invariant
                i <= self.entries.len(),
                entries@ == self.entries@.subrange(0, i as int),
            decreases self.entries.len() - i,
        {
            entries.push(self.entries[i]);
            assert(entries@ =~= self.entries@.subrange(0, i + 1));
            i += 1;
        }
        assert(entries@ =~= self.entries@);
        BindGroupLayout { entries }
    }
}

impl BindGroup {
    /// Builds the bind group of a textured object.
    pub fn for_texture() -> (group: BindGroup)
        ensures
            group@ == texture_bindings(),
    {
        let mut entries: Vec<BindGroupEntry> = Vec::new();
        entries.push(BindGroupEntry { binding: 0, resource: BindingResource::TextureView });
        entries.push(BindGroupEntry { binding: 1, resource: BindingResource::Sampler });
        assert(entries@ =~= texture_bindings());
        BindGroup { entries }
    }
}

/// The bind group of a textured object fills its layout, every slot is
/// visible to the fragment stage alone, and slot 0 is the filterable texture
/// that the filtering sampler of slot 1 needs.
pub proof fn lemma_texture_bindings_fill_layout()
    ensures
        fills(texture_bindings(), texture_layout()),
        forall|i: int|
            0 <= i < texture_layout().len() ==> (#[trigger] texture_layout()[i]).visibility
                == fragment_only(),
        texture_layout()[0].ty == (BindingType::Texture {
            multisampled: false,
            view_dimension: TextureViewDimension::D2,
            sample_type: TextureSampleType::Float { filterable: true },
        }),
        texture_layout()[1].ty == BindingType::Sampler(SamplerBindingType::Filtering),
{
}

} // verus!
