//! Binding sets: a layout and the group that fills it, built together from a
//! list of what is to be bound.

use vstd::prelude::*;

verus! {

/// The shader stages that may read a binding.
#[derive(Clone, Copy, Debug, PartialEq, Eq, Structural)]
pub struct ShaderStages {
    pub vertex: bool,
    pub fragment: bool,
    pub compute: bool,
}

impl ShaderStages {
    /// Only the vertex stage.
    pub open spec fn only_vertex() -> ShaderStages {
        ShaderStages { vertex: true, fragment: false, compute: false }
    }

    /// Only the fragment stage.
    pub open spec fn only_fragment() -> ShaderStages {
        ShaderStages { vertex: false, fragment: true, compute: false }
    }

    /// The vertex and the fragment stage.
    pub open spec fn both_render_stages() -> ShaderStages {
        ShaderStages { vertex: true, fragment: true, compute: false }
    }

    /// Executable form of [`Self::only_vertex`].
    pub fn vertex() -> (stages: ShaderStages)
        ensures
            stages == Self::only_vertex(),
    {
        ShaderStages { vertex: true, fragment: false, compute: false }
    }

    /// Executable form of [`Self::only_fragment`].
    pub fn fragment() -> (stages: ShaderStages)
        ensures
            stages == Self::only_fragment(),
    {
        ShaderStages { vertex: false, fragment: true, compute: false }
    }

    /// Executable form of [`Self::both_render_stages`].
    pub fn vertex_fragment() -> (stages: ShaderStages)
        ensures
            stages == Self::both_render_stages(),
    {
        ShaderStages { vertex: true, fragment: true, compute: false }
    }
}

/// What kind of resource a binding takes.
#[derive(Clone, Copy, Debug, PartialEq, Eq, Structural)]
pub enum BindingType {
    /// A uniform buffer, bound whole and without dynamic offset.
    UniformBuffer,
    /// A two-dimensional, single-sampled texture of filterable values.
    Texture,
    /// A filtering sampler.
    Sampler,
}

/// One entry of a bind group layout.
#[derive(Clone, Copy, Debug, PartialEq, Eq, Structural)]
pub struct LayoutEntry {
    pub binding: u32,
    pub visibility: ShaderStages,
    pub ty: BindingType,
}

/// The resource that fills a binding. Textures and buffers are named by
/// their position in the list the binding set was built from.
#[derive(Clone, Copy, Debug, PartialEq, Eq, Structural)]
pub enum BindingResource {
    /// The whole of the buffer at this position.
    Buffer(usize),
    /// The view of the texture at this position.
    TextureView(usize),
    /// The sampler of the texture at this position.
    Sampler(usize),
}

/// One entry of a bind group.
#[derive(Clone, Copy, Debug, PartialEq, Eq, Structural)]
pub struct GroupEntry {
    pub binding: u32,
    pub resource: BindingResource,
}

/// The layout entry of the uniform buffer at position `i`.
pub open spec fn uniform_layout_entry(i: int, visibility: ShaderStages) -> LayoutEntry {
    LayoutEntry { binding: i as u32, visibility, ty: BindingType::UniformBuffer }
}

/// The group entry of the uniform buffer at position `i`.
pub open spec fn uniform_group_entry(i: int) -> GroupEntry {
    GroupEntry { binding: i as u32, resource: BindingResource::Buffer(i as usize) }
}

/// Why a binding set could not be built.
#[derive(Clone, Copy, Debug, PartialEq, Eq, Structural)]
pub enum BindingError {
    /// More entries than binding numbers.
    TooManyBindings,
}

/// A layout of uniform buffers and the group that fills it.
#[derive(Debug)]
pub struct BindGrouperoo {
    pub bind_group_layout: Vec<LayoutEntry>,
    pub bind_group: Vec<GroupEntry>,
}

impl BindGrouperoo {
    /// The set is the one built for these stages and this many buffers:
    /// layout entry `i` is a uniform buffer at binding `i`, visible to
    /// `visibility[i]`; group entry `j` puts buffer `j` at binding `j`.
    pub open spec fn is_built_for(self, visibility: Seq<ShaderStages>, buffers: nat) -> bool {
        &&& self.bind_group_layout@ == Seq::new(
            visibility.len(),
            |i: int| uniform_layout_entry(i, visibility[i]),
        )
        &&& self.bind_group@ == Seq::new(buffers, |j: int| uniform_group_entry(j))
    }

    /// Builds the layout for `visibility` and the group for `uniform_buffers`
    /// buffers. Both lists are numbered from zero; they need not be equally
    /// long, though a backend will only accept a group that fills its layout.
    ///
    /// Fails exactly when one of the lists has more entries than there are
    /// binding numbers.
    pub fn new(visibility: &[ShaderStages], uniform_buffers: usize) -> (set: Result<
        BindGrouperoo,
        BindingError,
    >)
        ensures
            match set {
                Ok(s) => visibility@.len() <= u32::MAX && uniform_buffers <= u32::MAX
                    && s.is_built_for(visibility@, uniform_buffers as nat),
                Err(e) => (visibility@.len() > u32::MAX || uniform_buffers > u32::MAX) && e
                    == BindingError::TooManyBindings,
            },
    {
        if visibility.len() > u32::MAX as usize || uniform_buffers > u32::MAX as usize {
            return Err(BindingError::TooManyBindings);
        }
        let mut bind_group_layout: Vec<LayoutEntry> = Vec::new();
        let mut i: usize = 0;
        while i < visibility.len()
            invariant
                i <= visibility@.len() <= u32::MAX,
                bind_group_layout@ == Seq::new(
                    i as nat,
                    |k: int| uniform_layout_entry(k, visibility@[k]),
                ),
            decreases visibility@.len() - i,
        {
            bind_group_layout.push(
                LayoutEntry {
                    binding: i as u32,
                    visibility: visibility[i],
                    ty: BindingType::UniformBuffer,
                },
            );
            i += 1;
            assert(bind_group_layout@ =~= Seq::new(
                i as nat,
                |k: int| uniform_layout_entry(k, visibility@[k]),
            ));
        }
        let mut bind_group: Vec<GroupEntry> = Vec::new();
        let mut j: usize = 0;
        while j < uniform_buffers
            invariant
                j <= uniform_buffers <= u32::MAX,
                bind_group@ == Seq::new(j as nat, |k: int| uniform_group_entry(k)),
            decreases uniform_buffers - j,
        {
            bind_group.push(GroupEntry { binding: j as u32, resource: BindingResource::Buffer(j) });
            j += 1;
            assert(bind_group@ =~= Seq::new(j as nat, |k: int| uniform_group_entry(k)));
        }
        Ok(BindGrouperoo { bind_group_layout, bind_group })
    }
}

} // verus!
