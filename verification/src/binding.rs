//! The quad pipeline's resource bindings: the layout the pipeline
//! declares and the bind group that is meant to populate it.
//!
//! A layout is complete only when the bind group supplies one resource of
//! the declared kind for every declared slot. The quad pipeline declares
//! a uniform buffer, a texture and a sampler, but its bind group supplies
//! nothing yet, so the pair is incomplete; `bind_group_complete` makes
//! that checkable.

use vstd::prelude::*;

verus! {

/// The shader stages that may read a binding.
#[derive(Clone, Copy, Debug, PartialEq, Eq, Structural)]
pub enum ShaderStage {
    Vertex,
    Fragment,
}

/// The kind of resource a binding slot declares.
#[derive(Clone, Copy, Debug, PartialEq, Eq, Structural)]
pub enum BindingType {
    /// A uniform buffer of at least `min_binding_size` bytes.
    UniformBuffer { min_binding_size: u64 },
    /// A two-dimensional, single-sampled, non-filterable float texture.
    Texture,
    /// A non-filtering, non-comparison sampler.
    Sampler,
}

/// One slot of a bind group layout.
#[derive(Clone, Copy, Debug, PartialEq, Eq, Structural)]
pub struct BindGroupLayoutEntry {
    /// The binding index the shader names.
    pub binding: u32,
    /// The stage that reads this slot.
    pub visibility: ShaderStage,
    /// The kind of resource the slot expects.
    pub ty: BindingType,
}

/// One resource a bind group actually supplies.
#[derive(Clone, Copy, Debug, PartialEq, Eq, Structural)]
pub struct BindGroupEntry {
    /// The binding index this resource fills.
    pub binding: u32,
    /// The kind of resource supplied.
    pub ty: BindingType,
}

/// The number of bytes of a four-by-four matrix of 32-bit floats: the
/// least size the quad's uniform slot accepts.
pub const MAT4_BYTES: u64 = 64;

/// The three slots the quad pipeline declares: a uniform buffer for the
/// vertex stage, then a texture and a sampler for the fragment stage.
pub open spec fn quad_layout_spec() -> Seq<BindGroupLayoutEntry> {
    seq![
        BindGroupLayoutEntry {
            binding: 0u32,
            visibility: ShaderStage::Vertex,
            ty: BindingType::UniformBuffer { min_binding_size: MAT4_BYTES },
        },
        BindGroupLayoutEntry { binding: 1u32, visibility: ShaderStage::Fragment, ty: BindingType::Texture },
        BindGroupLayoutEntry { binding: 2u32, visibility: ShaderStage::Fragment, ty: BindingType::Sampler },
    ]
}

/// The resources the quad's bind group supplies: none. The layout above
/// expects three, so the group is incomplete.
pub open spec fn quad_bind_group_spec() -> Seq<BindGroupEntry> {
    Seq::empty()
}

/// A bind group populates a layout completely when it has exactly one
/// entry per declared slot, in slot order, each supplying the declared
/// kind of resource.
pub open spec fn bind_group_complete(
    layout: Seq<BindGroupLayoutEntry>,
    group: Seq<BindGroupEntry>,
) -> bool {
    &&& group.len() == layout.len()
    &&& forall|i: int|
        0 <= i < layout.len() ==> #[trigger] group[i].binding == layout[i].binding && group[i].ty
            == layout[i].ty
}

/// Builds the quad pipeline's declared layout.
pub fn quad_layout() -> (r: Vec<BindGroupLayoutEntry>)
    ensures
        r@ == quad_layout_spec(),
{
    let mut r: Vec<BindGroupLayoutEntry> = Vec::new();
    r.push(
        BindGroupLayoutEntry {
            binding: 0,
            visibility: ShaderStage::Vertex,
            ty: BindingType::UniformBuffer { min_binding_size: MAT4_BYTES },
        },
    );
    r.push(
        BindGroupLayoutEntry {
            binding: 1,
            visibility: ShaderStage::Fragment,
            ty: BindingType::Texture,
        },
    );
    r.push(
        BindGroupLayoutEntry {
            binding: 2,
            visibility: ShaderStage::Fragment,
            ty: BindingType::Sampler,
        },
    );
    proof {
        assert(r@ =~= quad_layout_spec());
    }
    r
}

/// Builds the quad's bind group entry list, empty as the pipeline leaves
/// it.
pub fn quad_bind_group() -> (r: Vec<BindGroupEntry>)
    ensures
        r@ == quad_bind_group_spec(),
{
    let r: Vec<BindGroupEntry> = Vec::new();
    proof {
        assert(r@ =~= quad_bind_group_spec());
    }
    r
}

/// Decides whether the group populates every slot the layout declares.
pub fn check_bind_group_complete(
    layout: &Vec<BindGroupLayoutEntry>,
    group: &Vec<BindGroupEntry>,
) -> (r: bool)
    ensures
        r == bind_group_complete(layout@, group@),
{
    if layout.len() != group.len() {
        return false;
    }
    let mut i: usize = 0;
    while i < layout.len()
        invariant
            0 <= i <= layout@.len(),
            group@.len() == layout@.len(),
            forall|j: int|
                0 <= j < i ==> #[trigger] group@[j].binding == layout@[j].binding && group@[j].ty
                    == layout@[j].ty,
        decreases layout@.len() - i,
    {
        if group[i].binding != layout[i].binding || group[i].ty != layout[i].ty {
            return false;
        }
        proof {
            assert forall|j: int| 0 <= j < i + 1 implies #[trigger] group@[j].binding
                == layout@[j].binding && group@[j].ty == layout@[j].ty by {
                if j < i {
                    assert(group@[j].binding == layout@[j].binding && group@[j].ty
                        == layout@[j].ty);
                } else {
                    assert(group@[i as int].binding == layout@[i as int].binding);
                    assert(group@[i as int].ty == layout@[i as int].ty);
                }
            }
        }
        i = i + 1;
    }
    true
}

/// The quad pipeline's own layout and bind group do not agree: three
/// slots are declared and none is populated.
pub proof fn lemma_quad_bind_group_incomplete()
    ensures
        quad_layout_spec().len() == 3,
        quad_bind_group_spec().len() == 0,
        !bind_group_complete(quad_layout_spec(), quad_bind_group_spec()),
{
}

} // verus!
