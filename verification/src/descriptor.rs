//! The fixed-shape GPU resource topology: which binding slot holds what,
//! how large the dispatch-time metadata is, and the metadata words
//! themselves. Chosen once at builder construction time, not re-evaluated
//! per dispatch.
use vstd::prelude::*;
use crate::planner::Extent;

verus! {

/// Which kernel variant a builder drives.
#[derive(Clone, Copy, PartialEq, Eq, Structural, Debug)]
pub enum Dimensionality {
    TwoD,
    ThreeD,
}

/// How block-count metadata reaches the kernel: attached to the command
/// recording immediately before the dispatch, or in a small uniform
/// buffer bound at slot 3.
#[derive(Clone, Copy, PartialEq, Eq, Structural, Debug)]
pub enum ParamMode {
    PushConstants,
    UniformBuffer,
}

/// What one binding slot of the layout holds.
#[derive(Clone, Copy, PartialEq, Eq, Structural, Debug)]
pub enum BindingKind {
    /// Read-only sampled 2D texture, non-filterable float format.
    SampledTexture2D,
    /// Read-only sampled 3D texture, non-filterable float format.
    SampledTexture3D,
    /// Non-filtering sampler.
    NonFilteringSampler,
    /// Read-write storage buffer receiving the encoded blocks.
    StorageBuffer,
    /// Uniform buffer carrying the block-count metadata.
    UniformMetadata,
}

/// One slot of the bind group layout.
#[derive(Clone, Copy, PartialEq, Eq, Structural, Debug)]
pub struct BindingPlan {
    pub binding: u32,
    pub kind: BindingKind,
}

/// The sampled-texture kind a kernel variant binds at slot 0.
pub open spec fn texture_binding_kind(dim: Dimensionality) -> BindingKind {
    match dim {
        Dimensionality::TwoD => BindingKind::SampledTexture2D,
        Dimensionality::ThreeD => BindingKind::SampledTexture3D,
    }
}

/// The fixed layout: binding 0 the sampled source texture (2D or 3D per
/// kernel variant), binding 1 the non-filtering sampler, binding 2 the
/// storage output buffer, and, only in uniform-buffer mode, binding 3
/// the metadata uniform buffer.
pub open spec fn layout_plan(dim: Dimensionality, mode: ParamMode) -> Seq<BindingPlan> {
    let base = seq![
        BindingPlan { binding: 0u32, kind: texture_binding_kind(dim) },
        BindingPlan { binding: 1u32, kind: BindingKind::NonFilteringSampler },
        BindingPlan { binding: 2u32, kind: BindingKind::StorageBuffer },
    ];
    if mode is UniformBuffer {
        base.push(BindingPlan { binding: 3u32, kind: BindingKind::UniformMetadata })
    } else {
        base
    }
}

/// Builds the layout plan for a kernel variant and parameter mode.
pub fn bind_group_plan(dim: Dimensionality, mode: ParamMode) -> (plan: Vec<BindingPlan>)
    ensures
        plan@ == layout_plan(dim, mode),
{
    let mut plan: Vec<BindingPlan> = Vec::new();
    let texture_kind = match dim {
        Dimensionality::TwoD => BindingKind::SampledTexture2D,
        Dimensionality::ThreeD => BindingKind::SampledTexture3D,
    };
    plan.push(BindingPlan { binding: 0, kind: texture_kind });
    plan.push(BindingPlan { binding: 1, kind: BindingKind::NonFilteringSampler });
    plan.push(BindingPlan { binding: 2, kind: BindingKind::StorageBuffer });
    match mode {
        ParamMode::UniformBuffer => {
            plan.push(BindingPlan { binding: 3, kind: BindingKind::UniformMetadata });
            proof {
                assert(plan@ =~= layout_plan(dim, mode));
            }
        },
        ParamMode::PushConstants => {
            proof {
                assert(plan@ =~= layout_plan(dim, mode));
            }
        },
    }
    plan
}

/// How many 32-bit metadata words the kernel reads: width and height in
/// blocks for the 2D kernel, plus the raw depth for the 3D kernel.
pub open spec fn metadata_word_count(dim: Dimensionality) -> int {
    match dim {
        Dimensionality::TwoD => 2,
        Dimensionality::ThreeD => 3,
    }
}

/// Byte size of the push-constant range declared on the pipeline layout:
/// one 32-bit word per metadata word in push-constant mode, nothing in
/// uniform-buffer mode.
pub open spec fn spec_push_constant_bytes(dim: Dimensionality, mode: ParamMode) -> u32 {
    match mode {
        ParamMode::UniformBuffer => 0u32,
        ParamMode::PushConstants => (4 * metadata_word_count(dim)) as u32,
    }
}

/// Computes the push-constant range size for a kernel variant and mode.
pub fn push_constant_bytes(dim: Dimensionality, mode: ParamMode) -> (size: u32)
    ensures
        size == spec_push_constant_bytes(dim, mode),
        mode is PushConstants ==> size == 4 * metadata_word_count(dim),
        mode is UniformBuffer ==> size == 0,
{
    match mode {
        ParamMode::UniformBuffer => 0,
        ParamMode::PushConstants => match dim {
            Dimensionality::TwoD => 8,
            Dimensionality::ThreeD => 12,
        },
    }
}

/// The metadata words for an extent: width in blocks and height in
/// blocks; the 3D kernel additionally takes the raw depth (not a block
/// count), matching its fixed indexing.
pub open spec fn spec_metadata_words(dim: Dimensionality, extent: Extent) -> Seq<u32> {
    match dim {
        Dimensionality::TwoD => seq![(extent.width / 4) as u32, (extent.height / 4) as u32],
        Dimensionality::ThreeD => seq![
            (extent.width / 4) as u32,
            (extent.height / 4) as u32,
            extent.depth,
        ],
    }
}

/// Computes the metadata words for an extent.
pub fn metadata_words(dim: Dimensionality, extent: &Extent) -> (words: Vec<u32>)
    requires
        extent.block_aligned(),
    ensures
        words@ == spec_metadata_words(dim, *extent),
        words@.len() == metadata_word_count(dim),
{
    let mut words: Vec<u32> = Vec::new();
    words.push(extent.width / 4);
    words.push(extent.height / 4);
    match dim {
        Dimensionality::ThreeD => {
            words.push(extent.depth);
            proof {
                assert(words@ =~= spec_metadata_words(dim, *extent));
            }
        },
        Dimensionality::TwoD => {
            proof {
                assert(words@ =~= spec_metadata_words(dim, *extent));
            }
        },
    }
    words
}

} // verus!
