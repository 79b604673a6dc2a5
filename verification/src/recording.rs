//! The ghost model of command recording: what the verified layer claims
//! to have put on an encoder. Every recording function of the trusted
//! boundary appends the matching command to a ghost log, so the
//! executors' contracts can state exactly which passes, copies and
//! dispatches one call records.
use vstd::prelude::*;
use crate::bytes::words_le_bytes;
use crate::descriptor::{
    layout_plan,
    spec_metadata_words,
    spec_push_constant_bytes,
    BindingPlan,
    Dimensionality,
    ParamMode,
};
use crate::planner::{planned_grid, Extent};

verus! {

/// What one bind group slot holds, as the recording sees it.
pub enum ResourceKind {
    /// The caller's source texture view.
    SourceTexture,
    /// The caller's sampler.
    SourceSampler,
    /// The destination storage buffer.
    DestinationBuffer,
    /// A uniform buffer holding exactly these bytes.
    MetadataBuffer { bytes: Seq<u8> },
}

/// One bound resource slot.
pub struct ResourcePlan {
    pub binding: u32,
    pub resource: ResourceKind,
}

/// One command recorded inside a compute pass.
pub enum PassCommand {
    /// The pipeline whose bind group layout has this shape and whose
    /// layout declares this many bytes of dispatch-time metadata.
    SetPipeline { layout: Seq<BindingPlan>, immediate_size: u32 },
    /// The bind group at this group index, with these resource slots.
    SetBindGroup { index: u32, group: Seq<ResourcePlan> },
    /// Metadata bytes attached to the recording at offset zero.
    SetImmediates { data: Seq<u8> },
    /// One dispatch of this workgroup grid.
    Dispatch { x: u32, y: u32, z: u32 },
}

/// One command recorded on an encoder.
pub enum GpuCommand {
    /// A compute pass holding these commands in order.
    ComputePass { commands: Seq<PassCommand> },
    /// A buffer-to-buffer copy of `size` bytes.
    CopyBufferToBuffer { source_offset: u64, destination_offset: u64, size: u64 },
    /// A copy from a buffer of `source_size` bytes into a texture of the
    /// given extent, with the given row stride and image row count.
    CopyBufferToTexture {
        source_size: u64,
        bytes_per_row: u32,
        rows_per_image: u32,
        width: u32,
        height: u32,
        depth: u32,
    },
}

/// What a created texture is: its pixel extent and whether it is a
/// volume (3D) texture.
pub struct TextureModel {
    pub width: u32,
    pub height: u32,
    pub depth: u32,
    pub volume: bool,
}

/// The resource slots one compression dispatch binds: slot 0 the source
/// texture, 1 the sampler, 2 the destination buffer, and in
/// uniform-buffer mode slot 3 a uniform buffer holding exactly the
/// serialized metadata words.
pub open spec fn group_plan(dim: Dimensionality, mode: ParamMode, extent: Extent) -> Seq<
    ResourcePlan,
> {
    let base = seq![
        ResourcePlan { binding: 0u32, resource: ResourceKind::SourceTexture },
        ResourcePlan { binding: 1u32, resource: ResourceKind::SourceSampler },
        ResourcePlan { binding: 2u32, resource: ResourceKind::DestinationBuffer },
    ];
    if mode is UniformBuffer {
        base.push(
            ResourcePlan {
                binding: 3u32,
                resource: ResourceKind::MetadataBuffer {
                    bytes: words_le_bytes(spec_metadata_words(dim, extent)),
                },
            },
        )
    } else {
        base
    }
}

/// The pass one compression call records: the kernel pipeline, the one
/// bind group of the planned shape, in push-constant mode the metadata
/// bytes attached to the recording, and one dispatch of the planned
/// grid.
pub open spec fn compression_pass_commands(
    dim: Dimensionality,
    mode: ParamMode,
    extent: Extent,
) -> Seq<PassCommand> {
    let grid = planned_grid(extent);
    let head = seq![
        PassCommand::SetPipeline {
            layout: layout_plan(dim, mode),
            immediate_size: spec_push_constant_bytes(dim, mode),
        },
        PassCommand::SetBindGroup { index: 0u32, group: group_plan(dim, mode, extent) },
    ];
    let tail = seq![PassCommand::Dispatch { x: grid.groups_x, y: grid.groups_y, z: grid.groups_z }];
    if mode is PushConstants {
        head + seq![
            PassCommand::SetImmediates {
                data: words_le_bytes(spec_metadata_words(dim, extent)),
            },
        ] + tail
    } else {
        head + tail
    }
}

} // verus!
