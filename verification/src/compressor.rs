//! Compression executors: build the kernel-specific pipeline once, then
//! record one bind group and one dispatch per invocation. Recording and
//! submission are split: nothing runs on the GPU until the caller
//! submits the recorder's stream. Each method's contract states, over
//! the recorder's ghost log, exactly which commands one call records.
use vstd::prelude::*;
use crate::bytes::words_to_le_bytes;
use crate::descriptor::{
    bind_group_plan,
    layout_plan,
    metadata_words,
    push_constant_bytes,
    spec_push_constant_bytes,
    BindingKind,
    BindingPlan,
    Dimensionality,
    ParamMode,
};
use crate::gpu::{
    begin_compute_pass,
    copy_buffer_to_texture,
    create_bc6h_texture_2d,
    create_bc6h_texture_3d,
    create_bind_group,
    create_bind_group_layout,
    create_compute_pipeline,
    create_pipeline_layout,
    create_spirv_shader_module,
    create_storage_buffer,
    create_uniform_init_buffer,
    dispatch_workgroups,
    end_compute_pass,
    push_metadata_buffer_entry,
    push_sampler_entry,
    push_sampler_layout_entry,
    push_storage_buffer_entry,
    push_storage_layout_entry,
    push_texture_layout_entry_2d,
    push_texture_layout_entry_3d,
    push_texture_view_entry,
    push_uniform_layout_entry,
    set_bind_group,
    set_immediates,
    set_pipeline,
    BindGroupEntries,
    CommandRecorder,
    LayoutEntries,
    ShapedBindGroupLayout,
    ShapedComputePipeline,
    TrackedBuffer,
    TrackedTexture,
};
use crate::planner::{
    destination_buffer_size_2d,
    destination_buffer_size_3d,
    plan,
    spec_destination_size_2d,
    spec_destination_size_3d,
    Extent,
};
use crate::recording::{compression_pass_commands, group_plan, GpuCommand, TextureModel};

verus! {

/// Per-invocation inputs: the source texture view and sampler are
/// borrowed, never owned; the extent names the source size in pixels.
pub struct CompressionParams<'a> {
    pub bind_group_label: Option<&'a str>,
    pub texture: &'a wgpu::TextureView,
    pub sampler: &'a wgpu::Sampler,
    pub extent: Extent,
}

/// Label and usages of the texture that receives the encoded blocks.
pub struct TextureParams<'a> {
    pub label: Option<&'a str>,
    pub usage: wgpu::TextureUsages,
}

/// Allocates a destination buffer for a compression dispatch: `size`
/// bytes, usable as the kernel's storage output and as a copy source.
pub fn create_destination_buffer(device: &wgpu::Device, size: u64) -> (buffer: TrackedBuffer)
    ensures
        buffer.size() == size,
{
    create_storage_buffer(device, size)
}

/// Realizes the layout plan of a kernel variant and mode as GPU layout
/// entries, slot by slot.
fn layout_entries(dim: Dimensionality, mode: ParamMode) -> (entries: LayoutEntries)
    ensures
        entries.shape() == layout_plan(dim, mode),
{
    let slot_plan = bind_group_plan(dim, mode);
    let mut entries = LayoutEntries::empty();
    let mut i: usize = 0;
    while i < slot_plan.len()
        invariant
            i <= slot_plan@.len(),
            slot_plan@ == layout_plan(dim, mode),
            entries.shape() == layout_plan(dim, mode).take(i as int),
        decreases slot_plan@.len() - i,
    {
        let slot: BindingPlan = slot_plan[i];
        match slot.kind {
            BindingKind::SampledTexture2D => push_texture_layout_entry_2d(
                &mut entries,
                slot.binding,
            ),
            BindingKind::SampledTexture3D => push_texture_layout_entry_3d(
                &mut entries,
                slot.binding,
            ),
            BindingKind::NonFilteringSampler => push_sampler_layout_entry(
                &mut entries,
                slot.binding,
            ),
            BindingKind::StorageBuffer => push_storage_layout_entry(&mut entries, slot.binding),
            BindingKind::UniformMetadata => push_uniform_layout_entry(&mut entries, slot.binding),
        }
        i += 1;
        proof {
            assert(entries.shape() =~= layout_plan(dim, mode).take(i as int));
        }
    }
    proof {
        assert(layout_plan(dim, mode).take(slot_plan@.len() as int) =~= layout_plan(dim, mode));
    }
    entries
}

/// Builds a pipeline for one kernel variant: the fixed bind group
/// layout, the pipeline layout with the mode's metadata range, and the
/// pipeline over the binary's `main` entry point.
fn build_pipeline(
    device: &wgpu::Device,
    dim: Dimensionality,
    mode: ParamMode,
    shader_words: &Vec<u32>,
    layout_label: Option<&str>,
    pipeline_label: Option<&str>,
) -> (built: (ShapedComputePipeline, ShapedBindGroupLayout))
    ensures
        built.0.layout_shape() == layout_plan(dim, mode),
        built.0.immediate_size() == spec_push_constant_bytes(dim, mode),
        built.1.shape() == layout_plan(dim, mode),
{
    let module = create_spirv_shader_module(device, shader_words);
    let entries = layout_entries(dim, mode);
    let bind_group_layout = create_bind_group_layout(device, layout_label, &entries);
    let immediate_size = push_constant_bytes(dim, mode);
    let pipeline_layout = create_pipeline_layout(
        device,
        layout_label,
        &bind_group_layout,
        immediate_size,
    );
    let pipeline = create_compute_pipeline(device, pipeline_label, &pipeline_layout, &module);
    (pipeline, bind_group_layout)
}

/// Builds the one bind group of a dispatch and records the pass: the
/// pipeline, the group at index 0, in push-constant mode the metadata
/// bytes, and one dispatch of the planned grid.
fn record_compression_pass(
    device: &wgpu::Device,
    recorder: &mut CommandRecorder,
    pipeline: &ShapedComputePipeline,
    bind_group_layout: &ShapedBindGroupLayout,
    dim: Dimensionality,
    mode: ParamMode,
    params: &CompressionParams<'_>,
    buffer: &TrackedBuffer,
)
    requires
        params.extent.block_aligned(),
        pipeline.layout_shape() == layout_plan(dim, mode),
        pipeline.immediate_size() == spec_push_constant_bytes(dim, mode),
    ensures
        final(recorder).log() == old(recorder).log() + (seq![
            GpuCommand::ComputePass {
                commands: compression_pass_commands(dim, mode, params.extent),
            },
        ]),
{
    let grid = plan(&params.extent);
    let words = metadata_words(dim, &params.extent);
    let meta_bytes = words_to_le_bytes(&words);
    let bind_group = match mode {
        ParamMode::UniformBuffer => {
            let meta_buffer = create_uniform_init_buffer(device, &meta_bytes);
            let mut entries = BindGroupEntries::empty();
            push_texture_view_entry(&mut entries, 0, params.texture);
            push_sampler_entry(&mut entries, 1, params.sampler);
            push_storage_buffer_entry(&mut entries, 2, buffer);
            push_metadata_buffer_entry(&mut entries, 3, &meta_buffer);
            proof {
                assert(entries.shape() =~= group_plan(dim, mode, params.extent));
            }
            create_bind_group(device, params.bind_group_label, bind_group_layout, &entries)
        },
        ParamMode::PushConstants => {
            let mut entries = BindGroupEntries::empty();
            push_texture_view_entry(&mut entries, 0, params.texture);
            push_sampler_entry(&mut entries, 1, params.sampler);
            push_storage_buffer_entry(&mut entries, 2, buffer);
            proof {
                assert(entries.shape() =~= group_plan(dim, mode, params.extent));
            }
            create_bind_group(device, params.bind_group_label, bind_group_layout, &entries)
        },
    };
    let mut pass = begin_compute_pass(recorder);
    set_pipeline(&mut pass, pipeline);
    set_bind_group(&mut pass, 0, &bind_group);
    match mode {
        ParamMode::PushConstants => set_immediates(&mut pass, &meta_bytes),
        ParamMode::UniformBuffer => (),
    }
    dispatch_workgroups(&mut pass, grid.groups_x, grid.groups_y, grid.groups_z);
    proof {
        assert(pass.log() =~= compression_pass_commands(dim, mode, params.extent));
    }
    end_compute_pass(recorder, pass);
}

/// The 2D kernel's resources: pipeline and bind group layout, built once
/// and reused across dispatches; the parameter mode is fixed at
/// construction.
pub struct Compressor2D {
    pub pipeline: ShapedComputePipeline,
    pub bind_group_layout: ShapedBindGroupLayout,
    pub mode: ParamMode,
}

impl Compressor2D {
    /// The pipeline and layout were built from the 2D plan of this
    /// compressor's mode.
    pub open spec fn wf(self) -> bool {
        &&& self.pipeline.layout_shape() == layout_plan(Dimensionality::TwoD, self.mode)
        &&& self.pipeline.immediate_size() == spec_push_constant_bytes(
            Dimensionality::TwoD,
            self.mode,
        )
        &&& self.bind_group_layout.shape() == layout_plan(Dimensionality::TwoD, self.mode)
    }

    /// Builds the 2D pipeline from the precompiled kernel binary's
    /// words: bind group layout and pipeline layout follow the fixed 2D
    /// plan of the chosen mode.
    pub fn new(device: &wgpu::Device, shader_words: &Vec<u32>, mode: ParamMode) -> (c: Self)
        ensures
            c.mode == mode,
            c.wf(),
    {
        let (pipeline, bind_group_layout) = build_pipeline(
            device,
            Dimensionality::TwoD,
            mode,
            shader_words,
            Some("bc6h 2d bind group layout"),
            Some("bc6h 2d pipeline"),
        );
        Compressor2D { pipeline, bind_group_layout, mode }
    }

    /// Records one compression dispatch covering the extent into
    /// `buffer`: exactly one compute pass holding the 2D pipeline, one
    /// bind group of the planned shape, the metadata (by uniform buffer
    /// or attached to the recording), and one dispatch of the planned
    /// grid. The buffer is written only once the caller submits the
    /// recorded stream.
    pub fn compress_to_buffer(
        &self,
        device: &wgpu::Device,
        recorder: &mut CommandRecorder,
        params: &CompressionParams<'_>,
        buffer: &TrackedBuffer,
    )
        requires
            self.wf(),
            params.extent.block_aligned(),
            params.extent.depth == 1,
            buffer.size() >= params.extent.width as int * params.extent.height as int,
        ensures
            final(recorder).log() == old(recorder).log() + (seq![
                GpuCommand::ComputePass {
                    commands: compression_pass_commands(
                        Dimensionality::TwoD,
                        self.mode,
                        params.extent,
                    ),
                },
            ]),
    {
        record_compression_pass(
            device,
            recorder,
            &self.pipeline,
            &self.bind_group_layout,
            Dimensionality::TwoD,
            self.mode,
            params,
            buffer,
        );
    }

    /// Convenience composition: allocates a destination buffer of
    /// exactly one 16-byte block per 4x4 region, records the
    /// compression, then records a copy of that buffer into a new
    /// single-mip BC6H texture of the extent with a stride of four bytes
    /// per pixel column (16 bytes per block). The texture holds the
    /// encoded data only once the caller submits the recorded stream.
    pub fn compress_to_texture(
        &self,
        device: &wgpu::Device,
        recorder: &mut CommandRecorder,
        params: &CompressionParams<'_>,
        texture_params: &TextureParams<'_>,
    ) -> (texture: TrackedTexture)
        requires
            self.wf(),
            params.extent.block_aligned(),
            params.extent.depth == 1,
            params.extent.width <= u32::MAX / 4,
        ensures
            texture.model() == (TextureModel {
                width: params.extent.width,
                height: params.extent.height,
                depth: 1u32,
                volume: false,
            }),
            final(recorder).log() == old(recorder).log() + (seq![
                GpuCommand::ComputePass {
                    commands: compression_pass_commands(
                        Dimensionality::TwoD,
                        self.mode,
                        params.extent,
                    ),
                },
                GpuCommand::CopyBufferToTexture {
                    source_size: spec_destination_size_2d(params.extent),
                    bytes_per_row: (params.extent.width * 4) as u32,
                    rows_per_image: params.extent.height,
                    width: params.extent.width,
                    height: params.extent.height,
                    depth: 1u32,
                },
            ]),
    {
        let size = destination_buffer_size_2d(&params.extent);
        let buffer = create_storage_buffer(device, size);
        self.compress_to_buffer(device, recorder, params, &buffer);
        let texture = create_bc6h_texture_2d(
            device,
            texture_params.label,
            params.extent.width,
            params.extent.height,
            texture_params.usage,
        );
        let bytes_per_row = params.extent.width * 4;
        copy_buffer_to_texture(
            recorder,
            &buffer,
            bytes_per_row,
            params.extent.height,
            &texture,
            params.extent.width,
            params.extent.height,
            1,
        );
        proof {
            assert(recorder.log() =~= old(recorder).log() + (seq![
                GpuCommand::ComputePass {
                    commands: compression_pass_commands(
                        Dimensionality::TwoD,
                        self.mode,
                        params.extent,
                    ),
                },
                GpuCommand::CopyBufferToTexture {
                    source_size: spec_destination_size_2d(params.extent),
                    bytes_per_row: (params.extent.width * 4) as u32,
                    rows_per_image: params.extent.height,
                    width: params.extent.width,
                    height: params.extent.height,
                    depth: 1u32,
                },
            ]));
        }
        texture
    }
}

/// The volumetric kernel's resources; depth above one selects this path.
pub struct Compressor3D {
    pub pipeline: ShapedComputePipeline,
    pub bind_group_layout: ShapedBindGroupLayout,
    pub mode: ParamMode,
}

impl Compressor3D {
    /// The pipeline and layout were built from the 3D plan of this
    /// compressor's mode.
    pub open spec fn wf(self) -> bool {
        &&& self.pipeline.layout_shape() == layout_plan(Dimensionality::ThreeD, self.mode)
        &&& self.pipeline.immediate_size() == spec_push_constant_bytes(
            Dimensionality::ThreeD,
            self.mode,
        )
        &&& self.bind_group_layout.shape() == layout_plan(Dimensionality::ThreeD, self.mode)
    }

    /// Builds the 3D pipeline from the precompiled kernel binary's
    /// words: bind group layout and pipeline layout follow the fixed 3D
    /// plan of the chosen mode, with the three-word metadata range.
    pub fn new(device: &wgpu::Device, shader_words: &Vec<u32>, mode: ParamMode) -> (c: Self)
        ensures
            c.mode == mode,
            c.wf(),
    {
        let (pipeline, bind_group_layout) = build_pipeline(
            device,
            Dimensionality::ThreeD,
            mode,
            shader_words,
            Some("bc6h 3d bind group layout"),
            Some("bc6h 3d pipeline"),
        );
        Compressor3D { pipeline, bind_group_layout, mode }
    }

    /// Records one volumetric compression dispatch covering the extent
    /// into `buffer`: one compute pass with the 3D pipeline, one bind
    /// group of the planned shape, the three metadata words (width and
    /// height in blocks and the raw depth), and one dispatch whose z
    /// count divides the raw depth by the workgroup size, matching the
    /// kernel's fixed indexing.
    pub fn compress_to_buffer(
        &self,
        device: &wgpu::Device,
        recorder: &mut CommandRecorder,
        params: &CompressionParams<'_>,
        buffer: &TrackedBuffer,
    )
        requires
            self.wf(),
            params.extent.block_aligned(),
            params.extent.depth > 1,
            buffer.size() >= params.extent.width as int * params.extent.height as int
                * params.extent.depth as int,
        ensures
            final(recorder).log() == old(recorder).log() + (seq![
                GpuCommand::ComputePass {
                    commands: compression_pass_commands(
                        Dimensionality::ThreeD,
                        self.mode,
                        params.extent,
                    ),
                },
            ]),
    {
        record_compression_pass(
            device,
            recorder,
            &self.pipeline,
            &self.bind_group_layout,
            Dimensionality::ThreeD,
            self.mode,
            params,
            buffer,
        );
    }

    /// Convenience composition for the volumetric path: destination
    /// buffer of one 16-byte block per 4x4 region per depth slice, the
    /// compression dispatch, then a copy into a new single-mip BC6H
    /// volume texture of the extent.
    pub fn compress_to_texture(
        &self,
        device: &wgpu::Device,
        recorder: &mut CommandRecorder,
        params: &CompressionParams<'_>,
        texture_params: &TextureParams<'_>,
    ) -> (texture: TrackedTexture)
        requires
            self.wf(),
            params.extent.block_aligned(),
            params.extent.depth > 1,
            params.extent.width <= u32::MAX / 4,
            params.extent.width as int * params.extent.height as int
                * params.extent.depth as int <= u64::MAX as int,
        ensures
            texture.model() == (TextureModel {
                width: params.extent.width,
                height: params.extent.height,
                depth: params.extent.depth,
                volume: true,
            }),
            final(recorder).log() == old(recorder).log() + (seq![
                GpuCommand::ComputePass {
                    commands: compression_pass_commands(
                        Dimensionality::ThreeD,
                        self.mode,
                        params.extent,
                    ),
                },
                GpuCommand::CopyBufferToTexture {
                    source_size: spec_destination_size_3d(params.extent),
                    bytes_per_row: (params.extent.width * 4) as u32,
                    rows_per_image: params.extent.height,
                    width: params.extent.width,
                    height: params.extent.height,
                    depth: params.extent.depth,
                },
            ]),
    {
        let size = destination_buffer_size_3d(&params.extent);
        let buffer = create_storage_buffer(device, size);
        self.compress_to_buffer(device, recorder, params, &buffer);
        let texture = create_bc6h_texture_3d(
            device,
            texture_params.label,
            params.extent.width,
            params.extent.height,
            params.extent.depth,
            texture_params.usage,
        );
        let bytes_per_row = params.extent.width * 4;
        copy_buffer_to_texture(
            recorder,
            &buffer,
            bytes_per_row,
            params.extent.height,
            &texture,
            params.extent.width,
            params.extent.height,
            params.extent.depth,
        );
        proof {
            assert(recorder.log() =~= old(recorder).log() + (seq![
                GpuCommand::ComputePass {
                    commands: compression_pass_commands(
                        Dimensionality::ThreeD,
                        self.mode,
                        params.extent,
                    ),
                },
                GpuCommand::CopyBufferToTexture {
                    source_size: spec_destination_size_3d(params.extent),
                    bytes_per_row: (params.extent.width * 4) as u32,
                    rows_per_image: params.extent.height,
                    width: params.extent.width,
                    height: params.extent.height,
                    depth: params.extent.depth,
                },
            ]));
        }
        texture
    }
}

} // verus!
