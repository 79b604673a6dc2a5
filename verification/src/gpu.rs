//! Trusted boundary around the GPU API: type declarations, tracked
//! handle types that pair each opaque GPU object with a ghost model, and
//! thin wrappers, one per outside function the orchestration layer
//! calls. Each recording wrapper's body performs exactly the command its
//! contract appends to the ghost log; each creation wrapper's body
//! builds exactly the object its ghost describes — that correspondence
//! is what a reader of this file checks. The GPU API reports misuse
//! through its own fatal validation path, which matches the fatal error
//! design of this layer.
use vstd::prelude::*;
use wgpu::util::DeviceExt;
use crate::descriptor::BindingPlan;
use vstd::pervasive::arbitrary;
use crate::recording::{GpuCommand, PassCommand, ResourceKind, ResourcePlan, TextureModel};

verus! {

#[verifier::external_type_specification]
#[verifier::external_body]
pub struct ExDevice(wgpu::Device);

#[verifier::external_type_specification]
#[verifier::external_body]
pub struct ExQueue(wgpu::Queue);

#[verifier::external_type_specification]
#[verifier::external_body]
pub struct ExCommandEncoder(wgpu::CommandEncoder);

#[verifier::external_type_specification]
#[verifier::external_body]
pub struct ExCommandBuffer(wgpu::CommandBuffer);

#[verifier::external_type_specification]
#[verifier::external_body]
pub struct ExComputePass<'a>(wgpu::ComputePass<'a>);

#[verifier::external_type_specification]
#[verifier::external_body]
pub struct ExComputePipeline(wgpu::ComputePipeline);

#[verifier::external_type_specification]
#[verifier::external_body]
pub struct ExPipelineLayout(wgpu::PipelineLayout);

#[verifier::external_type_specification]
#[verifier::external_body]
pub struct ExBindGroupLayout(wgpu::BindGroupLayout);

#[verifier::external_type_specification]
#[verifier::external_body]
pub struct ExBindGroup(wgpu::BindGroup);

#[verifier::external_type_specification]
#[verifier::external_body]
pub struct ExBindGroupLayoutEntry(wgpu::BindGroupLayoutEntry);

#[verifier::external_type_specification]
#[verifier::external_body]
pub struct ExBindGroupEntry<'a>(wgpu::BindGroupEntry<'a>);

#[verifier::external_type_specification]
#[verifier::external_body]
pub struct ExBuffer(wgpu::Buffer);

#[verifier::external_type_specification]
#[verifier::external_body]
pub struct ExTexture(wgpu::Texture);

#[verifier::external_type_specification]
#[verifier::external_body]
pub struct ExTextureView(wgpu::TextureView);

#[verifier::external_type_specification]
#[verifier::external_body]
pub struct ExSampler(wgpu::Sampler);

#[verifier::external_type_specification]
#[verifier::external_body]
pub struct ExShaderModule(wgpu::ShaderModule);

#[verifier::external_type_specification]
#[verifier::external_body]
pub struct ExTextureUsages(wgpu::TextureUsages);

/// A command encoder together with the ghost log of the commands
/// recorded on it.
pub struct CommandRecorder {
    raw: wgpu::CommandEncoder,
    log: Ghost<Seq<GpuCommand>>,
}

impl CommandRecorder {
    /// The commands recorded on this encoder so far.
    pub closed spec fn log(self) -> Seq<GpuCommand> {
        self.log@
    }

    /// Starts recording on a fresh encoder: nothing recorded yet.
    pub fn new(encoder: wgpu::CommandEncoder) -> (recorder: CommandRecorder)
        ensures
            recorder.log() == Seq::<GpuCommand>::empty(),
    {
        CommandRecorder { raw: encoder, log: Ghost(Seq::empty()) }
    }
}

impl PassRecorder {
    /// The commands recorded in this pass so far.
    pub closed spec fn log(self) -> Seq<PassCommand> {
        self.log@
    }
}

impl TrackedBuffer {
    /// The buffer's allocation size in bytes.
    pub closed spec fn size(self) -> u64 {
        self.size@
    }

    /// The bytes the buffer was created with; fixed only for buffers
    /// created with initial data.
    pub closed spec fn contents(self) -> Seq<u8> {
        self.contents@
    }
}

/// An open compute pass together with the ghost log of its commands.
pub struct PassRecorder {
    raw: wgpu::ComputePass<'static>,
    log: Ghost<Seq<PassCommand>>,
}

/// A buffer together with its allocation size; `contents` is fixed only
/// for buffers created with initial data.
pub struct TrackedBuffer {
    raw: wgpu::Buffer,
    size: Ghost<u64>,
    contents: Ghost<Seq<u8>>,
}

/// Bind group layout entries under construction, paired with the plan
/// slot each entry realizes.
pub struct LayoutEntries {
    raw: Vec<wgpu::BindGroupLayoutEntry>,
    shape: Ghost<Seq<BindingPlan>>,
}

impl LayoutEntries {
    /// The plan slots realized so far, in order.
    pub closed spec fn shape(self) -> Seq<BindingPlan> {
        self.shape@
    }

    /// No entries yet.
    pub fn empty() -> (entries: LayoutEntries)
        ensures
            entries.shape() == Seq::<BindingPlan>::empty(),
    {
        LayoutEntries { raw: Vec::new(), shape: Ghost(Seq::empty()) }
    }
}

/// A bind group layout together with the plan it was built from.
pub struct ShapedBindGroupLayout {
    raw: wgpu::BindGroupLayout,
    shape: Ghost<Seq<BindingPlan>>,
}

impl ShapedBindGroupLayout {
    /// The plan this layout was built from.
    pub closed spec fn shape(self) -> Seq<BindingPlan> {
        self.shape@
    }
}

/// A pipeline layout together with its bind group shape and declared
/// dispatch-time metadata size.
pub struct ShapedPipelineLayout {
    raw: wgpu::PipelineLayout,
    shape: Ghost<Seq<BindingPlan>>,
    immediate_size: Ghost<u32>,
}

impl ShapedPipelineLayout {
    /// The bind group shape this layout carries.
    pub closed spec fn shape(self) -> Seq<BindingPlan> {
        self.shape@
    }

    /// The declared dispatch-time metadata size in bytes.
    pub closed spec fn immediate_size(self) -> u32 {
        self.immediate_size@
    }
}

/// A compute pipeline together with the layout it was built over.
pub struct ShapedComputePipeline {
    raw: wgpu::ComputePipeline,
    layout_shape: Ghost<Seq<BindingPlan>>,
    immediate_size: Ghost<u32>,
}

impl ShapedComputePipeline {
    /// The bind group shape of the layout this pipeline was built over.
    pub closed spec fn layout_shape(self) -> Seq<BindingPlan> {
        self.layout_shape@
    }

    /// The declared dispatch-time metadata size in bytes.
    pub closed spec fn immediate_size(self) -> u32 {
        self.immediate_size@
    }
}

/// Bind group entries under construction, paired with the resource each
/// slot binds.
pub struct BindGroupEntries<'a> {
    raw: Vec<wgpu::BindGroupEntry<'a>>,
    shape: Ghost<Seq<ResourcePlan>>,
}

impl<'a> BindGroupEntries<'a> {
    /// The resource slots bound so far, in order.
    pub closed spec fn shape(self) -> Seq<ResourcePlan> {
        self.shape@
    }

    /// No entries yet.
    pub fn empty() -> (entries: BindGroupEntries<'a>)
        ensures
            entries.shape() == Seq::<ResourcePlan>::empty(),
    {
        BindGroupEntries { raw: Vec::new(), shape: Ghost(Seq::empty()) }
    }
}

/// A bind group together with the resource slots it binds.
pub struct TrackedBindGroup {
    raw: wgpu::BindGroup,
    shape: Ghost<Seq<ResourcePlan>>,
}

impl TrackedBindGroup {
    /// The resource slots this group binds.
    pub closed spec fn shape(self) -> Seq<ResourcePlan> {
        self.shape@
    }
}

/// A texture together with its extent and dimensionality.
pub struct TrackedTexture {
    raw: wgpu::Texture,
    model: Ghost<TextureModel>,
}

impl TrackedTexture {
    /// The texture's pixel extent and dimensionality.
    pub closed spec fn model(self) -> TextureModel {
        self.model@
    }
}

/// Relies on wgpu::Device::create_shader_module with a SPIR-V source:
/// builds the kernel module from the precompiled binary's words. A
/// corrupt binary is a fatal load-time failure reported by the device.
#[verifier::external_body]
pub(crate) fn create_spirv_shader_module(
    device: &wgpu::Device,
    words: &Vec<u32>,
) -> wgpu::ShaderModule {
    device.create_shader_module(wgpu::ShaderModuleDescriptor {
        label: None,
        source: wgpu::ShaderSource::SpirV(std::borrow::Cow::Borrowed(words.as_slice())),
    })
}

/// Relies on wgpu::BindGroupLayoutEntry: appends a compute-visible,
/// read-only sampled 2D texture slot with a non-filterable float sample
/// type, and records that slot in the shape.
#[verifier::external_body]
pub(crate) fn push_texture_layout_entry_2d(entries: &mut LayoutEntries, binding: u32)
    ensures
        final(entries).shape() == old(entries).shape() + (seq![
            BindingPlan {
                binding,
                kind: crate::descriptor::BindingKind::SampledTexture2D,
            },
        ]),
{
    entries.raw.push(wgpu::BindGroupLayoutEntry {
        binding,
        visibility: wgpu::ShaderStages::COMPUTE,
        ty: wgpu::BindingType::Texture {
            sample_type: wgpu::TextureSampleType::Float { filterable: false },
            view_dimension: wgpu::TextureViewDimension::D2,
            multisampled: false,
        },
        count: None,
    });
}

/// Relies on wgpu::BindGroupLayoutEntry: appends a compute-visible,
/// read-only sampled 3D texture slot with a non-filterable float sample
/// type, and records that slot in the shape.
#[verifier::external_body]
pub(crate) fn push_texture_layout_entry_3d(entries: &mut LayoutEntries, binding: u32)
    ensures
        final(entries).shape() == old(entries).shape() + (seq![
            BindingPlan {
                binding,
                kind: crate::descriptor::BindingKind::SampledTexture3D,
            },
        ]),
{
    entries.raw.push(wgpu::BindGroupLayoutEntry {
        binding,
        visibility: wgpu::ShaderStages::COMPUTE,
        ty: wgpu::BindingType::Texture {
            sample_type: wgpu::TextureSampleType::Float { filterable: false },
            view_dimension: wgpu::TextureViewDimension::D3,
            multisampled: false,
        },
        count: None,
    });
}

/// Relies on wgpu::BindGroupLayoutEntry: appends a compute-visible
/// non-filtering sampler slot, and records that slot in the shape.
#[verifier::external_body]
pub(crate) fn push_sampler_layout_entry(entries: &mut LayoutEntries, binding: u32)
    ensures
        final(entries).shape() == old(entries).shape() + (seq![
            BindingPlan {
                binding,
                kind: crate::descriptor::BindingKind::NonFilteringSampler,
            },
        ]),
{
    entries.raw.push(wgpu::BindGroupLayoutEntry {
        binding,
        visibility: wgpu::ShaderStages::COMPUTE,
        ty: wgpu::BindingType::Sampler(wgpu::SamplerBindingType::NonFiltering),
        count: None,
    });
}

/// Relies on wgpu::BindGroupLayoutEntry: appends a compute-visible
/// read-write storage buffer slot, and records that slot in the shape.
#[verifier::external_body]
pub(crate) fn push_storage_layout_entry(entries: &mut LayoutEntries, binding: u32)
    ensures
        final(entries).shape() == old(entries).shape() + (seq![
            BindingPlan { binding, kind: crate::descriptor::BindingKind::StorageBuffer },
        ]),
{
    entries.raw.push(wgpu::BindGroupLayoutEntry {
        binding,
        visibility: wgpu::ShaderStages::COMPUTE,
        ty: wgpu::BindingType::Buffer {
            ty: wgpu::BufferBindingType::Storage { read_only: false },
            has_dynamic_offset: false,
            min_binding_size: None,
        },
        count: None,
    });
}

/// Relies on wgpu::BindGroupLayoutEntry: appends a compute-visible
/// uniform buffer slot, and records that slot in the shape.
#[verifier::external_body]
pub(crate) fn push_uniform_layout_entry(entries: &mut LayoutEntries, binding: u32)
    ensures
        final(entries).shape() == old(entries).shape() + (seq![
            BindingPlan { binding, kind: crate::descriptor::BindingKind::UniformMetadata },
        ]),
{
    entries.raw.push(wgpu::BindGroupLayoutEntry {
        binding,
        visibility: wgpu::ShaderStages::COMPUTE,
        ty: wgpu::BindingType::Buffer {
            ty: wgpu::BufferBindingType::Uniform,
            has_dynamic_offset: false,
            min_binding_size: None,
        },
        count: None,
    });
}

/// Relies on wgpu::Device::create_bind_group_layout over exactly the
/// pushed entries; the resulting layout keeps their shape. Resource
/// exhaustion is a fatal creation failure.
#[verifier::external_body]
pub(crate) fn create_bind_group_layout(
    device: &wgpu::Device,
    label: Option<&str>,
    entries: &LayoutEntries,
) -> (layout: ShapedBindGroupLayout)
    ensures
        layout.shape() == entries.shape(),
{
    ShapedBindGroupLayout {
        raw: device.create_bind_group_layout(&wgpu::BindGroupLayoutDescriptor {
            label,
            entries: entries.raw.as_slice(),
        }),
        shape: Ghost(arbitrary()),
    }
}

/// Relies on wgpu::Device::create_pipeline_layout with one bind group
/// layout and `immediate_size` bytes of dispatch-time metadata (zero
/// declares none); the result keeps the layout's shape and that size.
#[verifier::external_body]
pub(crate) fn create_pipeline_layout(
    device: &wgpu::Device,
    label: Option<&str>,
    bind_group_layout: &ShapedBindGroupLayout,
    immediate_size: u32,
) -> (layout: ShapedPipelineLayout)
    ensures
        layout.shape() == bind_group_layout.shape(),
        layout.immediate_size() == immediate_size,
{
    ShapedPipelineLayout {
        raw: device.create_pipeline_layout(&wgpu::PipelineLayoutDescriptor {
            label,
            bind_group_layouts: &[Some(&bind_group_layout.raw)],
            immediate_size,
        }),
        shape: Ghost(arbitrary()),
        immediate_size: Ghost(arbitrary()),
    }
}

/// Relies on wgpu::Device::create_compute_pipeline over the module's
/// `main` entry point with the given layout; the result keeps the
/// layout's shape and metadata size.
#[verifier::external_body]
pub(crate) fn create_compute_pipeline(
    device: &wgpu::Device,
    label: Option<&str>,
    layout: &ShapedPipelineLayout,
    module: &wgpu::ShaderModule,
) -> (pipeline: ShapedComputePipeline)
    ensures
        pipeline.layout_shape() == layout.shape(),
        pipeline.immediate_size() == layout.immediate_size(),
{
    ShapedComputePipeline {
        raw: device.create_compute_pipeline(&wgpu::ComputePipelineDescriptor {
            label,
            layout: Some(&layout.raw),
            module,
            entry_point: Some("main"),
            compilation_options: Default::default(),
            cache: None,
        }),
        layout_shape: Ghost(arbitrary()),
        immediate_size: Ghost(arbitrary()),
    }
}

/// Relies on wgpu::util::DeviceExt::create_buffer_init: a uniform buffer
/// holding exactly `contents`, immutable after creation.
#[verifier::external_body]
pub(crate) fn create_uniform_init_buffer(device: &wgpu::Device, contents: &Vec<u8>) -> (b:
    TrackedBuffer)
    ensures
        b.size() == contents@.len(),
        b.contents() == contents@,
{
    TrackedBuffer {
        raw: device.create_buffer_init(&wgpu::util::BufferInitDescriptor {
            label: None,
            contents: contents.as_slice(),
            usage: wgpu::BufferUsages::UNIFORM,
        }),
        size: Ghost(arbitrary()),
        contents: Ghost(arbitrary()),
    }
}

/// Relies on wgpu::Device::create_buffer: a `size`-byte storage buffer
/// that a later copy can read from.
#[verifier::external_body]
pub(crate) fn create_storage_buffer(device: &wgpu::Device, size: u64) -> (b: TrackedBuffer)
    ensures
        b.size() == size,
{
    TrackedBuffer {
        raw: device.create_buffer(&wgpu::BufferDescriptor {
            label: None,
            size,
            usage: wgpu::BufferUsages::STORAGE | wgpu::BufferUsages::COPY_SRC,
            mapped_at_creation: false,
        }),
        size: Ghost(arbitrary()),
        contents: Ghost(arbitrary()),
    }
}

/// Relies on wgpu::Device::create_buffer: a `size`-byte host-mappable
/// buffer that a copy can write into.
#[verifier::external_body]
pub(crate) fn create_readback_buffer(device: &wgpu::Device, size: u64) -> (b: TrackedBuffer)
    ensures
        b.size() == size,
{
    TrackedBuffer {
        raw: device.create_buffer(&wgpu::BufferDescriptor {
            label: None,
            size,
            usage: wgpu::BufferUsages::COPY_DST | wgpu::BufferUsages::MAP_READ,
            mapped_at_creation: false,
        }),
        size: Ghost(arbitrary()),
        contents: Ghost(arbitrary()),
    }
}

/// Relies on wgpu::BindGroupEntry with a texture view resource; records
/// the slot as the source texture.
#[verifier::external_body]
pub(crate) fn push_texture_view_entry<'a>(
    entries: &mut BindGroupEntries<'a>,
    binding: u32,
    view: &'a wgpu::TextureView,
)
    ensures
        final(entries).shape() == old(entries).shape() + (seq![
            ResourcePlan { binding, resource: ResourceKind::SourceTexture },
        ]),
{
    entries.raw.push(wgpu::BindGroupEntry {
        binding,
        resource: wgpu::BindingResource::TextureView(view),
    });
}

/// Relies on wgpu::BindGroupEntry with a sampler resource; records the
/// slot as the source sampler.
#[verifier::external_body]
pub(crate) fn push_sampler_entry<'a>(
    entries: &mut BindGroupEntries<'a>,
    binding: u32,
    sampler: &'a wgpu::Sampler,
)
    ensures
        final(entries).shape() == old(entries).shape() + (seq![
            ResourcePlan { binding, resource: ResourceKind::SourceSampler },
        ]),
{
    entries.raw.push(wgpu::BindGroupEntry {
        binding,
        resource: wgpu::BindingResource::Sampler(sampler),
    });
}

/// Relies on wgpu::BindGroupEntry and wgpu::Buffer::as_entire_binding:
/// binds the whole destination buffer and records the slot as such.
#[verifier::external_body]
pub(crate) fn push_storage_buffer_entry<'a>(
    entries: &mut BindGroupEntries<'a>,
    binding: u32,
    buffer: &'a TrackedBuffer,
)
    ensures
        final(entries).shape() == old(entries).shape() + (seq![
            ResourcePlan { binding, resource: ResourceKind::DestinationBuffer },
        ]),
{
    entries.raw.push(wgpu::BindGroupEntry {
        binding,
        resource: buffer.raw.as_entire_binding(),
    });
}

/// Relies on wgpu::BindGroupEntry and wgpu::Buffer::as_entire_binding:
/// binds the whole metadata buffer and records the slot with the bytes
/// that buffer was created with.
#[verifier::external_body]
pub(crate) fn push_metadata_buffer_entry<'a>(
    entries: &mut BindGroupEntries<'a>,
    binding: u32,
    buffer: &'a TrackedBuffer,
)
    ensures
        final(entries).shape() == old(entries).shape() + (seq![
            ResourcePlan {
                binding,
                resource: ResourceKind::MetadataBuffer { bytes: buffer.contents() },
            },
        ]),
{
    entries.raw.push(wgpu::BindGroupEntry {
        binding,
        resource: buffer.raw.as_entire_binding(),
    });
}

/// Relies on wgpu::Device::create_bind_group over exactly the pushed
/// entries and the given layout; the group keeps the entries' shape.
#[verifier::external_body]
pub(crate) fn create_bind_group(
    device: &wgpu::Device,
    label: Option<&str>,
    layout: &ShapedBindGroupLayout,
    entries: &BindGroupEntries<'_>,
) -> (group: TrackedBindGroup)
    ensures
        group.shape() == entries.shape(),
{
    TrackedBindGroup {
        raw: device.create_bind_group(&wgpu::BindGroupDescriptor {
            label,
            layout: &layout.raw,
            entries: entries.raw.as_slice(),
        }),
        shape: Ghost(arbitrary()),
    }
}

/// Relies on wgpu::CommandEncoder::begin_compute_pass (and
/// ComputePass::forget_lifetime, which only unties the borrow): starts
/// recording a compute pass; the pass's commands land in the encoder's
/// log when the pass ends.
#[verifier::external_body]
pub(crate) fn begin_compute_pass(recorder: &mut CommandRecorder) -> (pass: PassRecorder)
    ensures
        final(recorder).log() == old(recorder).log(),
        pass.log() == Seq::<PassCommand>::empty(),
{
    PassRecorder {
        raw: recorder.raw.begin_compute_pass(&wgpu::ComputePassDescriptor {
            label: None,
            timestamp_writes: None,
        }).forget_lifetime(),
        log: Ghost(arbitrary()),
    }
}

/// Relies on wgpu::ComputePass::set_pipeline; records which pipeline —
/// by its layout shape and metadata size — subsequent dispatches use.
#[verifier::external_body]
pub(crate) fn set_pipeline(pass: &mut PassRecorder, pipeline: &ShapedComputePipeline)
    ensures
        final(pass).log() == old(pass).log() + (seq![
            PassCommand::SetPipeline {
                layout: pipeline.layout_shape(),
                immediate_size: pipeline.immediate_size(),
            },
        ]),
{
    pass.raw.set_pipeline(&pipeline.raw);
}

/// Relies on wgpu::ComputePass::set_bind_group at the given group index
/// with no dynamic offsets; records the bound group's shape.
#[verifier::external_body]
pub(crate) fn set_bind_group(pass: &mut PassRecorder, index: u32, group: &TrackedBindGroup)
    ensures
        final(pass).log() == old(pass).log() + (seq![
            PassCommand::SetBindGroup { index, group: group.shape() },
        ]),
{
    pass.raw.set_bind_group(index, &group.raw, &[]);
}

/// Relies on wgpu::ComputePass::set_immediates: attaches the metadata
/// bytes at offset zero of the pipeline's immediate-data range, the
/// push-constant path of dispatch parameterization. Its documentation
/// asks for whole 32-bit words.
#[verifier::external_body]
pub(crate) fn set_immediates(pass: &mut PassRecorder, data: &Vec<u8>)
    requires
        data@.len() % 4 == 0,
    ensures
        final(pass).log() == old(pass).log() + (seq![
            PassCommand::SetImmediates { data: data@ },
        ]),
{
    pass.raw.set_immediates(0, data.as_slice());
}

/// Relies on wgpu::ComputePass::dispatch_workgroups with the given grid.
#[verifier::external_body]
pub(crate) fn dispatch_workgroups(pass: &mut PassRecorder, x: u32, y: u32, z: u32)
    ensures
        final(pass).log() == old(pass).log() + (seq![PassCommand::Dispatch { x, y, z }]),
{
    pass.raw.dispatch_workgroups(x, y, z);
}

/// Relies on wgpu::ComputePass's Drop implementation: dropping the pass
/// ends it, committing its recorded commands to the encoder, which the
/// log mirrors as one compute pass command.
#[verifier::external_body]
pub(crate) fn end_compute_pass(recorder: &mut CommandRecorder, pass: PassRecorder)
    ensures
        final(recorder).log() == old(recorder).log() + (seq![
            GpuCommand::ComputePass { commands: pass.log() },
        ]),
{
    drop(pass);
}

/// Relies on wgpu::CommandEncoder::copy_buffer_to_buffer, whose
/// documentation asks that offsets and size be multiples of four and
/// that the copy stay inside both buffers.
#[verifier::external_body]
pub(crate) fn copy_buffer_to_buffer(
    recorder: &mut CommandRecorder,
    source: &TrackedBuffer,
    source_offset: u64,
    destination: &TrackedBuffer,
    destination_offset: u64,
    size: u64,
)
    requires
        source_offset % 4 == 0,
        destination_offset % 4 == 0,
        size % 4 == 0,
        source_offset + size <= source.size(),
        destination_offset + size <= destination.size(),
    ensures
        final(recorder).log() == old(recorder).log() + (seq![
            GpuCommand::CopyBufferToBuffer { source_offset, destination_offset, size },
        ]),
{
    recorder.raw.copy_buffer_to_buffer(
        &source.raw,
        source_offset,
        &destination.raw,
        destination_offset,
        Some(size),
    );
}

/// Relies on wgpu::Device::create_texture: a single-mip 2D BC6H
/// unsigned-float texture, usable as a copy destination on top of the
/// caller's usages.
#[verifier::external_body]
pub(crate) fn create_bc6h_texture_2d(
    device: &wgpu::Device,
    label: Option<&str>,
    width: u32,
    height: u32,
    usage: wgpu::TextureUsages,
) -> (t: TrackedTexture)
    ensures
        t.model() == (TextureModel { width, height, depth: 1u32, volume: false }),
{
    let raw = device.create_texture(&wgpu::TextureDescriptor {
        label,
        size: wgpu::Extent3d { width, height, depth_or_array_layers: 1 },
        mip_level_count: 1,
        sample_count: 1,
        dimension: wgpu::TextureDimension::D2,
        format: wgpu::TextureFormat::Bc6hRgbUfloat,
        usage: usage | wgpu::TextureUsages::COPY_DST,
        view_formats: &[],
    });
    TrackedTexture { raw, model: Ghost(arbitrary()) }
}

/// Relies on wgpu::Device::create_texture: a single-mip volume BC6H
/// unsigned-float texture, usable as a copy destination on top of the
/// caller's usages.
#[verifier::external_body]
pub(crate) fn create_bc6h_texture_3d(
    device: &wgpu::Device,
    label: Option<&str>,
    width: u32,
    height: u32,
    depth: u32,
    usage: wgpu::TextureUsages,
) -> (t: TrackedTexture)
    ensures
        t.model() == (TextureModel { width, height, depth, volume: true }),
{
    let raw = device.create_texture(&wgpu::TextureDescriptor {
        label,
        size: wgpu::Extent3d { width, height, depth_or_array_layers: depth },
        mip_level_count: 1,
        sample_count: 1,
        dimension: wgpu::TextureDimension::D3,
        format: wgpu::TextureFormat::Bc6hRgbUfloat,
        usage: usage | wgpu::TextureUsages::COPY_DST,
        view_formats: &[],
    });
    TrackedTexture { raw, model: Ghost(arbitrary()) }
}

/// Relies on wgpu::CommandEncoder::copy_buffer_to_texture from offset
/// zero with the given block-row stride and image row count.
#[verifier::external_body]
pub(crate) fn copy_buffer_to_texture(
    recorder: &mut CommandRecorder,
    buffer: &TrackedBuffer,
    bytes_per_row: u32,
    rows_per_image: u32,
    texture: &TrackedTexture,
    width: u32,
    height: u32,
    depth: u32,
)
    ensures
        final(recorder).log() == old(recorder).log() + (seq![
            GpuCommand::CopyBufferToTexture {
                source_size: buffer.size(),
                bytes_per_row,
                rows_per_image,
                width,
                height,
                depth,
            },
        ]),
{
    let layout = wgpu::TexelCopyBufferLayout {
        offset: 0,
        bytes_per_row: Some(bytes_per_row),
        rows_per_image: Some(rows_per_image),
    };
    let destination = wgpu::TexelCopyTextureInfo {
        texture: &texture.raw,
        mip_level: 0,
        origin: wgpu::Origin3d::ZERO,
        aspect: wgpu::TextureAspect::All,
    };
    let size = wgpu::Extent3d { width, height, depth_or_array_layers: depth };
    let source = wgpu::TexelCopyBufferInfo { buffer: &buffer.raw, layout };
    recorder.raw.copy_buffer_to_texture(source, destination, size);
}

/// Relies on wgpu::CommandEncoder::finish: seals the recording into a
/// submittable command buffer.
#[verifier::external_body]
pub(crate) fn finish_recorder(recorder: CommandRecorder) -> wgpu::CommandBuffer {
    recorder.raw.finish()
}

/// Relies on wgpu::Queue::submit of a single command buffer.
#[verifier::external_body]
pub(crate) fn submit_one(queue: &wgpu::Queue, commands: wgpu::CommandBuffer) {
    queue.submit([commands]);
}

/// Relies on wgpu::Buffer::map_async (read mode, whole buffer) and
/// wgpu::Device::poll with an indefinite wait: requests the map, blocks
/// polling the device until the request resolves, and reports whether
/// the device mapped the buffer. Submission must precede this call or it
/// never returns. Nothing is promised of the outcome: device loss fails
/// the map.
#[verifier::external_body]
pub(crate) fn map_buffer_blocking(device: &wgpu::Device, buffer: &TrackedBuffer) -> bool {
    let (tx, rx) = std::sync::mpsc::channel();
    buffer.raw.map_async(wgpu::MapMode::Read, .., move |result| {
        let _ = tx.send(result);
    });
    let _ = device.poll(wgpu::PollType::wait_indefinitely());
    matches!(rx.recv(), Ok(Ok(())))
}

/// Relies on wgpu::Buffer::get_mapped_range over the whole mapped
/// buffer: copies the mapped bytes out, or reports that no mapped range
/// was available.
#[verifier::external_body]
pub(crate) fn mapped_bytes(buffer: &TrackedBuffer) -> Option<Vec<u8>> {
    match buffer.raw.get_mapped_range(..) {
        Ok(view) => Some(view.to_vec()),
        Err(_) => None,
    }
}

/// Relies on wgpu::Buffer::unmap: releases the mapped range so the
/// buffer may be reused or freed.
#[verifier::external_body]
pub(crate) fn unmap_buffer(buffer: &TrackedBuffer) {
    buffer.raw.unmap();
}

} // verus!
