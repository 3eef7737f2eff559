//! The device: what is asked of the GPU, and the queue of recorded work.

use super::pipeline::{
    BindGroupLayout, FragmentState, IndexFormat, Pipeline, PipelineLayoutDescriptor,
    PushConstantRange, ShaderModule, VertexState,
};
use super::swap_chain::{PhysicalSize, Swapchain};
use super::texture::{
    AddressMode, Extent3d, FilterMode, ImageDataLayout, Origin3d, SamplerDescriptor, Texture,
    TextureDescriptor, TextureDimension, TextureError,
};
use super::swap_chain::{TextureFormat, TextureUsage};
use super::vertex::{BufferSlice, BufferUsage};
use vstd::prelude::*;

verus! {

/// A colour with each channel in hundredths, from 0 to 100.
#[derive(Clone, Copy, Debug, PartialEq, Eq, Structural)]
pub struct Color {
    pub r: u8,
    pub g: u8,
    pub b: u8,
    pub a: u8,
}

/// One recorded command.
#[derive(Clone, Copy, Debug, PartialEq, Eq)]
pub enum Command {
    /// Begins a render pass whose only colour attachment is the acquired
    /// frame. The frame is cleared to `clear` first; what is drawn is kept
    /// where `store` holds. There is no depth-stencil attachment.
    BeginRenderPass { label: &'static str, clear: Color, store: bool },
    /// Binds the pipeline of the frame.
    SetPipeline,
    /// Binds a range of the vertex buffer to a slot.
    SetVertexBuffer { slot: u32, slice: BufferSlice },
    /// Binds a range of the index buffer.
    SetIndexBuffer { slice: BufferSlice, format: IndexFormat },
    /// Draws the vertices from `first_vertex` up to `end_vertex`, for the
    /// instances from `first_instance` up to `end_instance`.
    Draw { first_vertex: u32, end_vertex: u32, first_instance: u32, end_instance: u32 },
    /// Draws the indices from `first_index` up to `end_index`, each added
    /// to `base_vertex`, for the instances from `first_instance` up to
    /// `end_instance`.
    DrawIndexed {
        first_index: u32,
        end_index: u32,
        base_vertex: i32,
        first_instance: u32,
        end_instance: u32,
    },
    /// Ends the render pass.
    EndRenderPass,
}

/// Commands that are ready to be submitted.
#[derive(Clone, Debug, PartialEq, Eq)]
pub struct CommandBuffer {
    pub label: &'static str,
    pub commands: Vec<Command>,
}

/// Records commands, once.
#[derive(Debug)]
pub struct CommandEncoder {
    label: &'static str,
    commands: Vec<Command>,
}

impl CommandEncoder {
    pub closed spec fn spec_label(&self) -> &'static str {
        self.label
    }

    /// The commands recorded so far, in the order in which they were
    /// recorded.
    pub closed spec fn recorded(&self) -> Seq<Command> {
        self.commands@
    }

    /// Records one more command.
    pub fn record(&mut self, command: Command)
        ensures
            final(self).recorded() == old(self).recorded().push(command),
            final(self).spec_label() == old(self).spec_label(),
    {
        self.commands.push(command);
    }

    /// Ends the recording.
    pub fn finish(self) -> (buffer: CommandBuffer)
        ensures
            buffer.commands@ == self.recorded(),
            buffer.label == self.spec_label(),
    {
        CommandBuffer { label: self.label, commands: self.commands }
    }
}

/// What is done to a shader module when it is made.
#[derive(Clone, Copy, Debug, PartialEq, Eq, Structural)]
pub struct ShaderFlags {
    pub validation: bool,
    pub experimental_translation: bool,
}

/// What a shader module is made with.
#[derive(Clone, Copy, Debug, PartialEq, Eq)]
pub struct ShaderModuleDescriptor {
    pub label: &'static str,
    pub flags: ShaderFlags,
    pub source: ShaderModule,
}

/// What a buffer is made with: it is filled with `contents` when it is made.
#[derive(Clone, Debug, PartialEq, Eq)]
pub struct BufferInitDescriptor<'a> {
    pub label: Option<&'a str>,
    pub contents: Vec<u8>,
    pub usage: BufferUsage,
}

/// The device, as far as the core decides about it: the shader module that
/// it was set up with, and the command buffers that were submitted and not
/// yet handed to the GPU's queue.
#[derive(Debug)]
pub struct Device {
    shader: ShaderModule,
    queue: Vec<CommandBuffer>,
}

impl Device {
    /// The shader module that the device was set up with.
    pub closed spec fn spec_shader(&self) -> ShaderModule {
        self.shader
    }

    /// The command buffers that wait for the queue, first submitted first.
    pub closed spec fn pending(&self) -> Seq<CommandBuffer> {
        self.queue@
    }

    /// A device with the given shader module and nothing submitted.
    pub fn new(shader: ShaderModule) -> (device: Device)
        ensures
            device.spec_shader() == shader,
            device.pending().len() == 0,
    {
        Device { shader, queue: Vec::new() }
    }

    /// A new recording, with nothing recorded.
    pub fn create_encoder(&self) -> (encoder: CommandEncoder)
        ensures
            encoder.recorded().len() == 0,
            encoder.spec_label()@ == "Main Command Encoder"@,
    {
        CommandEncoder { label: "Main Command Encoder", commands: Vec::new() }
    }

    /// The chain for a surface of the given size.
    pub fn create_swap_chain(&self, width: u32, height: u32) -> (chain: Swapchain)
        requires
            width > 0,
            height > 0,
        ensures
            chain == Swapchain::spec_new(PhysicalSize { width, height }),
            chain.spec_size() == (PhysicalSize { width, height }),
            !chain.frame_outstanding(),
    {
        Swapchain::new(width, height)
    }

    /// The device's shader module, to be made with validation and with
    /// experimental translation.
    pub fn create_shader(&self) -> (desc: ShaderModuleDescriptor)
        ensures
            desc.label@ == "Shader Module"@,
            desc.flags == (ShaderFlags { validation: true, experimental_translation: true }),
            desc.source == self.spec_shader(),
    {
        ShaderModuleDescriptor {
            label: "Shader Module",
            flags: ShaderFlags { validation: true, experimental_translation: true },
            source: self.shader,
        }
    }

    /// A buffer named `name` that holds `contents` from the start.
    pub fn create_buffer<'a>(&self, name: &'a str, usage: BufferUsage, contents: Vec<u8>) -> (desc:
        BufferInitDescriptor<'a>)
        ensures
            desc.label == Some(name),
            desc.contents@ == contents@,
            desc.usage == usage,
    {
        BufferInitDescriptor { label: Some(name), contents, usage }
    }

    /// The layout of a pipeline that binds the given resources.
    pub fn create_pipeline_layout(
        &self,
        bind_group_layouts: Vec<BindGroupLayout>,
        push_constant_ranges: Vec<PushConstantRange>,
    ) -> (layout: PipelineLayoutDescriptor)
        ensures
            layout.label@ == "Pipeline Layout"@,
            layout.bind_group_layouts@ == bind_group_layouts@,
            layout.push_constant_ranges@ == push_constant_ranges@,
    {
        PipelineLayoutDescriptor { label: "Pipeline Layout", bind_group_layouts, push_constant_ranges }
    }

    /// The pipeline with the given layout and stages and the fixed-function
    /// state of this core.
    pub fn create_pipeline(
        &self,
        layout: PipelineLayoutDescriptor,
        vertex: VertexState,
        fragment: FragmentState,
    ) -> (pipeline: Pipeline)
        ensures
            Pipeline::describes(pipeline.spec_descriptor(), layout, vertex, fragment),
    {
        Pipeline::new(Pipeline::pipeline_descriptor(layout, vertex, fragment))
    }

    /// What is asked of the GPU to hold an image of `dimensions.0` by
    /// `dimensions.1` RGBA pixels, whose bytes are `rgba`, row after row.
    pub fn create_texture<'a>(&self, rgba: &[u8], dimensions: (u32, u32), label: Option<&'a str>) -> (r:
        Result<Texture<'a>, TextureError>)
        ensures
            match r {
                Ok(texture) => {
                    &&& Texture::spec_check(rgba@.len(), dimensions.0, dimensions.1) is Ok
                    &&& texture.holds(dimensions.0, dimensions.1, label)
                },
                Err(e) => Texture::spec_check(rgba@.len(), dimensions.0, dimensions.1) == Err::<
                    (),
                    TextureError,
                >(e),
            },
    {
        let width: u32 = dimensions.0;
        let height: u32 = dimensions.1;
        if width == 0 || height == 0 {
            return Err(TextureError::Empty);
        }
        if width > u32::MAX / 4 {
            return Err(TextureError::RowTooWide);
        }
        let bytes_per_row: u32 = 4 * width;
        assert(bytes_per_row * height <= u64::MAX) by (nonlinear_arith)
            requires
                bytes_per_row <= u32::MAX,
                height <= u32::MAX,
        ;
        let needed: u64 = bytes_per_row as u64 * height as u64;
        if (rgba.len() as u64) < needed {
            return Err(TextureError::TooFewBytes);
        }
        assert(4 * width * height == bytes_per_row * height) by (nonlinear_arith)
            requires
                bytes_per_row == 4 * width,
        ;
        Ok(
            Texture {
                label,
                texture: TextureDescriptor {
                    size: Extent3d { width, height, depth_or_array_layers: 1 },
                    mip_level_count: 1,
                    sample_count: 1,
                    dimension: TextureDimension::D2,
                    format: TextureFormat::Rgba8UnormSrgb,
                    usage: TextureUsage {
                        copy_src: false,
                        copy_dst: true,
                        sampled: true,
                        storage: false,
                        render_attachment: false,
                    },
                },
                mip_level: 0,
                origin: Origin3d { x: 0, y: 0, z: 0 },
                layout: ImageDataLayout {
                    offset: 0,
                    bytes_per_row: Some(bytes_per_row),
                    rows_per_image: Some(height),
                },
                sampler: SamplerDescriptor {
                    address_mode_u: AddressMode::ClampToEdge,
                    address_mode_v: AddressMode::ClampToEdge,
                    address_mode_w: AddressMode::ClampToEdge,
                    mag_filter: FilterMode::Linear,
                    min_filter: FilterMode::Nearest,
                    mipmap_filter: FilterMode::Nearest,
                },
            },
        )
    }

    /// Puts the command buffers at the end of the queue, in the order given.
    pub fn submit(&mut self, command_buffers: Vec<CommandBuffer>)
        ensures
            final(self).pending() == old(self).pending() + command_buffers@,
            final(self).spec_shader() == old(self).spec_shader(),
    {
        let mut command_buffers = command_buffers;
        self.queue.append(&mut command_buffers);
    }

    /// Takes everything that waits out of the queue, first submitted first.
    pub fn flush(&mut self) -> (command_buffers: Vec<CommandBuffer>)
        ensures
            command_buffers@ == old(self).pending(),
            final(self).pending().len() == 0,
            final(self).spec_shader() == old(self).spec_shader(),
    {
        let mut taken: Vec<CommandBuffer> = Vec::new();
        taken.append(&mut self.queue);
        taken
    }
}

} // verus!
