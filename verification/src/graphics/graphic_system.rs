//! The graphic system: a device, the chain it presents to, and the recording
//! of one frame.

use super::device::{BufferInitDescriptor, Color, Command, CommandBuffer, Device};
use super::pipeline::{
    ColorTargetState, FragmentState, IndexFormat, Pipeline, ShaderModule, VertexState,
};
use super::swap_chain::{
    AcquireError, Frame, PhysicalSize, SwapChainError, Swapchain, SwapchainDescriptor,
};
use super::vertex::{
    stride_of, Buffer, BufferError, BufferSlice, BufferUsage, VertexBufferLayout, VertexFormat,
};
use vstd::prelude::*;

verus! {

/// The bytes hold each value as two bytes, the low byte first.
pub open spec fn little_endian(values: Seq<u16>, bytes: Seq<u8>) -> bool {
    &&& bytes.len() == 2 * values.len()
    &&& forall|i: int|
        0 <= i < values.len() ==> bytes[2 * i] == (#[trigger] values[i]) % 256 && bytes[2 * i + 1]
            == values[i] / 256
}

/// The bytes hold each value as two bytes, the high byte first.
pub open spec fn big_endian(values: Seq<u16>, bytes: Seq<u8>) -> bool {
    &&& bytes.len() == 2 * values.len()
    &&& forall|i: int|
        0 <= i < values.len() ==> bytes[2 * i] == (#[trigger] values[i]) / 256 && bytes[2 * i + 1]
            == values[i] % 256
}

/// The bytes hold the values in the byte order of some machine, the same
/// for every value.
pub open spec fn native_endian(values: Seq<u16>, bytes: Seq<u8>) -> bool {
    little_endian(values, bytes) || big_endian(values, bytes)
}

/// `bytemuck::cast_slice` from `u16` to `u8`: the memory of the values, read
/// as bytes. Each value takes two bytes, in the byte order of the machine.
/// The cast cannot fail, since a byte has no alignment and every length is a
/// whole number of bytes.
#[verifier::external_body]
fn index_bytes(indices: &[u16]) -> (bytes: Vec<u8>)
    ensures
        native_endian(indices@, bytes@),
{
    bytemuck::cast_slice::<u16, u8>(indices).to_vec()
}

/// The colour that every frame is cleared to.
pub open spec fn spec_background() -> Color {
    Color { r: 87, g: 69, b: 79, a: 100 }
}

/// The whole of a buffer.
pub open spec fn spec_whole() -> BufferSlice {
    BufferSlice { offset: 0, size: None }
}

/// The commands of one frame: one render pass that clears the frame to the
/// background colour, binds the pipeline and the whole vertex buffer, and
/// issues one draw call. With an index buffer of `n` indices, that buffer is
/// bound too and all `n` indices are drawn; without one, all `vertices`
/// vertices are drawn.
pub open spec fn spec_frame_commands(vertices: nat, indices: Option<nat>) -> Seq<Command> {
    let begin = Command::BeginRenderPass {
        label: "Main Render Pass",
        clear: spec_background(),
        store: true,
    };
    let bind = Command::SetVertexBuffer { slot: 0, slice: spec_whole() };
    match indices {
        Some(n) => seq![
            begin,
            Command::SetPipeline,
            bind,
            Command::SetIndexBuffer { slice: spec_whole(), format: IndexFormat::Uint16 },
            Command::DrawIndexed {
                first_index: 0,
                end_index: n as u32,
                base_vertex: 0,
                first_instance: 0,
                end_instance: 1,
            },
            Command::EndRenderPass,
        ],
        None => seq![
            begin,
            Command::SetPipeline,
            bind,
            Command::Draw {
                first_vertex: 0,
                end_vertex: vertices as u32,
                first_instance: 0,
                end_instance: 1,
            },
            Command::EndRenderPass,
        ],
    }
}

/// A device, the chain that it presents to, and the format of the vertices
/// that it draws.
#[derive(Debug)]
pub struct GraphicSystem {
    device: Device,
    swap_chain: Swapchain,
    vertex_format: Vec<VertexFormat>,
}

impl GraphicSystem {
    pub closed spec fn spec_device(&self) -> Device {
        self.device
    }

    pub closed spec fn spec_swap_chain(&self) -> Swapchain {
        self.swap_chain
    }

    /// The formats of the attributes of a vertex, in their order.
    pub closed spec fn spec_vertex_format(&self) -> Seq<VertexFormat> {
        self.vertex_format@
    }

    /// A vertex has no more attributes than shader locations can number.
    pub open spec fn wf(&self) -> bool {
        self.spec_vertex_format().len() <= u32::MAX
    }

    /// The pipeline is the one that a frame of this system is drawn with:
    /// both stages run the device's shader module from `main`, the vertices
    /// are interleaved in the system's vertex format, nothing is bound, and
    /// the one colour target has the chain's format and is overwritten.
    pub open spec fn draws_with(&self, pipeline: &Pipeline) -> bool {
        let desc = pipeline.spec_descriptor();
        &&& desc.label@ == "Render Pipeline"@
        &&& desc.layout.label@ == "Pipeline Layout"@
        &&& desc.layout.bind_group_layouts@.len() == 0
        &&& desc.layout.push_constant_ranges@.len() == 0
        &&& desc.vertex.module == self.spec_device().spec_shader()
        &&& desc.vertex.entry_point@ == "main"@
        &&& desc.vertex.buffers@.len() == 1
        &&& desc.vertex.buffers@[0].interleaves(self.spec_vertex_format())
        &&& desc.fragment matches Some(fragment)
        &&& fragment.module == self.spec_device().spec_shader()
        &&& fragment.entry_point@ == "main"@
        &&& fragment.targets@ == seq![ColorTargetState::spec_replacing(Swapchain::spec_format())]
        &&& desc.primitive == Pipeline::spec_primitive()
        &&& desc.multisample == Pipeline::spec_multisample()
    }

    /// A system whose device was set up with `shader`, with a chain for a
    /// surface of `size`, that draws vertices of the given format.
    pub fn new(shader: ShaderModule, size: PhysicalSize, vertex_format: Vec<VertexFormat>) -> (system:
        GraphicSystem)
        requires
            size.presentable(),
            vertex_format@.len() <= u32::MAX,
        ensures
            system.wf(),
            system.spec_device().spec_shader() == shader,
            system.spec_device().pending().len() == 0,
            system.spec_swap_chain() == Swapchain::spec_new(size),
            system.spec_swap_chain().spec_size() == size,
            !system.spec_swap_chain().frame_outstanding(),
            system.spec_vertex_format() == vertex_format@,
    {
        let device = Device::new(shader);
        let swap_chain = device.create_swap_chain(size.width, size.height);
        GraphicSystem { device, swap_chain, vertex_format }
    }

    /// The size of the chain.
    pub fn size(&self) -> (size: PhysicalSize)
        ensures
            size == self.spec_swap_chain().spec_size(),
    {
        self.swap_chain.size()
    }

    /// Whether a frame of the chain is out.
    pub fn has_frame(&self) -> (out: bool)
        ensures
            out == self.spec_swap_chain().frame_outstanding(),
    {
        self.swap_chain.has_frame()
    }

    /// Puts a chain for a surface of `new_size` in the place of the present
    /// one, and returns what the new chain is made with. A chain cannot be
    /// replaced while a frame of it is out.
    pub fn swap_chain(&mut self, new_size: PhysicalSize) -> (desc: SwapchainDescriptor)
        requires
            new_size.presentable(),
            !old(self).spec_swap_chain().frame_outstanding(),
        ensures
            desc == Swapchain::spec_descriptor(new_size.width, new_size.height),
            final(self).spec_swap_chain() == Swapchain::spec_new(new_size),
            final(self).spec_swap_chain().spec_size() == new_size,
            !final(self).spec_swap_chain().frame_outstanding(),
            final(self).spec_device() == old(self).spec_device(),
            final(self).spec_vertex_format() == old(self).spec_vertex_format(),
    {
        self.swap_chain = self.device.create_swap_chain(new_size.width, new_size.height);
        Swapchain::descriptor(new_size.width, new_size.height)
    }

    /// A buffer of vertices in the system's format, and what it is made
    /// with. The contents have to be a whole number of vertices.
    pub fn vertex_buffer<'a>(&self, name: &'a str, usage: BufferUsage, contents: Vec<u8>) -> (r:
        Result<(Buffer, BufferInitDescriptor<'a>), BufferError>)
        requires
            self.wf(),
        ensures
            match r {
                Ok((buffer, desc)) => {
                    &&& Buffer::spec_new(contents@.len(), stride_of(self.spec_vertex_format()))
                        == Ok::<nat, BufferError>(buffer.spec_size())
                    &&& buffer.spec_element_size() == stride_of(self.spec_vertex_format())
                    &&& buffer.spec_usage() == usage
                    &&& buffer.wf()
                    &&& desc.label == Some(name)
                    &&& desc.contents@ == contents@
                    &&& desc.usage == usage
                },
                Err(e) => Buffer::spec_new(contents@.len(), stride_of(self.spec_vertex_format()))
                    == Err::<nat, BufferError>(e),
            },
    {
        let layout: VertexBufferLayout = Buffer::desc(&self.vertex_format);
        match Buffer::new(contents.len(), layout.array_stride, usage) {
            Ok(buffer) => Ok((buffer, self.device.create_buffer(name, usage, contents))),
            Err(e) => Err(e),
        }
    }

    /// A buffer of 16-bit indices, and what it is made with: the indices as
    /// bytes, in the byte order of the machine.
    pub fn index_buffer<'a>(&self, name: &'a str, usage: BufferUsage, indices: &[u16]) -> (r: Result<
        (Buffer, BufferInitDescriptor<'a>),
        BufferError,
    >)
        ensures
            match r {
                Ok((buffer, desc)) => {
                    &&& indices@.len() <= u32::MAX
                    &&& buffer.spec_size() == indices@.len()
                    &&& buffer.spec_element_size() == 2
                    &&& buffer.spec_usage() == usage
                    &&& buffer.wf()
                    &&& desc.label == Some(name)
                    &&& native_endian(indices@, desc.contents@)
                    &&& desc.usage == usage
                },
                Err(e) => indices@.len() > u32::MAX && e == BufferError::TooManyElements,
            },
    {
        let bytes: Vec<u8> = index_bytes(indices);
        match Buffer::new(bytes.len(), 2, usage) {
            Ok(buffer) => Ok((buffer, self.device.create_buffer(name, usage, bytes))),
            Err(e) => Err(e),
        }
    }

    /// Records and submits one frame, given what the surface answered when
    /// it was asked for the next image.
    ///
    /// Where an image was handed out, the frame is taken from the chain, the
    /// commands of [`spec_frame_commands`] are recorded and submitted as one
    /// command buffer, and the frame and the pipeline to draw with are
    /// returned. The frame stays out until [`GraphicSystem::present`].
    /// Where none was handed out, nothing changes and the reason is
    /// returned.
    pub fn draw(
        &mut self,
        acquired: Result<(), SwapChainError>,
        vertices: &Buffer,
        indices: Option<&Buffer>,
    ) -> (r: Result<(Frame, Pipeline), AcquireError>)
        requires
            old(self).wf(),
            !old(self).spec_swap_chain().frame_outstanding(),
            vertices.wf(),
            indices matches Some(buffer) ==> buffer.wf(),
        ensures
            final(self).wf(),
            final(self).spec_vertex_format() == old(self).spec_vertex_format(),
            final(self).spec_device().spec_shader() == old(self).spec_device().spec_shader(),
            final(self).spec_swap_chain().spec_size() == old(self).spec_swap_chain().spec_size(),
            final(self).spec_swap_chain().frame_outstanding() == (acquired is Ok),
            match r {
                Ok((frame, pipeline)) => {
                    &&& acquired is Ok
                    &&& frame.spec_size() == old(self).spec_swap_chain().spec_size()
                    &&& frame.spec_format() == Swapchain::spec_format()
                    &&& final(self).spec_swap_chain() == old(self).spec_swap_chain().spec_acquire()
                    &&& final(self).spec_device().pending().len() == old(
                        self,
                    ).spec_device().pending().len() + 1
                    &&& final(self).spec_device().pending().drop_last() == old(
                        self,
                    ).spec_device().pending()
                    &&& final(self).spec_device().pending().last().label@
                        == "Main Command Encoder"@
                    &&& final(self).spec_device().pending().last().commands@
                        == spec_frame_commands(
                        vertices.spec_size(),
                        match indices {
                            Some(buffer) => Some(buffer.spec_size()),
                            None => None,
                        },
                    )
                    &&& final(self).draws_with(&pipeline)
                },
                Err(e) => {
                    &&& acquired matches Err(status)
                    &&& e == AcquireError::spec_from_status(status)
                    &&& *final(self) == *old(self)
                },
            },
    {
        let frame: Frame = match self.swap_chain.get_current_frame(acquired) {
            Ok(frame) => frame,
            Err(e) => {
                return Err(e);
            },
        };
        let mut encoder = self.device.create_encoder();
        let shader = self.device.create_shader();
        let mut buffers: Vec<VertexBufferLayout> = Vec::new();
        buffers.push(Buffer::desc(&self.vertex_format));
        let vertex = VertexState { module: shader.source, entry_point: "main", buffers };
        let mut targets: Vec<ColorTargetState> = Vec::new();
        targets.push(ColorTargetState::replacing(self.swap_chain.format()));
        let fragment = FragmentState { module: shader.source, entry_point: "main", targets };
        let pipeline_layout = self.device.create_pipeline_layout(Vec::new(), Vec::new());
        let render_pipeline = self.device.create_pipeline(pipeline_layout, vertex, fragment);

        encoder.record(
            Command::BeginRenderPass {
                label: "Main Render Pass",
                clear: Color { r: 87, g: 69, b: 79, a: 100 },
                store: true,
            },
        );
        encoder.record(Command::SetPipeline);
        encoder.record(Command::SetVertexBuffer { slot: 0, slice: BufferSlice { offset: 0, size: None } });
        match indices {
            Some(buffer) => {
                encoder.record(
                    Command::SetIndexBuffer {
                        slice: BufferSlice { offset: 0, size: None },
                        format: IndexFormat::Uint16,
                    },
                );
                encoder.record(
                    Command::DrawIndexed {
                        first_index: 0,
                        end_index: buffer.size() as u32,
                        base_vertex: 0,
                        first_instance: 0,
                        end_instance: 1,
                    },
                );
            },
            None => {
                encoder.record(
                    Command::Draw {
                        first_vertex: 0,
                        end_vertex: vertices.size() as u32,
                        first_instance: 0,
                        end_instance: 1,
                    },
                );
            },
        }
        encoder.record(Command::EndRenderPass);
        let finished: CommandBuffer = encoder.finish();
        proof {
            assert(finished.commands@ =~= spec_frame_commands(
                vertices.spec_size(),
                match indices {
                    Some(buffer) => Some(buffer.spec_size()),
                    None => None,
                },
            ));
        }
        let ghost before = self.device.pending();
        let mut batch: Vec<CommandBuffer> = Vec::new();
        batch.push(finished);
        self.device.submit(batch);
        proof {
            assert(self.device.pending().drop_last() =~= before);
        }
        Ok((frame, render_pipeline))
    }

    /// Takes back the frame that is out: it has been rendered to and is
    /// presented.
    pub fn present(&mut self, frame: Frame)
        requires
            old(self).spec_swap_chain().frame_outstanding(),
            frame.spec_size() == old(self).spec_swap_chain().spec_size(),
        ensures
            final(self).spec_swap_chain() == old(self).spec_swap_chain().spec_present(),
            final(self).spec_swap_chain().spec_size() == old(self).spec_swap_chain().spec_size(),
            !final(self).spec_swap_chain().frame_outstanding(),
            final(self).spec_device() == old(self).spec_device(),
            final(self).spec_vertex_format() == old(self).spec_vertex_format(),
    {
        self.swap_chain.present(frame);
    }

    /// Takes the submitted command buffers out of the device's queue, first
    /// submitted first.
    pub fn flush(&mut self) -> (command_buffers: Vec<CommandBuffer>)
        ensures
            command_buffers@ == old(self).spec_device().pending(),
            final(self).spec_device().pending().len() == 0,
            final(self).spec_device().spec_shader() == old(self).spec_device().spec_shader(),
            final(self).spec_swap_chain() == old(self).spec_swap_chain(),
            final(self).spec_vertex_format() == old(self).spec_vertex_format(),
    {
        self.device.flush()
    }
}

} // verus!
