pub mod device;
pub mod graphic_system;
pub mod pipeline;
pub mod swap_chain;
pub mod texture;
pub mod vertex;

pub use self::device::{
    BufferInitDescriptor, Color, Command, CommandBuffer, CommandEncoder, Device, ShaderFlags,
    ShaderModuleDescriptor,
};
pub use self::graphic_system::GraphicSystem;
pub use self::pipeline::{
    BindGroupLayout, BlendComponent, BlendFactor, BlendOperation, BlendState, ColorTargetState,
    ColorWrite, Face, FragmentState, FrontFace, IndexFormat, MultisampleState, Pipeline,
    PipelineLayoutDescriptor, PolygonMode, PrimitiveState, PrimitiveTopology, PushConstantRange,
    RenderPipelineDescriptor, ShaderModule, VertexState,
};
pub use self::swap_chain::{
    AcquireError, Frame, PhysicalSize, PresentMode, SwapChainError, Swapchain,
    SwapchainDescriptor, TextureFormat, TextureUsage,
};
pub use self::texture::{
    AddressMode, Extent3d, FilterMode, ImageDataLayout, Origin3d, SamplerDescriptor, Texture,
    TextureDescriptor, TextureDimension, TextureError,
};
pub use self::vertex::{
    Buffer, BufferError, BufferSlice, BufferUsage, InputStepMode, VertexAttribute,
    VertexBufferLayout, VertexFormat,
};
