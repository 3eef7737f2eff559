//! The presentable image chain and the outcome of asking it for a frame.

use vstd::prelude::*;

verus! {

/// Width and height of a surface in physical pixels.
#[derive(Clone, Copy, Debug, PartialEq, Eq, Structural)]
pub struct PhysicalSize {
    pub width: u32,
    pub height: u32,
}

impl PhysicalSize {
    pub fn new(width: u32, height: u32) -> (size: PhysicalSize)
        ensures
            size == (PhysicalSize { width, height }),
    {
        PhysicalSize { width, height }
    }

    /// A surface can be presented to only when both of its dimensions are
    /// positive. A minimized window has a dimension of zero.
    pub open spec fn presentable(self) -> bool {
        self.width > 0 && self.height > 0
    }

    pub fn is_presentable(&self) -> (r: bool)
        ensures
            r == self.presentable(),
    {
        self.width > 0 && self.height > 0
    }
}

/// Pixel formats of four 8-bit channels.
#[derive(Clone, Copy, Debug, PartialEq, Eq, Structural)]
pub enum TextureFormat {
    Rgba8Unorm,
    Rgba8UnormSrgb,
    Bgra8Unorm,
    Bgra8UnormSrgb,
}

/// What a texture may be used for.
#[derive(Clone, Copy, Debug, PartialEq, Eq, Structural)]
pub struct TextureUsage {
    pub copy_src: bool,
    pub copy_dst: bool,
    pub sampled: bool,
    pub storage: bool,
    pub render_attachment: bool,
}

impl TextureUsage {
    /// The usage of an image that is only rendered to.
    pub open spec fn spec_render_attachment() -> TextureUsage {
        TextureUsage {
            copy_src: false,
            copy_dst: false,
            sampled: false,
            storage: false,
            render_attachment: true,
        }
    }

    pub fn render_attachment() -> (usage: TextureUsage)
        ensures
            usage == Self::spec_render_attachment(),
    {
        TextureUsage {
            copy_src: false,
            copy_dst: false,
            sampled: false,
            storage: false,
            render_attachment: true,
        }
    }
}

/// When a finished image reaches the screen.
#[derive(Clone, Copy, Debug, PartialEq, Eq, Structural)]
pub enum PresentMode {
    Immediate,
    Mailbox,
    /// Images queue up and are shown one per vertical blank.
    Fifo,
}

/// Everything that determines a swapchain.
#[derive(Clone, Copy, Debug, PartialEq, Eq, Structural)]
pub struct SwapchainDescriptor {
    pub usage: TextureUsage,
    pub format: TextureFormat,
    pub width: u32,
    pub height: u32,
    pub present_mode: PresentMode,
}

/// What the surface reports when it hands out no image.
#[derive(Clone, Copy, Debug, PartialEq, Eq, Structural)]
pub enum SwapChainError {
    /// No image became free in time.
    Timeout,
    /// The surface has changed since the chain was made.
    Outdated,
    /// The chain has been lost.
    Lost,
    /// No memory is left for a new image.
    OutOfMemory,
}

/// Why no frame was acquired, by what the caller has to do about it.
#[derive(Clone, Copy, Debug, PartialEq, Eq, Structural)]
pub enum AcquireError {
    /// The chain no longer matches the surface: make a new chain, then try
    /// again.
    Stale,
    /// Nothing can be done: stop rendering.
    OutOfMemory,
    /// Try again at the next tick, with the same chain.
    Timeout,
}

impl AcquireError {
    /// An outdated and a lost chain are both stale; the other two reports
    /// keep their meaning.
    pub open spec fn spec_from_status(status: SwapChainError) -> AcquireError {
        match status {
            SwapChainError::Timeout => AcquireError::Timeout,
            SwapChainError::Outdated => AcquireError::Stale,
            SwapChainError::Lost => AcquireError::Stale,
            SwapChainError::OutOfMemory => AcquireError::OutOfMemory,
        }
    }

    pub fn from_status(status: SwapChainError) -> (e: AcquireError)
        ensures
            e == Self::spec_from_status(status),
    {
        match status {
            SwapChainError::Timeout => AcquireError::Timeout,
            SwapChainError::Outdated => AcquireError::Stale,
            SwapChainError::Lost => AcquireError::Stale,
            SwapChainError::OutOfMemory => AcquireError::OutOfMemory,
        }
    }
}

/// The image of a swapchain that is being rendered to. It is handed out by
/// [`Swapchain::get_current_frame`] and given back with
/// [`Swapchain::present`]; it cannot be copied.
#[derive(Debug)]
pub struct Frame {
    size: PhysicalSize,
    format: TextureFormat,
}

impl Frame {
    pub closed spec fn spec_size(&self) -> PhysicalSize {
        self.size
    }

    pub closed spec fn spec_format(&self) -> TextureFormat {
        self.format
    }

    /// The size of the image.
    pub fn size(&self) -> (size: PhysicalSize)
        ensures
            size == self.spec_size(),
    {
        self.size
    }

    /// The pixel format of the image.
    pub fn format(&self) -> (format: TextureFormat)
        ensures
            format == self.spec_format(),
    {
        self.format
    }
}

/// The bookkeeping of a presentable image chain: the size it was made with
/// and whether one of its images is out for rendering. A chain is never
/// resized; a new one takes its place.
#[derive(Debug)]
pub struct Swapchain {
    size: PhysicalSize,
    acquired: bool,
}

impl Swapchain {
    /// The pixel format of every chain.
    pub open spec fn spec_format() -> TextureFormat {
        TextureFormat::Rgba8UnormSrgb
    }

    /// The descriptor of the chain for a surface of the given size: images
    /// that are rendered to, in the fixed format, shown in step with the
    /// display.
    pub open spec fn spec_descriptor(width: u32, height: u32) -> SwapchainDescriptor {
        SwapchainDescriptor {
            usage: TextureUsage::spec_render_attachment(),
            format: Self::spec_format(),
            width,
            height,
            present_mode: PresentMode::Fifo,
        }
    }

    /// The size that the chain was made with.
    pub closed spec fn spec_size(&self) -> PhysicalSize {
        self.size
    }

    /// Whether a frame of this chain is out and has not been presented.
    pub closed spec fn frame_outstanding(&self) -> bool {
        self.acquired
    }

    /// The chain as it is right after it was made.
    pub closed spec fn spec_new(size: PhysicalSize) -> Swapchain {
        Swapchain { size, acquired: false }
    }

    /// The chain after it has handed out a frame.
    pub closed spec fn spec_acquire(self) -> Swapchain {
        Swapchain { size: self.size, acquired: true }
    }

    /// The chain after its frame has been presented.
    pub closed spec fn spec_present(self) -> Swapchain {
        Swapchain { size: self.size, acquired: false }
    }

    /// What [`Swapchain::get_current_frame`] returns on `status`, as the
    /// frame's size and format.
    pub open spec fn spec_get_current_frame(
        self,
        status: Result<(), SwapChainError>,
    ) -> Result<(PhysicalSize, TextureFormat), AcquireError> {
        match status {
            Ok(_) => Ok((self.spec_size(), Self::spec_format())),
            Err(e) => Err(AcquireError::spec_from_status(e)),
        }
    }

    pub fn descriptor(width: u32, height: u32) -> (desc: SwapchainDescriptor)
        ensures
            desc == Self::spec_descriptor(width, height),
    {
        SwapchainDescriptor {
            usage: TextureUsage::render_attachment(),
            format: TextureFormat::Rgba8UnormSrgb,
            width,
            height,
            present_mode: PresentMode::Fifo,
        }
    }

    /// The chain for a surface of `width` by `height` pixels. No frame of it
    /// is out yet.
    pub fn new(width: u32, height: u32) -> (chain: Swapchain)
        requires
            width > 0,
            height > 0,
        ensures
            chain == Self::spec_new(PhysicalSize { width, height }),
            chain.spec_size() == (PhysicalSize { width, height }),
            !chain.frame_outstanding(),
    {
        Swapchain { size: PhysicalSize { width, height }, acquired: false }
    }

    pub fn size(&self) -> (size: PhysicalSize)
        ensures
            size == self.spec_size(),
    {
        self.size
    }

    pub fn format(&self) -> (format: TextureFormat)
        ensures
            format == Self::spec_format(),
    {
        TextureFormat::Rgba8UnormSrgb
    }

    /// Whether a frame of this chain is out.
    pub fn has_frame(&self) -> (out: bool)
        ensures
            out == self.frame_outstanding(),
    {
        self.acquired
    }

    /// Takes in what the surface answered when it was asked for the next
    /// image. On success the chain hands out the frame, which has the
    /// chain's size and format, and counts it as out; on failure the chain
    /// stays as it was and the report is classified.
    ///
    /// A chain has at most one frame out: asking for a second one before the
    /// first is presented is an error of the caller.
    pub fn get_current_frame(&mut self, status: Result<(), SwapChainError>) -> (r: Result<
        Frame,
        AcquireError,
    >)
        requires
            !old(self).frame_outstanding(),
        ensures
            match r {
                Ok(frame) => old(self).spec_get_current_frame(status) == Ok::<
                    (PhysicalSize, TextureFormat),
                    AcquireError,
                >((frame.spec_size(), frame.spec_format())),
                Err(e) => old(self).spec_get_current_frame(status) == Err::<
                    (PhysicalSize, TextureFormat),
                    AcquireError,
                >(e),
            },
            status is Ok ==> *final(self) == old(self).spec_acquire(),
            status is Err ==> *final(self) == *old(self),
            final(self).spec_size() == old(self).spec_size(),
            final(self).frame_outstanding() == (status is Ok),
    {
        match status {
            Ok(_) => {
                self.acquired = true;
                Ok(Frame { size: self.size, format: TextureFormat::Rgba8UnormSrgb })
            },
            Err(e) => Err(AcquireError::from_status(e)),
        }
    }

    /// Takes back the frame that is out, which is thereby presented.
    pub fn present(&mut self, frame: Frame)
        requires
            old(self).frame_outstanding(),
            frame.spec_size() == old(self).spec_size(),
        ensures
            *final(self) == old(self).spec_present(),
            final(self).spec_size() == old(self).spec_size(),
            !final(self).frame_outstanding(),
    {
        self.acquired = false;
    }
}

/// A chain that was just made has the size it was made for and can hand out
/// a frame of that size. Once it has, a frame is out, so it cannot hand out
/// another before that one is presented: between two changes of the chain
/// it grants exactly one frame. Presenting the frame brings the chain back
/// to where it was.
pub proof fn lemma_new_chain_grants_one_frame(size: PhysicalSize)
    requires
        size.presentable(),
    ensures
        Swapchain::spec_new(size).spec_size() == size,
        !Swapchain::spec_new(size).frame_outstanding(),
        Swapchain::spec_new(size).spec_get_current_frame(Ok(())) == Ok::<
            (PhysicalSize, TextureFormat),
            AcquireError,
        >((size, Swapchain::spec_format())),
        Swapchain::spec_new(size).spec_acquire().frame_outstanding(),
        Swapchain::spec_new(size).spec_acquire().spec_size() == size,
        Swapchain::spec_new(size).spec_acquire().spec_present() == Swapchain::spec_new(size),
{
}

} // verus!
