//! Vertex layouts and the bookkeeping of GPU-resident buffers.

use vstd::prelude::*;

verus! {

/// The format of one vertex attribute: a tuple of 32-bit floating-point
/// components.
#[derive(Clone, Copy, Debug, PartialEq, Eq, Structural)]
pub enum VertexFormat {
    Float32,
    Float32x2,
    Float32x3,
    Float32x4,
}

impl VertexFormat {
    /// Number of components in the tuple.
    pub open spec fn components(self) -> nat {
        match self {
            VertexFormat::Float32 => 1,
            VertexFormat::Float32x2 => 2,
            VertexFormat::Float32x3 => 3,
            VertexFormat::Float32x4 => 4,
        }
    }

    /// Size of the attribute in bytes: four bytes per component.
    pub open spec fn spec_size(self) -> nat {
        4 * self.components()
    }

    /// Size of the attribute in bytes.
    pub fn size(&self) -> (bytes: u64)
        ensures
            bytes == self.spec_size(),
            4 <= bytes <= 16,
    {
        match self {
            VertexFormat::Float32 => 4,
            VertexFormat::Float32x2 => 8,
            VertexFormat::Float32x3 => 12,
            VertexFormat::Float32x4 => 16,
        }
    }
}

/// Sum of the sizes of the first `n` formats of `formats`: the byte offset at
/// which attribute `n` starts in an interleaved vertex, and, for
/// `n == formats.len()`, the size of the whole vertex.
pub open spec fn offset_of(formats: Seq<VertexFormat>, n: int) -> nat
    decreases n,
{
    if n <= 0 {
        0
    } else {
        offset_of(formats, n - 1) + formats[n - 1].spec_size()
    }
}

/// Size in bytes of one interleaved vertex made of `formats`.
pub open spec fn stride_of(formats: Seq<VertexFormat>) -> nat {
    offset_of(formats, formats.len() as int)
}

/// Offsets grow with the index: an attribute starts where the one before it
/// ends, so no two attributes overlap.
pub proof fn lemma_offsets_do_not_overlap(formats: Seq<VertexFormat>, i: int, j: int)
    requires
        0 <= i < j <= formats.len(),
    ensures
        offset_of(formats, i) + formats[i].spec_size() <= offset_of(formats, j),
    decreases j - i,
{
    if j > i + 1 {
        lemma_offsets_do_not_overlap(formats, i, j - 1);
    }
}

/// An offset is bounded by sixteen bytes for each attribute before it.
pub proof fn lemma_offset_bound(formats: Seq<VertexFormat>, n: int)
    requires
        0 <= n <= formats.len(),
    ensures
        4 * n <= offset_of(formats, n) <= 16 * n,
    decreases n,
{
    if n > 0 {
        lemma_offset_bound(formats, n - 1);
    }
}

/// Whether a buffer advances per vertex or per instance.
#[derive(Clone, Copy, Debug, PartialEq, Eq, Structural)]
pub enum InputStepMode {
    Vertex,
    Instance,
}

/// One attribute of an interleaved vertex.
#[derive(Clone, Copy, Debug, PartialEq, Eq, Structural)]
pub struct VertexAttribute {
    /// Byte offset of the attribute from the start of the vertex.
    pub offset: u64,
    /// Location by which the vertex shader reads the attribute.
    pub shader_location: u32,
    pub format: VertexFormat,
}

/// How the vertices of one buffer are laid out.
#[derive(Clone, Debug)]
pub struct VertexBufferLayout {
    /// Distance in bytes between two consecutive vertices.
    pub array_stride: u64,
    pub step_mode: InputStepMode,
    pub attributes: Vec<VertexAttribute>,
}

impl VertexBufferLayout {
    /// The layout is the interleaved, per-vertex layout of `formats`:
    /// attribute `i` has format `formats[i]`, is read at shader location `i`
    /// and starts where attribute `i - 1` ends; the stride is the size of all
    /// attributes together.
    pub open spec fn interleaves(&self, formats: Seq<VertexFormat>) -> bool {
        &&& self.array_stride == stride_of(formats)
        &&& self.step_mode == InputStepMode::Vertex
        &&& self.attributes@.len() == formats.len()
        &&& forall|i: int|
            0 <= i < formats.len() ==> #[trigger] self.attributes@[i] == (VertexAttribute {
                offset: offset_of(formats, i) as u64,
                shader_location: i as u32,
                format: formats[i],
            })
    }

    /// Two layouts describe the same bytes.
    pub open spec fn same_as(&self, other: &VertexBufferLayout) -> bool {
        &&& self.array_stride == other.array_stride
        &&& self.step_mode == other.step_mode
        &&& self.attributes@ == other.attributes@
    }

    /// Whether two layouts describe the same bytes.
    pub fn matches(&self, other: &VertexBufferLayout) -> (r: bool)
        ensures
            r == self.same_as(other),
    {
        if self.array_stride != other.array_stride || self.step_mode != other.step_mode
            || self.attributes.len() != other.attributes.len() {
            return false;
        }
        let mut i: usize = 0;
        while i < self.attributes.len()
            invariant
                0 <= i <= self.attributes@.len(),
                self.attributes@.len() == other.attributes@.len(),
                forall|k: int| 0 <= k < i ==> self.attributes@[k] == other.attributes@[k],
            decreases self.attributes@.len() - i,
        {
            if self.attributes[i] != other.attributes[i] {
                return false;
            }
            i = i + 1;
        }
        assert(self.attributes@ =~= other.attributes@);
        true
    }
}

/// What a buffer is bound as.
#[derive(Clone, Copy, Debug, PartialEq, Eq, Structural)]
pub enum BufferUsage {
    Vertex,
    Index,
    Uniform,
}

/// Why a buffer cannot be made of the given contents.
#[derive(Clone, Copy, Debug, PartialEq, Eq, Structural)]
pub enum BufferError {
    /// The element size is zero, so the contents hold no elements.
    EmptyElement,
    /// The contents are not a whole number of elements.
    PartialElement,
    /// There are more elements than one draw call can cover.
    TooManyElements,
}

/// A range of bytes of a buffer: `size` bytes from `offset`, or everything
/// from `offset` to the end where `size` is `None`.
#[derive(Clone, Copy, Debug, PartialEq, Eq, Structural)]
pub struct BufferSlice {
    pub offset: u64,
    pub size: Option<u64>,
}

/// The element count and element size of a buffer that lives on the GPU.
/// The contents are written once, when the buffer is made.
#[derive(Clone, Copy, Debug, PartialEq, Eq, Structural)]
pub struct Buffer {
    size: usize,
    element_size: u64,
    usage: BufferUsage,
}

impl Buffer {
    /// The number of elements, which one draw call can cover.
    pub closed spec fn spec_size(&self) -> nat {
        self.size as nat
    }

    /// The size of one element in bytes.
    pub closed spec fn spec_element_size(&self) -> nat {
        self.element_size as nat
    }

    pub closed spec fn spec_usage(&self) -> BufferUsage {
        self.usage
    }

    /// A buffer holds at least one byte per element and no more elements than
    /// a draw call can count.
    pub open spec fn wf(&self) -> bool {
        &&& self.spec_element_size() > 0
        &&& self.spec_size() <= u32::MAX
    }

    /// The buffer that `len` bytes of contents make when each element takes
    /// `element_size` bytes, or the reason why they make none.
    pub open spec fn spec_new(len: nat, element_size: nat) -> Result<nat, BufferError> {
        if element_size == 0 {
            Err(BufferError::EmptyElement)
        } else if len % element_size != 0 {
            Err(BufferError::PartialElement)
        } else if len / element_size > u32::MAX {
            Err(BufferError::TooManyElements)
        } else {
            Ok(len / element_size)
        }
    }

    /// Describes a buffer of `len` bytes whose elements take `element_size`
    /// bytes each.
    pub fn new(len: usize, element_size: u64, usage: BufferUsage) -> (r: Result<Buffer, BufferError>)
        ensures
            match r {
                Ok(buffer) => {
                    &&& Self::spec_new(len as nat, element_size as nat) == Ok::<nat, BufferError>(
                        buffer.spec_size(),
                    )
                    &&& buffer.spec_element_size() == element_size
                    &&& buffer.spec_usage() == usage
                    &&& buffer.wf()
                },
                Err(e) => Self::spec_new(len as nat, element_size as nat) == Err::<
                    nat,
                    BufferError,
                >(e),
            },
    {
        if element_size == 0 {
            return Err(BufferError::EmptyElement);
        }
        let len64: u64 = len as u64;
        if len64 % element_size != 0 {
            return Err(BufferError::PartialElement);
        }
        let count: u64 = len64 / element_size;
        if count > u32::MAX as u64 {
            return Err(BufferError::TooManyElements);
        }
        assert(count <= len64) by (nonlinear_arith)
            requires
                count == len64 / element_size,
                element_size > 0,
        ;
        Ok(Buffer { size: count as usize, element_size, usage })
    }

    /// The number of elements in the buffer.
    pub fn size(&self) -> (n: usize)
        ensures
            n == self.spec_size(),
    {
        self.size
    }

    /// The size of one element in bytes.
    pub fn element_size(&self) -> (n: u64)
        ensures
            n == self.spec_element_size(),
    {
        self.element_size
    }

    pub fn usage(&self) -> (u: BufferUsage)
        ensures
            u == self.spec_usage(),
    {
        self.usage
    }

    /// The bytes from `start` up to, but not including, `end`; up to the end
    /// of the buffer where `end` is `None`. A slice is never empty.
    pub fn slice(&self, start: u64, end: Option<u64>) -> (s: BufferSlice)
        requires
            end matches Some(e) ==> start < e,
        ensures
            s.offset == start,
            s.size == match end {
                Some(e) => Some((e - start) as u64),
                None => None::<u64>,
            },
    {
        match end {
            Some(e) => BufferSlice { offset: start, size: Some(e - start) },
            None => BufferSlice { offset: start, size: None },
        }
    }

    /// The interleaved layout of vertices whose attributes have the given
    /// formats, in the order given.
    pub fn desc(formats: &Vec<VertexFormat>) -> (layout: VertexBufferLayout)
        requires
            formats@.len() <= u32::MAX,
        ensures
            layout.interleaves(formats@),
    {
        let mut attributes: Vec<VertexAttribute> = Vec::new();
        let mut offset: u64 = 0;
        let mut i: usize = 0;
        while i < formats.len()
            invariant
                formats@.len() <= u32::MAX,
                0 <= i <= formats@.len(),
                offset == offset_of(formats@, i as int),
                attributes@.len() == i,
                forall|k: int|
                    0 <= k < i ==> #[trigger] attributes@[k] == (VertexAttribute {
                        offset: offset_of(formats@, k) as u64,
                        shader_location: k as u32,
                        format: formats@[k],
                    }),
            decreases formats@.len() - i,
        {
            let format: VertexFormat = formats[i];
            proof {
                lemma_offset_bound(formats@, i as int);
            }
            attributes.push(VertexAttribute { offset, shader_location: i as u32, format });
            offset = offset + format.size();
            i = i + 1;
        }
        VertexBufferLayout { array_stride: offset, step_mode: InputStepMode::Vertex, attributes }
    }
}

} // verus!
