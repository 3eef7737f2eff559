use render_core::graphics::{
    Buffer, BufferError, BufferSlice, BufferUsage, InputStepMode, VertexAttribute,
    VertexBufferLayout, VertexFormat,
};

fn offsets(layout: &VertexBufferLayout) -> Vec<u64> {
    layout.attributes.iter().map(|a| a.offset).collect()
}

#[test]
fn two_float2_attributes_second_offset_is_8() {
    let layout = Buffer::desc(&vec![VertexFormat::Float32x2, VertexFormat::Float32x2]);
    assert_eq!(offsets(&layout), vec![0, 8]);
    assert_eq!(layout.attributes[1].offset, 8);
    assert_eq!(layout.array_stride, 16);
    assert_eq!(layout.step_mode, InputStepMode::Vertex);
}

#[test]
fn position_uv_color_opacity_offsets() {
    let formats = vec![
        VertexFormat::Float32x3,
        VertexFormat::Float32x2,
        VertexFormat::Float32x3,
        VertexFormat::Float32,
    ];
    let sizes: Vec<u64> = formats.iter().map(|f| f.size()).collect();
    assert_eq!(sizes, vec![12, 8, 12, 4]);
    let layout = Buffer::desc(&formats);
    assert_eq!(offsets(&layout), vec![0, 12, 20, 32]);
    assert_eq!(layout.array_stride, 36);
}

#[test]
fn attributes_keep_order_location_and_format() {
    let layout = Buffer::desc(&vec![VertexFormat::Float32x4, VertexFormat::Float32]);
    assert_eq!(
        layout.attributes,
        vec![
            VertexAttribute { offset: 0, shader_location: 0, format: VertexFormat::Float32x4 },
            VertexAttribute { offset: 16, shader_location: 1, format: VertexFormat::Float32 },
        ]
    );
    assert_eq!(layout.array_stride, 20);
}

#[test]
fn empty_format_has_empty_layout() {
    let layout = Buffer::desc(&Vec::new());
    assert!(layout.attributes.is_empty());
    assert_eq!(layout.array_stride, 0);
}

#[test]
fn offsets_never_overlap() {
    let formats = vec![
        VertexFormat::Float32,
        VertexFormat::Float32x4,
        VertexFormat::Float32x2,
        VertexFormat::Float32x3,
        VertexFormat::Float32,
    ];
    let layout = Buffer::desc(&formats);
    for i in 1..layout.attributes.len() {
        let before = &layout.attributes[i - 1];
        assert_eq!(before.offset + before.format.size(), layout.attributes[i].offset);
    }
    let last = &layout.attributes[formats.len() - 1];
    assert_eq!(last.offset + last.format.size(), layout.array_stride);
}

#[test]
fn format_sizes_are_four_bytes_per_component() {
    assert_eq!(VertexFormat::Float32.size(), 4);
    assert_eq!(VertexFormat::Float32x2.size(), 8);
    assert_eq!(VertexFormat::Float32x3.size(), 12);
    assert_eq!(VertexFormat::Float32x4.size(), 16);
}

#[test]
fn layouts_match_by_content() {
    let a = Buffer::desc(&vec![VertexFormat::Float32x2, VertexFormat::Float32x2]);
    let b = Buffer::desc(&vec![VertexFormat::Float32x2, VertexFormat::Float32x2]);
    let c = Buffer::desc(&vec![VertexFormat::Float32x2, VertexFormat::Float32x3]);
    let d = Buffer::desc(&vec![VertexFormat::Float32x4]);
    assert!(a.matches(&b));
    assert!(!a.matches(&c));
    assert!(!a.matches(&d));
    let mut e = Buffer::desc(&vec![VertexFormat::Float32x2, VertexFormat::Float32x2]);
    e.step_mode = InputStepMode::Instance;
    assert!(!a.matches(&e));
}

#[test]
fn buffer_counts_whole_elements() {
    let buffer = Buffer::new(48, 16, BufferUsage::Vertex).unwrap();
    assert_eq!(buffer.size(), 3);
    assert_eq!(buffer.element_size(), 16);
    assert_eq!(buffer.usage(), BufferUsage::Vertex);
    let empty = Buffer::new(0, 16, BufferUsage::Vertex).unwrap();
    assert_eq!(empty.size(), 0);
}

#[test]
fn buffer_rejects_zero_element_size() {
    assert_eq!(Buffer::new(48, 0, BufferUsage::Vertex), Err(BufferError::EmptyElement));
    assert_eq!(Buffer::new(0, 0, BufferUsage::Index), Err(BufferError::EmptyElement));
}

#[test]
fn buffer_rejects_partial_element() {
    assert_eq!(Buffer::new(47, 16, BufferUsage::Vertex), Err(BufferError::PartialElement));
    assert_eq!(Buffer::new(1, 2, BufferUsage::Index), Err(BufferError::PartialElement));
}

#[test]
fn buffer_rejects_more_elements_than_a_draw_counts() {
    let most = u32::MAX as usize;
    assert_eq!(Buffer::new(most, 1, BufferUsage::Vertex).unwrap().size(), most);
    if usize::BITS > 32 {
        let len = (u32::MAX as u64 + 1) as usize;
        assert_eq!(Buffer::new(len, 1, BufferUsage::Vertex), Err(BufferError::TooManyElements));
        assert_eq!(Buffer::new(len * 2, 2, BufferUsage::Index), Err(BufferError::TooManyElements));
        assert_eq!(Buffer::new(len, 2, BufferUsage::Index).unwrap().size(), len / 2);
    }
}

#[test]
fn slice_is_offset_and_size() {
    let buffer = Buffer::new(48, 16, BufferUsage::Vertex).unwrap();
    assert_eq!(buffer.slice(0, None), BufferSlice { offset: 0, size: None });
    assert_eq!(buffer.slice(21, None), BufferSlice { offset: 21, size: None });
    assert_eq!(buffer.slice(0, Some(2)), BufferSlice { offset: 0, size: Some(2) });
    assert_eq!(buffer.slice(2, Some(5)), BufferSlice { offset: 2, size: Some(3) });
}
