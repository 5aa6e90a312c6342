use vstd::prelude::*;

verus! {

/// Bytes in one 32-bit float.
pub const FLOAT32_BYTES: u64 = 4;

/// Bytes in two 32-bit floats, the `[f32; 2]` fields of a text instance.
pub const FLOAT32X2_BYTES: u64 = 2 * FLOAT32_BYTES;

/// The vertex formats a text instance uses.
#[derive(Debug, Clone, Copy, PartialEq, Eq, Structural)]
pub enum VertexFormat {
    /// Two 32-bit floats.
    Float32x2,
}

/// How often the vertex buffer advances.
#[derive(Debug, Clone, Copy, PartialEq, Eq, Structural)]
pub enum VertexStepMode {
    Vertex,
    Instance,
}

/// One attribute of a vertex buffer: where it starts within an element, the
/// shader location it feeds, and its format.
#[derive(Debug, Clone, Copy, PartialEq, Eq, Structural)]
pub struct VertexAttribute {
    pub offset: u64,
    pub shader_location: u32,
    pub format: VertexFormat,
}

/// The layout of a vertex buffer: the size of one element, how the buffer
/// steps, and the attributes of an element.
pub struct InstanceLayout {
    pub array_stride: u64,
    pub step_mode: VertexStepMode,
    pub attributes: Vec<VertexAttribute>,
}

/// Size in bytes of one value of a vertex format.
pub open spec fn format_size(format: VertexFormat) -> int {
    match format {
        VertexFormat::Float32x2 => FLOAT32X2_BYTES as int,
    }
}

/// Size of one text instance as the GPU reads it: a position and a size,
/// each two 32-bit floats, laid out one after the other.
pub open spec fn text_instance_bytes() -> int {
    2 * FLOAT32X2_BYTES
}

/// A layout is packed when its attributes follow one another without gaps
/// or overlap from offset zero, their shader locations are their positions
/// in the list, and together they fill exactly one element.
pub open spec fn packed_layout(stride: int, attributes: Seq<VertexAttribute>) -> bool {
    &&& attributes.len() > 0
    &&& attributes[0].offset == 0
    &&& forall|i: int|
        0 <= i < attributes.len() ==> #[trigger] attributes[i].shader_location == i
    &&& forall|i: int|
        0 <= i < attributes.len() - 1 ==> #[trigger] attributes[i + 1].offset == attributes[i].offset
            + format_size(attributes[i].format)
    &&& attributes.last().offset + format_size(attributes.last().format) == stride
}

/// The vertex buffer layout of text instances: one element per instance,
/// `16` bytes each, with the position (two floats at offset `0`, shader
/// location `0`) followed by the size (two floats at offset `8`, shader
/// location `1`).
pub fn text_instance_layout() -> (layout: InstanceLayout)
    ensures
        layout.array_stride == text_instance_bytes(),
        layout.step_mode == VertexStepMode::Instance,
        layout.attributes@ == seq![
            VertexAttribute { offset: 0, shader_location: 0, format: VertexFormat::Float32x2 },
            VertexAttribute {
                offset: FLOAT32X2_BYTES,
                shader_location: 1,
                format: VertexFormat::Float32x2,
            },
        ],
{
    let mut attributes: Vec<VertexAttribute> = Vec::new();
    attributes.push(
        VertexAttribute { offset: 0, shader_location: 0, format: VertexFormat::Float32x2 },
    );
    attributes.push(
        VertexAttribute {
            offset: FLOAT32X2_BYTES,
            shader_location: 1,
            format: VertexFormat::Float32x2,
        },
    );
    let layout = InstanceLayout {
        array_stride: 2 * FLOAT32X2_BYTES,
        step_mode: VertexStepMode::Instance,
        attributes,
    };
    assert(layout.attributes@ =~= seq![
        VertexAttribute { offset: 0, shader_location: 0, format: VertexFormat::Float32x2 },
        VertexAttribute {
            offset: FLOAT32X2_BYTES,
            shader_location: 1,
            format: VertexFormat::Float32x2,
        },
    ]);
    layout
}

/// The text instance layout is packed: its attributes tile one instance
/// exactly, so each attribute reads its own field and no byte twice.
pub proof fn lemma_text_instance_layout_packed()
    ensures
        packed_layout(
            text_instance_bytes(),
            seq![
                VertexAttribute { offset: 0, shader_location: 0, format: VertexFormat::Float32x2 },
                VertexAttribute {
                    offset: FLOAT32X2_BYTES,
                    shader_location: 1,
                    format: VertexFormat::Float32x2,
                },
            ],
        ),
{
    let attrs = seq![
        VertexAttribute { offset: 0, shader_location: 0, format: VertexFormat::Float32x2 },
        VertexAttribute {
            offset: FLOAT32X2_BYTES,
            shader_location: 1,
            format: VertexFormat::Float32x2,
        },
    ];
    assert(attrs[0].shader_location == 0);
    assert(attrs[1].shader_location == 1);
}

} // verus!
