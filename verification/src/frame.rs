use vstd::prelude::*;

verus! {

/// The primitive kinds an indexed draw can name.
#[derive(Clone, Copy, Debug, PartialEq, Eq, Structural)]
pub enum PrimitiveKind {
    Points,
    Lines,
    LineStrip,
    Triangles,
    TriangleStrip,
    TriangleFan,
}

/// The integer widths an index buffer can use.
#[derive(Clone, Copy, Debug, PartialEq, Eq, Structural)]
pub enum IndexKind {
    UnsignedByte,
    UnsignedShort,
    UnsignedInt,
}

/// One indexed draw call: the primitive kind, how many indices to
/// consume, their width, and the byte offset into the index buffer.
#[derive(Clone, Copy, Debug, PartialEq, Eq, Structural)]
pub struct DrawCall {
    pub mode: PrimitiveKind,
    pub count: u32,
    pub index_kind: IndexKind,
    pub offset: u32,
}

/// How one vertex attribute reads its buffer: which attribute location
/// it feeds, how many float components each vertex takes, whether the
/// values are normalized, and the stride and offset in bytes.
#[derive(Clone, Copy, Debug, PartialEq, Eq, Structural)]
pub struct VertexAttrib {
    pub location: u32,
    pub components: u32,
    pub normalized: bool,
    pub stride: u32,
    pub offset: u32,
}

/// The perspective projection: vertical field of view in whole degrees,
/// and the aspect ratio and clip planes in thousandths (the host
/// divides by 1000 when it builds the floating-point matrix).
#[derive(Clone, Copy, Debug, PartialEq, Eq, Structural)]
pub struct Perspective {
    pub fov_y_degrees: u32,
    pub aspect_thousandths: u32,
    pub z_near_thousandths: u32,
    pub z_far_thousandths: u32,
}

/// The model placement: a translation along the z axis in whole units,
/// and one Euler angle in thousandths of a radian that the host applies
/// to all three axes in a fixed order — the same angle on every axis is
/// deliberate and yields the tumbling motion.
#[derive(Clone, Copy, Debug, PartialEq, Eq, Structural)]
pub struct ModelView {
    pub translate_z: i32,
    pub euler_angle_mrad: u64,
}

/// Everything one frame's drawing depends on: which buffers to clear,
/// the two matrix parameter sets, the two vertex attribute bindings,
/// and the single draw call.
#[derive(Clone, Copy, Debug, PartialEq, Eq, Structural)]
pub struct FrameParams {
    pub clear_color: bool,
    pub clear_depth: bool,
    pub projection: Perspective,
    pub model_view: ModelView,
    /// Matrices are handed over column-major; the driver must not
    /// transpose them on upload.
    pub matrix_transpose: bool,
    pub position_attrib: VertexAttrib,
    pub color_attrib: VertexAttrib,
    pub draw: DrawCall,
}

/// The depth comparison modes a context can be configured with.
#[derive(Clone, Copy, Debug, PartialEq, Eq, Structural)]
pub enum DepthComparison {
    Never,
    Less,
    Equal,
    LessOrEqual,
    Greater,
    NotEqual,
    GreaterOrEqual,
    Always,
}

/// The fixed render state configured once at construction: which clear
/// color (components 0 or 1, opaque black), which clear depth (whole
/// units), and the depth test with its comparison.
#[derive(Clone, Copy, Debug, PartialEq, Eq, Structural)]
pub struct RenderState {
    pub clear_red: u8,
    pub clear_green: u8,
    pub clear_blue: u8,
    pub clear_alpha: u8,
    pub clear_depth: u8,
    pub depth_test: bool,
    pub depth_comparison: DepthComparison,
}

pub open spec fn initial_render_state_spec() -> RenderState {
    RenderState {
        clear_red: 0,
        clear_green: 0,
        clear_blue: 0,
        clear_alpha: 1,
        clear_depth: 1,
        depth_test: true,
        depth_comparison: DepthComparison::LessOrEqual,
    }
}

/// The render state the host configures right after construction:
/// clear color opaque black, clear depth 1, depth testing enabled with
/// the less-or-equal comparison.
pub fn initial_render_state() -> (r: RenderState)
    ensures
        r == initial_render_state_spec(),
{
    RenderState {
        clear_red: 0,
        clear_green: 0,
        clear_blue: 0,
        clear_alpha: 1,
        clear_depth: 1,
        depth_test: true,
        depth_comparison: DepthComparison::LessOrEqual,
    }
}

} // verus!
