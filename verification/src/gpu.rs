//! Plain-data vocabulary of the graphics device: formats, usages and the
//! fixed-function state that a pipeline and a render pass are made of.

use vstd::prelude::*;

verus! {

/// Texel formats that the renderer uses.
#[derive(Clone, Copy, Debug, PartialEq, Eq, Structural)]
pub enum TextureFormat {
    /// Combined 24-bit depth and 8-bit stencil.
    Depth24PlusStencil8,
    /// 32-bit floating point depth, no stencil.
    Depth32Float,
    /// Four 16-bit floating point channels: the high dynamic range format.
    Rgba16Float,
    /// Four 8-bit channels, blue first, sRGB encoded.
    Bgra8UnormSrgb,
    /// Four 8-bit channels, red first, sRGB encoded.
    Rgba8UnormSrgb,
    /// Whatever format the presentation surface is configured with.
    Surface,
}

impl TextureFormat {
    /// Whether texels of this format hold a depth value.
    pub open spec fn has_depth(self) -> bool {
        self == TextureFormat::Depth24PlusStencil8 || self == TextureFormat::Depth32Float
    }

    /// Whether texels of this format hold a stencil value.
    pub open spec fn has_stencil(self) -> bool {
        self == TextureFormat::Depth24PlusStencil8
    }

    /// Whether this is a color format.
    pub open spec fn is_color(self) -> bool {
        !self.has_depth()
    }
}

/// What a texture may be used for.
#[derive(Clone, Copy, Debug, PartialEq, Eq, Structural)]
pub struct TextureUsages {
    /// The texture may be copied into.
    pub copy_dst: bool,
    /// The texture may be sampled by a shader.
    pub texture_binding: bool,
    /// The texture may be an attachment of a render pass.
    pub render_attachment: bool,
}

impl TextureUsages {
    /// Attachment only: a texture that no shader ever samples.
    pub open spec fn attachment_only() -> TextureUsages {
        TextureUsages { copy_dst: false, texture_binding: false, render_attachment: true }
    }

    /// Attachment that later passes sample.
    pub open spec fn attachment_and_binding() -> TextureUsages {
        TextureUsages { copy_dst: false, texture_binding: true, render_attachment: true }
    }

    /// Sampled texture that is filled by a copy from the host.
    pub open spec fn binding_and_copy_dst() -> TextureUsages {
        TextureUsages { copy_dst: true, texture_binding: true, render_attachment: false }
    }
}

/// What a buffer may be used for.
#[derive(Clone, Copy, Debug, PartialEq, Eq, Structural)]
pub struct BufferUsages {
    pub copy_dst: bool,
    pub index: bool,
    pub vertex: bool,
    pub uniform: bool,
}

/// Description of a buffer to create.
#[derive(Clone, Copy, Debug, PartialEq, Eq, Structural)]
pub struct BufferDesc {
    /// Size in bytes.
    pub size: u64,
    pub usage: BufferUsages,
    pub mapped_at_creation: bool,
}

/// The part of a texture that a view exposes.
#[derive(Clone, Copy, Debug, PartialEq, Eq, Structural)]
pub enum TextureAspect {
    All,
    StencilOnly,
    DepthOnly,
}

/// Description of a view of a texture; `None` inherits from the texture.
#[derive(Clone, Copy, Debug, PartialEq, Eq, Structural)]
pub struct TextureViewDesc {
    pub format: Option<TextureFormat>,
    pub aspect: TextureAspect,
    pub base_mip_level: u32,
    pub mip_level_count: Option<u32>,
    pub base_array_layer: u32,
    pub array_layer_count: Option<u32>,
}

/// Comparison of a new value against the value already stored.
#[derive(Clone, Copy, Debug, PartialEq, Eq, Structural)]
pub enum CompareFunction {
    Never,
    Less,
    Equal,
    LessEqual,
    Greater,
    NotEqual,
    GreaterEqual,
    Always,
}

/// What happens to a stored stencil value.
#[derive(Clone, Copy, Debug, PartialEq, Eq, Structural)]
pub enum StencilOperation {
    Keep,
    Zero,
    Replace,
    Invert,
    IncrementClamp,
    DecrementClamp,
    IncrementWrap,
    DecrementWrap,
}

/// Stencil test and operations for one facing of a primitive.
#[derive(Clone, Copy, Debug, PartialEq, Eq, Structural)]
pub struct StencilFaceState {
    pub compare: CompareFunction,
    pub fail_op: StencilOperation,
    pub depth_fail_op: StencilOperation,
    pub pass_op: StencilOperation,
}

impl StencilFaceState {
    /// The face state that always passes and never writes.
    pub open spec fn ignore() -> StencilFaceState {
        StencilFaceState {
            compare: CompareFunction::Always,
            fail_op: StencilOperation::Keep,
            depth_fail_op: StencilOperation::Keep,
            pass_op: StencilOperation::Keep,
        }
    }

    /// Whether no outcome of the test changes the stored value.
    pub open spec fn is_read_only(self) -> bool {
        self.pass_op == StencilOperation::Keep && self.depth_fail_op == StencilOperation::Keep
            && self.fail_op == StencilOperation::Keep
    }
}

/// Stencil state of a pipeline.
#[derive(Clone, Copy, Debug, PartialEq, Eq, Structural)]
pub struct StencilState {
    pub front: StencilFaceState,
    pub back: StencilFaceState,
    pub read_mask: u32,
    pub write_mask: u32,
}

impl StencilState {
    /// The disabled stencil state: both faces ignore, both masks zero.
    pub open spec fn disabled() -> StencilState {
        StencilState {
            front: StencilFaceState::ignore(),
            back: StencilFaceState::ignore(),
            read_mask: 0,
            write_mask: 0,
        }
    }
}

/// Depth bias of a pipeline. Slope scale and clamp are whole numbers here;
/// the renderer uses no fractional bias.
#[derive(Clone, Copy, Debug, PartialEq, Eq, Structural)]
pub struct DepthBiasState {
    pub constant: i32,
    pub slope_scale: i32,
    pub clamp: i32,
}

impl DepthBiasState {
    /// No bias.
    pub open spec fn zero() -> DepthBiasState {
        DepthBiasState { constant: 0, slope_scale: 0, clamp: 0 }
    }

    /// Whether the bias moves any depth value.
    pub open spec fn is_enabled(self) -> bool {
        self.constant != 0 || self.slope_scale != 0
    }
}

/// Depth and stencil state of a pipeline.
#[derive(Clone, Copy, Debug, PartialEq, Eq, Structural)]
pub struct DepthStencilState {
    pub format: TextureFormat,
    pub depth_write_enabled: bool,
    pub depth_compare: CompareFunction,
    pub stencil: StencilState,
    pub bias: DepthBiasState,
}

/// Weight of a color in a blend equation.
#[derive(Clone, Copy, Debug, PartialEq, Eq, Structural)]
pub enum BlendFactor {
    Zero,
    One,
    SrcAlpha,
    OneMinusSrcAlpha,
    DstAlpha,
    OneMinusDstAlpha,
}

/// How the weighted source and destination are combined.
#[derive(Clone, Copy, Debug, PartialEq, Eq, Structural)]
pub enum BlendOperation {
    Add,
    Subtract,
    ReverseSubtract,
    Min,
    Max,
}

/// Blend equation of the color channels or of the alpha channel.
#[derive(Clone, Copy, Debug, PartialEq, Eq, Structural)]
pub struct BlendComponent {
    pub src_factor: BlendFactor,
    pub dst_factor: BlendFactor,
    pub operation: BlendOperation,
}

impl BlendComponent {
    /// The source replaces the destination.
    pub open spec fn replace() -> BlendComponent {
        BlendComponent {
            src_factor: BlendFactor::One,
            dst_factor: BlendFactor::Zero,
            operation: BlendOperation::Add,
        }
    }
}

/// Blend equations of a color target.
#[derive(Clone, Copy, Debug, PartialEq, Eq, Structural)]
pub struct BlendState {
    pub color: BlendComponent,
    pub alpha: BlendComponent,
}

impl BlendState {
    /// The source replaces the destination in every channel.
    pub open spec fn replace() -> BlendState {
        BlendState { color: BlendComponent::replace(), alpha: BlendComponent::replace() }
    }

    /// Straight alpha, source over destination.
    pub open spec fn source_over() -> BlendState {
        BlendState {
            color: BlendComponent {
                src_factor: BlendFactor::SrcAlpha,
                dst_factor: BlendFactor::OneMinusSrcAlpha,
                operation: BlendOperation::Add,
            },
            alpha: BlendComponent {
                src_factor: BlendFactor::One,
                dst_factor: BlendFactor::OneMinusSrcAlpha,
                operation: BlendOperation::Add,
            },
        }
    }
}

/// Mask that lets a pipeline write all four channels of a color target.
pub const COLOR_WRITES_ALL: u32 = 0xF;

/// One color target of a pipeline.
#[derive(Clone, Copy, Debug, PartialEq, Eq, Structural)]
pub struct ColorTargetState {
    pub format: TextureFormat,
    pub blend: Option<BlendState>,
    pub write_mask: u32,
}

/// How vertices are assembled into primitives.
#[derive(Clone, Copy, Debug, PartialEq, Eq, Structural)]
pub enum PrimitiveTopology {
    PointList,
    LineList,
    LineStrip,
    TriangleList,
    TriangleStrip,
}

/// Winding order of a front-facing triangle.
#[derive(Clone, Copy, Debug, PartialEq, Eq, Structural)]
pub enum FrontFace {
    Ccw,
    Cw,
}

/// Facing of a triangle.
#[derive(Clone, Copy, Debug, PartialEq, Eq, Structural)]
pub enum Face {
    Front,
    Back,
}

/// Primitive assembly and rasterization state of a pipeline. Polygons are
/// always filled, depth is always clipped, rasterization is never
/// conservative.
#[derive(Clone, Copy, Debug, PartialEq, Eq, Structural)]
pub struct PrimitiveState {
    pub topology: PrimitiveTopology,
    pub front_face: FrontFace,
    pub cull_mode: Option<Face>,
}

impl PrimitiveState {
    /// Triangle lists, counter-clockwise front faces, no culling.
    pub open spec fn standard() -> PrimitiveState {
        PrimitiveState {
            topology: PrimitiveTopology::TriangleList,
            front_face: FrontFace::Ccw,
            cull_mode: None,
        }
    }
}

/// Mask that enables every sample of a multisampled target.
pub const SAMPLE_MASK_ALL: u64 = 0xFFFF_FFFF_FFFF_FFFF;

/// Multisampling state of a pipeline.
#[derive(Clone, Copy, Debug, PartialEq, Eq, Structural)]
pub struct MultisampleState {
    pub count: u32,
    pub mask: u64,
    pub alpha_to_coverage_enabled: bool,
}

impl MultisampleState {
    /// `count` samples, all enabled, no alpha to coverage.
    pub open spec fn with_count(count: u32) -> MultisampleState {
        MultisampleState { count, mask: SAMPLE_MASK_ALL, alpha_to_coverage_enabled: false }
    }
}

/// How texture coordinates outside the unit square are treated.
#[derive(Clone, Copy, Debug, PartialEq, Eq, Structural)]
pub enum AddressMode {
    ClampToEdge,
    Repeat,
    MirrorRepeat,
}

/// How texels are combined when a texture is sampled.
#[derive(Clone, Copy, Debug, PartialEq, Eq, Structural)]
pub enum FilterMode {
    Nearest,
    Linear,
}

/// Description of a sampler. The three address modes are always equal, the
/// level-of-detail clamps are whole numbers, and there is no border color.
#[derive(Clone, Copy, Debug, PartialEq, Eq, Structural)]
pub struct SamplerDesc {
    pub address_mode: AddressMode,
    pub mag_filter: FilterMode,
    pub min_filter: FilterMode,
    pub mipmap_filter: FilterMode,
    pub lod_min_clamp: u32,
    pub lod_max_clamp: u32,
    pub compare: Option<CompareFunction>,
    pub anisotropy_clamp: u16,
}

impl SamplerDesc {
    /// Whether the sampler interpolates between texels.
    pub open spec fn is_filtering(self) -> bool {
        self.mag_filter == FilterMode::Linear || self.min_filter == FilterMode::Linear
            || self.mipmap_filter == FilterMode::Linear
    }

    /// Whether the sampler compares instead of returning texels.
    pub open spec fn is_comparison(self) -> bool {
        self.compare is Some
    }
}

/// The shader stage that sees a binding.
#[derive(Clone, Copy, Debug, PartialEq, Eq, Structural)]
pub enum ShaderStage {
    Vertex,
    Fragment,
}

/// What a shader gets when it samples a texture.
#[derive(Clone, Copy, Debug, PartialEq, Eq, Structural)]
pub enum TextureSampleType {
    /// Floating point texels; `filterable` admits a filtering sampler.
    Float { filterable: bool },
    /// Depth texels.
    Depth,
}

/// What kind of sampler a binding admits.
#[derive(Clone, Copy, Debug, PartialEq, Eq, Structural)]
pub enum SamplerBindingType {
    Filtering,
    NonFiltering,
    Comparison,
}

/// Type of one binding of a bind group layout. Buffers are uniform buffers
/// without dynamic offset, textures are two-dimensional.
#[derive(Clone, Copy, Debug, PartialEq, Eq, Structural)]
pub enum BindingType {
    /// A uniform buffer of at least `min_binding_size` bytes, if given.
    UniformBuffer { min_binding_size: Option<u64> },
    /// A sampled texture.
    Texture { sample_type: TextureSampleType, multisampled: bool },
    /// A sampler.
    Sampler(SamplerBindingType),
}

/// One entry of a bind group layout.
#[derive(Clone, Copy, Debug, PartialEq, Eq, Structural)]
pub struct BindGroupLayoutEntry {
    pub binding: u32,
    pub visibility: ShaderStage,
    pub ty: BindingType,
}

/// What a render pass does with an attachment's contents when it ends.
#[derive(Clone, Copy, Debug, PartialEq, Eq, Structural)]
pub enum StoreOp {
    Store,
    Discard,
}

/// The colors that a pass clears a color attachment to.
#[derive(Clone, Copy, Debug, PartialEq, Eq, Structural)]
pub enum ClearColor {
    /// All channels zero.
    Transparent,
    /// Opaque black.
    Black,
    /// Opaque red: the value that an untouched normal texel holds.
    Red,
    /// The opaque background color of the scene.
    Background,
}

/// What a render pass does with a color attachment when it begins.
#[derive(Clone, Copy, Debug, PartialEq, Eq, Structural)]
pub enum ColorLoad {
    /// Keep what earlier passes of the frame left.
    Load,
    /// Start from the given color.
    Clear(ClearColor),
}

/// What a render pass does with the depth values when it begins.
#[derive(Clone, Copy, Debug, PartialEq, Eq, Structural)]
pub enum DepthLoad {
    /// Keep what earlier passes of the frame left.
    Load,
    /// Start from the far plane, depth 1.
    ClearFar,
}

/// What a render pass does with the stencil values when it begins.
#[derive(Clone, Copy, Debug, PartialEq, Eq, Structural)]
pub enum StencilLoad {
    /// Keep what earlier passes of the frame left.
    Load,
    /// Start from the given value.
    Clear(u32),
}

} // verus!
