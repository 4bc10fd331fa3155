//! Uniform data, the rotation of the mesh, samplers, and the bind groups
//! with their layouts.

use vstd::prelude::*;
use vstd::arithmetic::div_mod::lemma_add_mod_noop_right;
use vstd::arithmetic::div_mod::lemma_mod_add_multiples_vanish;
use vstd::arithmetic::div_mod::lemma_mod_bound;
use vstd::arithmetic::div_mod::lemma_small_mod;
use vstd::arithmetic::div_mod::lemma_sub_mod_noop;
use vstd::arithmetic::mul::lemma_mul_is_distributive_add;
use crate::frame::{Slot, TargetRef};
use crate::gpu::{
    AddressMode, BindGroupLayoutEntry, BindingType, BufferDesc, BufferUsages, FilterMode,
    SamplerBindingType, SamplerDesc, ShaderStage, TextureSampleType,
};
use crate::texture::Texture;

verus! {

/// A full turn, in units of 10^-15 radian.
pub const TAU: u64 = 6_283_185_307_179_586;

/// The rotation that the spin uniform holds: an angle about the vertical
/// axis in units of 10^-15 radian. The caller turns it into a matrix.
#[derive(Clone, Copy, Debug, PartialEq, Eq, Structural)]
pub struct SpinUniform {
    pub angle: u64,
}

impl Default for SpinUniform {
    fn default() -> (u: SpinUniform)
        ensures
            u.angle == 0,
    {
        SpinUniform::new()
    }
}

impl SpinUniform {
    /// The identity: no rotation.
    pub fn new() -> (u: SpinUniform)
        ensures
            u.angle == 0,
    {
        SpinUniform { angle: 0 }
    }

    /// Describes the buffer of the uniform: one 4x4 matrix of 32-bit values
    /// that shaders read and the host overwrites every frame.
    pub fn create_spin_uniform_buffer(&self) -> (b: BufferDesc)
        ensures
            b.size == 64,
            b.usage == (BufferUsages { copy_dst: true, index: false, vertex: false, uniform: true }),
            !b.mapped_at_creation,
    {
        uniform_buffer(64)
    }

    /// Sets the rotation to `angle`.
    pub fn update_from_angle(&mut self, angle: u64)
        ensures
            final(self).angle == angle,
    {
        self.angle = angle;
    }

    /// The layout of the bind group of the uniform, and the bind group.
    pub fn bind_group_for_spin_uniform() -> (r: (BindGroupLayout, BindGroup))
        ensures
            r.0.kind == LayoutKind::Spin,
            r.0.wf(),
            r.1 == BindGroup::Spin,
    {
        let mut entries: Vec<BindGroupLayoutEntry> = Vec::new();
        entries.push(vertex_uniform_entry());
        (BindGroupLayout { kind: LayoutKind::Spin, entries }, BindGroup::Spin)
    }
}

/// The rotation of the mesh: an angle in units of 10^-15 radian and a speed
/// in units of 10^-6 radian per second. A negative speed turns the other
/// way.
#[derive(Clone, Copy, Debug, PartialEq, Eq, Structural)]
pub struct Spin {
    angle: u64,
    speed: i64,
}

/// The sum of the steps of a sequence of ticks.
pub open spec fn total(steps: Seq<u64>) -> nat
    decreases steps.len(),
{
    if steps.len() == 0 {
        0
    } else {
        total(steps.drop_last()) + steps.last() as nat
    }
}

impl Spin {
    /// The angle, at least 0 and below a full turn once `wf` holds.
    pub closed spec fn spec_angle(self) -> u64 {
        self.angle
    }

    /// The speed.
    pub closed spec fn spec_speed(self) -> i64 {
        self.speed
    }

    /// The angle is below a full turn.
    pub open spec fn wf(self) -> bool {
        self.spec_angle() < TAU
    }

    /// The rotation after a tick of `dt` nanoseconds: the angle has advanced
    /// by speed times `dt`, modulo a full turn.
    pub closed spec fn advanced(self, dt: u64) -> Spin {
        Spin { angle: ((self.angle + self.speed * dt) % (TAU as int)) as u64, speed: self.speed }
    }

    /// The rotation after the ticks of `steps`, one after the other.
    pub open spec fn advanced_by(self, steps: Seq<u64>) -> Spin
        decreases steps.len(),
    {
        if steps.len() == 0 {
            self
        } else {
            self.advanced_by(steps.drop_last()).advanced(steps.last())
        }
    }

    /// A rotation at angle 0 with the given speed.
    pub fn new(speed: i64) -> (s: Spin)
        ensures
            s.spec_angle() == 0,
            s.spec_speed() == speed,
            s.wf(),
    {
        Spin { angle: 0, speed }
    }

    /// Advances the angle by speed times `dt` nanoseconds, wrapped to a full
    /// turn: the new angle is at least 0 and below a full turn, whichever
    /// way the mesh turns and however long the tick.
    pub fn update(&mut self, dt: u64)
        ensures
            *final(self) == old(self).advanced(dt),
            final(self).spec_angle() == (old(self).spec_angle() + old(self).spec_speed() * dt) % (
            TAU as int),
            final(self).spec_speed() == old(self).spec_speed(),
            final(self).wf(),
    {
        let turn: u128 = TAU as u128;
        let ghost a = self.angle as int;
        let ghost v = self.speed as int;
        let ghost m = TAU as int;
        proof {
            lemma_mod_bound(a + v * dt, m);
        }
        if self.speed >= 0 {
            let forward: u128 = self.speed as u128;
            assert(0 <= forward * dt <= 0x7FFF_FFFF_FFFF_FFFF * 0xFFFF_FFFF_FFFF_FFFF)
                by (nonlinear_arith)
                requires
                    0 <= forward <= 0x7FFF_FFFF_FFFF_FFFF,
                    0 <= dt <= 0xFFFF_FFFF_FFFF_FFFF,
            ;
            let sum: u128 = self.angle as u128 + forward * (dt as u128);
            let wrapped: u128 = sum % turn;
            self.angle = wrapped as u64;
        } else {
            let backward: u128 = (-(self.speed as i128)) as u128;
            assert(0 <= backward * dt <= 0x8000_0000_0000_0000 * 0xFFFF_FFFF_FFFF_FFFF)
                by (nonlinear_arith)
                requires
                    0 <= backward <= 0x8000_0000_0000_0000,
                    0 <= dt <= 0xFFFF_FFFF_FFFF_FFFF,
            ;
            let back: u128 = (backward * (dt as u128)) % turn;
            let start: u128 = (self.angle as u128) % turn;
            let sum: u128 = start + turn - back;
            let wrapped: u128 = sum % turn;
            proof {
                let y = backward as int * dt as int;
                assert(v * dt == -y) by (nonlinear_arith)
                    requires
                        v == -(backward as int),
                        y == backward as int * dt as int,
                ;
                lemma_sub_mod_noop(a, y, m);
                lemma_mod_add_multiples_vanish(a % m - y % m, m);
                assert(sum as int == m + (a % m - y % m));
            }
            self.angle = wrapped as u64;
        }
    }

    /// The angle, in units of 10^-15 radian.
    pub fn angle(&self) -> (a: u64)
        ensures
            a == self.spec_angle(),
    {
        self.angle
    }

    /// The speed, in units of 10^-6 radian per second.
    pub fn speed(&self) -> (v: i64)
        ensures
            v == self.spec_speed(),
    {
        self.speed
    }
}

/// One tick advances the angle by speed times step, modulo a full turn, and
/// leaves the speed alone.
pub proof fn lemma_advanced(s: Spin, dt: u64)
    ensures
        s.advanced(dt).spec_angle() == (s.spec_angle() + s.spec_speed() * dt) % (TAU as int),
        s.advanced(dt).spec_speed() == s.spec_speed(),
        s.advanced(dt).wf(),
{
    lemma_mod_bound(s.spec_angle() + s.spec_speed() * dt, TAU as int);
}

/// The angle after any sequence of ticks is the angle at the start plus
/// speed times the summed time, modulo a full turn.
pub proof fn lemma_accumulation(s: Spin, steps: Seq<u64>)
    requires
        s.wf(),
    ensures
        s.advanced_by(steps).spec_angle() == (s.spec_angle() + s.spec_speed() * total(steps)) % (
        TAU as int),
        s.advanced_by(steps).spec_speed() == s.spec_speed(),
        s.advanced_by(steps).wf(),
    decreases steps.len(),
{
    let v = s.spec_speed() as int;
    let a = s.spec_angle() as int;
    let m = TAU as int;
    if steps.len() == 0 {
        assert(v * 0 == 0) by (nonlinear_arith);
        lemma_small_mod(a as nat, m as nat);
    } else {
        let head = steps.drop_last();
        let d = steps.last() as int;
        let p = s.advanced_by(head);
        lemma_accumulation(s, head);
        lemma_advanced(p, steps.last());
        lemma_mul_is_distributive_add(v, total(head) as int, d);
        lemma_add_mod_noop_right(v * d, a + v * total(head), m);
        assert((v * d + (a + v * total(head)) % m) % m == (v * d + (a + v * total(head))) % m);
    }
}

/// The angle after a run of ticks depends on the summed time alone, not on
/// how the time was split into ticks.
pub proof fn lemma_split_independent(s: Spin, first: Seq<u64>, second: Seq<u64>)
    requires
        s.wf(),
        total(first) == total(second),
    ensures
        s.advanced_by(first) == s.advanced_by(second),
{
    lemma_accumulation(s, first);
    lemma_accumulation(s, second);
}

/// The direction of one pass of the separable blur, in whole texel steps.
#[derive(Clone, Copy, Debug, PartialEq, Eq, Structural)]
pub struct BlurParams {
    pub x: u32,
    pub y: u32,
}

impl BlurParams {
    /// The blur along `(x, y)`.
    pub fn new(x: u32, y: u32) -> (p: BlurParams)
        ensures
            p.x == x,
            p.y == y,
    {
        BlurParams { x, y }
    }

    /// The horizontal blur, along (1, 0).
    pub open spec fn horizontal() -> BlurParams {
        BlurParams { x: 1, y: 0 }
    }

    /// The vertical blur, along (0, 1).
    pub open spec fn vertical() -> BlurParams {
        BlurParams { x: 0, y: 1 }
    }

    /// Describes the buffer of the blur uniform: two 32-bit components and
    /// two of padding, overwritten before each blur pass.
    pub fn create_blurparams_uniform_buffer(&self) -> (b: BufferDesc)
        ensures
            b.size == 16,
            b.usage == (BufferUsages { copy_dst: true, index: false, vertex: false, uniform: true }),
            !b.mapped_at_creation,
    {
        uniform_buffer(16)
    }
}

fn uniform_buffer(size: u64) -> (b: BufferDesc)
    ensures
        b.size == size,
        b.usage == (BufferUsages { copy_dst: true, index: false, vertex: false, uniform: true }),
        !b.mapped_at_creation,
{
    BufferDesc {
        size,
        usage: BufferUsages { copy_dst: true, index: false, vertex: false, uniform: true },
        mapped_at_creation: false,
    }
}

/// The samplers that bind groups refer to.
#[derive(Clone, Copy, Debug, PartialEq, Eq, Structural)]
pub enum SamplerKind {
    /// The sampler of a texture decoded from an image.
    Image,
    /// The nearest-texel sampler of the normal targets.
    Normal,
    /// The shared linear sampler of the fullscreen passes.
    Linear,
}

/// The shared linear sampler: clamps to the edge, interpolates linearly,
/// does not compare.
pub open spec fn linear_sampler() -> SamplerDesc {
    SamplerDesc {
        address_mode: AddressMode::ClampToEdge,
        mag_filter: FilterMode::Linear,
        min_filter: FilterMode::Linear,
        mipmap_filter: FilterMode::Nearest,
        lod_min_clamp: 0,
        lod_max_clamp: 32,
        compare: None,
        anisotropy_clamp: 1,
    }
}

/// The description of each sampler that a bind group can refer to.
pub open spec fn sampler_desc(kind: SamplerKind) -> SamplerDesc {
    match kind {
        SamplerKind::Image => Texture::image_sampler(),
        SamplerKind::Normal => Texture::normal_sampler(),
        SamplerKind::Linear => linear_sampler(),
    }
}

/// Describes the sampler that a bind group refers to by `kind`.
pub fn sampler_for(kind: SamplerKind) -> (s: SamplerDesc)
    ensures
        s == sampler_desc(kind),
        !s.is_comparison(),
{
    let (mag_filter, min_filter) = match kind {
        SamplerKind::Image => (FilterMode::Linear, FilterMode::Nearest),
        SamplerKind::Normal => (FilterMode::Nearest, FilterMode::Nearest),
        SamplerKind::Linear => (FilterMode::Linear, FilterMode::Linear),
    };
    SamplerDesc {
        address_mode: AddressMode::ClampToEdge,
        mag_filter,
        min_filter,
        mipmap_filter: FilterMode::Nearest,
        lod_min_clamp: 0,
        lod_max_clamp: 32,
        compare: None,
        anisotropy_clamp: 1,
    }
}

/// Describes the shared linear sampler.
pub fn create_linear_sampler() -> (s: SamplerDesc)
    ensures
        s == linear_sampler(),
        !s.is_comparison(),
{
    SamplerDesc {
        address_mode: AddressMode::ClampToEdge,
        mag_filter: FilterMode::Linear,
        min_filter: FilterMode::Linear,
        mipmap_filter: FilterMode::Nearest,
        lod_min_clamp: 0,
        lod_max_clamp: 32,
        compare: None,
        anisotropy_clamp: 1,
    }
}

/// The uniform buffers that bind groups refer to.
#[derive(Clone, Copy, Debug, PartialEq, Eq, Structural)]
pub enum BufferKind {
    Camera,
    Spin,
    BlurParams,
}

/// The bind group layouts of the renderer.
#[derive(Clone, Copy, Debug, PartialEq, Eq, Structural)]
pub enum LayoutKind {
    /// A material: an image texture and its sampler.
    Texture,
    /// The camera uniform.
    Camera,
    /// The spin uniform.
    Spin,
    /// A normal target and its sampler.
    Normal,
    /// Input of a blur pass: a texture, a sampler, the blur uniform.
    Blur,
    /// Input of the edge detection: scene color, a sampler, depth, normals.
    Edge,
    /// Input of the composite: three textures and a sampler.
    Composite,
    /// Input of the tone mapping: a texture and a sampler.
    ToneMap,
}

/// A binding of a filterable, single-sampled float texture, seen by the
/// fragment stage.
pub open spec fn float_texture_entry(binding: u32) -> BindGroupLayoutEntry {
    BindGroupLayoutEntry {
        binding,
        visibility: ShaderStage::Fragment,
        ty: BindingType::Texture {
            sample_type: TextureSampleType::Float { filterable: true },
            multisampled: false,
        },
    }
}

/// A binding of a single-sampled depth texture, seen by the fragment stage.
pub open spec fn depth_texture_entry(binding: u32) -> BindGroupLayoutEntry {
    BindGroupLayoutEntry {
        binding,
        visibility: ShaderStage::Fragment,
        ty: BindingType::Texture { sample_type: TextureSampleType::Depth, multisampled: false },
    }
}

/// A binding of a filtering sampler, seen by the fragment stage.
pub open spec fn sampler_entry(binding: u32) -> BindGroupLayoutEntry {
    BindGroupLayoutEntry {
        binding,
        visibility: ShaderStage::Fragment,
        ty: BindingType::Sampler(SamplerBindingType::Filtering),
    }
}

/// A binding of a uniform buffer of any size, seen by `stage`.
pub open spec fn uniform_entry(binding: u32, stage: ShaderStage) -> BindGroupLayoutEntry {
    BindGroupLayoutEntry {
        binding,
        visibility: stage,
        ty: BindingType::UniformBuffer { min_binding_size: None },
    }
}

/// The entries of each bind group layout, in the order of their bindings.
pub open spec fn layout_entries(kind: LayoutKind) -> Seq<BindGroupLayoutEntry> {
    match kind {
        LayoutKind::Texture => seq![float_texture_entry(0), sampler_entry(1)],
        LayoutKind::Camera => seq![uniform_entry(0, ShaderStage::Vertex)],
        LayoutKind::Spin => seq![uniform_entry(0, ShaderStage::Vertex)],
        LayoutKind::Normal => seq![float_texture_entry(0), sampler_entry(1)],
        LayoutKind::Blur => seq![
            float_texture_entry(0),
            sampler_entry(1),
            uniform_entry(2, ShaderStage::Fragment),
        ],
        LayoutKind::Edge => seq![
            float_texture_entry(0),
            sampler_entry(1),
            depth_texture_entry(2),
            float_texture_entry(3),
        ],
        LayoutKind::Composite => seq![
            float_texture_entry(0),
            float_texture_entry(1),
            float_texture_entry(2),
            sampler_entry(3),
        ],
        LayoutKind::ToneMap => seq![float_texture_entry(0), sampler_entry(1)],
    }
}

/// A bind group layout: its kind and its entries.
#[derive(Clone, Debug, PartialEq, Eq)]
pub struct BindGroupLayout {
    pub kind: LayoutKind,
    pub entries: Vec<BindGroupLayoutEntry>,
}

impl BindGroupLayout {
    /// The entries are those of the kind.
    pub open spec fn wf(&self) -> bool {
        self.entries@ == layout_entries(self.kind)
    }
}

fn float_texture(binding: u32) -> (e: BindGroupLayoutEntry)
    ensures
        e == float_texture_entry(binding),
{
    BindGroupLayoutEntry {
        binding,
        visibility: ShaderStage::Fragment,
        ty: BindingType::Texture {
            sample_type: TextureSampleType::Float { filterable: true },
            multisampled: false,
        },
    }
}

fn depth_texture(binding: u32) -> (e: BindGroupLayoutEntry)
    ensures
        e == depth_texture_entry(binding),
{
    BindGroupLayoutEntry {
        binding,
        visibility: ShaderStage::Fragment,
        ty: BindingType::Texture { sample_type: TextureSampleType::Depth, multisampled: false },
    }
}

fn filtering_sampler(binding: u32) -> (e: BindGroupLayoutEntry)
    ensures
        e == sampler_entry(binding),
{
    BindGroupLayoutEntry {
        binding,
        visibility: ShaderStage::Fragment,
        ty: BindingType::Sampler(SamplerBindingType::Filtering),
    }
}

fn vertex_uniform_entry() -> (e: BindGroupLayoutEntry)
    ensures
        e == uniform_entry(0, ShaderStage::Vertex),
{
    BindGroupLayoutEntry {
        binding: 0,
        visibility: ShaderStage::Vertex,
        ty: BindingType::UniformBuffer { min_binding_size: None },
    }
}

/// The layout of a texture with its sampler, of the given kind.
pub(crate) fn texture_and_sampler_layout(kind: LayoutKind) -> (l: BindGroupLayout)
    requires
        kind == LayoutKind::Texture || kind == LayoutKind::Normal || kind == LayoutKind::ToneMap,
    ensures
        l.kind == kind,
        l.wf(),
{
    let mut entries: Vec<BindGroupLayoutEntry> = Vec::new();
    entries.push(float_texture(0));
    entries.push(filtering_sampler(1));
    assert(entries@ =~= layout_entries(kind));
    BindGroupLayout { kind, entries }
}

/// The layout of the camera uniform.
pub fn create_camera_bind_group_layout() -> (l: BindGroupLayout)
    ensures
        l.kind == LayoutKind::Camera,
        l.wf(),
{
    let mut entries: Vec<BindGroupLayoutEntry> = Vec::new();
    entries.push(vertex_uniform_entry());
    BindGroupLayout { kind: LayoutKind::Camera, entries }
}

/// The layout of the input of a blur pass.
pub fn create_blur_bind_group_layout() -> (l: BindGroupLayout)
    ensures
        l.kind == LayoutKind::Blur,
        l.wf(),
{
    let mut entries: Vec<BindGroupLayoutEntry> = Vec::new();
    entries.push(float_texture(0));
    entries.push(filtering_sampler(1));
    entries.push(
        BindGroupLayoutEntry {
            binding: 2,
            visibility: ShaderStage::Fragment,
            ty: BindingType::UniformBuffer { min_binding_size: None },
        },
    );
    assert(entries@ =~= layout_entries(LayoutKind::Blur));
    BindGroupLayout { kind: LayoutKind::Blur, entries }
}

/// The layout of the input of the edge detection.
pub fn create_edge_bind_group_layout() -> (l: BindGroupLayout)
    ensures
        l.kind == LayoutKind::Edge,
        l.wf(),
{
    let mut entries: Vec<BindGroupLayoutEntry> = Vec::new();
    entries.push(float_texture(0));
    entries.push(filtering_sampler(1));
    entries.push(depth_texture(2));
    entries.push(float_texture(3));
    assert(entries@ =~= layout_entries(LayoutKind::Edge));
    BindGroupLayout { kind: LayoutKind::Edge, entries }
}

/// The layout of the input of the composite.
pub fn create_composite_bind_group_layout() -> (l: BindGroupLayout)
    ensures
        l.kind == LayoutKind::Composite,
        l.wf(),
{
    let mut entries: Vec<BindGroupLayoutEntry> = Vec::new();
    entries.push(float_texture(0));
    entries.push(float_texture(1));
    entries.push(float_texture(2));
    entries.push(filtering_sampler(3));
    assert(entries@ =~= layout_entries(LayoutKind::Composite));
    BindGroupLayout { kind: LayoutKind::Composite, entries }
}

/// The layout of the input of the tone mapping.
pub fn create_tone_map_bind_group_layout() -> (l: BindGroupLayout)
    ensures
        l.kind == LayoutKind::ToneMap,
        l.wf(),
{
    texture_and_sampler_layout(LayoutKind::ToneMap)
}

/// The layout of the given kind.
pub fn create_bind_group_layout(kind: LayoutKind) -> (l: BindGroupLayout)
    ensures
        l.kind == kind,
        l.wf(),
{
    match kind {
        LayoutKind::Texture => texture_and_sampler_layout(LayoutKind::Texture),
        LayoutKind::Camera => create_camera_bind_group_layout(),
        LayoutKind::Spin => SpinUniform::bind_group_for_spin_uniform().0,
        LayoutKind::Normal => texture_and_sampler_layout(LayoutKind::Normal),
        LayoutKind::Blur => create_blur_bind_group_layout(),
        LayoutKind::Edge => create_edge_bind_group_layout(),
        LayoutKind::Composite => create_composite_bind_group_layout(),
        LayoutKind::ToneMap => create_tone_map_bind_group_layout(),
    }
}

/// What one entry of a bind group binds.
#[derive(Clone, Copy, Debug, PartialEq, Eq, Structural)]
pub enum BindingResource {
    /// The view of a render target, as it was created.
    TargetView(TargetRef),
    /// The view of the image texture of a material.
    ImageView,
    /// A sampler.
    Sampler(SamplerKind),
    /// A whole uniform buffer.
    Buffer(BufferKind),
}

/// One entry of a bind group.
#[derive(Clone, Copy, Debug, PartialEq, Eq, Structural)]
pub struct BindGroupEntry {
    pub binding: u32,
    pub resource: BindingResource,
}

/// A bind group, by what it binds.
#[derive(Clone, Copy, Debug, PartialEq, Eq, Structural)]
pub enum BindGroup {
    /// The image texture of a material and its sampler.
    Texture,
    /// The camera uniform.
    Camera,
    /// The spin uniform.
    Spin,
    /// A normal target and the sampler of the normal targets.
    Normal { normal: TargetRef },
    /// The source of a blur pass, the linear sampler, the blur uniform.
    Blur { source: TargetRef },
    /// Scene color, the sampler of the normal targets, depth of the prepass,
    /// resolved normals.
    Edge { scene: TargetRef, depth: TargetRef, normal: TargetRef },
    /// Edge mask, scene color with the outline, bloom, the linear sampler.
    Composite { edge: TargetRef, outline: TargetRef, bloom: TargetRef },
    /// The composed image and the linear sampler.
    ToneMap { composed: TargetRef },
}

impl BindGroup {
    /// The layout that the bind group is made for.
    pub open spec fn spec_layout(self) -> LayoutKind {
        match self {
            BindGroup::Texture => LayoutKind::Texture,
            BindGroup::Camera => LayoutKind::Camera,
            BindGroup::Spin => LayoutKind::Spin,
            BindGroup::Normal { .. } => LayoutKind::Normal,
            BindGroup::Blur { .. } => LayoutKind::Blur,
            BindGroup::Edge { .. } => LayoutKind::Edge,
            BindGroup::Composite { .. } => LayoutKind::Composite,
            BindGroup::ToneMap { .. } => LayoutKind::ToneMap,
        }
    }

    /// The entries of the bind group, in the order of their bindings.
    pub open spec fn spec_entries(self) -> Seq<BindGroupEntry> {
        match self {
            BindGroup::Texture => seq![
                BindGroupEntry { binding: 0, resource: BindingResource::ImageView },
                BindGroupEntry { binding: 1, resource: BindingResource::Sampler(SamplerKind::Image) },
            ],
            BindGroup::Camera => seq![
                BindGroupEntry { binding: 0, resource: BindingResource::Buffer(BufferKind::Camera) },
            ],
            BindGroup::Spin => seq![
                BindGroupEntry { binding: 0, resource: BindingResource::Buffer(BufferKind::Spin) },
            ],
            BindGroup::Normal { normal } => seq![
                BindGroupEntry { binding: 0, resource: BindingResource::TargetView(normal) },
                BindGroupEntry {
                    binding: 1,
                    resource: BindingResource::Sampler(SamplerKind::Normal),
                },
            ],
            BindGroup::Blur { source } => seq![
                BindGroupEntry { binding: 0, resource: BindingResource::TargetView(source) },
                BindGroupEntry {
                    binding: 1,
                    resource: BindingResource::Sampler(SamplerKind::Linear),
                },
                BindGroupEntry {
                    binding: 2,
                    resource: BindingResource::Buffer(BufferKind::BlurParams),
                },
            ],
            BindGroup::Edge { scene, depth, normal } => seq![
                BindGroupEntry { binding: 0, resource: BindingResource::TargetView(scene) },
                BindGroupEntry {
                    binding: 1,
                    resource: BindingResource::Sampler(SamplerKind::Normal),
                },
                BindGroupEntry { binding: 2, resource: BindingResource::TargetView(depth) },
                BindGroupEntry { binding: 3, resource: BindingResource::TargetView(normal) },
            ],
            BindGroup::Composite { edge, outline, bloom } => seq![
                BindGroupEntry { binding: 0, resource: BindingResource::TargetView(edge) },
                BindGroupEntry { binding: 1, resource: BindingResource::TargetView(outline) },
                BindGroupEntry { binding: 2, resource: BindingResource::TargetView(bloom) },
                BindGroupEntry {
                    binding: 3,
                    resource: BindingResource::Sampler(SamplerKind::Linear),
                },
            ],
            BindGroup::ToneMap { composed } => seq![
                BindGroupEntry { binding: 0, resource: BindingResource::TargetView(composed) },
                BindGroupEntry {
                    binding: 1,
                    resource: BindingResource::Sampler(SamplerKind::Linear),
                },
            ],
        }
    }

    /// The render targets whose views the bind group binds, in the order of
    /// their bindings.
    pub open spec fn targets(self) -> Seq<TargetRef> {
        match self {
            BindGroup::Texture => seq![],
            BindGroup::Camera => seq![],
            BindGroup::Spin => seq![],
            BindGroup::Normal { normal } => seq![normal],
            BindGroup::Blur { source } => seq![source],
            BindGroup::Edge { scene, depth, normal } => seq![scene, depth, normal],
            BindGroup::Composite { edge, outline, bloom } => seq![edge, outline, bloom],
            BindGroup::ToneMap { composed } => seq![composed],
        }
    }

    /// Whether the bind group binds a view of the target in `slot`.
    pub open spec fn reads(self, slot: Slot) -> bool {
        exists|i: int| 0 <= i < self.targets().len() && (#[trigger] self.targets()[i]).slot == slot
    }

    /// The layout that the bind group is made for.
    pub fn layout(&self) -> (kind: LayoutKind)
        ensures
            kind == self.spec_layout(),
    {
        match self {
            BindGroup::Texture => LayoutKind::Texture,
            BindGroup::Camera => LayoutKind::Camera,
            BindGroup::Spin => LayoutKind::Spin,
            BindGroup::Normal { .. } => LayoutKind::Normal,
            BindGroup::Blur { .. } => LayoutKind::Blur,
            BindGroup::Edge { .. } => LayoutKind::Edge,
            BindGroup::Composite { .. } => LayoutKind::Composite,
            BindGroup::ToneMap { .. } => LayoutKind::ToneMap,
        }
    }

    /// The entries of the bind group, in the order of their bindings.
    pub fn entries(&self) -> (entries: Vec<BindGroupEntry>)
        ensures
            entries@ == self.spec_entries(),
    {
        let mut entries: Vec<BindGroupEntry> = Vec::new();
        match *self {
            BindGroup::Texture => {
                entries.push(BindGroupEntry { binding: 0, resource: BindingResource::ImageView });
                entries.push(sampler(1, SamplerKind::Image));
            },
            BindGroup::Camera => {
                entries.push(buffer(0, BufferKind::Camera));
            },
            BindGroup::Spin => {
                entries.push(buffer(0, BufferKind::Spin));
            },
            BindGroup::Normal { normal } => {
                entries.push(view(0, normal));
                entries.push(sampler(1, SamplerKind::Normal));
            },
            BindGroup::Blur { source } => {
                entries.push(view(0, source));
                entries.push(sampler(1, SamplerKind::Linear));
                entries.push(buffer(2, BufferKind::BlurParams));
            },
            BindGroup::Edge { scene, depth, normal } => {
                entries.push(view(0, scene));
                entries.push(sampler(1, SamplerKind::Normal));
                entries.push(view(2, depth));
                entries.push(view(3, normal));
            },
            BindGroup::Composite { edge, outline, bloom } => {
                entries.push(view(0, edge));
                entries.push(view(1, outline));
                entries.push(view(2, bloom));
                entries.push(sampler(3, SamplerKind::Linear));
            },
            BindGroup::ToneMap { composed } => {
                entries.push(view(0, composed));
                entries.push(sampler(1, SamplerKind::Linear));
            },
        }
        entries
    }
}

fn view(binding: u32, target: TargetRef) -> (e: BindGroupEntry)
    ensures
        e == (BindGroupEntry { binding, resource: BindingResource::TargetView(target) }),
{
    BindGroupEntry { binding, resource: BindingResource::TargetView(target) }
}

fn sampler(binding: u32, kind: SamplerKind) -> (e: BindGroupEntry)
    ensures
        e == (BindGroupEntry { binding, resource: BindingResource::Sampler(kind) }),
{
    BindGroupEntry { binding, resource: BindingResource::Sampler(kind) }
}

fn buffer(binding: u32, kind: BufferKind) -> (e: BindGroupEntry)
    ensures
        e == (BindGroupEntry { binding, resource: BindingResource::Buffer(kind) }),
{
    BindGroupEntry { binding, resource: BindingResource::Buffer(kind) }
}

/// The bind group of a blur pass that reads `texture_view`.
pub fn create_blur_bind_group(texture_view: TargetRef) -> (g: BindGroup)
    ensures
        g == (BindGroup::Blur { source: texture_view }),
{
    BindGroup::Blur { source: texture_view }
}

/// The bind group of the edge detection.
pub fn create_edge_bind_group(
    scene_texture_view: TargetRef,
    depth_texture_view: TargetRef,
    normal_texture_view: TargetRef,
) -> (g: BindGroup)
    ensures
        g == (BindGroup::Edge {
            scene: scene_texture_view,
            depth: depth_texture_view,
            normal: normal_texture_view,
        }),
{
    BindGroup::Edge {
        scene: scene_texture_view,
        depth: depth_texture_view,
        normal: normal_texture_view,
    }
}

/// The bind group of the composite. The first view goes to binding 0, the
/// outline to binding 1, the bloom to binding 2.
pub fn create_composite_bind_group(
    scene_texture_view: TargetRef,
    bloom_texture_view: TargetRef,
    outline_resolved_texture_view: TargetRef,
) -> (g: BindGroup)
    ensures
        g == (BindGroup::Composite {
            edge: scene_texture_view,
            outline: outline_resolved_texture_view,
            bloom: bloom_texture_view,
        }),
{
    BindGroup::Composite {
        edge: scene_texture_view,
        outline: outline_resolved_texture_view,
        bloom: bloom_texture_view,
    }
}

/// The bind group of the tone mapping, which reads `composed_texture_view`.
pub fn create_tone_map_bind_group(composed_texture_view: TargetRef) -> (g: BindGroup)
    ensures
        g == (BindGroup::ToneMap { composed: composed_texture_view }),
{
    BindGroup::ToneMap { composed: composed_texture_view }
}

/// Whether an entry of a bind group fits an entry of a layout: the bindings
/// agree and the resource is of the type that the layout declares. A target
/// view fits a texture binding, and a sampler that compares fits no
/// filtering binding.
pub open spec fn entry_fits(entry: BindGroupEntry, slot: BindGroupLayoutEntry) -> bool {
    &&& entry.binding == slot.binding
    &&& match entry.resource {
        BindingResource::TargetView(_) => slot.ty is Texture,
        BindingResource::ImageView => slot.ty is Texture,
        BindingResource::Sampler(kind) => slot.ty matches BindingType::Sampler(ty) && (ty
            == SamplerBindingType::Comparison) == sampler_desc(kind).is_comparison(),
        BindingResource::Buffer(_) => slot.ty is UniformBuffer,
    }
}

/// Every bind group has as many entries as its layout, and each entry fits
/// the entry of the layout at its place.
pub proof fn lemma_bind_group_fits_layout(group: BindGroup)
    ensures
        group.spec_entries().len() == layout_entries(group.spec_layout()).len(),
        forall|i: int|
            0 <= i < group.spec_entries().len() ==> entry_fits(
                #[trigger] group.spec_entries()[i],
                layout_entries(group.spec_layout())[i],
            ),
{
}

impl Texture {
    /// The layout of the bind group of a material, and the bind group of
    /// this image texture with its sampler.
    pub fn bind_group_for_texture(&self) -> (r: (BindGroupLayout, BindGroup))
        ensures
            r.0.kind == LayoutKind::Texture,
            r.0.wf(),
            r.1 == BindGroup::Texture,
    {
        (texture_and_sampler_layout(LayoutKind::Texture), BindGroup::Texture)
    }

    /// The layout of the bind group of a normal target, and the bind group
    /// of the view `view` of this normal target with its sampler.
    pub fn normal_group_for_texture(&self, view: TargetRef) -> (r: (BindGroupLayout, BindGroup))
        ensures
            r.0.kind == LayoutKind::Normal,
            r.0.wf(),
            r.1 == (BindGroup::Normal { normal: view }),
    {
        (texture_and_sampler_layout(LayoutKind::Normal), BindGroup::Normal { normal: view })
    }
}

} // verus!
