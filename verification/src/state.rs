//! The state of the context that belongs to no object: clear values, blending,
//! the depth and stencil tests, and the like.
use core::marker::PhantomData;
use vstd::prelude::*;

use crate::call::{plain, Call, Float, Queue};
use crate::gl;
use crate::gl::types::{GLenum, GLint, GLsizei};
use crate::GLEnum;

verus! {

/// A color of four channels.
#[derive(Clone, Copy, Debug, PartialEq, Eq, Structural)]
pub struct Color {
    pub r: Float,
    pub g: Float,
    pub b: Float,
    pub a: Float,
}

impl From<[Float; 4]> for Color {
    fn from(channels: [Float; 4]) -> (color: Self) {
        Color { r: channels[0], g: channels[1], b: channels[2], a: channels[3] }
    }
}

impl vstd::std_specs::convert::FromSpecImpl<[Float; 4]> for Color {
    open spec fn obeys_from_spec() -> bool {
        true
    }

    open spec fn from_spec(channels: [Float; 4]) -> Self {
        Color { r: channels[0], g: channels[1], b: channels[2], a: channels[3] }
    }
}

/// For each channel of a color, whether it is written.
#[derive(Clone, Copy, Debug, PartialEq, Eq, Structural)]
pub struct ColorMask {
    pub r: bool,
    pub g: bool,
    pub b: bool,
    pub a: bool,
}

impl From<[bool; 4]> for ColorMask {
    fn from(channels: [bool; 4]) -> (mask: Self) {
        ColorMask { r: channels[0], g: channels[1], b: channels[2], a: channels[3] }
    }
}

impl vstd::std_specs::convert::FromSpecImpl<[bool; 4]> for ColorMask {
    open spec fn obeys_from_spec() -> bool {
        true
    }

    open spec fn from_spec(channels: [bool; 4]) -> Self {
        ColorMask { r: channels[0], g: channels[1], b: channels[2], a: channels[3] }
    }
}

impl From<bool> for ColorMask {
    fn from(value: bool) -> (mask: Self) {
        ColorMask { r: value, g: value, b: value, a: value }
    }
}

impl vstd::std_specs::convert::FromSpecImpl<bool> for ColorMask {
    open spec fn obeys_from_spec() -> bool {
        true
    }

    open spec fn from_spec(value: bool) -> Self {
        ColorMask { r: value, g: value, b: value, a: value }
    }
}

/// A comparison of an incoming value with a stored one.
#[derive(Clone, Copy, Debug, PartialEq, Eq, Structural)]
pub enum CompareFunc {
    LessEqual,
    GreaterEqual,
    Less,
    Greater,
    Equal,
    NotEqual,
    Always,
    Never,
}

impl GLEnum for CompareFunc {
    open spec fn constant(&self) -> GLenum {
        match self {
            CompareFunc::LessEqual => gl::LEQUAL,
            CompareFunc::GreaterEqual => gl::GEQUAL,
            CompareFunc::Less => gl::LESS,
            CompareFunc::Greater => gl::GREATER,
            CompareFunc::Equal => gl::EQUAL,
            CompareFunc::NotEqual => gl::NOTEQUAL,
            CompareFunc::Always => gl::ALWAYS,
            CompareFunc::Never => gl::NEVER,
        }
    }

    fn as_gl(&self) -> (raw: GLenum) {
        match self {
            CompareFunc::LessEqual => gl::LEQUAL,
            CompareFunc::GreaterEqual => gl::GEQUAL,
            CompareFunc::Less => gl::LESS,
            CompareFunc::Greater => gl::GREATER,
            CompareFunc::Equal => gl::EQUAL,
            CompareFunc::NotEqual => gl::NOTEQUAL,
            CompareFunc::Always => gl::ALWAYS,
            CompareFunc::Never => gl::NEVER,
        }
    }
}

impl CompareFunc {
    /// No two variants share a constant.
    pub proof fn lemma_constant_injective(a: Self, b: Self)
        ensures
            a.constant() == b.constant() <==> a == b,
    {
    }
}

/// Which polygons are discarded by their facing.
#[derive(Clone, Copy, Debug, PartialEq, Eq, Structural)]
pub enum CullFace {
    Front,
    Back,
    /// Every polygon is discarded. Lines and points have no facing and stay.
    FrontAndBack,
}

impl GLEnum for CullFace {
    open spec fn constant(&self) -> GLenum {
        match self {
            CullFace::Front => gl::FRONT,
            CullFace::Back => gl::BACK,
            CullFace::FrontAndBack => gl::FRONT_AND_BACK,
        }
    }

    fn as_gl(&self) -> (raw: GLenum) {
        match self {
            CullFace::Front => gl::FRONT,
            CullFace::Back => gl::BACK,
            CullFace::FrontAndBack => gl::FRONT_AND_BACK,
        }
    }
}

impl CullFace {
    /// No two variants share a constant.
    pub proof fn lemma_constant_injective(a: Self, b: Self)
        ensures
            a.constant() == b.constant() <==> a == b,
    {
    }
}

/// The winding order, in framebuffer space, that marks the front of a polygon.
#[derive(Clone, Copy, Debug, PartialEq, Eq, Structural)]
pub enum FrontFace {
    Clockwise,
    CounterClockwise,
}

impl GLEnum for FrontFace {
    open spec fn constant(&self) -> GLenum {
        match self {
            FrontFace::Clockwise => gl::CW,
            FrontFace::CounterClockwise => gl::CCW,
        }
    }

    fn as_gl(&self) -> (raw: GLenum) {
        match self {
            FrontFace::Clockwise => gl::CW,
            FrontFace::CounterClockwise => gl::CCW,
        }
    }
}

impl FrontFace {
    /// No two variants share a constant.
    pub proof fn lemma_constant_injective(a: Self, b: Self)
        ensures
            a.constant() == b.constant() <==> a == b,
    {
    }
}

/// How the scaled source and destination colors are combined.
#[derive(Clone, Copy, Debug, PartialEq, Eq, Structural)]
pub enum BlendEquation {
    /// `(src * factor) + (dst * factor)`
    Add,
    /// `(src * factor) - (dst * factor)`
    Subtract,
    /// `(dst * factor) - (src * factor)`
    ReverseSubtract,
    /// `min(src, dst)`; the factors are not used.
    Min,
    /// `max(src, dst)`; the factors are not used.
    Max,
}

impl GLEnum for BlendEquation {
    open spec fn constant(&self) -> GLenum {
        match self {
            BlendEquation::Add => gl::FUNC_ADD,
            BlendEquation::Subtract => gl::FUNC_SUBTRACT,
            BlendEquation::ReverseSubtract => gl::FUNC_REVERSE_SUBTRACT,
            BlendEquation::Min => gl::MIN,
            BlendEquation::Max => gl::MAX,
        }
    }

    fn as_gl(&self) -> (raw: GLenum) {
        match self {
            BlendEquation::Add => gl::FUNC_ADD,
            BlendEquation::Subtract => gl::FUNC_SUBTRACT,
            BlendEquation::ReverseSubtract => gl::FUNC_REVERSE_SUBTRACT,
            BlendEquation::Min => gl::MIN,
            BlendEquation::Max => gl::MAX,
        }
    }
}

impl BlendEquation {
    /// No two variants share a constant.
    pub proof fn lemma_constant_injective(a: Self, b: Self)
        ensures
            a.constant() == b.constant() <==> a == b,
    {
    }
}

/// A factor by which a color is scaled before blending.
#[derive(Clone, Copy, Debug, PartialEq, Eq, Structural)]
pub enum BlendFactor {
    Zero,
    One,
    SrcColor,
    OneMinusSrcColor,
    SrcAlpha,
    OneMinusSrcAlpha,
    DstColor,
    OneMinusDstColor,
    DstAlpha,
    OneMinusDstAlpha,
    ConstantColor,
    OneMinusConstantColor,
    ConstantAlpha,
    OneMinusConstantAlpha,
    SrcAlphaSaturate,
}

impl GLEnum for BlendFactor {
    open spec fn constant(&self) -> GLenum {
        match self {
            BlendFactor::Zero => gl::ZERO,
            BlendFactor::One => gl::ONE,
            BlendFactor::SrcColor => gl::SRC_COLOR,
            BlendFactor::OneMinusSrcColor => gl::ONE_MINUS_SRC_COLOR,
            BlendFactor::SrcAlpha => gl::SRC_ALPHA,
            BlendFactor::OneMinusSrcAlpha => gl::ONE_MINUS_SRC_ALPHA,
            BlendFactor::DstColor => gl::DST_COLOR,
            BlendFactor::OneMinusDstColor => gl::ONE_MINUS_DST_COLOR,
            BlendFactor::DstAlpha => gl::DST_ALPHA,
            BlendFactor::OneMinusDstAlpha => gl::ONE_MINUS_DST_ALPHA,
            BlendFactor::ConstantColor => gl::CONSTANT_COLOR,
            BlendFactor::OneMinusConstantColor => gl::ONE_MINUS_CONSTANT_COLOR,
            BlendFactor::ConstantAlpha => gl::CONSTANT_ALPHA,
            BlendFactor::OneMinusConstantAlpha => gl::ONE_MINUS_CONSTANT_ALPHA,
            BlendFactor::SrcAlphaSaturate => gl::SRC_ALPHA_SATURATE,
        }
    }

    fn as_gl(&self) -> (raw: GLenum) {
        match self {
            BlendFactor::Zero => gl::ZERO,
            BlendFactor::One => gl::ONE,
            BlendFactor::SrcColor => gl::SRC_COLOR,
            BlendFactor::OneMinusSrcColor => gl::ONE_MINUS_SRC_COLOR,
            BlendFactor::SrcAlpha => gl::SRC_ALPHA,
            BlendFactor::OneMinusSrcAlpha => gl::ONE_MINUS_SRC_ALPHA,
            BlendFactor::DstColor => gl::DST_COLOR,
            BlendFactor::OneMinusDstColor => gl::ONE_MINUS_DST_COLOR,
            BlendFactor::DstAlpha => gl::DST_ALPHA,
            BlendFactor::OneMinusDstAlpha => gl::ONE_MINUS_DST_ALPHA,
            BlendFactor::ConstantColor => gl::CONSTANT_COLOR,
            BlendFactor::OneMinusConstantColor => gl::ONE_MINUS_CONSTANT_COLOR,
            BlendFactor::ConstantAlpha => gl::CONSTANT_ALPHA,
            BlendFactor::OneMinusConstantAlpha => gl::ONE_MINUS_CONSTANT_ALPHA,
            BlendFactor::SrcAlphaSaturate => gl::SRC_ALPHA_SATURATE,
        }
    }
}

impl BlendFactor {
    /// No two variants share a constant.
    pub proof fn lemma_constant_injective(a: Self, b: Self)
        ensures
            a.constant() == b.constant() <==> a == b,
    {
    }
}

/// The factors of a blend: one for the source and one for the destination.
#[derive(Clone, Copy, Debug, PartialEq, Eq, Structural)]
pub struct BlendFunc {
    pub src_factor: BlendFactor,
    pub dst_factor: BlendFactor,
}

/// A part of the pipeline that can be switched on and off.
#[derive(Clone, Copy, Debug, PartialEq, Eq, Structural)]
pub enum Capability {
    /// Blending by the blend equation and factors. When off, fragment outputs are
    /// written as they are.
    Blend,
    /// Discarding of polygons by their facing.
    CullFace,
    /// Debug messages from the driver.
    DebugOutput,
    /// Debug messages arrive inside the call that caused them.
    DebugOutputSynchronous,
    /// Testing of fragments against the depth buffer, and updating it.
    DepthTest,
    /// Dithering of colors. Takes part in clears.
    Dither,
    /// The polygon depth offset is applied to fragments.
    PolygonOffsetFill,
    /// The largest index value of the element type restarts strips, loops and
    /// fans.
    PrimitiveRestartFixedIndex,
    /// Geometry is dropped before rasterization. Takes part in clears.
    RasterizerDiscard,
    /// Fragment coverage is masked by the fragment's alpha.
    SampleAlphaToCoverage,
    /// Fragment coverage is masked by a mask of the program's.
    SampleMask,
    /// Fragments outside the scissor rectangle are dropped. Takes part in clears.
    ScissorTest,
    /// Testing of fragments against the stencil buffer, and updating it.
    StencilTest,
}

impl GLEnum for Capability {
    open spec fn constant(&self) -> GLenum {
        match self {
            Capability::Blend => gl::BLEND,
            Capability::CullFace => gl::CULL_FACE,
            Capability::DebugOutput => gl::DEBUG_OUTPUT,
            Capability::DebugOutputSynchronous => gl::DEBUG_OUTPUT_SYNCHRONOUS,
            Capability::DepthTest => gl::DEPTH_TEST,
            Capability::Dither => gl::DITHER,
            Capability::PolygonOffsetFill => gl::POLYGON_OFFSET_FILL,
            Capability::PrimitiveRestartFixedIndex => gl::PRIMITIVE_RESTART_FIXED_INDEX,
            Capability::RasterizerDiscard => gl::RASTERIZER_DISCARD,
            Capability::SampleAlphaToCoverage => gl::SAMPLE_ALPHA_TO_COVERAGE,
            Capability::SampleMask => gl::SAMPLE_MASK,
            Capability::ScissorTest => gl::SCISSOR_TEST,
            Capability::StencilTest => gl::STENCIL_TEST,
        }
    }

    fn as_gl(&self) -> (raw: GLenum) {
        match self {
            Capability::Blend => gl::BLEND,
            Capability::CullFace => gl::CULL_FACE,
            Capability::DebugOutput => gl::DEBUG_OUTPUT,
            Capability::DebugOutputSynchronous => gl::DEBUG_OUTPUT_SYNCHRONOUS,
            Capability::DepthTest => gl::DEPTH_TEST,
            Capability::Dither => gl::DITHER,
            Capability::PolygonOffsetFill => gl::POLYGON_OFFSET_FILL,
            Capability::PrimitiveRestartFixedIndex => gl::PRIMITIVE_RESTART_FIXED_INDEX,
            Capability::RasterizerDiscard => gl::RASTERIZER_DISCARD,
            Capability::SampleAlphaToCoverage => gl::SAMPLE_ALPHA_TO_COVERAGE,
            Capability::SampleMask => gl::SAMPLE_MASK,
            Capability::ScissorTest => gl::SCISSOR_TEST,
            Capability::StencilTest => gl::STENCIL_TEST,
        }
    }
}

impl Capability {
    /// No two variants share a constant.
    pub proof fn lemma_constant_injective(a: Self, b: Self)
        ensures
            a.constant() == b.constant() <==> a == b,
    {
    }
}

/// What happens to a stencil value after a test.
#[derive(Clone, Copy, Debug, PartialEq, Eq, Structural)]
pub enum StencilOp {
    Keep,
    Zero,
    /// Writes the reference value.
    Replace,
    SaturatingIncrement,
    WrappingIncrement,
    SaturatingDecrement,
    WrappingDecrement,
    /// Flips every bit of the stored value.
    Invert,
}

impl GLEnum for StencilOp {
    open spec fn constant(&self) -> GLenum {
        match self {
            StencilOp::Keep => gl::KEEP,
            StencilOp::Zero => gl::ZERO,
            StencilOp::Replace => gl::REPLACE,
            StencilOp::SaturatingIncrement => gl::INCR,
            StencilOp::WrappingIncrement => gl::INCR_WRAP,
            StencilOp::SaturatingDecrement => gl::DECR,
            StencilOp::WrappingDecrement => gl::DECR_WRAP,
            StencilOp::Invert => gl::INVERT,
        }
    }

    fn as_gl(&self) -> (raw: GLenum) {
        match self {
            StencilOp::Keep => gl::KEEP,
            StencilOp::Zero => gl::ZERO,
            StencilOp::Replace => gl::REPLACE,
            StencilOp::SaturatingIncrement => gl::INCR,
            StencilOp::WrappingIncrement => gl::INCR_WRAP,
            StencilOp::SaturatingDecrement => gl::DECR,
            StencilOp::WrappingDecrement => gl::DECR_WRAP,
            StencilOp::Invert => gl::INVERT,
        }
    }
}

impl StencilOp {
    /// No two variants share a constant.
    pub proof fn lemma_constant_injective(a: Self, b: Self)
        ensures
            a.constant() == b.constant() <==> a == b,
    {
    }
}

/// The entry points that read and write the state of the context.
pub struct State(pub(crate) PhantomData<()>);

impl State {
    /// Sets the blend constant. It is not clamped here; blending clamps it
    /// where the destination holds unsigned fixed-point values.
    pub fn blend_color(&self, queue: &mut Queue, color: Color) -> (this: &Self)
        ensures
            final(queue)@ == old(queue)@.push(
                plain(
                    Call::BlendColor {
                        red: color.r,
                        green: color.g,
                        blue: color.b,
                        alpha: color.a,
                    },
                ),
            ),
    {
        queue.push(
            Call::BlendColor { red: color.r, green: color.g, blue: color.b, alpha: color.a },
        );
        self
    }

    /// Sets the equation that combines source and destination colors: for
    /// every channel `equation`, or, with `Some`, `alpha_equation` for alpha
    /// and `equation` for the others.
    pub fn blend_equation(
        &self,
        queue: &mut Queue,
        equation: BlendEquation,
        alpha_equation: Option<BlendEquation>,
    ) -> (this: &Self)
        ensures
            final(queue)@ == old(queue)@.push(
                plain(
                    match alpha_equation {
                        Some(alpha) => Call::BlendEquationSeparate {
                            mode_rgb: equation.constant(),
                            mode_alpha: alpha.constant(),
                        },
                        None => Call::BlendEquation { mode: equation.constant() },
                    },
                ),
            ),
    {
        if let Some(alpha_equation) = alpha_equation {
            queue.push(
                Call::BlendEquationSeparate {
                    mode_rgb: equation.as_gl(),
                    mode_alpha: alpha_equation.as_gl(),
                },
            );
        } else {
            queue.push(Call::BlendEquation { mode: equation.as_gl() });
        }
        self
    }

    /// Sets the factors that scale source and destination colors before they
    /// are combined: for every channel `func`, or, with `Some`, `alpha_func`
    /// for alpha and `func` for the others.
    pub fn blend_func(&self, queue: &mut Queue, func: BlendFunc, alpha_func: Option<BlendFunc>) -> (this:
        &Self)
        ensures
            final(queue)@ == old(queue)@.push(
                plain(
                    match alpha_func {
                        Some(alpha) => Call::BlendFuncSeparate {
                            sfactor_rgb: func.src_factor.constant(),
                            dfactor_rgb: func.dst_factor.constant(),
                            sfactor_alpha: alpha.src_factor.constant(),
                            dfactor_alpha: alpha.dst_factor.constant(),
                        },
                        None => Call::BlendFunc {
                            sfactor: func.src_factor.constant(),
                            dfactor: func.dst_factor.constant(),
                        },
                    },
                ),
            ),
    {
        if let Some(alpha_func) = alpha_func {
            queue.push(
                Call::BlendFuncSeparate {
                    sfactor_rgb: func.src_factor.as_gl(),
                    dfactor_rgb: func.dst_factor.as_gl(),
                    sfactor_alpha: alpha_func.src_factor.as_gl(),
                    dfactor_alpha: alpha_func.dst_factor.as_gl(),
                },
            );
        } else {
            queue.push(
                Call::BlendFunc {
                    sfactor: func.src_factor.as_gl(),
                    dfactor: func.dst_factor.as_gl(),
                },
            );
        }
        self
    }

    /// Sets the color that a clear writes to color buffers.
    pub fn clear_color(&self, queue: &mut Queue, color: Color) -> (this: &Self)
        ensures
            final(queue)@ == old(queue)@.push(
                plain(
                    Call::ClearColor {
                        red: color.r,
                        green: color.g,
                        blue: color.b,
                        alpha: color.a,
                    },
                ),
            ),
    {
        queue.push(
            Call::ClearColor { red: color.r, green: color.g, blue: color.b, alpha: color.a },
        );
        self
    }

    /// Sets the value that a clear writes to the depth buffer.
    pub fn clear_depth(&self, queue: &mut Queue, depth: Float) -> (this: &Self)
        ensures
            final(queue)@ == old(queue)@.push(plain(Call::ClearDepthf { d: depth })),
    {
        queue.push(Call::ClearDepthf { d: depth });
        self
    }

    /// Sets the bits that a clear writes to the stencil buffer.
    pub fn clear_stencil(&self, queue: &mut Queue, stencil: u32) -> (this: &Self)
        ensures
            final(queue)@ == old(queue)@.push(plain(Call::ClearStencil { s: stencil as GLint })),
    {
        queue.push(Call::ClearStencil { s: stencil as GLint });
        self
    }

    /// Allows or forbids writes to each channel of every color buffer. Takes
    /// part in clears.
    pub fn color_mask(&self, queue: &mut Queue, write: ColorMask) -> (this: &Self)
        ensures
            final(queue)@ == old(queue)@.push(
                plain(
                    Call::ColorMask {
                        red: write.r,
                        green: write.g,
                        blue: write.b,
                        alpha: write.a,
                    },
                ),
            ),
    {
        queue.push(
            Call::ColorMask { red: write.r, green: write.g, blue: write.b, alpha: write.a },
        );
        self
    }

    /// Chooses the faces that are discarded while [`Capability::CullFace`] is
    /// on.
    pub fn cull_face(&self, queue: &mut Queue, face: CullFace) -> (this: &Self)
        ensures
            final(queue)@ == old(queue)@.push(plain(Call::CullFace { mode: face.constant() })),
    {
        queue.push(Call::CullFace { mode: face.as_gl() });
        self
    }

    /// Chooses the comparison of a fragment's depth with the depth buffer.
    pub fn depth_func(&self, queue: &mut Queue, func: CompareFunc) -> (this: &Self)
        ensures
            final(queue)@ == old(queue)@.push(plain(Call::DepthFunc { func: func.constant() })),
    {
        queue.push(Call::DepthFunc { func: func.as_gl() });
        self
    }

    /// Allows or forbids writes to the depth buffer. Takes part in clears.
    pub fn depth_mask(&self, queue: &mut Queue, write: bool) -> (this: &Self)
        ensures
            final(queue)@ == old(queue)@.push(plain(Call::DepthMask { flag: write })),
    {
        queue.push(Call::DepthMask { flag: write });
        self
    }

    /// Maps normalized depth, from minus one to one, linearly onto the range
    /// from `near` to `far`, which may run downwards.
    pub fn depth_rangef(&self, queue: &mut Queue, near: Float, far: Float) -> (this: &Self)
        ensures
            final(queue)@ == old(queue)@.push(plain(Call::DepthRangef { n: near, f: far })),
    {
        queue.push(Call::DepthRangef { n: near, f: far });
        self
    }

    /// Switches a capability off.
    pub fn disable(&self, queue: &mut Queue, capability: Capability) -> (this: &Self)
        ensures
            final(queue)@ == old(queue)@.push(plain(Call::Disable { cap: capability.constant() })),
    {
        queue.push(Call::Disable { cap: capability.as_gl() });
        self
    }

    /// Switches a capability on.
    pub fn enable(&self, queue: &mut Queue, capability: Capability) -> (this: &Self)
        ensures
            final(queue)@ == old(queue)@.push(plain(Call::Enable { cap: capability.constant() })),
    {
        queue.push(Call::Enable { cap: capability.as_gl() });
        self
    }

    /// Chooses the winding order, in framebuffer space, of the front of a
    /// polygon.
    pub fn front_face(&self, queue: &mut Queue, winding: FrontFace) -> (this: &Self)
        ensures
            final(queue)@ == old(queue)@.push(plain(Call::FrontFace { mode: winding.constant() })),
    {
        queue.push(Call::FrontFace { mode: winding.as_gl() });
        self
    }

    /// Sets the width of rasterized lines.
    pub fn line_width(&self, queue: &mut Queue, width: Float) -> (this: &Self)
        ensures
            final(queue)@ == old(queue)@.push(plain(Call::LineWidth { width })),
    {
        queue.push(Call::LineWidth { width });
        self
    }

    /// Sets the scale and the units of the depth offset of polygons.
    pub fn polygon_offset(&self, queue: &mut Queue, factor: Float, units: Float) -> (this: &Self)
        ensures
            final(queue)@ == old(queue)@.push(plain(Call::PolygonOffset { factor, units })),
    {
        queue.push(Call::PolygonOffset { factor, units });
        self
    }

    /// Sets the coverage of multisampling, and whether its mask is inverted.
    pub fn sample_coverage(&self, queue: &mut Queue, value: Float, invert: bool) -> (this: &Self)
        ensures
            final(queue)@ == old(queue)@.push(plain(Call::SampleCoverage { value, invert })),
    {
        queue.push(Call::SampleCoverage { value, invert });
        self
    }

    /// Sets the rectangle of the scissor test. `min` is its lower left corner.
    pub fn scissor(&self, queue: &mut Queue, min: [u32; 2], size: [u32; 2]) -> (this: &Self)
        requires
            min[0] <= GLint::MAX,
            min[1] <= GLint::MAX,
            size[0] <= GLsizei::MAX,
            size[1] <= GLsizei::MAX,
        ensures
            final(queue)@ == old(queue)@.push(
                plain(
                    Call::Scissor {
                        x: min[0] as GLint,
                        y: min[1] as GLint,
                        width: size[0] as GLsizei,
                        height: size[1] as GLsizei,
                    },
                ),
            ),
    {
        queue.push(
            Call::Scissor {
                x: min[0] as GLint,
                y: min[1] as GLint,
                width: size[0] as GLsizei,
                height: size[1] as GLsizei,
            },
        );
        self
    }

    /// Sets the stencil test: `func` compares `reference & mask` with
    /// `stencil & mask`.
    pub fn stencil_func(&self, queue: &mut Queue, func: CompareFunc, reference: u32, mask: u32) -> (this:
        &Self)
        ensures
            final(queue)@ == old(queue)@.push(
                plain(
                    Call::StencilFunc {
                        func: func.constant(),
                        reference: reference as GLint,
                        mask,
                    },
                ),
            ),
    {
        queue.push(Call::StencilFunc { func: func.as_gl(), reference: reference as GLint, mask });
        self
    }

    /// Chooses the bits of the stencil buffer that can be written: those
    /// that are set in `mask`. Takes part in clears.
    pub fn stencil_mask(&self, queue: &mut Queue, mask: u32) -> (this: &Self)
        ensures
            final(queue)@ == old(queue)@.push(plain(Call::StencilMask { mask })),
    {
        queue.push(Call::StencilMask { mask });
        self
    }

    /// Chooses what happens to the stencil buffer where the stencil test
    /// fails, where the depth test fails, and where neither fails.
    pub fn stencil_op(
        &self,
        queue: &mut Queue,
        stencil_fail: StencilOp,
        depth_fail: StencilOp,
        pass: StencilOp,
    ) -> (this: &Self)
        ensures
            final(queue)@ == old(queue)@.push(
                plain(
                    Call::StencilOp {
                        fail: stencil_fail.constant(),
                        zfail: depth_fail.constant(),
                        zpass: pass.constant(),
                    },
                ),
            ),
    {
        queue.push(
            Call::StencilOp {
                fail: stencil_fail.as_gl(),
                zfail: depth_fail.as_gl(),
                zpass: pass.as_gl(),
            },
        );
        self
    }

    /// Sets the rectangle of the framebuffer that normalized coordinates,
    /// from minus one to one, are mapped onto. `min` is its lower left corner.
    pub fn viewport(&self, queue: &mut Queue, min: [u32; 2], size: [u32; 2]) -> (this: &Self)
        requires
            min[0] <= GLint::MAX,
            min[1] <= GLint::MAX,
            size[0] <= GLsizei::MAX,
            size[1] <= GLsizei::MAX,
        ensures
            final(queue)@ == old(queue)@.push(
                plain(
                    Call::Viewport {
                        x: min[0] as GLint,
                        y: min[1] as GLint,
                        width: size[0] as GLsizei,
                        height: size[1] as GLsizei,
                    },
                ),
            ),
    {
        queue.push(
            Call::Viewport {
                x: min[0] as GLint,
                y: min[1] as GLint,
                width: size[0] as GLsizei,
                height: size[1] as GLsizei,
            },
        );
        self
    }
}

} // verus!
