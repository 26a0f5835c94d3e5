//! The constants of the raw interface, with the values that the OpenGL ES 3
//! registry assigns to them, and its scalar types.
use vstd::prelude::*;

use crate::gl::types::{GLbitfield, GLboolean, GLenum};

pub mod types;

verus! {

pub const ALPHA: GLenum = 0x1906;

pub const ALWAYS: GLenum = 0x0207;

pub const ARRAY_BUFFER: GLenum = 0x8892;

pub const BACK: GLenum = 0x0405;

pub const BLEND: GLenum = 0x0BE2;

pub const BLUE: GLenum = 0x1905;

pub const BUFFER_SIZE: GLenum = 0x8764;

pub const BUFFER_USAGE: GLenum = 0x8765;

pub const BYTE: GLenum = 0x1400;

pub const CCW: GLenum = 0x0901;

pub const CLAMP_TO_EDGE: GLenum = 0x812F;

pub const COLOR_ATTACHMENT0: GLenum = 0x8CE0;

pub const COLOR_ATTACHMENT1: GLenum = 0x8CE1;

pub const COLOR_ATTACHMENT2: GLenum = 0x8CE2;

pub const COLOR_ATTACHMENT3: GLenum = 0x8CE3;

pub const COLOR_BUFFER_BIT: GLbitfield = 0x4000;

pub const COMPARE_REF_TO_TEXTURE: GLenum = 0x884E;

pub const COMPILE_STATUS: GLenum = 0x8B81;

pub const CONSTANT_ALPHA: GLenum = 0x8003;

pub const CONSTANT_COLOR: GLenum = 0x8001;

pub const COPY_READ_BUFFER: GLenum = 0x8F36;

pub const COPY_WRITE_BUFFER: GLenum = 0x8F37;

pub const CULL_FACE: GLenum = 0x0B44;

pub const CW: GLenum = 0x0900;

pub const DEBUG_OUTPUT: GLenum = 0x92E0;

pub const DEBUG_OUTPUT_SYNCHRONOUS: GLenum = 0x8242;

pub const DECR: GLenum = 0x1E03;

pub const DECR_WRAP: GLenum = 0x8508;

pub const DEPTH24_STENCIL8: GLenum = 0x88F0;

pub const DEPTH32F_STENCIL8: GLenum = 0x8CAD;

pub const DEPTH_ATTACHMENT: GLenum = 0x8D00;

pub const DEPTH_BUFFER_BIT: GLbitfield = 0x0100;

pub const DEPTH_COMPONENT: GLenum = 0x1902;

pub const DEPTH_COMPONENT16: GLenum = 0x81A5;

pub const DEPTH_COMPONENT24: GLenum = 0x81A6;

pub const DEPTH_COMPONENT32F: GLenum = 0x8CAC;

pub const DEPTH_STENCIL: GLenum = 0x84F9;

pub const DEPTH_STENCIL_ATTACHMENT: GLenum = 0x821A;

pub const DEPTH_STENCIL_TEXTURE_MODE: GLenum = 0x90EA;

pub const DEPTH_TEST: GLenum = 0x0B71;

pub const DITHER: GLenum = 0x0BD0;

pub const DRAW_FRAMEBUFFER: GLenum = 0x8CA9;

pub const DST_ALPHA: GLenum = 0x0304;

pub const DST_COLOR: GLenum = 0x0306;

pub const DYNAMIC_COPY: GLenum = 0x88EA;

pub const DYNAMIC_DRAW: GLenum = 0x88E8;

pub const DYNAMIC_READ: GLenum = 0x88E9;

pub const ELEMENT_ARRAY_BUFFER: GLenum = 0x8893;

pub const EQUAL: GLenum = 0x0202;

pub const FALSE: GLboolean = 0;

pub const FIXED: GLenum = 0x140C;

pub const FLOAT: GLenum = 0x1406;

pub const FLOAT_32_UNSIGNED_INT_24_8_REV: GLenum = 0x8DAD;

pub const FRAGMENT_SHADER: GLenum = 0x8B30;

pub const FRAMEBUFFER: GLenum = 0x8D40;

pub const FRAMEBUFFER_COMPLETE: GLenum = 0x8CD5;

pub const FRAMEBUFFER_INCOMPLETE_ATTACHMENT: GLenum = 0x8CD6;

pub const FRAMEBUFFER_INCOMPLETE_LAYER_TARGETS: GLenum = 0x8DA8;

pub const FRAMEBUFFER_INCOMPLETE_MISSING_ATTACHMENT: GLenum = 0x8CD7;

pub const FRAMEBUFFER_INCOMPLETE_MULTISAMPLE: GLenum = 0x8D56;

pub const FRAMEBUFFER_UNSUPPORTED: GLenum = 0x8CDD;

pub const FRONT: GLenum = 0x0404;

pub const FRONT_AND_BACK: GLenum = 0x0408;

pub const FUNC_ADD: GLenum = 0x8006;

pub const FUNC_REVERSE_SUBTRACT: GLenum = 0x800B;

pub const FUNC_SUBTRACT: GLenum = 0x800A;

pub const GEQUAL: GLenum = 0x0206;

pub const GREATER: GLenum = 0x0204;

pub const GREEN: GLenum = 0x1904;

pub const HALF_FLOAT: GLenum = 0x140B;

pub const INCR: GLenum = 0x1E02;

pub const INCR_WRAP: GLenum = 0x8507;

pub const INFO_LOG_LENGTH: GLenum = 0x8B84;

pub const INT: GLenum = 0x1404;

pub const INT_2_10_10_10_REV: GLenum = 0x8D9F;

pub const INVERT: GLenum = 0x150A;

pub const KEEP: GLenum = 0x1E00;

pub const LEQUAL: GLenum = 0x0203;

pub const LESS: GLenum = 0x0201;

pub const LINEAR: GLenum = 0x2601;

pub const LINEAR_MIPMAP_LINEAR: GLenum = 0x2703;

pub const LINEAR_MIPMAP_NEAREST: GLenum = 0x2701;

pub const LINES: GLenum = 0x0001;

pub const LINE_LOOP: GLenum = 0x0002;

pub const LINE_STRIP: GLenum = 0x0003;

pub const LINK_STATUS: GLenum = 0x8B82;

pub const LUMINANCE: GLenum = 0x1909;

pub const LUMINANCE_ALPHA: GLenum = 0x190A;

pub const MAP_FLUSH_EXPLICIT_BIT: GLbitfield = 0x0010;

pub const MAP_INVALIDATE_BUFFER_BIT: GLbitfield = 0x0008;

pub const MAP_INVALIDATE_RANGE_BIT: GLbitfield = 0x0004;

pub const MAP_READ_BIT: GLbitfield = 0x0001;

pub const MAP_UNSYNCHRONIZED_BIT: GLbitfield = 0x0020;

pub const MAP_WRITE_BIT: GLbitfield = 0x0002;

pub const MAX: GLenum = 0x8008;

pub const MIN: GLenum = 0x8007;

pub const MIRRORED_REPEAT: GLenum = 0x8370;

pub const NEAREST: GLenum = 0x2600;

pub const NEAREST_MIPMAP_LINEAR: GLenum = 0x2702;

pub const NEAREST_MIPMAP_NEAREST: GLenum = 0x2700;

pub const NEVER: GLenum = 0x0200;

pub const NONE: GLenum = 0x0000;

pub const NOTEQUAL: GLenum = 0x0205;

pub const ONE: GLenum = 0x0001;

pub const ONE_MINUS_CONSTANT_ALPHA: GLenum = 0x8004;

pub const ONE_MINUS_CONSTANT_COLOR: GLenum = 0x8002;

pub const ONE_MINUS_DST_ALPHA: GLenum = 0x0305;

pub const ONE_MINUS_DST_COLOR: GLenum = 0x0307;

pub const ONE_MINUS_SRC_ALPHA: GLenum = 0x0303;

pub const ONE_MINUS_SRC_COLOR: GLenum = 0x0301;

pub const PIXEL_PACK_BUFFER: GLenum = 0x88EB;

pub const PIXEL_UNPACK_BUFFER: GLenum = 0x88EC;

pub const POINTS: GLenum = 0x0000;

pub const POLYGON_OFFSET_FILL: GLenum = 0x8037;

pub const PRIMITIVE_RESTART_FIXED_INDEX: GLenum = 0x8D69;

pub const R11F_G11F_B10F: GLenum = 0x8C3A;

pub const R16F: GLenum = 0x822D;

pub const R16I: GLenum = 0x8233;

pub const R16UI: GLenum = 0x8234;

pub const R32F: GLenum = 0x822E;

pub const R32I: GLenum = 0x8235;

pub const R32UI: GLenum = 0x8236;

pub const R8: GLenum = 0x8229;

pub const R8I: GLenum = 0x8231;

pub const R8UI: GLenum = 0x8232;

pub const R8_SNORM: GLenum = 0x8F94;

pub const RASTERIZER_DISCARD: GLenum = 0x8C89;

pub const READ_FRAMEBUFFER: GLenum = 0x8CA8;

pub const RED: GLenum = 0x1903;

pub const RED_INTEGER: GLenum = 0x8D94;

pub const RENDERBUFFER: GLenum = 0x8D41;

pub const REPEAT: GLenum = 0x2901;

pub const REPLACE: GLenum = 0x1E01;

pub const RG: GLenum = 0x8227;

pub const RG16F: GLenum = 0x822F;

pub const RG16I: GLenum = 0x8239;

pub const RG16UI: GLenum = 0x823A;

pub const RG32F: GLenum = 0x8230;

pub const RG32I: GLenum = 0x823B;

pub const RG32UI: GLenum = 0x823C;

pub const RG8: GLenum = 0x822B;

pub const RG8I: GLenum = 0x8237;

pub const RG8UI: GLenum = 0x8238;

pub const RG8_SNORM: GLenum = 0x8F95;

pub const RGB: GLenum = 0x1907;

pub const RGB10_A2: GLenum = 0x8059;

pub const RGB10_A2UI: GLenum = 0x906F;

pub const RGB16F: GLenum = 0x881B;

pub const RGB16I: GLenum = 0x8D89;

pub const RGB16UI: GLenum = 0x8D77;

pub const RGB32F: GLenum = 0x8815;

pub const RGB32I: GLenum = 0x8D83;

pub const RGB32UI: GLenum = 0x8D71;

pub const RGB565: GLenum = 0x8D62;

pub const RGB5_A1: GLenum = 0x8057;

pub const RGB8: GLenum = 0x8051;

pub const RGB8I: GLenum = 0x8D8F;

pub const RGB8UI: GLenum = 0x8D7D;

pub const RGB8_SNORM: GLenum = 0x8F96;

pub const RGB9_E5: GLenum = 0x8C3D;

pub const RGBA: GLenum = 0x1908;

pub const RGBA16F: GLenum = 0x881A;

pub const RGBA16I: GLenum = 0x8D88;

pub const RGBA16UI: GLenum = 0x8D76;

pub const RGBA32F: GLenum = 0x8814;

pub const RGBA32I: GLenum = 0x8D82;

pub const RGBA32UI: GLenum = 0x8D70;

pub const RGBA4: GLenum = 0x8056;

pub const RGBA8: GLenum = 0x8058;

pub const RGBA8I: GLenum = 0x8D8E;

pub const RGBA8UI: GLenum = 0x8D7C;

pub const RGBA8_SNORM: GLenum = 0x8F97;

pub const RGBA_INTEGER: GLenum = 0x8D99;

pub const RGB_INTEGER: GLenum = 0x8D98;

pub const RG_INTEGER: GLenum = 0x8228;

pub const SAMPLE_ALPHA_TO_COVERAGE: GLenum = 0x809E;

pub const SAMPLE_MASK: GLenum = 0x8E51;

pub const SCISSOR_TEST: GLenum = 0x0C11;

pub const SHORT: GLenum = 0x1402;

pub const SRC_ALPHA: GLenum = 0x0302;

pub const SRC_ALPHA_SATURATE: GLenum = 0x0308;

pub const SRC_COLOR: GLenum = 0x0300;

pub const SRGB8: GLenum = 0x8C41;

pub const SRGB8_ALPHA8: GLenum = 0x8C43;

pub const STATIC_COPY: GLenum = 0x88E6;

pub const STATIC_DRAW: GLenum = 0x88E4;

pub const STATIC_READ: GLenum = 0x88E5;

pub const STENCIL_ATTACHMENT: GLenum = 0x8D20;

pub const STENCIL_BUFFER_BIT: GLbitfield = 0x0400;

pub const STENCIL_INDEX: GLenum = 0x1901;

pub const STENCIL_INDEX8: GLenum = 0x8D48;

pub const STENCIL_TEST: GLenum = 0x0B90;

pub const STREAM_COPY: GLenum = 0x88E2;

pub const STREAM_DRAW: GLenum = 0x88E0;

pub const STREAM_READ: GLenum = 0x88E1;

pub const TEXTURE0: GLenum = 0x84C0;

pub const TEXTURE_2D: GLenum = 0x0DE1;

pub const TEXTURE_2D_ARRAY: GLenum = 0x8C1A;

pub const TEXTURE_3D: GLenum = 0x806F;

pub const TEXTURE_BASE_LEVEL: GLenum = 0x813C;

pub const TEXTURE_COMPARE_FUNC: GLenum = 0x884D;

pub const TEXTURE_COMPARE_MODE: GLenum = 0x884C;

pub const TEXTURE_CUBE_MAP: GLenum = 0x8513;

pub const TEXTURE_MAG_FILTER: GLenum = 0x2800;

pub const TEXTURE_MAX_LEVEL: GLenum = 0x813D;

pub const TEXTURE_MAX_LOD: GLenum = 0x813B;

pub const TEXTURE_MIN_FILTER: GLenum = 0x2801;

pub const TEXTURE_MIN_LOD: GLenum = 0x813A;

pub const TEXTURE_SWIZZLE_A: GLenum = 0x8E45;

pub const TEXTURE_SWIZZLE_B: GLenum = 0x8E44;

pub const TEXTURE_SWIZZLE_G: GLenum = 0x8E43;

pub const TEXTURE_SWIZZLE_R: GLenum = 0x8E42;

pub const TEXTURE_WRAP_R: GLenum = 0x8072;

pub const TEXTURE_WRAP_S: GLenum = 0x2802;

pub const TEXTURE_WRAP_T: GLenum = 0x2803;

pub const TRANSFORM_FEEDBACK_BUFFER: GLenum = 0x8C8E;

pub const TRIANGLES: GLenum = 0x0004;

pub const TRIANGLE_FAN: GLenum = 0x0006;

pub const TRIANGLE_STRIP: GLenum = 0x0005;

pub const TRUE: GLboolean = 1;

pub const UNIFORM_BUFFER: GLenum = 0x8A11;

pub const UNSIGNED_BYTE: GLenum = 0x1401;

pub const UNSIGNED_INT: GLenum = 0x1405;

pub const UNSIGNED_INT_10F_11F_11F_REV: GLenum = 0x8C3B;

pub const UNSIGNED_INT_24_8: GLenum = 0x84FA;

pub const UNSIGNED_INT_2_10_10_10_REV: GLenum = 0x8368;

pub const UNSIGNED_INT_5_9_9_9_REV: GLenum = 0x8C3E;

pub const UNSIGNED_SHORT: GLenum = 0x1403;

pub const UNSIGNED_SHORT_4_4_4_4: GLenum = 0x8033;

pub const UNSIGNED_SHORT_5_5_5_1: GLenum = 0x8034;

pub const UNSIGNED_SHORT_5_6_5: GLenum = 0x8363;

pub const VERTEX_SHADER: GLenum = 0x8B31;

pub const ZERO: GLenum = 0x0000;

} // verus!
