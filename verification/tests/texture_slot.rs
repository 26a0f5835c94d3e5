use glhf::bound::Bound;
use glhf::call::{Call, Float, Payload};
use glhf::nonzero::NonZeroU32;
use glhf::state::CompareFunc;
use glhf::texture::{DepthStencilMode, Filter, InternalFormat, Swizzle, Wrap};
use glhf::ThinGLObject;
use glhf::GLHF;

const D2: u32 = 0x0DE1;
const D3: u32 = 0x806F;
const D2_ARRAY: u32 = 0x8C1A;
const CUBE: u32 = 0x8513;

fn name(raw: u32) -> NonZeroU32 {
    NonZeroU32::new(raw).unwrap()
}

fn parameter(target: u32, pname: u32, param: i32) -> Call {
    Call::TexParameteri {
        target,
        pname,
        param,
    }
}

#[test]
fn initialize_binds_and_gives_the_dimensionality() {
    let mut gl = GLHF::current();
    let [a, b, c, d] = gl
        .new
        .textures::<4>(&mut gl.queue)
        .adopt([name(1), name(2), name(3), name(4)]);
    let (a, _) = gl.texture.d2.initialize(&mut gl.queue, a);
    let (b, _) = gl.texture.d3.initialize(&mut gl.queue, b);
    let (c, _) = gl.texture.d2_array.initialize(&mut gl.queue, c);
    let (d, _) = gl.texture.cube.initialize(&mut gl.queue, d);
    gl.texture.cube.bind(&mut gl.queue, &d);
    gl.texture.d2.bind(&mut gl.queue, &a);
    let expected = [(D2, 1), (D3, 2), (D2_ARRAY, 3), (CUBE, 4), (CUBE, 4), (D2, 1)];
    assert_eq!(gl.queue.len(), 1 + expected.len());
    for (index, (target, texture)) in expected.into_iter().enumerate() {
        assert_eq!(
            gl.queue.call(1 + index),
            Call::BindTexture { target, texture }
        );
    }
    assert_eq!(a.name().get(), 1);
    assert_eq!(b.name().get(), 2);
    assert_eq!(c.name().get(), 3);
    assert_eq!(d.name().get(), 4);
}

#[test]
fn swizzle_sets_the_four_channels_in_their_order() {
    let mut gl = GLHF::current();
    gl.texture.d3.inherit_mut().swizzle(
        &mut gl.queue,
        [Swizzle::Alpha, Swizzle::One, Swizzle::Zero, Swizzle::Red],
    );
    assert_eq!(gl.queue.len(), 4);
    assert_eq!(gl.queue.call(0), parameter(D3, 0x8E42, 0x1906));
    assert_eq!(gl.queue.call(1), parameter(D3, 0x8E43, 1));
    assert_eq!(gl.queue.call(2), parameter(D3, 0x8E44, 0));
    assert_eq!(gl.queue.call(3), parameter(D3, 0x8E45, 0x1903));
}

#[test]
fn min_filter_constants() {
    let mut gl = GLHF::current();
    let active = gl.texture.d2.inherit_mut();
    active
        .min_filter(&mut gl.queue, Filter::Nearest, None)
        .min_filter(&mut gl.queue, Filter::Linear, None)
        .min_filter(&mut gl.queue, Filter::Nearest, Some(Filter::Nearest))
        .min_filter(&mut gl.queue, Filter::Linear, Some(Filter::Nearest))
        .min_filter(&mut gl.queue, Filter::Nearest, Some(Filter::Linear))
        .min_filter(&mut gl.queue, Filter::Linear, Some(Filter::Linear));
    let expected = [0x2600, 0x2601, 0x2700, 0x2701, 0x2702, 0x2703];
    for (index, filter) in expected.into_iter().enumerate() {
        assert_eq!(gl.queue.call(index), parameter(D2, 0x2801, filter));
    }
}

#[test]
fn mag_filter_constants() {
    let mut gl = GLHF::current();
    gl.texture
        .cube
        .inherit_mut()
        .mag_filter(&mut gl.queue, Filter::Nearest)
        .mag_filter(&mut gl.queue, Filter::Linear);
    assert_eq!(gl.queue.call(0), parameter(CUBE, 0x2800, 0x2600));
    assert_eq!(gl.queue.call(1), parameter(CUBE, 0x2800, 0x2601));
}

#[test]
fn compare_mode_switches_comparison_on_and_off() {
    let mut gl = GLHF::current();
    gl.texture
        .d2
        .inherit_mut()
        .compare_mode(&mut gl.queue, Some(CompareFunc::LessEqual))
        .compare_mode(&mut gl.queue, None);
    assert_eq!(gl.queue.len(), 3);
    assert_eq!(gl.queue.call(0), parameter(D2, 0x884C, 0x884E));
    assert_eq!(gl.queue.call(1), parameter(D2, 0x884D, 0x0203));
    assert_eq!(gl.queue.call(2), parameter(D2, 0x884C, 0));
}

#[test]
fn wrap_sets_the_three_axes_in_their_order() {
    let mut gl = GLHF::current();
    gl.texture.d2_array.inherit_mut().wrap(
        &mut gl.queue,
        [Wrap::Repeat, Wrap::ClampToEdge, Wrap::MirroredRepeat],
    );
    assert_eq!(gl.queue.len(), 3);
    assert_eq!(gl.queue.call(0), parameter(D2_ARRAY, 0x2802, 0x2901));
    assert_eq!(gl.queue.call(1), parameter(D2_ARRAY, 0x2803, 0x812F));
    assert_eq!(gl.queue.call(2), parameter(D2_ARRAY, 0x8072, 0x8370));
}

#[test]
fn level_range_sets_base_and_max() {
    let mut gl = GLHF::current();
    gl.texture
        .d2
        .inherit_mut()
        .level_range(&mut gl.queue, Bound::Unbounded, Bound::Unbounded)
        .level_range(&mut gl.queue, Bound::Included(2), Bound::Included(5))
        .level_range(&mut gl.queue, Bound::Excluded(2), Bound::Excluded(5))
        .level_range(
            &mut gl.queue,
            Bound::Excluded(u32::MAX),
            Bound::Excluded(u32::MAX),
        );
    assert_eq!(gl.queue.call(0), parameter(D2, 0x813C, 0));
    assert_eq!(gl.queue.call(1), parameter(D2, 0x813D, 1000));
    assert_eq!(gl.queue.call(2), parameter(D2, 0x813C, 2));
    assert_eq!(gl.queue.call(3), parameter(D2, 0x813D, 5));
    assert_eq!(gl.queue.call(4), parameter(D2, 0x813C, 3));
    assert_eq!(gl.queue.call(5), parameter(D2, 0x813D, 6));
    assert_eq!(gl.queue.call(6), parameter(D2, 0x813C, -1));
    assert_eq!(gl.queue.call(7), parameter(D2, 0x813D, -1));
}

#[test]
fn lod_range_hands_the_bit_patterns_on() {
    let mut gl = GLHF::current();
    let min = Float((-0.5f32).to_bits());
    let max = Float(4.0f32.to_bits());
    gl.texture
        .d2
        .inherit_mut()
        .lod_range(&mut gl.queue, min, max);
    assert_eq!(
        gl.queue.call(0),
        Call::TexParameterf {
            target: D2,
            pname: 0x813A,
            param: Float(0xBF00_0000)
        }
    );
    assert_eq!(
        gl.queue.call(1),
        Call::TexParameterf {
            target: D2,
            pname: 0x813B,
            param: Float(0x4080_0000)
        }
    );
}

#[test]
fn depth_stencil_mode_constants() {
    let mut gl = GLHF::current();
    gl.texture
        .d2
        .inherit_mut()
        .depth_stencil_mode(&mut gl.queue, DepthStencilMode::Depth)
        .depth_stencil_mode(&mut gl.queue, DepthStencilMode::Stencil);
    assert_eq!(gl.queue.call(0), parameter(D2, 0x90EA, 0x1902));
    assert_eq!(gl.queue.call(1), parameter(D2, 0x90EA, 0x1901));
}

#[test]
fn storage_of_a_two_dimensional_texture() {
    let mut gl = GLHF::current();
    gl.texture.d2.inherit_mut().storage(
        &mut gl.queue,
        name(4),
        InternalFormat::Rgba16f,
        name(256),
        name(128),
    );
    assert_eq!(
        gl.queue.call(0),
        Call::TexStorage2D {
            target: D2,
            levels: 4,
            internalformat: 0x881A,
            width: 256,
            height: 128
        }
    );
}

#[test]
fn unit_counts_from_the_first_texture_unit() {
    let mut gl = GLHF::current();
    gl.texture
        .unit(&mut gl.queue, 0)
        .unit(&mut gl.queue, 5)
        .unit(&mut gl.queue, 31);
    assert_eq!(gl.queue.call(0), Call::ActiveTexture { texture: 0x84C0 });
    assert_eq!(gl.queue.call(1), Call::ActiveTexture { texture: 0x84C5 });
    assert_eq!(gl.queue.call(2), Call::ActiveTexture { texture: 0x84DF });
}

#[test]
fn textures_are_deleted_through_their_slot() {
    let mut gl = GLHF::current();
    let [a, b] = gl
        .new
        .textures::<2>(&mut gl.queue)
        .adopt([name(8), name(9)]);
    let (a, _) = gl.texture.d3.initialize(&mut gl.queue, a);
    let (b, _) = gl.texture.d3.initialize(&mut gl.queue, b);
    gl.queue.take();
    gl.texture.d3.delete(&mut gl.queue, [b, a]);
    assert_eq!(gl.queue.call(0), Call::DeleteTextures { n: 2 });
    assert_eq!(*gl.queue.payload(0), Payload::Words(vec![9, 8]));
}
