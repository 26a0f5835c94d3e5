use glhf::GLEnum;

#[test]
fn constants_of_framebuffer_buffer() {
    assert_eq!(glhf::framebuffer::Buffer::NoBuffer.as_gl(), 0x0000);
    assert_eq!(glhf::framebuffer::Buffer::ColorAttachment0.as_gl(), 0x8CE0);
    assert_eq!(glhf::framebuffer::Buffer::ColorAttachment1.as_gl(), 0x8CE1);
    assert_eq!(glhf::framebuffer::Buffer::ColorAttachment2.as_gl(), 0x8CE2);
    assert_eq!(glhf::framebuffer::Buffer::ColorAttachment3.as_gl(), 0x8CE3);
}

#[test]
fn constants_of_attachment() {
    assert_eq!(glhf::framebuffer::Attachment::Color0.as_gl(), 0x8CE0);
    assert_eq!(glhf::framebuffer::Attachment::Color1.as_gl(), 0x8CE1);
    assert_eq!(glhf::framebuffer::Attachment::Color2.as_gl(), 0x8CE2);
    assert_eq!(glhf::framebuffer::Attachment::Color3.as_gl(), 0x8CE3);
    assert_eq!(glhf::framebuffer::Attachment::Depth.as_gl(), 0x8D00);
    assert_eq!(glhf::framebuffer::Attachment::Stencil.as_gl(), 0x8D20);
    assert_eq!(glhf::framebuffer::Attachment::DepthStencil.as_gl(), 0x821A);
}

#[test]
fn constants_of_default_buffer() {
    assert_eq!(glhf::framebuffer::DefaultBuffer::NoBuffer.as_gl(), 0x0000);
    assert_eq!(glhf::framebuffer::DefaultBuffer::Back.as_gl(), 0x0405);
}

#[test]
fn constants_of_compare_func() {
    assert_eq!(glhf::state::CompareFunc::LessEqual.as_gl(), 0x0203);
    assert_eq!(glhf::state::CompareFunc::GreaterEqual.as_gl(), 0x0206);
    assert_eq!(glhf::state::CompareFunc::Less.as_gl(), 0x0201);
    assert_eq!(glhf::state::CompareFunc::Greater.as_gl(), 0x0204);
    assert_eq!(glhf::state::CompareFunc::Equal.as_gl(), 0x0202);
    assert_eq!(glhf::state::CompareFunc::NotEqual.as_gl(), 0x0205);
    assert_eq!(glhf::state::CompareFunc::Always.as_gl(), 0x0207);
    assert_eq!(glhf::state::CompareFunc::Never.as_gl(), 0x0200);
}

#[test]
fn constants_of_cull_face() {
    assert_eq!(glhf::state::CullFace::Front.as_gl(), 0x0404);
    assert_eq!(glhf::state::CullFace::Back.as_gl(), 0x0405);
    assert_eq!(glhf::state::CullFace::FrontAndBack.as_gl(), 0x0408);
}

#[test]
fn constants_of_front_face() {
    assert_eq!(glhf::state::FrontFace::Clockwise.as_gl(), 0x0900);
    assert_eq!(glhf::state::FrontFace::CounterClockwise.as_gl(), 0x0901);
}

#[test]
fn constants_of_blend_equation() {
    assert_eq!(glhf::state::BlendEquation::Add.as_gl(), 0x8006);
    assert_eq!(glhf::state::BlendEquation::Subtract.as_gl(), 0x800A);
    assert_eq!(glhf::state::BlendEquation::ReverseSubtract.as_gl(), 0x800B);
    assert_eq!(glhf::state::BlendEquation::Min.as_gl(), 0x8007);
    assert_eq!(glhf::state::BlendEquation::Max.as_gl(), 0x8008);
}

#[test]
fn constants_of_blend_factor() {
    assert_eq!(glhf::state::BlendFactor::Zero.as_gl(), 0x0000);
    assert_eq!(glhf::state::BlendFactor::One.as_gl(), 0x0001);
    assert_eq!(glhf::state::BlendFactor::SrcColor.as_gl(), 0x0300);
    assert_eq!(glhf::state::BlendFactor::OneMinusSrcColor.as_gl(), 0x0301);
    assert_eq!(glhf::state::BlendFactor::SrcAlpha.as_gl(), 0x0302);
    assert_eq!(glhf::state::BlendFactor::OneMinusSrcAlpha.as_gl(), 0x0303);
    assert_eq!(glhf::state::BlendFactor::DstColor.as_gl(), 0x0306);
    assert_eq!(glhf::state::BlendFactor::OneMinusDstColor.as_gl(), 0x0307);
    assert_eq!(glhf::state::BlendFactor::DstAlpha.as_gl(), 0x0304);
    assert_eq!(glhf::state::BlendFactor::OneMinusDstAlpha.as_gl(), 0x0305);
    assert_eq!(glhf::state::BlendFactor::ConstantColor.as_gl(), 0x8001);
    assert_eq!(glhf::state::BlendFactor::OneMinusConstantColor.as_gl(), 0x8002);
    assert_eq!(glhf::state::BlendFactor::ConstantAlpha.as_gl(), 0x8003);
    assert_eq!(glhf::state::BlendFactor::OneMinusConstantAlpha.as_gl(), 0x8004);
    assert_eq!(glhf::state::BlendFactor::SrcAlphaSaturate.as_gl(), 0x0308);
}

#[test]
fn constants_of_capability() {
    assert_eq!(glhf::state::Capability::Blend.as_gl(), 0x0BE2);
    assert_eq!(glhf::state::Capability::CullFace.as_gl(), 0x0B44);
    assert_eq!(glhf::state::Capability::DebugOutput.as_gl(), 0x92E0);
    assert_eq!(glhf::state::Capability::DebugOutputSynchronous.as_gl(), 0x8242);
    assert_eq!(glhf::state::Capability::DepthTest.as_gl(), 0x0B71);
    assert_eq!(glhf::state::Capability::Dither.as_gl(), 0x0BD0);
    assert_eq!(glhf::state::Capability::PolygonOffsetFill.as_gl(), 0x8037);
    assert_eq!(glhf::state::Capability::PrimitiveRestartFixedIndex.as_gl(), 0x8D69);
    assert_eq!(glhf::state::Capability::RasterizerDiscard.as_gl(), 0x8C89);
    assert_eq!(glhf::state::Capability::SampleAlphaToCoverage.as_gl(), 0x809E);
    assert_eq!(glhf::state::Capability::SampleMask.as_gl(), 0x8E51);
    assert_eq!(glhf::state::Capability::ScissorTest.as_gl(), 0x0C11);
    assert_eq!(glhf::state::Capability::StencilTest.as_gl(), 0x0B90);
}

#[test]
fn constants_of_stencil_op() {
    assert_eq!(glhf::state::StencilOp::Keep.as_gl(), 0x1E00);
    assert_eq!(glhf::state::StencilOp::Zero.as_gl(), 0x0000);
    assert_eq!(glhf::state::StencilOp::Replace.as_gl(), 0x1E01);
    assert_eq!(glhf::state::StencilOp::SaturatingIncrement.as_gl(), 0x1E02);
    assert_eq!(glhf::state::StencilOp::WrappingIncrement.as_gl(), 0x8507);
    assert_eq!(glhf::state::StencilOp::SaturatingDecrement.as_gl(), 0x1E03);
    assert_eq!(glhf::state::StencilOp::WrappingDecrement.as_gl(), 0x8508);
    assert_eq!(glhf::state::StencilOp::Invert.as_gl(), 0x150A);
}

#[test]
fn constants_of_swizzle() {
    assert_eq!(glhf::texture::Swizzle::Red.as_gl(), 0x1903);
    assert_eq!(glhf::texture::Swizzle::Green.as_gl(), 0x1904);
    assert_eq!(glhf::texture::Swizzle::Blue.as_gl(), 0x1905);
    assert_eq!(glhf::texture::Swizzle::Alpha.as_gl(), 0x1906);
    assert_eq!(glhf::texture::Swizzle::Zero.as_gl(), 0x0000);
    assert_eq!(glhf::texture::Swizzle::One.as_gl(), 0x0001);
}

#[test]
fn constants_of_wrap() {
    assert_eq!(glhf::texture::Wrap::ClampToEdge.as_gl(), 0x812F);
    assert_eq!(glhf::texture::Wrap::MirroredRepeat.as_gl(), 0x8370);
    assert_eq!(glhf::texture::Wrap::Repeat.as_gl(), 0x2901);
}

#[test]
fn constants_of_depth_stencil_mode() {
    assert_eq!(glhf::texture::DepthStencilMode::Depth.as_gl(), 0x1902);
    assert_eq!(glhf::texture::DepthStencilMode::Stencil.as_gl(), 0x1901);
}

#[test]
fn constants_of_format() {
    assert_eq!(glhf::texture::Format::Alpha.as_gl(), 0x1906);
    assert_eq!(glhf::texture::Format::Luminance.as_gl(), 0x1909);
    assert_eq!(glhf::texture::Format::LuminanceAlpha.as_gl(), 0x190A);
    assert_eq!(glhf::texture::Format::Red.as_gl(), 0x1903);
    assert_eq!(glhf::texture::Format::RedInteger.as_gl(), 0x8D94);
    assert_eq!(glhf::texture::Format::RG.as_gl(), 0x8227);
    assert_eq!(glhf::texture::Format::RGInteger.as_gl(), 0x8228);
    assert_eq!(glhf::texture::Format::RGB.as_gl(), 0x1907);
    assert_eq!(glhf::texture::Format::RGBInteger.as_gl(), 0x8D98);
    assert_eq!(glhf::texture::Format::RGBA.as_gl(), 0x1908);
    assert_eq!(glhf::texture::Format::RGBAInteger.as_gl(), 0x8D99);
    assert_eq!(glhf::texture::Format::DepthComponent.as_gl(), 0x1902);
    assert_eq!(glhf::texture::Format::DepthStencil.as_gl(), 0x84F9);
    assert_eq!(glhf::texture::Format::Stencil.as_gl(), 0x1901);
}

#[test]
fn constants_of_texture_internal_format() {
    assert_eq!(glhf::texture::InternalFormat::RGB.as_gl(), 0x1907);
    assert_eq!(glhf::texture::InternalFormat::RGBA.as_gl(), 0x1908);
    assert_eq!(glhf::texture::InternalFormat::LuminanceAlpha.as_gl(), 0x190A);
    assert_eq!(glhf::texture::InternalFormat::Luminance.as_gl(), 0x1909);
    assert_eq!(glhf::texture::InternalFormat::Alpha.as_gl(), 0x1906);
    assert_eq!(glhf::texture::InternalFormat::R8.as_gl(), 0x8229);
    assert_eq!(glhf::texture::InternalFormat::R8Snorm.as_gl(), 0x8F94);
    assert_eq!(glhf::texture::InternalFormat::R16f.as_gl(), 0x822D);
    assert_eq!(glhf::texture::InternalFormat::R32f.as_gl(), 0x822E);
    assert_eq!(glhf::texture::InternalFormat::R8ui.as_gl(), 0x8232);
    assert_eq!(glhf::texture::InternalFormat::R8i.as_gl(), 0x8231);
    assert_eq!(glhf::texture::InternalFormat::R16ui.as_gl(), 0x8234);
    assert_eq!(glhf::texture::InternalFormat::R16i.as_gl(), 0x8233);
    assert_eq!(glhf::texture::InternalFormat::R32ui.as_gl(), 0x8236);
    assert_eq!(glhf::texture::InternalFormat::R32i.as_gl(), 0x8235);
    assert_eq!(glhf::texture::InternalFormat::Rg8.as_gl(), 0x822B);
    assert_eq!(glhf::texture::InternalFormat::Rg8Snorm.as_gl(), 0x8F95);
    assert_eq!(glhf::texture::InternalFormat::Rg16f.as_gl(), 0x822F);
    assert_eq!(glhf::texture::InternalFormat::Rg32f.as_gl(), 0x8230);
    assert_eq!(glhf::texture::InternalFormat::Rg8ui.as_gl(), 0x8238);
    assert_eq!(glhf::texture::InternalFormat::Rg8i.as_gl(), 0x8237);
    assert_eq!(glhf::texture::InternalFormat::Rg16ui.as_gl(), 0x823A);
    assert_eq!(glhf::texture::InternalFormat::Rg16i.as_gl(), 0x8239);
    assert_eq!(glhf::texture::InternalFormat::Rg32ui.as_gl(), 0x823C);
    assert_eq!(glhf::texture::InternalFormat::Rg32i.as_gl(), 0x823B);
    assert_eq!(glhf::texture::InternalFormat::Rgb8.as_gl(), 0x8051);
    assert_eq!(glhf::texture::InternalFormat::Srgb8.as_gl(), 0x8C41);
    assert_eq!(glhf::texture::InternalFormat::Rgb565.as_gl(), 0x8D62);
    assert_eq!(glhf::texture::InternalFormat::Rgb8Snorm.as_gl(), 0x8F96);
    assert_eq!(glhf::texture::InternalFormat::R11fG11fB10f.as_gl(), 0x8C3A);
    assert_eq!(glhf::texture::InternalFormat::Rgb9E5.as_gl(), 0x8C3D);
    assert_eq!(glhf::texture::InternalFormat::Rgb16f.as_gl(), 0x881B);
    assert_eq!(glhf::texture::InternalFormat::Rgb32f.as_gl(), 0x8815);
    assert_eq!(glhf::texture::InternalFormat::Rgb8ui.as_gl(), 0x8D7D);
    assert_eq!(glhf::texture::InternalFormat::Rgb8i.as_gl(), 0x8D8F);
    assert_eq!(glhf::texture::InternalFormat::Rgb16ui.as_gl(), 0x8D77);
    assert_eq!(glhf::texture::InternalFormat::Rgb16i.as_gl(), 0x8D89);
    assert_eq!(glhf::texture::InternalFormat::Rgb32ui.as_gl(), 0x8D71);
    assert_eq!(glhf::texture::InternalFormat::Rgb32i.as_gl(), 0x8D83);
    assert_eq!(glhf::texture::InternalFormat::Rgba8.as_gl(), 0x8058);
    assert_eq!(glhf::texture::InternalFormat::Srgb8Alpha8.as_gl(), 0x8C43);
    assert_eq!(glhf::texture::InternalFormat::Rgba8Snorm.as_gl(), 0x8F97);
    assert_eq!(glhf::texture::InternalFormat::Rgb5A1.as_gl(), 0x8057);
    assert_eq!(glhf::texture::InternalFormat::Rgba4.as_gl(), 0x8056);
    assert_eq!(glhf::texture::InternalFormat::Rgb10A2.as_gl(), 0x8059);
    assert_eq!(glhf::texture::InternalFormat::Rgba16f.as_gl(), 0x881A);
    assert_eq!(glhf::texture::InternalFormat::Rgba32f.as_gl(), 0x8814);
    assert_eq!(glhf::texture::InternalFormat::Rgba8ui.as_gl(), 0x8D7C);
    assert_eq!(glhf::texture::InternalFormat::Rgba8i.as_gl(), 0x8D8E);
    assert_eq!(glhf::texture::InternalFormat::Rgb10A2ui.as_gl(), 0x906F);
    assert_eq!(glhf::texture::InternalFormat::Rgba16ui.as_gl(), 0x8D76);
    assert_eq!(glhf::texture::InternalFormat::Rgba16i.as_gl(), 0x8D88);
    assert_eq!(glhf::texture::InternalFormat::Rgba32i.as_gl(), 0x8D82);
    assert_eq!(glhf::texture::InternalFormat::Rgba32ui.as_gl(), 0x8D70);
    assert_eq!(glhf::texture::InternalFormat::DepthComponent16.as_gl(), 0x81A5);
    assert_eq!(glhf::texture::InternalFormat::DepthComponent24.as_gl(), 0x81A6);
    assert_eq!(glhf::texture::InternalFormat::DepthComponent32f.as_gl(), 0x8CAC);
    assert_eq!(glhf::texture::InternalFormat::Depth24Stencil8.as_gl(), 0x88F0);
    assert_eq!(glhf::texture::InternalFormat::Depth32fStencil8.as_gl(), 0x8CAD);
}

#[test]
fn constants_of_renderbuffer_internal_format() {
    assert_eq!(glhf::renderbuffer::InternalFormat::R8.as_gl(), 0x8229);
    assert_eq!(glhf::renderbuffer::InternalFormat::R8ui.as_gl(), 0x8232);
    assert_eq!(glhf::renderbuffer::InternalFormat::R8i.as_gl(), 0x8231);
    assert_eq!(glhf::renderbuffer::InternalFormat::R16ui.as_gl(), 0x8234);
    assert_eq!(glhf::renderbuffer::InternalFormat::R16i.as_gl(), 0x8233);
    assert_eq!(glhf::renderbuffer::InternalFormat::R32ui.as_gl(), 0x8236);
    assert_eq!(glhf::renderbuffer::InternalFormat::R32i.as_gl(), 0x8235);
    assert_eq!(glhf::renderbuffer::InternalFormat::Rg8.as_gl(), 0x822B);
    assert_eq!(glhf::renderbuffer::InternalFormat::Rg8ui.as_gl(), 0x8238);
    assert_eq!(glhf::renderbuffer::InternalFormat::Rg8i.as_gl(), 0x8237);
    assert_eq!(glhf::renderbuffer::InternalFormat::Rg16ui.as_gl(), 0x823A);
    assert_eq!(glhf::renderbuffer::InternalFormat::Rg16i.as_gl(), 0x8239);
    assert_eq!(glhf::renderbuffer::InternalFormat::Rg32ui.as_gl(), 0x823C);
    assert_eq!(glhf::renderbuffer::InternalFormat::Rg32i.as_gl(), 0x823B);
    assert_eq!(glhf::renderbuffer::InternalFormat::Rgb8.as_gl(), 0x8051);
    assert_eq!(glhf::renderbuffer::InternalFormat::Rgb565.as_gl(), 0x8D62);
    assert_eq!(glhf::renderbuffer::InternalFormat::Rgba8.as_gl(), 0x8058);
    assert_eq!(glhf::renderbuffer::InternalFormat::Srgb8Alpha8.as_gl(), 0x8C43);
    assert_eq!(glhf::renderbuffer::InternalFormat::Rgb5A1.as_gl(), 0x8057);
    assert_eq!(glhf::renderbuffer::InternalFormat::Rgba4.as_gl(), 0x8056);
    assert_eq!(glhf::renderbuffer::InternalFormat::Rgb10A2.as_gl(), 0x8059);
    assert_eq!(glhf::renderbuffer::InternalFormat::Rgba8ui.as_gl(), 0x8D7C);
    assert_eq!(glhf::renderbuffer::InternalFormat::Rgba8i.as_gl(), 0x8D8E);
    assert_eq!(glhf::renderbuffer::InternalFormat::Rgb10A2ui.as_gl(), 0x906F);
    assert_eq!(glhf::renderbuffer::InternalFormat::Rgba16ui.as_gl(), 0x8D76);
    assert_eq!(glhf::renderbuffer::InternalFormat::Rgba16i.as_gl(), 0x8D88);
    assert_eq!(glhf::renderbuffer::InternalFormat::Rgba32i.as_gl(), 0x8D82);
    assert_eq!(glhf::renderbuffer::InternalFormat::Rgba32ui.as_gl(), 0x8D70);
    assert_eq!(glhf::renderbuffer::InternalFormat::DepthComponent16.as_gl(), 0x81A5);
    assert_eq!(glhf::renderbuffer::InternalFormat::DepthComponent24.as_gl(), 0x81A6);
    assert_eq!(glhf::renderbuffer::InternalFormat::DepthComponent32f.as_gl(), 0x8CAC);
    assert_eq!(glhf::renderbuffer::InternalFormat::Depth24Stencil8.as_gl(), 0x88F0);
    assert_eq!(glhf::renderbuffer::InternalFormat::Depth32fStencil8.as_gl(), 0x8CAD);
    assert_eq!(glhf::renderbuffer::InternalFormat::StencilIndex8.as_gl(), 0x8D48);
}

#[test]
fn constants_of_renderbuffer_internal_format_multisample() {
    assert_eq!(glhf::renderbuffer::InternalFormatMultisample::R8.as_gl(), 0x8229);
    assert_eq!(glhf::renderbuffer::InternalFormatMultisample::Rg8.as_gl(), 0x822B);
    assert_eq!(glhf::renderbuffer::InternalFormatMultisample::Rgb8.as_gl(), 0x8051);
    assert_eq!(glhf::renderbuffer::InternalFormatMultisample::Rgb565.as_gl(), 0x8D62);
    assert_eq!(glhf::renderbuffer::InternalFormatMultisample::Rgba8.as_gl(), 0x8058);
    assert_eq!(glhf::renderbuffer::InternalFormatMultisample::Srgb8Alpha8.as_gl(), 0x8C43);
    assert_eq!(glhf::renderbuffer::InternalFormatMultisample::Rgb5A1.as_gl(), 0x8057);
    assert_eq!(glhf::renderbuffer::InternalFormatMultisample::Rgba4.as_gl(), 0x8056);
    assert_eq!(glhf::renderbuffer::InternalFormatMultisample::Rgb10A2.as_gl(), 0x8059);
    assert_eq!(glhf::renderbuffer::InternalFormatMultisample::DepthComponent16.as_gl(), 0x81A5);
    assert_eq!(glhf::renderbuffer::InternalFormatMultisample::DepthComponent24.as_gl(), 0x81A6);
    assert_eq!(glhf::renderbuffer::InternalFormatMultisample::DepthComponent32f.as_gl(), 0x8CAC);
    assert_eq!(glhf::renderbuffer::InternalFormatMultisample::Depth24Stencil8.as_gl(), 0x88F0);
    assert_eq!(glhf::renderbuffer::InternalFormatMultisample::Depth32fStencil8.as_gl(), 0x8CAD);
    assert_eq!(glhf::renderbuffer::InternalFormatMultisample::StencilIndex8.as_gl(), 0x8D48);
}

#[test]
fn constants_of_integer_attribute() {
    assert_eq!(glhf::vertex_array::IntegerAttribute::U8.as_gl(), 0x1401);
    assert_eq!(glhf::vertex_array::IntegerAttribute::I8.as_gl(), 0x1400);
    assert_eq!(glhf::vertex_array::IntegerAttribute::U16.as_gl(), 0x1403);
    assert_eq!(glhf::vertex_array::IntegerAttribute::I16.as_gl(), 0x1402);
    assert_eq!(glhf::vertex_array::IntegerAttribute::U32.as_gl(), 0x1405);
    assert_eq!(glhf::vertex_array::IntegerAttribute::I32.as_gl(), 0x1404);
}

#[test]
fn constants_of_floating_attribute() {
    assert_eq!(glhf::vertex_array::FloatingAttribute::F16.as_gl(), 0x140B);
    assert_eq!(glhf::vertex_array::FloatingAttribute::F32.as_gl(), 0x1406);
    assert_eq!(glhf::vertex_array::FloatingAttribute::Fixed16_16.as_gl(), 0x140C);
}

#[test]
fn constants_of_packed_integer_attribute() {
    assert_eq!(glhf::vertex_array::PackedIntegerAttribute::IReverse2_10_10_10.as_gl(), 0x8D9F);
    assert_eq!(glhf::vertex_array::PackedIntegerAttribute::UReverse2_10_10_10.as_gl(), 0x8368);
}
