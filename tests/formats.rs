use glcore_buffers::common::to_camel_case;
use glcore_buffers::glbuffer::{Buffer, BufferTarget, BufferUsage, MapAccess};
use glcore_buffers::glframebuffer::{Framebuffer, FramebufferBind, FramebufferError, FramebufferTarget};
use glcore_buffers::glshader::{ShaderInputType, ShaderInputVarType};
use glcore_buffers::gltexture::{
    get_format_and_type_from_image_pixel,
    ChannelType, ComponentType, CubeMapFaces, PixelBuffer, SamplerFilter, SamplerMagFilter, Texture,
    TextureDimension, TextureFormat, TextureTarget,
};
use glcore_buffers::mesh::{ElementType, PrimitiveMode};

#[test]
fn texture_format_from_channels_and_components() {
    assert!(TextureFormat::from_format_and_type(ChannelType::Rgba, ComponentType::U8) == Some(TextureFormat::Rgba8ui));
    assert!(TextureFormat::from_format_and_type(ChannelType::Red, ComponentType::F32) == Some(TextureFormat::R32f));
    assert!(TextureFormat::from_format_and_type(ChannelType::Bgr, ComponentType::U16_5551) == Some(TextureFormat::Rgb5a1));
    assert!(TextureFormat::from_format_and_type(ChannelType::Bgra, ComponentType::I16) == None);
    assert!(TextureFormat::from_format_and_type(ChannelType::Rgb, ComponentType::F16) == None);
}

#[test]
fn pixel_sizes() {
    assert_eq!(PixelBuffer::size_of_pixel(ChannelType::Rgba, ComponentType::U8), 4);
    assert_eq!(PixelBuffer::size_of_pixel(ChannelType::Rgb, ComponentType::F32), 12);
    assert_eq!(PixelBuffer::size_of_pixel(ChannelType::Rgba, ComponentType::U16_4444), 2);
    assert_eq!(PixelBuffer::size_of_pixel(ChannelType::DepthStencil, ComponentType::U16), 4);
}

#[test]
fn pixel_buffer_pitch_rounds_to_four() {
    let buffer = Buffer::new(2, BufferTarget::PixelUnpackBuffer, 60, BufferUsage::StreamDraw);
    let pb = PixelBuffer::new(buffer, 5, 4, 1, ChannelType::Rgb, ComponentType::U8);
    assert_eq!(pb.get_pitch(), 16);
    assert_eq!(pb.size_in_bytes(), 60);
    assert_eq!(pb.get_name(), 2);
    assert!(pb.get_format() == ChannelType::Rgb);
}

#[test]
fn component_type_names() {
    assert!(ComponentType::from_typename("u8") == Some(ComponentType::U8));
    assert!(ComponentType::from_typename("i16") == Some(ComponentType::I16));
    assert!(ComponentType::from_typename("f32") == Some(ComponentType::F32));
    assert!(ComponentType::from_typename("u64") == None);
    assert!(ComponentType::from_typename("") == None);
}

#[test]
fn shader_input_types() {
    let t = ShaderInputType::from_gl(0x8B5C).unwrap();
    assert!(t == ShaderInputType::Mat4);
    assert!(t.is_float());
    assert_eq!(t.get_size_and_rows(), (4, 4));
    assert_eq!(ShaderInputType::DMat2x3.get_size_and_rows(), (2, 3));
    assert!(ShaderInputType::UVec3.get_base_type() == ShaderInputType::UInt);
    assert!(ShaderInputType::IVec2.is_integer());
    assert!(ShaderInputType::DVec4.is_double());
    assert!(ShaderInputType::from_gl(1).is_none());
    assert_eq!(ShaderInputType::Vec3.to_gl(), 0x8B51);
    let v = ShaderInputVarType { type_: ShaderInputType::DVec2, size: 3 };
    assert!(v.is_double());
    assert!(v.get_base_type() == ShaderInputType::Double);
    assert!(v.get_type() == ShaderInputType::DVec2);
}

#[test]
fn framebuffer_status() {
    assert!(FramebufferError::from_status(0x8CD5) == Ok(()));
    assert!(FramebufferError::from_status(0x8CDD) == Err(FramebufferError::Unsupported));
    assert!(FramebufferError::from_status(5) == Err(FramebufferError::UnknownError(5)));
    assert_eq!(FramebufferBind::attachment_of_location(2), Some(0x8CE2));
    assert_eq!(FramebufferBind::attachment_of_location(-1), None);
    let t = FramebufferTarget { texture_target: TextureTarget::Tex3d, layer_of_3d: 4 };
    assert_eq!(FramebufferBind::attached_layer(TextureDimension::Tex3d, t), Some(4));
    assert_eq!(FramebufferBind::attached_layer(TextureDimension::Tex2d, t), None);
    let fb = Framebuffer::new(9);
    assert_eq!(fb.get_name(), 9);
}

#[test]
fn texture_sizes() {
    let t = Texture::new_unallocates(1, TextureDimension::TexCube, TextureFormat::Rgba8, 16, 3, 3, false,
        SamplerMagFilter::Linear, SamplerFilter::Linear, 32);
    assert_eq!(t.get_height(), 16);
    assert_eq!(t.get_depth(), 1);
    assert_eq!(t.get_bytes_of_face(), 4 * 16);
    assert_eq!(t.get_bytes_of_texture(), 4 * 16 * 6);
    let bind = t.bind_face(CubeMapFaces::TexCubeNegY);
    assert!(bind.get_target() == TextureTarget::TexCubeNegY);
    let t = Texture::new_unallocates(2, TextureDimension::Tex3d, TextureFormat::R8ui, 8, 4, 2, false,
        SamplerMagFilter::Nearest, SamplerFilter::Nearest, 8);
    assert_eq!(t.get_bytes_of_texture(), 4 * 4 * 2);
    assert!(t.bind().get_target() == TextureTarget::Tex3d);
    assert_eq!(t.set_active_unit(3), 0x84C3);
}

#[test]
fn enumerants() {
    assert_eq!(ElementType::U16.get_size(), 2);
    assert_eq!(ElementType::U32.to_gl(), 0x1405);
    assert_eq!(PrimitiveMode::Triangles.to_gl(), 0x0004);
    assert_eq!(BufferTarget::UniformBuffer.to_gl(), 0x8A11);
    assert_eq!(MapAccess::WriteOnly.to_gl(), 0x88B9);
    assert!(BufferUsage::from_gl(0x88E8) == Some(BufferUsage::DynamicDraw));
    assert!(BufferUsage::from_gl(0) == None);
}

#[test]
fn camel_case_conversion() {
    assert_eq!(to_camel_case("hello_world", false), "helloWorld");
    assert_eq!(to_camel_case("hello_world", true), "HelloWorld");
    assert_eq!(to_camel_case("__a__b_", false), "AB");
    assert_eq!(to_camel_case("", true), "");
    assert_eq!(to_camel_case("x_\u{df}", false), "xSS");
}

#[test]
fn image_pixel_formats() {
    assert!(get_format_and_type_from_image_pixel("u8", 3) == Some((ChannelType::Rgb, ComponentType::U8)));
    assert!(get_format_and_type_from_image_pixel("u32", 4) == Some((ChannelType::RgbaInteger, ComponentType::U32)));
    assert!(get_format_and_type_from_image_pixel("f32", 1) == Some((ChannelType::Red, ComponentType::F32)));
    assert!(get_format_and_type_from_image_pixel("f64", 1) == None);
    assert!(get_format_and_type_from_image_pixel("u8", 5) == None);
}
