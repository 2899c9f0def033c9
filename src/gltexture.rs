use vstd::prelude::*;
use vstd::string::StringSliceAdditionalSpecFns;
use crate::glbuffer::{Buffer, BufferBind};
use crate::glshader::{GL_FLOAT, GL_INT, GL_UNSIGNED_INT};

verus! {

/// The GL enumerants of texture targets, formats and parameters.
pub const GL_TEXTURE_1D: u32 = 0x0DE0;
pub const GL_TEXTURE_2D: u32 = 0x0DE1;
pub const GL_TEXTURE_3D: u32 = 0x806F;
pub const GL_TEXTURE_CUBE_MAP: u32 = 0x8513;
pub const GL_TEXTURE_CUBE_MAP_POSITIVE_X: u32 = 0x8515;
pub const GL_TEXTURE_CUBE_MAP_NEGATIVE_X: u32 = 0x8516;
pub const GL_TEXTURE_CUBE_MAP_POSITIVE_Y: u32 = 0x8517;
pub const GL_TEXTURE_CUBE_MAP_NEGATIVE_Y: u32 = 0x8518;
pub const GL_TEXTURE_CUBE_MAP_POSITIVE_Z: u32 = 0x8519;
pub const GL_TEXTURE_CUBE_MAP_NEGATIVE_Z: u32 = 0x851A;
pub const GL_DEPTH_COMPONENT: u32 = 0x1902;
pub const GL_DEPTH_STENCIL: u32 = 0x84F9;
pub const GL_RED: u32 = 0x1903;
pub const GL_RG: u32 = 0x8227;
pub const GL_RGB: u32 = 0x1907;
pub const GL_RGBA: u32 = 0x1908;
pub const GL_R8: u32 = 0x8229;
pub const GL_R8_SNORM: u32 = 0x8F94;
pub const GL_R16: u32 = 0x822A;
pub const GL_R16_SNORM: u32 = 0x8F98;
pub const GL_RG8: u32 = 0x822B;
pub const GL_RG8_SNORM: u32 = 0x8F95;
pub const GL_RG16: u32 = 0x822C;
pub const GL_RG16_SNORM: u32 = 0x8F99;
pub const GL_R3_G3_B2: u32 = 0x2A10;
pub const GL_RGB4: u32 = 0x804F;
pub const GL_RGB5: u32 = 0x8050;
pub const GL_RGB8: u32 = 0x8051;
pub const GL_RGB8_SNORM: u32 = 0x8F96;
pub const GL_RGB10: u32 = 0x8052;
pub const GL_RGB12: u32 = 0x8053;
pub const GL_RGB16_SNORM: u32 = 0x8F9A;
pub const GL_RGBA2: u32 = 0x8055;
pub const GL_RGBA4: u32 = 0x8056;
pub const GL_RGB5_A1: u32 = 0x8057;
pub const GL_RGBA8: u32 = 0x8058;
pub const GL_RGBA8_SNORM: u32 = 0x8F97;
pub const GL_RGB10_A2: u32 = 0x8059;
pub const GL_RGB10_A2UI: u32 = 0x906F;
pub const GL_RGBA12: u32 = 0x805A;
pub const GL_RGBA16: u32 = 0x805B;
pub const GL_R32F: u32 = 0x822E;
pub const GL_RG32F: u32 = 0x8230;
pub const GL_RGB32F: u32 = 0x8815;
pub const GL_RGBA32F: u32 = 0x8814;
pub const GL_R11F_G11F_B10F: u32 = 0x8C3A;
pub const GL_RGB9_E5: u32 = 0x8C3D;
pub const GL_R8I: u32 = 0x8231;
pub const GL_R8UI: u32 = 0x8232;
pub const GL_R16I: u32 = 0x8233;
pub const GL_R16UI: u32 = 0x8234;
pub const GL_R32I: u32 = 0x8235;
pub const GL_R32UI: u32 = 0x8236;
pub const GL_RG8I: u32 = 0x8237;
pub const GL_RG8UI: u32 = 0x8238;
pub const GL_RG16I: u32 = 0x8239;
pub const GL_RG16UI: u32 = 0x823A;
pub const GL_RG32I: u32 = 0x823B;
pub const GL_RG32UI: u32 = 0x823C;
pub const GL_RGB8I: u32 = 0x8D8F;
pub const GL_RGB8UI: u32 = 0x8D7D;
pub const GL_RGB16I: u32 = 0x8D89;
pub const GL_RGB16UI: u32 = 0x8D77;
pub const GL_RGB32I: u32 = 0x8D83;
pub const GL_RGB32UI: u32 = 0x8D71;
pub const GL_RGBA8I: u32 = 0x8D8E;
pub const GL_RGBA8UI: u32 = 0x8D7C;
pub const GL_RGBA16I: u32 = 0x8D88;
pub const GL_RGBA16UI: u32 = 0x8D76;
pub const GL_RGBA32I: u32 = 0x8D82;
pub const GL_RGBA32UI: u32 = 0x8D70;
pub const GL_CLAMP_TO_EDGE: u32 = 0x812F;
pub const GL_CLAMP_TO_BORDER: u32 = 0x812D;
pub const GL_MIRROR_CLAMP_TO_EDGE: u32 = 0x8743;
pub const GL_REPEAT: u32 = 0x2901;
pub const GL_MIRRORED_REPEAT: u32 = 0x8370;
pub const GL_NEAREST: u32 = 0x2600;
pub const GL_LINEAR: u32 = 0x2601;
pub const GL_NEAREST_MIPMAP_NEAREST: u32 = 0x2700;
pub const GL_LINEAR_MIPMAP_NEAREST: u32 = 0x2701;
pub const GL_NEAREST_MIPMAP_LINEAR: u32 = 0x2702;
pub const GL_LINEAR_MIPMAP_LINEAR: u32 = 0x2703;
pub const GL_BGR: u32 = 0x80E0;
pub const GL_BGRA: u32 = 0x80E1;
pub const GL_RED_INTEGER: u32 = 0x8D94;
pub const GL_RG_INTEGER: u32 = 0x8228;
pub const GL_RGB_INTEGER: u32 = 0x8D98;
pub const GL_BGR_INTEGER: u32 = 0x8D9A;
pub const GL_RGBA_INTEGER: u32 = 0x8D99;
pub const GL_BGRA_INTEGER: u32 = 0x8D9B;
pub const GL_STENCIL_INDEX: u32 = 0x1901;
pub const GL_UNSIGNED_BYTE: u32 = 0x1401;
pub const GL_BYTE: u32 = 0x1400;
pub const GL_UNSIGNED_SHORT: u32 = 0x1403;
pub const GL_SHORT: u32 = 0x1402;
pub const GL_HALF_FLOAT: u32 = 0x140B;
pub const GL_UNSIGNED_BYTE_3_3_2: u32 = 0x8032;
pub const GL_UNSIGNED_BYTE_2_3_3_REV: u32 = 0x8362;
pub const GL_UNSIGNED_SHORT_5_6_5: u32 = 0x8363;
pub const GL_UNSIGNED_SHORT_5_6_5_REV: u32 = 0x8364;
pub const GL_UNSIGNED_SHORT_4_4_4_4: u32 = 0x8033;
pub const GL_UNSIGNED_SHORT_4_4_4_4_REV: u32 = 0x8365;
pub const GL_UNSIGNED_SHORT_5_5_5_1: u32 = 0x8034;
pub const GL_UNSIGNED_SHORT_1_5_5_5_REV: u32 = 0x8366;
pub const GL_UNSIGNED_INT_8_8_8_8: u32 = 0x8035;
pub const GL_UNSIGNED_INT_8_8_8_8_REV: u32 = 0x8367;
pub const GL_UNSIGNED_INT_10_10_10_2: u32 = 0x8036;
pub const GL_UNSIGNED_INT_2_10_10_10_REV: u32 = 0x8368;
pub const GL_TEXTURE0: u32 = 0x84C0;

/// The dimension of the texture represents the type of texture
#[derive(Clone, Copy, PartialEq, Eq, Structural, Debug)]
pub enum TextureDimension {
    Tex1d,
    Tex2d,
    Tex3d,
    TexCube,
}

/// The binding target of the texture includes the 6 faces of a cubemap
#[derive(Clone, Copy, PartialEq, Eq, Structural, Debug)]
pub enum TextureTarget {
    Tex1d,
    Tex2d,
    Tex3d,
    TexCube,
    TexCubePosX,
    TexCubeNegX,
    TexCubePosY,
    TexCubeNegY,
    TexCubePosZ,
    TexCubeNegZ,
}

/// The cubemap faces enum
#[derive(Clone, Copy, PartialEq, Eq, Structural, Debug)]
pub enum CubeMapFaces {
    TexCubePosX,
    TexCubeNegX,
    TexCubePosY,
    TexCubeNegY,
    TexCubePosZ,
    TexCubeNegZ,
}

/// The internal format of the texture indicates how the pixels are stored in the GPU texture
#[derive(Clone, Copy, PartialEq, Eq, Structural, Debug)]
pub enum TextureFormat {
    Depth,
    DepthStencil,
    Red,
    Rg,
    Rgb,
    Rgba,
    Red8,
    Red8Snorm,
    Red16,
    Red16Snorm,
    Rg8,
    Rg8Snorm,
    Rg16,
    Rg16Snorm,
    R3g3b2,
    Rgb4,
    Rgb5,
    Rgb8,
    Rgb8Snorm,
    Rgb10,
    Rgb12,
    Rgb16Snorm,
    Rgba2,
    Rgba4,
    Rgb5a1,
    Rgba8,
    Rgba8Snorm,
    Rgb10a2,
    Rgb10a2ui,
    Rgba12,
    Rgba16,
    R32f,
    Rg32f,
    Rgb32f,
    Rgba32f,
    R11fg11fb10f,
    Rgb9e5,
    R8i,
    R8ui,
    R16i,
    R16ui,
    R32i,
    R32ui,
    Rg8i,
    Rg8ui,
    Rg16i,
    Rg16ui,
    Rg32i,
    Rg32ui,
    Rgb8i,
    Rgb8ui,
    Rgb16i,
    Rgb16ui,
    Rgb32i,
    Rgb32ui,
    Rgba8i,
    Rgba8ui,
    Rgba16i,
    Rgba16ui,
    Rgba32i,
    Rgba32ui,
}

/// The wrapping rules of the textures
#[derive(Clone, Copy, PartialEq, Eq, Structural, Debug)]
pub enum TextureWrapping {
    ClampToEdge,
    ClampToBorder,
    MirrorClampToEdge,
    Repeat,
    MirroredRepeat,
}

/// The sampler filters of the textures, including how mipmap sampling should be done
#[derive(Clone, Copy, PartialEq, Eq, Structural, Debug)]
pub enum SamplerFilter {
    Nearest,
    Linear,
    NearestMipmapNearest,
    LinearMipmapNearest,
    NearestMipmapLinear,
    LinearMipmapLinear,
}

/// The sampler filters of the textures, only for magnifying sampling
#[derive(Clone, Copy, PartialEq, Eq, Structural, Debug)]
pub enum SamplerMagFilter {
    Nearest,
    Linear,
}

/// The channel type of a pixel
#[derive(Clone, Copy, PartialEq, Eq, Structural, Debug)]
pub enum ChannelType {
    Red,
    Rg,
    Rgb,
    Bgr,
    Rgba,
    Bgra,
    RedInteger,
    RgInteger,
    RgbInteger,
    BgrInteger,
    RgbaInteger,
    BgraInteger,
    StencilIndex,
    Depth,
    DepthStencil,
}

#[allow(non_camel_case_types)]
/// The component type for each channel of a pixel
#[derive(Clone, Copy, PartialEq, Eq, Structural, Debug)]
pub enum ComponentType {
    U8,
    I8,
    U16,
    I16,
    U32,
    I32,
    F16,
    F32,
    U8_332,
    U8_233Rev,
    U16_565,
    U16_565Rev,
    U16_4444,
    U16_4444Rev,
    U16_5551,
    U16_1555Rev,
    U32_8888,
    U32_8888Rev,
    U32_10_10_10_2,
    U32_2_10_10_10Rev,
}

impl TextureDimension {
    pub open spec fn gl_value(self) -> u32 {
        match self {
            TextureDimension::Tex1d => GL_TEXTURE_1D,
            TextureDimension::Tex2d => GL_TEXTURE_2D,
            TextureDimension::Tex3d => GL_TEXTURE_3D,
            TextureDimension::TexCube => GL_TEXTURE_CUBE_MAP,
        }
    }

    /// The GL enumerant of this dimension.
    pub fn to_gl(&self) -> (r: u32)
        ensures
            r == self.gl_value(),
    {
        match self {
            TextureDimension::Tex1d => GL_TEXTURE_1D,
            TextureDimension::Tex2d => GL_TEXTURE_2D,
            TextureDimension::Tex3d => GL_TEXTURE_3D,
            TextureDimension::TexCube => GL_TEXTURE_CUBE_MAP,
        }
    }
}

impl TextureTarget {
    pub open spec fn gl_value(self) -> u32 {
        match self {
            TextureTarget::Tex1d => GL_TEXTURE_1D,
            TextureTarget::Tex2d => GL_TEXTURE_2D,
            TextureTarget::Tex3d => GL_TEXTURE_3D,
            TextureTarget::TexCube => GL_TEXTURE_CUBE_MAP,
            TextureTarget::TexCubePosX => GL_TEXTURE_CUBE_MAP_POSITIVE_X,
            TextureTarget::TexCubeNegX => GL_TEXTURE_CUBE_MAP_NEGATIVE_X,
            TextureTarget::TexCubePosY => GL_TEXTURE_CUBE_MAP_POSITIVE_Y,
            TextureTarget::TexCubeNegY => GL_TEXTURE_CUBE_MAP_NEGATIVE_Y,
            TextureTarget::TexCubePosZ => GL_TEXTURE_CUBE_MAP_POSITIVE_Z,
            TextureTarget::TexCubeNegZ => GL_TEXTURE_CUBE_MAP_NEGATIVE_Z,
        }
    }

    /// The GL enumerant of this target.
    pub fn to_gl(&self) -> (r: u32)
        ensures
            r == self.gl_value(),
    {
        match self {
            TextureTarget::Tex1d => GL_TEXTURE_1D,
            TextureTarget::Tex2d => GL_TEXTURE_2D,
            TextureTarget::Tex3d => GL_TEXTURE_3D,
            TextureTarget::TexCube => GL_TEXTURE_CUBE_MAP,
            TextureTarget::TexCubePosX => GL_TEXTURE_CUBE_MAP_POSITIVE_X,
            TextureTarget::TexCubeNegX => GL_TEXTURE_CUBE_MAP_NEGATIVE_X,
            TextureTarget::TexCubePosY => GL_TEXTURE_CUBE_MAP_POSITIVE_Y,
            TextureTarget::TexCubeNegY => GL_TEXTURE_CUBE_MAP_NEGATIVE_Y,
            TextureTarget::TexCubePosZ => GL_TEXTURE_CUBE_MAP_POSITIVE_Z,
            TextureTarget::TexCubeNegZ => GL_TEXTURE_CUBE_MAP_NEGATIVE_Z,
        }
    }
}

impl TextureFormat {
    pub open spec fn gl_value(self) -> u32 {
        match self {
            TextureFormat::Depth => GL_DEPTH_COMPONENT,
            TextureFormat::DepthStencil => GL_DEPTH_STENCIL,
            TextureFormat::Red => GL_RED,
            TextureFormat::Rg => GL_RG,
            TextureFormat::Rgb => GL_RGB,
            TextureFormat::Rgba => GL_RGBA,
            TextureFormat::Red8 => GL_R8,
            TextureFormat::Red8Snorm => GL_R8_SNORM,
            TextureFormat::Red16 => GL_R16,
            TextureFormat::Red16Snorm => GL_R16_SNORM,
            TextureFormat::Rg8 => GL_RG8,
            TextureFormat::Rg8Snorm => GL_RG8_SNORM,
            TextureFormat::Rg16 => GL_RG16,
            TextureFormat::Rg16Snorm => GL_RG16_SNORM,
            TextureFormat::R3g3b2 => GL_R3_G3_B2,
            TextureFormat::Rgb4 => GL_RGB4,
            TextureFormat::Rgb5 => GL_RGB5,
            TextureFormat::Rgb8 => GL_RGB8,
            TextureFormat::Rgb8Snorm => GL_RGB8_SNORM,
            TextureFormat::Rgb10 => GL_RGB10,
            TextureFormat::Rgb12 => GL_RGB12,
            TextureFormat::Rgb16Snorm => GL_RGB16_SNORM,
            TextureFormat::Rgba2 => GL_RGBA2,
            TextureFormat::Rgba4 => GL_RGBA4,
            TextureFormat::Rgb5a1 => GL_RGB5_A1,
            TextureFormat::Rgba8 => GL_RGBA8,
            TextureFormat::Rgba8Snorm => GL_RGBA8_SNORM,
            TextureFormat::Rgb10a2 => GL_RGB10_A2,
            TextureFormat::Rgb10a2ui => GL_RGB10_A2UI,
            TextureFormat::Rgba12 => GL_RGBA12,
            TextureFormat::Rgba16 => GL_RGBA16,
            TextureFormat::R32f => GL_R32F,
            TextureFormat::Rg32f => GL_RG32F,
            TextureFormat::Rgb32f => GL_RGB32F,
            TextureFormat::Rgba32f => GL_RGBA32F,
            TextureFormat::R11fg11fb10f => GL_R11F_G11F_B10F,
            TextureFormat::Rgb9e5 => GL_RGB9_E5,
            TextureFormat::R8i => GL_R8I,
            TextureFormat::R8ui => GL_R8UI,
            TextureFormat::R16i => GL_R16I,
            TextureFormat::R16ui => GL_R16UI,
            TextureFormat::R32i => GL_R32I,
            TextureFormat::R32ui => GL_R32UI,
            TextureFormat::Rg8i => GL_RG8I,
            TextureFormat::Rg8ui => GL_RG8UI,
            TextureFormat::Rg16i => GL_RG16I,
            TextureFormat::Rg16ui => GL_RG16UI,
            TextureFormat::Rg32i => GL_RG32I,
            TextureFormat::Rg32ui => GL_RG32UI,
            TextureFormat::Rgb8i => GL_RGB8I,
            TextureFormat::Rgb8ui => GL_RGB8UI,
            TextureFormat::Rgb16i => GL_RGB16I,
            TextureFormat::Rgb16ui => GL_RGB16UI,
            TextureFormat::Rgb32i => GL_RGB32I,
            TextureFormat::Rgb32ui => GL_RGB32UI,
            TextureFormat::Rgba8i => GL_RGBA8I,
            TextureFormat::Rgba8ui => GL_RGBA8UI,
            TextureFormat::Rgba16i => GL_RGBA16I,
            TextureFormat::Rgba16ui => GL_RGBA16UI,
            TextureFormat::Rgba32i => GL_RGBA32I,
            TextureFormat::Rgba32ui => GL_RGBA32UI,
        }
    }

    /// The GL enumerant of this format.
    pub fn to_gl(&self) -> (r: u32)
        ensures
            r == self.gl_value(),
    {
        match self {
            TextureFormat::Depth => GL_DEPTH_COMPONENT,
            TextureFormat::DepthStencil => GL_DEPTH_STENCIL,
            TextureFormat::Red => GL_RED,
            TextureFormat::Rg => GL_RG,
            TextureFormat::Rgb => GL_RGB,
            TextureFormat::Rgba => GL_RGBA,
            TextureFormat::Red8 => GL_R8,
            TextureFormat::Red8Snorm => GL_R8_SNORM,
            TextureFormat::Red16 => GL_R16,
            TextureFormat::Red16Snorm => GL_R16_SNORM,
            TextureFormat::Rg8 => GL_RG8,
            TextureFormat::Rg8Snorm => GL_RG8_SNORM,
            TextureFormat::Rg16 => GL_RG16,
            TextureFormat::Rg16Snorm => GL_RG16_SNORM,
            TextureFormat::R3g3b2 => GL_R3_G3_B2,
            TextureFormat::Rgb4 => GL_RGB4,
            TextureFormat::Rgb5 => GL_RGB5,
            TextureFormat::Rgb8 => GL_RGB8,
            TextureFormat::Rgb8Snorm => GL_RGB8_SNORM,
            TextureFormat::Rgb10 => GL_RGB10,
            TextureFormat::Rgb12 => GL_RGB12,
            TextureFormat::Rgb16Snorm => GL_RGB16_SNORM,
            TextureFormat::Rgba2 => GL_RGBA2,
            TextureFormat::Rgba4 => GL_RGBA4,
            TextureFormat::Rgb5a1 => GL_RGB5_A1,
            TextureFormat::Rgba8 => GL_RGBA8,
            TextureFormat::Rgba8Snorm => GL_RGBA8_SNORM,
            TextureFormat::Rgb10a2 => GL_RGB10_A2,
            TextureFormat::Rgb10a2ui => GL_RGB10_A2UI,
            TextureFormat::Rgba12 => GL_RGBA12,
            TextureFormat::Rgba16 => GL_RGBA16,
            TextureFormat::R32f => GL_R32F,
            TextureFormat::Rg32f => GL_RG32F,
            TextureFormat::Rgb32f => GL_RGB32F,
            TextureFormat::Rgba32f => GL_RGBA32F,
            TextureFormat::R11fg11fb10f => GL_R11F_G11F_B10F,
            TextureFormat::Rgb9e5 => GL_RGB9_E5,
            TextureFormat::R8i => GL_R8I,
            TextureFormat::R8ui => GL_R8UI,
            TextureFormat::R16i => GL_R16I,
            TextureFormat::R16ui => GL_R16UI,
            TextureFormat::R32i => GL_R32I,
            TextureFormat::R32ui => GL_R32UI,
            TextureFormat::Rg8i => GL_RG8I,
            TextureFormat::Rg8ui => GL_RG8UI,
            TextureFormat::Rg16i => GL_RG16I,
            TextureFormat::Rg16ui => GL_RG16UI,
            TextureFormat::Rg32i => GL_RG32I,
            TextureFormat::Rg32ui => GL_RG32UI,
            TextureFormat::Rgb8i => GL_RGB8I,
            TextureFormat::Rgb8ui => GL_RGB8UI,
            TextureFormat::Rgb16i => GL_RGB16I,
            TextureFormat::Rgb16ui => GL_RGB16UI,
            TextureFormat::Rgb32i => GL_RGB32I,
            TextureFormat::Rgb32ui => GL_RGB32UI,
            TextureFormat::Rgba8i => GL_RGBA8I,
            TextureFormat::Rgba8ui => GL_RGBA8UI,
            TextureFormat::Rgba16i => GL_RGBA16I,
            TextureFormat::Rgba16ui => GL_RGBA16UI,
            TextureFormat::Rgba32i => GL_RGBA32I,
            TextureFormat::Rgba32ui => GL_RGBA32UI,
        }
    }
}

impl TextureWrapping {
    pub open spec fn gl_value(self) -> u32 {
        match self {
            TextureWrapping::ClampToEdge => GL_CLAMP_TO_EDGE,
            TextureWrapping::ClampToBorder => GL_CLAMP_TO_BORDER,
            TextureWrapping::MirrorClampToEdge => GL_MIRROR_CLAMP_TO_EDGE,
            TextureWrapping::Repeat => GL_REPEAT,
            TextureWrapping::MirroredRepeat => GL_MIRRORED_REPEAT,
        }
    }

    /// The GL enumerant of this wrapping.
    pub fn to_gl(&self) -> (r: u32)
        ensures
            r == self.gl_value(),
    {
        match self {
            TextureWrapping::ClampToEdge => GL_CLAMP_TO_EDGE,
            TextureWrapping::ClampToBorder => GL_CLAMP_TO_BORDER,
            TextureWrapping::MirrorClampToEdge => GL_MIRROR_CLAMP_TO_EDGE,
            TextureWrapping::Repeat => GL_REPEAT,
            TextureWrapping::MirroredRepeat => GL_MIRRORED_REPEAT,
        }
    }
}

impl SamplerFilter {
    pub open spec fn gl_value(self) -> u32 {
        match self {
            SamplerFilter::Nearest => GL_NEAREST,
            SamplerFilter::Linear => GL_LINEAR,
            SamplerFilter::NearestMipmapNearest => GL_NEAREST_MIPMAP_NEAREST,
            SamplerFilter::LinearMipmapNearest => GL_LINEAR_MIPMAP_NEAREST,
            SamplerFilter::NearestMipmapLinear => GL_NEAREST_MIPMAP_LINEAR,
            SamplerFilter::LinearMipmapLinear => GL_LINEAR_MIPMAP_LINEAR,
        }
    }

    /// The GL enumerant of this filter.
    pub fn to_gl(&self) -> (r: u32)
        ensures
            r == self.gl_value(),
    {
        match self {
            SamplerFilter::Nearest => GL_NEAREST,
            SamplerFilter::Linear => GL_LINEAR,
            SamplerFilter::NearestMipmapNearest => GL_NEAREST_MIPMAP_NEAREST,
            SamplerFilter::LinearMipmapNearest => GL_LINEAR_MIPMAP_NEAREST,
            SamplerFilter::NearestMipmapLinear => GL_NEAREST_MIPMAP_LINEAR,
            SamplerFilter::LinearMipmapLinear => GL_LINEAR_MIPMAP_LINEAR,
        }
    }
}

impl SamplerMagFilter {
    pub open spec fn gl_value(self) -> u32 {
        match self {
            SamplerMagFilter::Nearest => GL_NEAREST,
            SamplerMagFilter::Linear => GL_LINEAR,
        }
    }

    /// The GL enumerant of this filter.
    pub fn to_gl(&self) -> (r: u32)
        ensures
            r == self.gl_value(),
    {
        match self {
            SamplerMagFilter::Nearest => GL_NEAREST,
            SamplerMagFilter::Linear => GL_LINEAR,
        }
    }
}

impl ChannelType {
    pub open spec fn gl_value(self) -> u32 {
        match self {
            ChannelType::Red => GL_RED,
            ChannelType::Rg => GL_RG,
            ChannelType::Rgb => GL_RGB,
            ChannelType::Bgr => GL_BGR,
            ChannelType::Rgba => GL_RGBA,
            ChannelType::Bgra => GL_BGRA,
            ChannelType::RedInteger => GL_RED_INTEGER,
            ChannelType::RgInteger => GL_RG_INTEGER,
            ChannelType::RgbInteger => GL_RGB_INTEGER,
            ChannelType::BgrInteger => GL_BGR_INTEGER,
            ChannelType::RgbaInteger => GL_RGBA_INTEGER,
            ChannelType::BgraInteger => GL_BGRA_INTEGER,
            ChannelType::StencilIndex => GL_STENCIL_INDEX,
            ChannelType::Depth => GL_DEPTH_COMPONENT,
            ChannelType::DepthStencil => GL_DEPTH_STENCIL,
        }
    }

    /// The GL enumerant of this channel type.
    pub fn to_gl(&self) -> (r: u32)
        ensures
            r == self.gl_value(),
    {
        match self {
            ChannelType::Red => GL_RED,
            ChannelType::Rg => GL_RG,
            ChannelType::Rgb => GL_RGB,
            ChannelType::Bgr => GL_BGR,
            ChannelType::Rgba => GL_RGBA,
            ChannelType::Bgra => GL_BGRA,
            ChannelType::RedInteger => GL_RED_INTEGER,
            ChannelType::RgInteger => GL_RG_INTEGER,
            ChannelType::RgbInteger => GL_RGB_INTEGER,
            ChannelType::BgrInteger => GL_BGR_INTEGER,
            ChannelType::RgbaInteger => GL_RGBA_INTEGER,
            ChannelType::BgraInteger => GL_BGRA_INTEGER,
            ChannelType::StencilIndex => GL_STENCIL_INDEX,
            ChannelType::Depth => GL_DEPTH_COMPONENT,
            ChannelType::DepthStencil => GL_DEPTH_STENCIL,
        }
    }
}

impl ComponentType {
    pub open spec fn gl_value(self) -> u32 {
        match self {
            ComponentType::U8 => GL_UNSIGNED_BYTE,
            ComponentType::I8 => GL_BYTE,
            ComponentType::U16 => GL_UNSIGNED_SHORT,
            ComponentType::I16 => GL_SHORT,
            ComponentType::U32 => GL_UNSIGNED_INT,
            ComponentType::I32 => GL_INT,
            ComponentType::F16 => GL_HALF_FLOAT,
            ComponentType::F32 => GL_FLOAT,
            ComponentType::U8_332 => GL_UNSIGNED_BYTE_3_3_2,
            ComponentType::U8_233Rev => GL_UNSIGNED_BYTE_2_3_3_REV,
            ComponentType::U16_565 => GL_UNSIGNED_SHORT_5_6_5,
            ComponentType::U16_565Rev => GL_UNSIGNED_SHORT_5_6_5_REV,
            ComponentType::U16_4444 => GL_UNSIGNED_SHORT_4_4_4_4,
            ComponentType::U16_4444Rev => GL_UNSIGNED_SHORT_4_4_4_4_REV,
            ComponentType::U16_5551 => GL_UNSIGNED_SHORT_5_5_5_1,
            ComponentType::U16_1555Rev => GL_UNSIGNED_SHORT_1_5_5_5_REV,
            ComponentType::U32_8888 => GL_UNSIGNED_INT_8_8_8_8,
            ComponentType::U32_8888Rev => GL_UNSIGNED_INT_8_8_8_8_REV,
            ComponentType::U32_10_10_10_2 => GL_UNSIGNED_INT_10_10_10_2,
            ComponentType::U32_2_10_10_10Rev => GL_UNSIGNED_INT_2_10_10_10_REV,
        }
    }

    /// The GL enumerant of this component type.
    pub fn to_gl(&self) -> (r: u32)
        ensures
            r == self.gl_value(),
    {
        match self {
            ComponentType::U8 => GL_UNSIGNED_BYTE,
            ComponentType::I8 => GL_BYTE,
            ComponentType::U16 => GL_UNSIGNED_SHORT,
            ComponentType::I16 => GL_SHORT,
            ComponentType::U32 => GL_UNSIGNED_INT,
            ComponentType::I32 => GL_INT,
            ComponentType::F16 => GL_HALF_FLOAT,
            ComponentType::F32 => GL_FLOAT,
            ComponentType::U8_332 => GL_UNSIGNED_BYTE_3_3_2,
            ComponentType::U8_233Rev => GL_UNSIGNED_BYTE_2_3_3_REV,
            ComponentType::U16_565 => GL_UNSIGNED_SHORT_5_6_5,
            ComponentType::U16_565Rev => GL_UNSIGNED_SHORT_5_6_5_REV,
            ComponentType::U16_4444 => GL_UNSIGNED_SHORT_4_4_4_4,
            ComponentType::U16_4444Rev => GL_UNSIGNED_SHORT_4_4_4_4_REV,
            ComponentType::U16_5551 => GL_UNSIGNED_SHORT_5_5_5_1,
            ComponentType::U16_1555Rev => GL_UNSIGNED_SHORT_1_5_5_5_REV,
            ComponentType::U32_8888 => GL_UNSIGNED_INT_8_8_8_8,
            ComponentType::U32_8888Rev => GL_UNSIGNED_INT_8_8_8_8_REV,
            ComponentType::U32_10_10_10_2 => GL_UNSIGNED_INT_10_10_10_2,
            ComponentType::U32_2_10_10_10Rev => GL_UNSIGNED_INT_2_10_10_10_REV,
        }
    }
}

impl CubeMapFaces {
    pub open spec fn spec_target(self) -> TextureTarget {
        match self {
            CubeMapFaces::TexCubePosX => TextureTarget::TexCubePosX,
            CubeMapFaces::TexCubeNegX => TextureTarget::TexCubeNegX,
            CubeMapFaces::TexCubePosY => TextureTarget::TexCubePosY,
            CubeMapFaces::TexCubeNegY => TextureTarget::TexCubeNegY,
            CubeMapFaces::TexCubePosZ => TextureTarget::TexCubePosZ,
            CubeMapFaces::TexCubeNegZ => TextureTarget::TexCubeNegZ,
        }
    }

    /// The binding target of this face.
    pub fn to_target(&self) -> (r: TextureTarget)
        ensures
            r == self.spec_target(),
    {
        match self {
            CubeMapFaces::TexCubePosX => TextureTarget::TexCubePosX,
            CubeMapFaces::TexCubeNegX => TextureTarget::TexCubeNegX,
            CubeMapFaces::TexCubePosY => TextureTarget::TexCubePosY,
            CubeMapFaces::TexCubeNegY => TextureTarget::TexCubeNegY,
            CubeMapFaces::TexCubePosZ => TextureTarget::TexCubePosZ,
            CubeMapFaces::TexCubeNegZ => TextureTarget::TexCubeNegZ,
        }
    }
}

impl TextureFormat {
    /// The internal format that stores pixels of `format` channels with `format_type`
    /// components, where there is one.
    pub open spec fn spec_from_format_and_type(format: ChannelType, format_type: ComponentType) -> Option<TextureFormat> {
        match format_type {
            ComponentType::U8_332 => Some(TextureFormat::R3g3b2),
            ComponentType::U16_4444 => Some(TextureFormat::Rgba4),
            ComponentType::U16_5551 => Some(TextureFormat::Rgb5a1),
            ComponentType::U32_8888 => Some(TextureFormat::Rgba8),
            ComponentType::U32_10_10_10_2 => Some(TextureFormat::Rgb10a2),
            ComponentType::I8 => match format {
                ChannelType::Red => Some(TextureFormat::R8i),
                ChannelType::Rg => Some(TextureFormat::Rg8i),
                ChannelType::Rgb => Some(TextureFormat::Rgb8i),
                ChannelType::Rgba => Some(TextureFormat::Rgba8i),
                _ => None,
            },
            ComponentType::U8 => match format {
                ChannelType::Red => Some(TextureFormat::R8ui),
                ChannelType::Rg => Some(TextureFormat::Rg8ui),
                ChannelType::Rgb => Some(TextureFormat::Rgb8ui),
                ChannelType::Rgba => Some(TextureFormat::Rgba8ui),
                _ => None,
            },
            ComponentType::I16 => match format {
                ChannelType::Red => Some(TextureFormat::R16i),
                ChannelType::Rg => Some(TextureFormat::Rg16i),
                ChannelType::Rgb => Some(TextureFormat::Rgb16i),
                ChannelType::Rgba => Some(TextureFormat::Rgba16i),
                _ => None,
            },
            ComponentType::U16 => match format {
                ChannelType::Red => Some(TextureFormat::R16ui),
                ChannelType::Rg => Some(TextureFormat::Rg16ui),
                ChannelType::Rgb => Some(TextureFormat::Rgb16ui),
                ChannelType::Rgba => Some(TextureFormat::Rgba16ui),
                _ => None,
            },
            ComponentType::I32 => match format {
                ChannelType::Red => Some(TextureFormat::R32i),
                ChannelType::Rg => Some(TextureFormat::Rg32i),
                ChannelType::Rgb => Some(TextureFormat::Rgb32i),
                ChannelType::Rgba => Some(TextureFormat::Rgba32i),
                _ => None,
            },
            ComponentType::U32 => match format {
                ChannelType::Red => Some(TextureFormat::R32ui),
                ChannelType::Rg => Some(TextureFormat::Rg32ui),
                ChannelType::Rgb => Some(TextureFormat::Rgb32ui),
                ChannelType::Rgba => Some(TextureFormat::Rgba32ui),
                _ => None,
            },
            ComponentType::F32 => match format {
                ChannelType::Red => Some(TextureFormat::R32f),
                ChannelType::Rg => Some(TextureFormat::Rg32f),
                ChannelType::Rgb => Some(TextureFormat::Rgb32f),
                ChannelType::Rgba => Some(TextureFormat::Rgba32f),
                _ => None,
            },
            _ => None,
        }
    }

    /// Create a `TextureFormat` from the channel type and the component type, returns `None`
    /// if the combination couldn't have its corresponding format
    pub fn from_format_and_type(format: ChannelType, format_type: ComponentType) -> (r: Option<TextureFormat>)
        ensures
            r == Self::spec_from_format_and_type(format, format_type),
    {
        match format_type {
            ComponentType::U8_332 => Some(TextureFormat::R3g3b2),
            ComponentType::U16_4444 => Some(TextureFormat::Rgba4),
            ComponentType::U16_5551 => Some(TextureFormat::Rgb5a1),
            ComponentType::U32_8888 => Some(TextureFormat::Rgba8),
            ComponentType::U32_10_10_10_2 => Some(TextureFormat::Rgb10a2),
            ComponentType::I8 => match format {
                ChannelType::Red => Some(TextureFormat::R8i),
                ChannelType::Rg => Some(TextureFormat::Rg8i),
                ChannelType::Rgb => Some(TextureFormat::Rgb8i),
                ChannelType::Rgba => Some(TextureFormat::Rgba8i),
                _ => None,
            },
            ComponentType::U8 => match format {
                ChannelType::Red => Some(TextureFormat::R8ui),
                ChannelType::Rg => Some(TextureFormat::Rg8ui),
                ChannelType::Rgb => Some(TextureFormat::Rgb8ui),
                ChannelType::Rgba => Some(TextureFormat::Rgba8ui),
                _ => None,
            },
            ComponentType::I16 => match format {
                ChannelType::Red => Some(TextureFormat::R16i),
                ChannelType::Rg => Some(TextureFormat::Rg16i),
                ChannelType::Rgb => Some(TextureFormat::Rgb16i),
                ChannelType::Rgba => Some(TextureFormat::Rgba16i),
                _ => None,
            },
            ComponentType::U16 => match format {
                ChannelType::Red => Some(TextureFormat::R16ui),
                ChannelType::Rg => Some(TextureFormat::Rg16ui),
                ChannelType::Rgb => Some(TextureFormat::Rgb16ui),
                ChannelType::Rgba => Some(TextureFormat::Rgba16ui),
                _ => None,
            },
            ComponentType::I32 => match format {
                ChannelType::Red => Some(TextureFormat::R32i),
                ChannelType::Rg => Some(TextureFormat::Rg32i),
                ChannelType::Rgb => Some(TextureFormat::Rgb32i),
                ChannelType::Rgba => Some(TextureFormat::Rgba32i),
                _ => None,
            },
            ComponentType::U32 => match format {
                ChannelType::Red => Some(TextureFormat::R32ui),
                ChannelType::Rg => Some(TextureFormat::Rg32ui),
                ChannelType::Rgb => Some(TextureFormat::Rgb32ui),
                ChannelType::Rgba => Some(TextureFormat::Rgba32ui),
                _ => None,
            },
            ComponentType::F32 => match format {
                ChannelType::Red => Some(TextureFormat::R32f),
                ChannelType::Rg => Some(TextureFormat::Rg32f),
                ChannelType::Rgb => Some(TextureFormat::Rgb32f),
                ChannelType::Rgba => Some(TextureFormat::Rgba32f),
                _ => None,
            },
            _ => None,
        }
    }
}

impl ComponentType {
    /// Whether one value of this type holds all the channels of a pixel.
    pub open spec fn is_packed(self) -> bool {
        match self {
            ComponentType::U8 => false,
            ComponentType::I8 => false,
            ComponentType::U16 => false,
            ComponentType::I16 => false,
            ComponentType::U32 => false,
            ComponentType::I32 => false,
            ComponentType::F16 => false,
            ComponentType::F32 => false,
            ComponentType::U8_332 => true,
            ComponentType::U8_233Rev => true,
            ComponentType::U16_565 => true,
            ComponentType::U16_565Rev => true,
            ComponentType::U16_4444 => true,
            ComponentType::U16_4444Rev => true,
            ComponentType::U16_5551 => true,
            ComponentType::U16_1555Rev => true,
            ComponentType::U32_8888 => true,
            ComponentType::U32_8888Rev => true,
            ComponentType::U32_10_10_10_2 => true,
            ComponentType::U32_2_10_10_10Rev => true,
        }
    }

    /// The size in bytes of one value of this type.
    pub open spec fn spec_size(self) -> usize {
        match self {
            ComponentType::U8 => 1,
            ComponentType::I8 => 1,
            ComponentType::U16 => 2,
            ComponentType::I16 => 2,
            ComponentType::U32 => 4,
            ComponentType::I32 => 4,
            ComponentType::F16 => 2,
            ComponentType::F32 => 4,
            ComponentType::U8_332 => 1,
            ComponentType::U8_233Rev => 1,
            ComponentType::U16_565 => 2,
            ComponentType::U16_565Rev => 2,
            ComponentType::U16_4444 => 2,
            ComponentType::U16_4444Rev => 2,
            ComponentType::U16_5551 => 2,
            ComponentType::U16_1555Rev => 2,
            ComponentType::U32_8888 => 4,
            ComponentType::U32_8888Rev => 4,
            ComponentType::U32_10_10_10_2 => 4,
            ComponentType::U32_2_10_10_10Rev => 4,
        }
    }
}

impl ChannelType {
    /// The number of channels.
    pub open spec fn spec_channels(self) -> usize {
        match self {
            ChannelType::Red => 1,
            ChannelType::Rg => 2,
            ChannelType::Rgb => 3,
            ChannelType::Bgr => 3,
            ChannelType::Rgba => 4,
            ChannelType::Bgra => 4,
            ChannelType::RedInteger => 1,
            ChannelType::RgInteger => 2,
            ChannelType::RgbInteger => 3,
            ChannelType::BgrInteger => 3,
            ChannelType::RgbaInteger => 4,
            ChannelType::BgraInteger => 4,
            ChannelType::StencilIndex => 1,
            ChannelType::Depth => 1,
            ChannelType::DepthStencil => 2,
        }
    }
}

impl ComponentType {
    /// The component type spelled as the Rust primitive `name` (in UTF-8
    /// bytes): one of u8, u16, u32, i8, i16, i32, f16, f32.
    pub open spec fn spec_from_typename(name: Seq<u8>) -> Option<ComponentType> {
        if name =~= seq![0x75u8, 0x38u8] {
            Some(ComponentType::U8)
        } else if name =~= seq![0x75u8, 0x31u8, 0x36u8] {
            Some(ComponentType::U16)
        } else if name =~= seq![0x75u8, 0x33u8, 0x32u8] {
            Some(ComponentType::U32)
        } else if name =~= seq![0x69u8, 0x38u8] {
            Some(ComponentType::I8)
        } else if name =~= seq![0x69u8, 0x31u8, 0x36u8] {
            Some(ComponentType::I16)
        } else if name =~= seq![0x69u8, 0x33u8, 0x32u8] {
            Some(ComponentType::I32)
        } else if name =~= seq![0x66u8, 0x31u8, 0x36u8] {
            Some(ComponentType::F16)
        } else if name =~= seq![0x66u8, 0x33u8, 0x32u8] {
            Some(ComponentType::F32)
        } else {
            None
        }
    }

    /// Get the component type from a Rust primitive type name; `None` for
    /// any name other than u8, u16, u32, i8, i16, i32, f16, f32.
    pub fn from_typename(typename: &str) -> (r: Option<ComponentType>)
        ensures
            r == Self::spec_from_typename(typename.spec_bytes()),
    {
        let b = typename.as_bytes();
        if b.len() == 2 {
            if b[0] == 0x75 && b[1] == 0x38 {
                return Some(ComponentType::U8);
            } else if b[0] == 0x69 && b[1] == 0x38 {
                return Some(ComponentType::I8);
            }
        } else if b.len() == 3 {
            let kind = b[0];
            let is16 = b[1] == 0x31 && b[2] == 0x36;
            let is32 = b[1] == 0x33 && b[2] == 0x32;
            if kind == 0x75 && is16 {
                return Some(ComponentType::U16);
            } else if kind == 0x75 && is32 {
                return Some(ComponentType::U32);
            } else if kind == 0x69 && is16 {
                return Some(ComponentType::I16);
            } else if kind == 0x69 && is32 {
                return Some(ComponentType::I32);
            } else if kind == 0x66 && is16 {
                return Some(ComponentType::F16);
            } else if kind == 0x66 && is32 {
                return Some(ComponentType::F32);
            }
        }
        None
    }
}

/// The channel layout of an image pixel with `channel_count` channels of
/// `component` values: integer layouts for 32-bit integers.
pub open spec fn spec_channels_of_pixel(component: ComponentType, channel_count: u8) -> Option<ChannelType> {
    let integer = component == ComponentType::I32 || component == ComponentType::U32;
    if channel_count == 1 {
        Some(if integer { ChannelType::RedInteger } else { ChannelType::Red })
    } else if channel_count == 2 {
        Some(if integer { ChannelType::RgInteger } else { ChannelType::Rg })
    } else if channel_count == 3 {
        Some(if integer { ChannelType::RgbInteger } else { ChannelType::Rgb })
    } else if channel_count == 4 {
        Some(if integer { ChannelType::RgbaInteger } else { ChannelType::Rgba })
    } else {
        None
    }
}

/// The channel type and component type of an image pixel whose subpixel is
/// the Rust primitive named `subpixel` and which has `channel_count`
/// channels; `None` for an unknown subpixel type or a channel count outside
/// 1 to 4.
pub fn get_format_and_type_from_image_pixel(subpixel: &str, channel_count: u8) -> (r: Option<
    (ChannelType, ComponentType),
>)
    ensures
        r is Some <==> (ComponentType::spec_from_typename(subpixel.spec_bytes()) is Some
            && spec_channels_of_pixel(
            ComponentType::spec_from_typename(subpixel.spec_bytes())->0,
            channel_count,
        ) is Some),
        r matches Some((format, format_type)) ==> format_type == ComponentType::spec_from_typename(
            subpixel.spec_bytes(),
        )->0 && Some(format) == spec_channels_of_pixel(format_type, channel_count),
{
    let format_type = match ComponentType::from_typename(subpixel) {
        Some(t) => t,
        None => return None,
    };
    let integer = match format_type {
        ComponentType::I32 | ComponentType::U32 => true,
        _ => false,
    };
    let format = if channel_count == 1 {
        if integer { ChannelType::RedInteger } else { ChannelType::Red }
    } else if channel_count == 2 {
        if integer { ChannelType::RgInteger } else { ChannelType::Rg }
    } else if channel_count == 3 {
        if integer { ChannelType::RgbInteger } else { ChannelType::Rgb }
    } else if channel_count == 4 {
        if integer { ChannelType::RgbaInteger } else { ChannelType::Rgba }
    } else {
        return None;
    };
    Some((format, format_type))
}

/// The size in bytes of a pixel of `format` channels with `format_type`
/// components: a packed type holds the whole pixel.
pub open spec fn spec_size_of_pixel(format: ChannelType, format_type: ComponentType) -> usize {
    if format_type.is_packed() {
        format_type.spec_size()
    } else {
        (format_type.spec_size() * format.spec_channels()) as usize
    }
}

/// The bytes of one row of `width` pixels of `pixel_size` bytes, rounded up
/// to a multiple of 4.
pub open spec fn spec_pitch(width: u32, pixel_size: usize) -> int {
    ((width * pixel_size - 1) / 4 + 1) * 4
}

/// A pixel buffer object: a buffer holding the pixels of an image of the
/// given size and pixel layout, rows padded to 4 bytes.
#[derive(Debug)]
pub struct PixelBuffer {
    buffer: Buffer,
    pixel_size: usize,
    width: u32,
    height: u32,
    depth: u32,
    pitch: usize,
    pitch_wh: usize,
    format: ChannelType,
    format_type: ComponentType,
}

impl PixelBuffer {
    pub closed spec fn spec_buffer(&self) -> Buffer {
        self.buffer
    }

    pub closed spec fn spec_format(&self) -> ChannelType {
        self.format
    }

    pub closed spec fn spec_format_type(&self) -> ComponentType {
        self.format_type
    }

    pub closed spec fn spec_pixel_size(&self) -> usize {
        self.pixel_size
    }

    pub closed spec fn spec_pitch(&self) -> usize {
        self.pitch
    }

    pub closed spec fn spec_pitch_wh(&self) -> usize {
        self.pitch_wh
    }

    /// Wrap `buffer` as the pixels of a `width` x `height` x `depth` image of
    /// `format` channels with `format_type` components.
    pub fn new(
        buffer: Buffer,
        width: u32,
        height: u32,
        depth: u32,
        format: ChannelType,
        format_type: ComponentType,
    ) -> (r: Self)
        requires
            width > 0,
            width * 16 + 4 <= usize::MAX,
            spec_pitch(width, spec_size_of_pixel(format, format_type)) * height <= usize::MAX,
        ensures
            r.spec_buffer() == buffer,
            r.spec_format() == format,
            r.spec_format_type() == format_type,
            r.spec_pixel_size() == spec_size_of_pixel(format, format_type),
            r.spec_pitch() == spec_pitch(width, spec_size_of_pixel(format, format_type)),
            r.spec_pitch_wh() == r.spec_pitch() * height,
    {
        let pixel_size = Self::size_of_pixel(format, format_type);
        assert(1 <= pixel_size <= 16);
        assert(width * pixel_size <= width * 16) by (nonlinear_arith)
            requires
                pixel_size <= 16,
        ;
        assert(width * pixel_size >= 1) by (nonlinear_arith)
            requires
                pixel_size >= 1,
                width >= 1,
        ;
        let row = width as usize * pixel_size;
        let pitch = ((row - 1) / 4 + 1) * 4;
        let pitch_wh = pitch * height as usize;
        PixelBuffer { buffer, pixel_size, width, height, depth, pitch, pitch_wh, format, format_type }
    }

    /// Get the internal name
    pub fn get_name(&self) -> (r: u32)
        ensures
            r == self.spec_buffer().spec_name(),
    {
        self.buffer.get_name()
    }

    /// Get the size of the buffer
    pub fn size_in_bytes(&self) -> (r: usize)
        ensures
            r == self.spec_buffer().spec_size(),
    {
        self.buffer.size()
    }

    /// Get the size for each pixel
    pub fn size_of_pixel(format: ChannelType, format_type: ComponentType) -> (r: usize)
        ensures
            r == spec_size_of_pixel(format, format_type),
    {
        let component_len: usize = match format_type {
            ComponentType::U8_332 | ComponentType::U8_233Rev => return 1,
            ComponentType::U16_565
            | ComponentType::U16_565Rev
            | ComponentType::U16_4444
            | ComponentType::U16_4444Rev
            | ComponentType::U16_5551
            | ComponentType::U16_1555Rev => return 2,
            ComponentType::U32_8888
            | ComponentType::U32_8888Rev
            | ComponentType::U32_10_10_10_2
            | ComponentType::U32_2_10_10_10Rev => return 4,
            ComponentType::U8 | ComponentType::I8 => 1,
            ComponentType::U16 | ComponentType::I16 | ComponentType::F16 => 2,
            ComponentType::U32 | ComponentType::I32 | ComponentType::F32 => 4,
        };
        match format {
            ChannelType::Red
            | ChannelType::RedInteger
            | ChannelType::StencilIndex
            | ChannelType::Depth => component_len,
            ChannelType::Rg | ChannelType::RgInteger | ChannelType::DepthStencil => component_len * 2,
            ChannelType::Rgb
            | ChannelType::RgbInteger
            | ChannelType::Bgr
            | ChannelType::BgrInteger => component_len * 3,
            ChannelType::Rgba
            | ChannelType::RgbaInteger
            | ChannelType::Bgra
            | ChannelType::BgraInteger => component_len * 4,
        }
    }

    /// Get the underlying buffer
    pub fn get_buffer(&self) -> (r: &Buffer)
        ensures
            *r == self.spec_buffer(),
    {
        &self.buffer
    }

    /// Get the channel type
    pub fn get_format(&self) -> (r: ChannelType)
        ensures
            r == self.spec_format(),
    {
        self.format
    }

    /// Get the component type
    pub fn get_format_type(&self) -> (r: ComponentType)
        ensures
            r == self.spec_format_type(),
    {
        self.format_type
    }

    /// Get the bytes of one padded row
    pub fn get_pitch(&self) -> (r: usize)
        ensures
            r == self.spec_pitch(),
    {
        self.pitch
    }

    /// Bind the underlying buffer to its default target
    pub fn bind<'a>(&'a self) -> (r: BufferBind<'a>)
        ensures
            r.spec_buffer() == self.spec_buffer(),
            r.spec_target() == self.spec_buffer().spec_target(),
    {
        self.buffer.bind()
    }
}

/// The height a texture of dimension `dim` has: one row for a 1D texture,
/// square faces for a cube map.
pub open spec fn texture_height(dim: TextureDimension, width: u32, height: u32) -> u32 {
    match dim {
        TextureDimension::Tex1d => 1,
        TextureDimension::Tex2d | TextureDimension::Tex3d => height,
        TextureDimension::TexCube => width,
    }
}

/// The depth a texture of dimension `dim` has: one layer unless 3D.
pub open spec fn texture_depth(dim: TextureDimension, depth: u32) -> u32 {
    match dim {
        TextureDimension::Tex3d => depth,
        _ => 1,
    }
}

/// The number of faces: six for a cube map, else one.
pub open spec fn texture_faces(dim: TextureDimension) -> usize {
    match dim {
        TextureDimension::TexCube => 6,
        _ => 1,
    }
}

/// The bytes of one texel row element: `pixel_bits` rounded up to 32-bit words.
pub open spec fn texel_pitch(pixel_bits: usize) -> int {
    ((pixel_bits - 1) / 32 + 1) * 4
}

/// A texture object: its name, dimension, format, size and sampling, and
/// the bytes a face and the whole texture take. The device calls that
/// create, fill and delete it are made by the caller.
#[derive(Debug)]
pub struct Texture {
    name: u32,
    dim: TextureDimension,
    format: TextureFormat,
    width: u32,
    height: u32,
    depth: u32,
    has_mipmap: bool,
    mag_filter: SamplerMagFilter,
    min_filter: SamplerFilter,
    bytes_of_texture: usize,
    bytes_of_face: usize,
    pixel_buffer: Option<PixelBuffer>,
}

/// The binding of a texture to a target, released by `unbind` or on drop.
#[derive(Debug)]
pub struct TextureBind<'a> {
    pub texture: &'a Texture,
    target: TextureTarget,
}

impl TextureDimension {
    /// The binding target of a texture of this dimension.
    pub open spec fn spec_target(self) -> TextureTarget {
        match self {
            TextureDimension::Tex1d => TextureTarget::Tex1d,
            TextureDimension::Tex2d => TextureTarget::Tex2d,
            TextureDimension::Tex3d => TextureTarget::Tex3d,
            TextureDimension::TexCube => TextureTarget::TexCube,
        }
    }
}

impl Texture {
    pub closed spec fn spec_name(&self) -> u32 {
        self.name
    }

    pub closed spec fn spec_dim(&self) -> TextureDimension {
        self.dim
    }

    pub closed spec fn spec_format(&self) -> TextureFormat {
        self.format
    }

    pub closed spec fn spec_width(&self) -> u32 {
        self.width
    }

    pub closed spec fn spec_height(&self) -> u32 {
        self.height
    }

    pub closed spec fn spec_depth(&self) -> u32 {
        self.depth
    }

    pub closed spec fn spec_bytes_of_face(&self) -> usize {
        self.bytes_of_face
    }

    pub closed spec fn spec_bytes_of_texture(&self) -> usize {
        self.bytes_of_texture
    }

    pub closed spec fn spec_pixel_buffer(&self) -> Option<PixelBuffer> {
        self.pixel_buffer
    }

    /// A texture named `name` of dimension `dim` and format `format`, whose
    /// pixels take `pixel_bits` bits. Height and depth follow the dimension;
    /// a face takes its rows of 32-bit-aligned pixels.
    pub fn new_unallocates(
        name: u32,
        dim: TextureDimension,
        format: TextureFormat,
        width: u32,
        height: u32,
        depth: u32,
        has_mipmap: bool,
        mag_filter: SamplerMagFilter,
        min_filter: SamplerFilter,
        pixel_bits: usize,
    ) -> (r: Self)
        requires
            pixel_bits > 0,
            texel_pitch(pixel_bits) * texture_height(dim, width, height) <= usize::MAX,
            texel_pitch(pixel_bits) * texture_height(dim, width, height) * texture_depth(dim, depth)
                * texture_faces(dim) <= usize::MAX,
        ensures
            r.spec_name() == name,
            r.spec_dim() == dim,
            r.spec_format() == format,
            r.spec_width() == width,
            r.spec_height() == texture_height(dim, width, height),
            r.spec_depth() == texture_depth(dim, depth),
            r.spec_bytes_of_face() == texel_pitch(pixel_bits) * texture_height(dim, width, height)
                * texture_depth(dim, depth),
            r.spec_bytes_of_texture() == r.spec_bytes_of_face() * texture_faces(dim),
            r.spec_pixel_buffer() is None,
    {
        let (h, d, faces): (u32, u32, usize) = match dim {
            TextureDimension::Tex1d => (1, 1, 1),
            TextureDimension::Tex2d => (height, 1, 1),
            TextureDimension::Tex3d => (height, depth, 1),
            TextureDimension::TexCube => (width, 1, 6),
        };
        let pitch = ((pixel_bits - 1) / 32 + 1) * 4;
        let row_bytes = pitch * h as usize;
        assert(row_bytes * d <= row_bytes * d * faces) by (nonlinear_arith)
            requires
                faces >= 1,
                row_bytes >= 0,
                d >= 0,
        ;
        let bytes_of_face = row_bytes * d as usize;
        let bytes_of_texture = bytes_of_face * faces;
        Texture {
            name,
            dim,
            format,
            width,
            height: h,
            depth: d,
            has_mipmap,
            mag_filter,
            min_filter,
            bytes_of_texture,
            bytes_of_face,
            pixel_buffer: None,
        }
    }

    /// Get the internal name
    pub fn get_name(&self) -> (r: u32)
        ensures
            r == self.spec_name(),
    {
        self.name
    }

    /// Get width
    pub fn get_width(&self) -> (r: u32)
        ensures
            r == self.spec_width(),
    {
        self.width
    }

    /// Get height
    pub fn get_height(&self) -> (r: u32)
        ensures
            r == self.spec_height(),
    {
        self.height
    }

    /// Get depth
    pub fn get_depth(&self) -> (r: u32)
        ensures
            r == self.spec_depth(),
    {
        self.depth
    }

    /// Get dimension
    pub fn get_dim(&self) -> (r: TextureDimension)
        ensures
            r == self.spec_dim(),
    {
        self.dim
    }

    /// Get the internal format
    pub fn get_format(&self) -> (r: TextureFormat)
        ensures
            r == self.spec_format(),
    {
        self.format
    }

    /// Get the bytes the whole texture takes
    pub fn get_bytes_of_texture(&self) -> (r: usize)
        ensures
            r == self.spec_bytes_of_texture(),
    {
        self.bytes_of_texture
    }

    /// Get the bytes one face takes
    pub fn get_bytes_of_face(&self) -> (r: usize)
        ensures
            r == self.spec_bytes_of_face(),
    {
        self.bytes_of_face
    }

    /// Bind a texture that is not a cube map to its target.
    pub fn bind<'a>(&'a self) -> (r: TextureBind<'a>)
        requires
            self.spec_dim() != TextureDimension::TexCube,
        ensures
            r.spec_texture() == *self,
            r.spec_target() == self.spec_dim().spec_target(),
    {
        let target = match self.dim {
            TextureDimension::Tex1d => TextureTarget::Tex1d,
            TextureDimension::Tex2d => TextureTarget::Tex2d,
            _ => TextureTarget::Tex3d,
        };
        TextureBind { texture: self, target }
    }

    /// Bind one face of a cube map.
    pub fn bind_face<'a>(&'a self, face: CubeMapFaces) -> (r: TextureBind<'a>)
        requires
            self.spec_dim() == TextureDimension::TexCube,
        ensures
            r.spec_texture() == *self,
            r.spec_target() == face.spec_target(),
    {
        TextureBind { texture: self, target: face.to_target() }
    }

    /// Attach a pixel buffer for transfers.
    pub fn set_pixel_buffer(&mut self, pixel_buffer: PixelBuffer)
        ensures
            final(self).spec_pixel_buffer() == Some(pixel_buffer),
            final(self).spec_name() == old(self).spec_name(),
            final(self).spec_dim() == old(self).spec_dim(),
            final(self).spec_bytes_of_texture() == old(self).spec_bytes_of_texture(),
    {
        self.pixel_buffer = Some(pixel_buffer);
    }

    /// Get the attached pixel buffer, if any
    pub fn get_pixel_buffer(&self) -> (r: &Option<PixelBuffer>)
        ensures
            *r == self.spec_pixel_buffer(),
    {
        &self.pixel_buffer
    }

    /// Release the attached pixel buffer.
    pub fn drop_pixel_buffer(&mut self)
        ensures
            final(self).spec_pixel_buffer() is None,
            final(self).spec_name() == old(self).spec_name(),
            final(self).spec_dim() == old(self).spec_dim(),
            final(self).spec_bytes_of_texture() == old(self).spec_bytes_of_texture(),
    {
        self.pixel_buffer = None;
    }

    /// The enumerant that selects texture unit `unit`.
    pub fn set_active_unit(&self, unit: u32) -> (r: u32)
        requires
            unit <= u32::MAX - GL_TEXTURE0,
        ensures
            r == GL_TEXTURE0 + unit,
    {
        GL_TEXTURE0 + unit
    }
}

impl<'a> TextureBind<'a> {
    pub closed spec fn spec_texture(&self) -> Texture {
        *self.texture
    }

    pub closed spec fn spec_target(&self) -> TextureTarget {
        self.target
    }

    /// Get the binding target
    pub fn get_target(&self) -> (r: TextureTarget)
        ensures
            r == self.spec_target(),
    {
        self.target
    }

    /// The enumerant that selects texture unit `unit`.
    pub fn set_active_unit(&self, unit: u32) -> (r: u32)
        requires
            unit <= u32::MAX - GL_TEXTURE0,
        ensures
            r == GL_TEXTURE0 + unit,
    {
        self.texture.set_active_unit(unit)
    }

    /// Explicitly unbind the texture.
    pub fn unbind(self) {
    }
}

} // verus!
