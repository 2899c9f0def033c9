use vstd::prelude::*;

verus! {

/// The GL enumerants of the attribute and uniform types.
pub const GL_FLOAT: u32 = 0x1406;
pub const GL_FLOAT_VEC2: u32 = 0x8B50;
pub const GL_FLOAT_VEC3: u32 = 0x8B51;
pub const GL_FLOAT_VEC4: u32 = 0x8B52;
pub const GL_FLOAT_MAT2: u32 = 0x8B5A;
pub const GL_FLOAT_MAT3: u32 = 0x8B5B;
pub const GL_FLOAT_MAT4: u32 = 0x8B5C;
pub const GL_FLOAT_MAT2X3: u32 = 0x8B65;
pub const GL_FLOAT_MAT2X4: u32 = 0x8B66;
pub const GL_FLOAT_MAT3X2: u32 = 0x8B67;
pub const GL_FLOAT_MAT3X4: u32 = 0x8B68;
pub const GL_FLOAT_MAT4X2: u32 = 0x8B69;
pub const GL_FLOAT_MAT4X3: u32 = 0x8B6A;
pub const GL_INT: u32 = 0x1404;
pub const GL_INT_VEC2: u32 = 0x8B53;
pub const GL_INT_VEC3: u32 = 0x8B54;
pub const GL_INT_VEC4: u32 = 0x8B55;
pub const GL_UNSIGNED_INT: u32 = 0x1405;
pub const GL_UNSIGNED_INT_VEC2: u32 = 0x8DC6;
pub const GL_UNSIGNED_INT_VEC3: u32 = 0x8DC7;
pub const GL_UNSIGNED_INT_VEC4: u32 = 0x8DC8;
pub const GL_DOUBLE: u32 = 0x140A;
pub const GL_DOUBLE_VEC2: u32 = 0x8FFC;
pub const GL_DOUBLE_VEC3: u32 = 0x8FFD;
pub const GL_DOUBLE_VEC4: u32 = 0x8FFE;
pub const GL_DOUBLE_MAT2: u32 = 0x8F46;
pub const GL_DOUBLE_MAT3: u32 = 0x8F47;
pub const GL_DOUBLE_MAT4: u32 = 0x8F48;
pub const GL_DOUBLE_MAT2X3: u32 = 0x8F49;
pub const GL_DOUBLE_MAT2X4: u32 = 0x8F4A;
pub const GL_DOUBLE_MAT3X2: u32 = 0x8F4B;
pub const GL_DOUBLE_MAT3X4: u32 = 0x8F4C;
pub const GL_DOUBLE_MAT4X2: u32 = 0x8F4D;
pub const GL_DOUBLE_MAT4X3: u32 = 0x8F4E;

/// Error produced from the shader
#[derive(Clone, Debug)]
pub enum ShaderError {
    /// Vertex Shader error
    VSError(String),
    /// Geometry Shader error
    GSError(String),
    /// Fragment Shader error
    FSError(String),
    /// Compute Shader error
    CSError(String),
    /// Shader program linkage error
    LinkageError(String),
    /// Attrib not found
    AttribNotFound(String),
    /// Uniform not found
    UniformNotFound(String),
}

/// The kind of a shader program
#[derive(Clone, Copy, PartialEq, Eq, Structural, Debug)]
pub enum ShaderType {
    Draw,
    Compute,
}

/// A linked shader program: its name and kind. The device calls that
/// compile, link and delete it are made by the caller.
#[derive(Debug)]
pub struct Shader {
    program: u32,
    shader_type: ShaderType,
}

/// A shader program in use, released by `unuse` or on drop.
#[derive(Debug)]
pub struct ShaderUse<'a> {
    pub shader: &'a Shader,
}

/// A pre-compiled program binary, with the binary format it is in
#[derive(Clone, Debug)]
pub struct ShaderBinary {
    format: u32,
    shader_type: ShaderType,
    binary: Vec<u8>,
}

/// The attribute and uniform types
#[derive(Clone, Copy, PartialEq, Eq, Structural, Debug)]
pub enum ShaderInputType {
    Float,
    Vec2,
    Vec3,
    Vec4,
    Mat2,
    Mat3,
    Mat4,
    Mat2x3,
    Mat2x4,
    Mat3x2,
    Mat3x4,
    Mat4x2,
    Mat4x3,
    Int,
    IVec2,
    IVec3,
    IVec4,
    UInt,
    UVec2,
    UVec3,
    UVec4,
    Double,
    DVec2,
    DVec3,
    DVec4,
    DMat2,
    DMat3,
    DMat4,
    DMat2x3,
    DMat2x4,
    DMat3x2,
    DMat3x4,
    DMat4x2,
    DMat4x3,
}

/// An attribute or uniform type with its array length
#[derive(Clone, Copy, PartialEq, Eq, Structural, Debug)]
pub struct ShaderInputVarType {
    pub type_: ShaderInputType,
    pub size: i32,
}

impl ShaderInputType {
    pub open spec fn gl_value(self) -> u32 {
        match self {
            ShaderInputType::Float => GL_FLOAT,
            ShaderInputType::Vec2 => GL_FLOAT_VEC2,
            ShaderInputType::Vec3 => GL_FLOAT_VEC3,
            ShaderInputType::Vec4 => GL_FLOAT_VEC4,
            ShaderInputType::Mat2 => GL_FLOAT_MAT2,
            ShaderInputType::Mat3 => GL_FLOAT_MAT3,
            ShaderInputType::Mat4 => GL_FLOAT_MAT4,
            ShaderInputType::Mat2x3 => GL_FLOAT_MAT2X3,
            ShaderInputType::Mat2x4 => GL_FLOAT_MAT2X4,
            ShaderInputType::Mat3x2 => GL_FLOAT_MAT3X2,
            ShaderInputType::Mat3x4 => GL_FLOAT_MAT3X4,
            ShaderInputType::Mat4x2 => GL_FLOAT_MAT4X2,
            ShaderInputType::Mat4x3 => GL_FLOAT_MAT4X3,
            ShaderInputType::Int => GL_INT,
            ShaderInputType::IVec2 => GL_INT_VEC2,
            ShaderInputType::IVec3 => GL_INT_VEC3,
            ShaderInputType::IVec4 => GL_INT_VEC4,
            ShaderInputType::UInt => GL_UNSIGNED_INT,
            ShaderInputType::UVec2 => GL_UNSIGNED_INT_VEC2,
            ShaderInputType::UVec3 => GL_UNSIGNED_INT_VEC3,
            ShaderInputType::UVec4 => GL_UNSIGNED_INT_VEC4,
            ShaderInputType::Double => GL_DOUBLE,
            ShaderInputType::DVec2 => GL_DOUBLE_VEC2,
            ShaderInputType::DVec3 => GL_DOUBLE_VEC3,
            ShaderInputType::DVec4 => GL_DOUBLE_VEC4,
            ShaderInputType::DMat2 => GL_DOUBLE_MAT2,
            ShaderInputType::DMat3 => GL_DOUBLE_MAT3,
            ShaderInputType::DMat4 => GL_DOUBLE_MAT4,
            ShaderInputType::DMat2x3 => GL_DOUBLE_MAT2X3,
            ShaderInputType::DMat2x4 => GL_DOUBLE_MAT2X4,
            ShaderInputType::DMat3x2 => GL_DOUBLE_MAT3X2,
            ShaderInputType::DMat3x4 => GL_DOUBLE_MAT3X4,
            ShaderInputType::DMat4x2 => GL_DOUBLE_MAT4X2,
            ShaderInputType::DMat4x3 => GL_DOUBLE_MAT4X3,
        }
    }

    /// The (columns, rows) of the type; a vector has one row.
    pub open spec fn spec_size_and_rows(self) -> (u32, u32) {
        match self {
            ShaderInputType::Float => (1, 1),
            ShaderInputType::Vec2 => (2, 1),
            ShaderInputType::Vec3 => (3, 1),
            ShaderInputType::Vec4 => (4, 1),
            ShaderInputType::Mat2 => (2, 2),
            ShaderInputType::Mat3 => (3, 3),
            ShaderInputType::Mat4 => (4, 4),
            ShaderInputType::Mat2x3 => (2, 3),
            ShaderInputType::Mat2x4 => (2, 4),
            ShaderInputType::Mat3x2 => (3, 2),
            ShaderInputType::Mat3x4 => (3, 4),
            ShaderInputType::Mat4x2 => (4, 2),
            ShaderInputType::Mat4x3 => (4, 3),
            ShaderInputType::Int => (1, 1),
            ShaderInputType::IVec2 => (2, 1),
            ShaderInputType::IVec3 => (3, 1),
            ShaderInputType::IVec4 => (4, 1),
            ShaderInputType::UInt => (1, 1),
            ShaderInputType::UVec2 => (2, 1),
            ShaderInputType::UVec3 => (3, 1),
            ShaderInputType::UVec4 => (4, 1),
            ShaderInputType::Double => (1, 1),
            ShaderInputType::DVec2 => (2, 1),
            ShaderInputType::DVec3 => (3, 1),
            ShaderInputType::DVec4 => (4, 1),
            ShaderInputType::DMat2 => (2, 2),
            ShaderInputType::DMat3 => (3, 3),
            ShaderInputType::DMat4 => (4, 4),
            ShaderInputType::DMat2x3 => (2, 3),
            ShaderInputType::DMat2x4 => (2, 4),
            ShaderInputType::DMat3x2 => (3, 2),
            ShaderInputType::DMat3x4 => (3, 4),
            ShaderInputType::DMat4x2 => (4, 2),
            ShaderInputType::DMat4x3 => (4, 3),
        }
    }

    /// The scalar type the components have.
    pub open spec fn spec_base_type(self) -> ShaderInputType {
        match self {
            ShaderInputType::Float => ShaderInputType::Float,
            ShaderInputType::Vec2 => ShaderInputType::Float,
            ShaderInputType::Vec3 => ShaderInputType::Float,
            ShaderInputType::Vec4 => ShaderInputType::Float,
            ShaderInputType::Mat2 => ShaderInputType::Float,
            ShaderInputType::Mat3 => ShaderInputType::Float,
            ShaderInputType::Mat4 => ShaderInputType::Float,
            ShaderInputType::Mat2x3 => ShaderInputType::Float,
            ShaderInputType::Mat2x4 => ShaderInputType::Float,
            ShaderInputType::Mat3x2 => ShaderInputType::Float,
            ShaderInputType::Mat3x4 => ShaderInputType::Float,
            ShaderInputType::Mat4x2 => ShaderInputType::Float,
            ShaderInputType::Mat4x3 => ShaderInputType::Float,
            ShaderInputType::Int => ShaderInputType::Int,
            ShaderInputType::IVec2 => ShaderInputType::Int,
            ShaderInputType::IVec3 => ShaderInputType::Int,
            ShaderInputType::IVec4 => ShaderInputType::Int,
            ShaderInputType::UInt => ShaderInputType::UInt,
            ShaderInputType::UVec2 => ShaderInputType::UInt,
            ShaderInputType::UVec3 => ShaderInputType::UInt,
            ShaderInputType::UVec4 => ShaderInputType::UInt,
            ShaderInputType::Double => ShaderInputType::Double,
            ShaderInputType::DVec2 => ShaderInputType::Double,
            ShaderInputType::DVec3 => ShaderInputType::Double,
            ShaderInputType::DVec4 => ShaderInputType::Double,
            ShaderInputType::DMat2 => ShaderInputType::Double,
            ShaderInputType::DMat3 => ShaderInputType::Double,
            ShaderInputType::DMat4 => ShaderInputType::Double,
            ShaderInputType::DMat2x3 => ShaderInputType::Double,
            ShaderInputType::DMat2x4 => ShaderInputType::Double,
            ShaderInputType::DMat3x2 => ShaderInputType::Double,
            ShaderInputType::DMat3x4 => ShaderInputType::Double,
            ShaderInputType::DMat4x2 => ShaderInputType::Double,
            ShaderInputType::DMat4x3 => ShaderInputType::Double,
        }
    }

    /// The GL enumerant of this type.
    pub fn to_gl(&self) -> (r: u32)
        ensures
            r == self.gl_value(),
    {
        match self {
            ShaderInputType::Float => GL_FLOAT,
            ShaderInputType::Vec2 => GL_FLOAT_VEC2,
            ShaderInputType::Vec3 => GL_FLOAT_VEC3,
            ShaderInputType::Vec4 => GL_FLOAT_VEC4,
            ShaderInputType::Mat2 => GL_FLOAT_MAT2,
            ShaderInputType::Mat3 => GL_FLOAT_MAT3,
            ShaderInputType::Mat4 => GL_FLOAT_MAT4,
            ShaderInputType::Mat2x3 => GL_FLOAT_MAT2X3,
            ShaderInputType::Mat2x4 => GL_FLOAT_MAT2X4,
            ShaderInputType::Mat3x2 => GL_FLOAT_MAT3X2,
            ShaderInputType::Mat3x4 => GL_FLOAT_MAT3X4,
            ShaderInputType::Mat4x2 => GL_FLOAT_MAT4X2,
            ShaderInputType::Mat4x3 => GL_FLOAT_MAT4X3,
            ShaderInputType::Int => GL_INT,
            ShaderInputType::IVec2 => GL_INT_VEC2,
            ShaderInputType::IVec3 => GL_INT_VEC3,
            ShaderInputType::IVec4 => GL_INT_VEC4,
            ShaderInputType::UInt => GL_UNSIGNED_INT,
            ShaderInputType::UVec2 => GL_UNSIGNED_INT_VEC2,
            ShaderInputType::UVec3 => GL_UNSIGNED_INT_VEC3,
            ShaderInputType::UVec4 => GL_UNSIGNED_INT_VEC4,
            ShaderInputType::Double => GL_DOUBLE,
            ShaderInputType::DVec2 => GL_DOUBLE_VEC2,
            ShaderInputType::DVec3 => GL_DOUBLE_VEC3,
            ShaderInputType::DVec4 => GL_DOUBLE_VEC4,
            ShaderInputType::DMat2 => GL_DOUBLE_MAT2,
            ShaderInputType::DMat3 => GL_DOUBLE_MAT3,
            ShaderInputType::DMat4 => GL_DOUBLE_MAT4,
            ShaderInputType::DMat2x3 => GL_DOUBLE_MAT2X3,
            ShaderInputType::DMat2x4 => GL_DOUBLE_MAT2X4,
            ShaderInputType::DMat3x2 => GL_DOUBLE_MAT3X2,
            ShaderInputType::DMat3x4 => GL_DOUBLE_MAT3X4,
            ShaderInputType::DMat4x2 => GL_DOUBLE_MAT4X2,
            ShaderInputType::DMat4x3 => GL_DOUBLE_MAT4X3,
        }
    }

    /// The type whose GL enumerant is `value`, as the program introspection
    /// reports it; `None` for any other value.
    pub fn from_gl(value: u32) -> (r: Option<ShaderInputType>)
        ensures
            r matches Some(t) ==> t.gl_value() == value,
            r is None ==> forall|t: ShaderInputType| t.gl_value() != value,
    {
        if value == GL_FLOAT {
            Some(ShaderInputType::Float)
        } else if value == GL_FLOAT_VEC2 {
            Some(ShaderInputType::Vec2)
        } else if value == GL_FLOAT_VEC3 {
            Some(ShaderInputType::Vec3)
        } else if value == GL_FLOAT_VEC4 {
            Some(ShaderInputType::Vec4)
        } else if value == GL_FLOAT_MAT2 {
            Some(ShaderInputType::Mat2)
        } else if value == GL_FLOAT_MAT3 {
            Some(ShaderInputType::Mat3)
        } else if value == GL_FLOAT_MAT4 {
            Some(ShaderInputType::Mat4)
        } else if value == GL_FLOAT_MAT2X3 {
            Some(ShaderInputType::Mat2x3)
        } else if value == GL_FLOAT_MAT2X4 {
            Some(ShaderInputType::Mat2x4)
        } else if value == GL_FLOAT_MAT3X2 {
            Some(ShaderInputType::Mat3x2)
        } else if value == GL_FLOAT_MAT3X4 {
            Some(ShaderInputType::Mat3x4)
        } else if value == GL_FLOAT_MAT4X2 {
            Some(ShaderInputType::Mat4x2)
        } else if value == GL_FLOAT_MAT4X3 {
            Some(ShaderInputType::Mat4x3)
        } else if value == GL_INT {
            Some(ShaderInputType::Int)
        } else if value == GL_INT_VEC2 {
            Some(ShaderInputType::IVec2)
        } else if value == GL_INT_VEC3 {
            Some(ShaderInputType::IVec3)
        } else if value == GL_INT_VEC4 {
            Some(ShaderInputType::IVec4)
        } else if value == GL_UNSIGNED_INT {
            Some(ShaderInputType::UInt)
        } else if value == GL_UNSIGNED_INT_VEC2 {
            Some(ShaderInputType::UVec2)
        } else if value == GL_UNSIGNED_INT_VEC3 {
            Some(ShaderInputType::UVec3)
        } else if value == GL_UNSIGNED_INT_VEC4 {
            Some(ShaderInputType::UVec4)
        } else if value == GL_DOUBLE {
            Some(ShaderInputType::Double)
        } else if value == GL_DOUBLE_VEC2 {
            Some(ShaderInputType::DVec2)
        } else if value == GL_DOUBLE_VEC3 {
            Some(ShaderInputType::DVec3)
        } else if value == GL_DOUBLE_VEC4 {
            Some(ShaderInputType::DVec4)
        } else if value == GL_DOUBLE_MAT2 {
            Some(ShaderInputType::DMat2)
        } else if value == GL_DOUBLE_MAT3 {
            Some(ShaderInputType::DMat3)
        } else if value == GL_DOUBLE_MAT4 {
            Some(ShaderInputType::DMat4)
        } else if value == GL_DOUBLE_MAT2X3 {
            Some(ShaderInputType::DMat2x3)
        } else if value == GL_DOUBLE_MAT2X4 {
            Some(ShaderInputType::DMat2x4)
        } else if value == GL_DOUBLE_MAT3X2 {
            Some(ShaderInputType::DMat3x2)
        } else if value == GL_DOUBLE_MAT3X4 {
            Some(ShaderInputType::DMat3x4)
        } else if value == GL_DOUBLE_MAT4X2 {
            Some(ShaderInputType::DMat4x2)
        } else if value == GL_DOUBLE_MAT4X3 {
            Some(ShaderInputType::DMat4x3)
        } else {
            None
        }
    }

    /// Whether the components are single-precision floating point.
    pub fn is_float(&self) -> (r: bool)
        ensures
            r == (self.spec_base_type() == ShaderInputType::Float),
    {
        match self {
            ShaderInputType::Float => true,
            ShaderInputType::Vec2 => true,
            ShaderInputType::Vec3 => true,
            ShaderInputType::Vec4 => true,
            ShaderInputType::Mat2 => true,
            ShaderInputType::Mat3 => true,
            ShaderInputType::Mat4 => true,
            ShaderInputType::Mat2x3 => true,
            ShaderInputType::Mat2x4 => true,
            ShaderInputType::Mat3x2 => true,
            ShaderInputType::Mat3x4 => true,
            ShaderInputType::Mat4x2 => true,
            ShaderInputType::Mat4x3 => true,
            ShaderInputType::Int => false,
            ShaderInputType::IVec2 => false,
            ShaderInputType::IVec3 => false,
            ShaderInputType::IVec4 => false,
            ShaderInputType::UInt => false,
            ShaderInputType::UVec2 => false,
            ShaderInputType::UVec3 => false,
            ShaderInputType::UVec4 => false,
            ShaderInputType::Double => false,
            ShaderInputType::DVec2 => false,
            ShaderInputType::DVec3 => false,
            ShaderInputType::DVec4 => false,
            ShaderInputType::DMat2 => false,
            ShaderInputType::DMat3 => false,
            ShaderInputType::DMat4 => false,
            ShaderInputType::DMat2x3 => false,
            ShaderInputType::DMat2x4 => false,
            ShaderInputType::DMat3x2 => false,
            ShaderInputType::DMat3x4 => false,
            ShaderInputType::DMat4x2 => false,
            ShaderInputType::DMat4x3 => false,
        }
    }

    /// Whether the components are double-precision floating point.
    pub fn is_double(&self) -> (r: bool)
        ensures
            r == (self.spec_base_type() == ShaderInputType::Double),
    {
        match self {
            ShaderInputType::Float => false,
            ShaderInputType::Vec2 => false,
            ShaderInputType::Vec3 => false,
            ShaderInputType::Vec4 => false,
            ShaderInputType::Mat2 => false,
            ShaderInputType::Mat3 => false,
            ShaderInputType::Mat4 => false,
            ShaderInputType::Mat2x3 => false,
            ShaderInputType::Mat2x4 => false,
            ShaderInputType::Mat3x2 => false,
            ShaderInputType::Mat3x4 => false,
            ShaderInputType::Mat4x2 => false,
            ShaderInputType::Mat4x3 => false,
            ShaderInputType::Int => false,
            ShaderInputType::IVec2 => false,
            ShaderInputType::IVec3 => false,
            ShaderInputType::IVec4 => false,
            ShaderInputType::UInt => false,
            ShaderInputType::UVec2 => false,
            ShaderInputType::UVec3 => false,
            ShaderInputType::UVec4 => false,
            ShaderInputType::Double => true,
            ShaderInputType::DVec2 => true,
            ShaderInputType::DVec3 => true,
            ShaderInputType::DVec4 => true,
            ShaderInputType::DMat2 => true,
            ShaderInputType::DMat3 => true,
            ShaderInputType::DMat4 => true,
            ShaderInputType::DMat2x3 => true,
            ShaderInputType::DMat2x4 => true,
            ShaderInputType::DMat3x2 => true,
            ShaderInputType::DMat3x4 => true,
            ShaderInputType::DMat4x2 => true,
            ShaderInputType::DMat4x3 => true,
        }
    }

    /// Whether the components are signed or unsigned integer.
    pub fn is_integer(&self) -> (r: bool)
        ensures
            r == (self.spec_base_type() == ShaderInputType::Int || self.spec_base_type() == ShaderInputType::UInt),
    {
        match self {
            ShaderInputType::Float => false,
            ShaderInputType::Vec2 => false,
            ShaderInputType::Vec3 => false,
            ShaderInputType::Vec4 => false,
            ShaderInputType::Mat2 => false,
            ShaderInputType::Mat3 => false,
            ShaderInputType::Mat4 => false,
            ShaderInputType::Mat2x3 => false,
            ShaderInputType::Mat2x4 => false,
            ShaderInputType::Mat3x2 => false,
            ShaderInputType::Mat3x4 => false,
            ShaderInputType::Mat4x2 => false,
            ShaderInputType::Mat4x3 => false,
            ShaderInputType::Int => true,
            ShaderInputType::IVec2 => true,
            ShaderInputType::IVec3 => true,
            ShaderInputType::IVec4 => true,
            ShaderInputType::UInt => true,
            ShaderInputType::UVec2 => true,
            ShaderInputType::UVec3 => true,
            ShaderInputType::UVec4 => true,
            ShaderInputType::Double => false,
            ShaderInputType::DVec2 => false,
            ShaderInputType::DVec3 => false,
            ShaderInputType::DVec4 => false,
            ShaderInputType::DMat2 => false,
            ShaderInputType::DMat3 => false,
            ShaderInputType::DMat4 => false,
            ShaderInputType::DMat2x3 => false,
            ShaderInputType::DMat2x4 => false,
            ShaderInputType::DMat3x2 => false,
            ShaderInputType::DMat3x4 => false,
            ShaderInputType::DMat4x2 => false,
            ShaderInputType::DMat4x3 => false,
        }
    }

    /// The (columns, rows) of the type; a vector has one row.
    pub fn get_size_and_rows(&self) -> (r: (u32, u32))
        ensures
            r == self.spec_size_and_rows(),
    {
        match self {
            ShaderInputType::Float => (1, 1),
            ShaderInputType::Vec2 => (2, 1),
            ShaderInputType::Vec3 => (3, 1),
            ShaderInputType::Vec4 => (4, 1),
            ShaderInputType::Mat2 => (2, 2),
            ShaderInputType::Mat3 => (3, 3),
            ShaderInputType::Mat4 => (4, 4),
            ShaderInputType::Mat2x3 => (2, 3),
            ShaderInputType::Mat2x4 => (2, 4),
            ShaderInputType::Mat3x2 => (3, 2),
            ShaderInputType::Mat3x4 => (3, 4),
            ShaderInputType::Mat4x2 => (4, 2),
            ShaderInputType::Mat4x3 => (4, 3),
            ShaderInputType::Int => (1, 1),
            ShaderInputType::IVec2 => (2, 1),
            ShaderInputType::IVec3 => (3, 1),
            ShaderInputType::IVec4 => (4, 1),
            ShaderInputType::UInt => (1, 1),
            ShaderInputType::UVec2 => (2, 1),
            ShaderInputType::UVec3 => (3, 1),
            ShaderInputType::UVec4 => (4, 1),
            ShaderInputType::Double => (1, 1),
            ShaderInputType::DVec2 => (2, 1),
            ShaderInputType::DVec3 => (3, 1),
            ShaderInputType::DVec4 => (4, 1),
            ShaderInputType::DMat2 => (2, 2),
            ShaderInputType::DMat3 => (3, 3),
            ShaderInputType::DMat4 => (4, 4),
            ShaderInputType::DMat2x3 => (2, 3),
            ShaderInputType::DMat2x4 => (2, 4),
            ShaderInputType::DMat3x2 => (3, 2),
            ShaderInputType::DMat3x4 => (3, 4),
            ShaderInputType::DMat4x2 => (4, 2),
            ShaderInputType::DMat4x3 => (4, 3),
        }
    }

    /// The scalar type the components have.
    pub fn get_base_type(&self) -> (r: ShaderInputType)
        ensures
            r == self.spec_base_type(),
    {
        match self {
            ShaderInputType::Float => ShaderInputType::Float,
            ShaderInputType::Vec2 => ShaderInputType::Float,
            ShaderInputType::Vec3 => ShaderInputType::Float,
            ShaderInputType::Vec4 => ShaderInputType::Float,
            ShaderInputType::Mat2 => ShaderInputType::Float,
            ShaderInputType::Mat3 => ShaderInputType::Float,
            ShaderInputType::Mat4 => ShaderInputType::Float,
            ShaderInputType::Mat2x3 => ShaderInputType::Float,
            ShaderInputType::Mat2x4 => ShaderInputType::Float,
            ShaderInputType::Mat3x2 => ShaderInputType::Float,
            ShaderInputType::Mat3x4 => ShaderInputType::Float,
            ShaderInputType::Mat4x2 => ShaderInputType::Float,
            ShaderInputType::Mat4x3 => ShaderInputType::Float,
            ShaderInputType::Int => ShaderInputType::Int,
            ShaderInputType::IVec2 => ShaderInputType::Int,
            ShaderInputType::IVec3 => ShaderInputType::Int,
            ShaderInputType::IVec4 => ShaderInputType::Int,
            ShaderInputType::UInt => ShaderInputType::UInt,
            ShaderInputType::UVec2 => ShaderInputType::UInt,
            ShaderInputType::UVec3 => ShaderInputType::UInt,
            ShaderInputType::UVec4 => ShaderInputType::UInt,
            ShaderInputType::Double => ShaderInputType::Double,
            ShaderInputType::DVec2 => ShaderInputType::Double,
            ShaderInputType::DVec3 => ShaderInputType::Double,
            ShaderInputType::DVec4 => ShaderInputType::Double,
            ShaderInputType::DMat2 => ShaderInputType::Double,
            ShaderInputType::DMat3 => ShaderInputType::Double,
            ShaderInputType::DMat4 => ShaderInputType::Double,
            ShaderInputType::DMat2x3 => ShaderInputType::Double,
            ShaderInputType::DMat2x4 => ShaderInputType::Double,
            ShaderInputType::DMat3x2 => ShaderInputType::Double,
            ShaderInputType::DMat3x4 => ShaderInputType::Double,
            ShaderInputType::DMat4x2 => ShaderInputType::Double,
            ShaderInputType::DMat4x3 => ShaderInputType::Double,
        }
    }
}

impl ShaderInputVarType {
    /// Whether the components are single-precision floating point.
    pub fn is_float(&self) -> (r: bool)
        ensures
            r == (self.type_.spec_base_type() == ShaderInputType::Float),
    {
        self.type_.is_float()
    }

    /// Whether the components are double-precision floating point.
    pub fn is_double(&self) -> (r: bool)
        ensures
            r == (self.type_.spec_base_type() == ShaderInputType::Double),
    {
        self.type_.is_double()
    }

    /// Whether the components are signed or unsigned integers.
    pub fn is_integer(&self) -> (r: bool)
        ensures
            r == (self.type_.spec_base_type() == ShaderInputType::Int || self.type_.spec_base_type()
                == ShaderInputType::UInt),
    {
        self.type_.is_integer()
    }

    /// The (columns, rows) of the element type.
    pub fn get_size_and_rows(&self) -> (r: (u32, u32))
        ensures
            r == self.type_.spec_size_and_rows(),
    {
        self.type_.get_size_and_rows()
    }

    /// The element type.
    pub fn get_type(&self) -> (r: ShaderInputType)
        ensures
            r == self.type_,
    {
        self.type_
    }

    /// The scalar type of the element type's components.
    pub fn get_base_type(&self) -> (r: ShaderInputType)
        ensures
            r == self.type_.spec_base_type(),
    {
        self.type_.get_base_type()
    }
}

impl Shader {
    pub closed spec fn spec_name(&self) -> u32 {
        self.program
    }

    pub closed spec fn spec_type(&self) -> ShaderType {
        self.shader_type
    }

    /// A shader program named `program`, of kind `shader_type`.
    pub fn new(program: u32, shader_type: ShaderType) -> (r: Self)
        ensures
            r.spec_name() == program,
            r.spec_type() == shader_type,
    {
        Shader { program, shader_type }
    }

    /// Get the internal name
    pub fn get_name(&self) -> (r: u32)
        ensures
            r == self.spec_name(),
    {
        self.program
    }

    /// Get the kind of program
    pub fn get_type(&self) -> (r: ShaderType)
        ensures
            r == self.spec_type(),
    {
        self.shader_type
    }

    /// Start using the program.
    pub fn use_program<'a>(&'a self) -> (r: ShaderUse<'a>)
        ensures
            r.spec_shader() == *self,
    {
        ShaderUse { shader: self }
    }

    /// The program that a binary in `binary` recreates, if the binary was
    /// made for a program of kind `shader_type`; the device call that loads
    /// it is made by the caller, which hands over the new program's name.
    pub fn from_program_binary(binary: &ShaderBinary, program: u32) -> (r: Self)
        ensures
            r.spec_name() == program,
            r.spec_type() == binary.spec_type(),
    {
        Shader { program, shader_type: binary.shader_type }
    }
}

impl<'a> ShaderUse<'a> {
    pub closed spec fn spec_shader(&self) -> Shader {
        *self.shader
    }

    /// Stop using the program.
    pub fn unuse(self) {
    }
}

impl ShaderBinary {
    pub closed spec fn spec_format(&self) -> u32 {
        self.format
    }

    pub closed spec fn spec_type(&self) -> ShaderType {
        self.shader_type
    }

    pub closed spec fn spec_binary(&self) -> Seq<u8> {
        self.binary@
    }

    /// A program binary `binary` in binary format `format`.
    pub fn new(format: u32, shader_type: ShaderType, binary: Vec<u8>) -> (r: Self)
        ensures
            r.spec_format() == format,
            r.spec_type() == shader_type,
            r.spec_binary() == binary@,
    {
        ShaderBinary { format, shader_type, binary }
    }

    /// Get the binary format
    pub fn get_format(&self) -> (r: u32)
        ensures
            r == self.spec_format(),
    {
        self.format
    }

    /// Get the kind of program the binary is for
    pub fn get_type(&self) -> (r: ShaderType)
        ensures
            r == self.spec_type(),
    {
        self.shader_type
    }

    /// Get the binary bytes
    pub fn get_binary(&self) -> (r: &Vec<u8>)
        ensures
            r@ == self.spec_binary(),
    {
        &self.binary
    }
}

} // verus!
