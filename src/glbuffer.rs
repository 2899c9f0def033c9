use vstd::prelude::*;

verus! {

/// The GL enumerants of buffer targets, usages and map access.
pub const GL_ARRAY_BUFFER: u32 = 0x8892;
pub const GL_ATOMIC_COUNTER_BUFFER: u32 = 0x92C0;
pub const GL_COPY_READ_BUFFER: u32 = 0x8F36;
pub const GL_COPY_WRITE_BUFFER: u32 = 0x8F37;
pub const GL_DISPATCH_INDIRECT_BUFFER: u32 = 0x90EE;
pub const GL_DRAW_INDIRECT_BUFFER: u32 = 0x8F3F;
pub const GL_ELEMENT_ARRAY_BUFFER: u32 = 0x8893;
pub const GL_PIXEL_PACK_BUFFER: u32 = 0x88EB;
pub const GL_PIXEL_UNPACK_BUFFER: u32 = 0x88EC;
pub const GL_QUERY_BUFFER: u32 = 0x9192;
pub const GL_SHADER_STORAGE_BUFFER: u32 = 0x90D2;
pub const GL_TEXTURE_BUFFER: u32 = 0x8C2A;
pub const GL_TRANSFORM_FEEDBACK_BUFFER: u32 = 0x8C8E;
pub const GL_UNIFORM_BUFFER: u32 = 0x8A11;

pub const GL_STREAM_DRAW: u32 = 0x88E0;
pub const GL_STREAM_READ: u32 = 0x88E1;
pub const GL_STREAM_COPY: u32 = 0x88E2;
pub const GL_STATIC_DRAW: u32 = 0x88E4;
pub const GL_STATIC_READ: u32 = 0x88E5;
pub const GL_STATIC_COPY: u32 = 0x88E6;
pub const GL_DYNAMIC_DRAW: u32 = 0x88E8;
pub const GL_DYNAMIC_READ: u32 = 0x88E9;
pub const GL_DYNAMIC_COPY: u32 = 0x88EA;

pub const GL_READ_ONLY: u32 = 0x88B8;
pub const GL_WRITE_ONLY: u32 = 0x88B9;
pub const GL_READ_WRITE: u32 = 0x88BA;

/// The buffer binding targets.
#[derive(Clone, Copy, PartialEq, Eq, Structural, Debug)]
pub enum BufferTarget {
    ArrayBuffer,
    AtomicCounterBuffer,
    CopyReadBuffer,
    CopyWriteBuffer,
    DispatchIndirectBuffer,
    DrawIndirectBuffer,
    ElementArrayBuffer,
    PixelPackBuffer,
    PixelUnpackBuffer,
    QueryBuffer,
    ShaderStorageBuffer,
    TextureBuffer,
    TransformFeedbackBuffer,
    UniformBuffer,
}

/// The usage hint a buffer was allocated with.
#[derive(Clone, Copy, PartialEq, Eq, Structural, Debug)]
pub enum BufferUsage {
    StreamDraw,
    StreamRead,
    StreamCopy,
    StaticDraw,
    StaticRead,
    StaticCopy,
    DynamicDraw,
    DynamicRead,
    DynamicCopy,
}

/// The access flags of a buffer mapping.
#[derive(Clone, Copy, PartialEq, Eq, Structural, Debug)]
pub enum MapAccess {
    ReadOnly,
    WriteOnly,
    ReadWrite,
}

impl BufferTarget {
    pub open spec fn gl_value(self) -> u32 {
        match self {
            BufferTarget::ArrayBuffer => GL_ARRAY_BUFFER,
            BufferTarget::AtomicCounterBuffer => GL_ATOMIC_COUNTER_BUFFER,
            BufferTarget::CopyReadBuffer => GL_COPY_READ_BUFFER,
            BufferTarget::CopyWriteBuffer => GL_COPY_WRITE_BUFFER,
            BufferTarget::DispatchIndirectBuffer => GL_DISPATCH_INDIRECT_BUFFER,
            BufferTarget::DrawIndirectBuffer => GL_DRAW_INDIRECT_BUFFER,
            BufferTarget::ElementArrayBuffer => GL_ELEMENT_ARRAY_BUFFER,
            BufferTarget::PixelPackBuffer => GL_PIXEL_PACK_BUFFER,
            BufferTarget::PixelUnpackBuffer => GL_PIXEL_UNPACK_BUFFER,
            BufferTarget::QueryBuffer => GL_QUERY_BUFFER,
            BufferTarget::ShaderStorageBuffer => GL_SHADER_STORAGE_BUFFER,
            BufferTarget::TextureBuffer => GL_TEXTURE_BUFFER,
            BufferTarget::TransformFeedbackBuffer => GL_TRANSFORM_FEEDBACK_BUFFER,
            BufferTarget::UniformBuffer => GL_UNIFORM_BUFFER,
        }
    }

    /// The GL enumerant of this target.
    pub fn to_gl(&self) -> (r: u32)
        ensures
            r == self.gl_value(),
    {
        match self {
            BufferTarget::ArrayBuffer => GL_ARRAY_BUFFER,
            BufferTarget::AtomicCounterBuffer => GL_ATOMIC_COUNTER_BUFFER,
            BufferTarget::CopyReadBuffer => GL_COPY_READ_BUFFER,
            BufferTarget::CopyWriteBuffer => GL_COPY_WRITE_BUFFER,
            BufferTarget::DispatchIndirectBuffer => GL_DISPATCH_INDIRECT_BUFFER,
            BufferTarget::DrawIndirectBuffer => GL_DRAW_INDIRECT_BUFFER,
            BufferTarget::ElementArrayBuffer => GL_ELEMENT_ARRAY_BUFFER,
            BufferTarget::PixelPackBuffer => GL_PIXEL_PACK_BUFFER,
            BufferTarget::PixelUnpackBuffer => GL_PIXEL_UNPACK_BUFFER,
            BufferTarget::QueryBuffer => GL_QUERY_BUFFER,
            BufferTarget::ShaderStorageBuffer => GL_SHADER_STORAGE_BUFFER,
            BufferTarget::TextureBuffer => GL_TEXTURE_BUFFER,
            BufferTarget::TransformFeedbackBuffer => GL_TRANSFORM_FEEDBACK_BUFFER,
            BufferTarget::UniformBuffer => GL_UNIFORM_BUFFER,
        }
    }
}

impl BufferUsage {
    pub open spec fn gl_value(self) -> u32 {
        match self {
            BufferUsage::StreamDraw => GL_STREAM_DRAW,
            BufferUsage::StreamRead => GL_STREAM_READ,
            BufferUsage::StreamCopy => GL_STREAM_COPY,
            BufferUsage::StaticDraw => GL_STATIC_DRAW,
            BufferUsage::StaticRead => GL_STATIC_READ,
            BufferUsage::StaticCopy => GL_STATIC_COPY,
            BufferUsage::DynamicDraw => GL_DYNAMIC_DRAW,
            BufferUsage::DynamicRead => GL_DYNAMIC_READ,
            BufferUsage::DynamicCopy => GL_DYNAMIC_COPY,
        }
    }

    /// The GL enumerant of this usage.
    pub fn to_gl(&self) -> (r: u32)
        ensures
            r == self.gl_value(),
    {
        match self {
            BufferUsage::StreamDraw => GL_STREAM_DRAW,
            BufferUsage::StreamRead => GL_STREAM_READ,
            BufferUsage::StreamCopy => GL_STREAM_COPY,
            BufferUsage::StaticDraw => GL_STATIC_DRAW,
            BufferUsage::StaticRead => GL_STATIC_READ,
            BufferUsage::StaticCopy => GL_STATIC_COPY,
            BufferUsage::DynamicDraw => GL_DYNAMIC_DRAW,
            BufferUsage::DynamicRead => GL_DYNAMIC_READ,
            BufferUsage::DynamicCopy => GL_DYNAMIC_COPY,
        }
    }

    /// The usage whose GL enumerant is `value`, as a queried buffer reports it;
    /// `None` for any other value.
    pub fn from_gl(value: u32) -> (r: Option<BufferUsage>)
        ensures
            r matches Some(u) ==> u.gl_value() == value,
            r is None <==> (forall|u: BufferUsage| u.gl_value() != value),
    {
        let r = if value == GL_STREAM_DRAW {
            Some(BufferUsage::StreamDraw)
        } else if value == GL_STREAM_READ {
            Some(BufferUsage::StreamRead)
        } else if value == GL_STREAM_COPY {
            Some(BufferUsage::StreamCopy)
        } else if value == GL_STATIC_DRAW {
            Some(BufferUsage::StaticDraw)
        } else if value == GL_STATIC_READ {
            Some(BufferUsage::StaticRead)
        } else if value == GL_STATIC_COPY {
            Some(BufferUsage::StaticCopy)
        } else if value == GL_DYNAMIC_DRAW {
            Some(BufferUsage::DynamicDraw)
        } else if value == GL_DYNAMIC_READ {
            Some(BufferUsage::DynamicRead)
        } else if value == GL_DYNAMIC_COPY {
            Some(BufferUsage::DynamicCopy)
        } else {
            None
        };
        proof {
            if r is None {
                assert forall|u: BufferUsage| u.gl_value() != value by {
                    match u {
                        _ => {},
                    }
                }
            }
        }
        r
    }
}

impl MapAccess {
    pub open spec fn gl_value(self) -> u32 {
        match self {
            MapAccess::ReadOnly => GL_READ_ONLY,
            MapAccess::WriteOnly => GL_WRITE_ONLY,
            MapAccess::ReadWrite => GL_READ_WRITE,
        }
    }

    /// The GL enumerant of this access.
    pub fn to_gl(&self) -> (r: u32)
        ensures
            r == self.gl_value(),
    {
        match self {
            MapAccess::ReadOnly => GL_READ_ONLY,
            MapAccess::WriteOnly => GL_WRITE_ONLY,
            MapAccess::ReadWrite => GL_READ_WRITE,
        }
    }
}

/// A buffer object on the device: its name, usage, default target and size in
/// bytes. The device calls that create, copy and delete it are made by the
/// caller, which records their outcome here.
#[derive(Debug)]
pub struct Buffer {
    name: u32,
    usage: BufferUsage,
    target: BufferTarget,
    size: usize,
}

/// A binding of a buffer to a target, released by `unbind` or on drop.
#[derive(Debug)]
pub struct BufferBind<'a> {
    pub buffer: &'a Buffer,
    target: BufferTarget,
}

impl Buffer {
    pub closed spec fn spec_name(&self) -> u32 {
        self.name
    }

    pub closed spec fn spec_usage(&self) -> BufferUsage {
        self.usage
    }

    pub closed spec fn spec_target(&self) -> BufferTarget {
        self.target
    }

    pub closed spec fn spec_size(&self) -> usize {
        self.size
    }

    /// A buffer object named `name`, of `size` bytes, created for `target`
    /// with the usage hint `usage`.
    pub fn new(name: u32, target: BufferTarget, size: usize, usage: BufferUsage) -> (r: Self)
        ensures
            r.spec_name() == name,
            r.spec_target() == target,
            r.spec_size() == size,
            r.spec_usage() == usage,
    {
        Buffer { name, usage, target, size }
    }

    /// Get the internal name
    pub fn get_name(&self) -> (r: u32)
        ensures
            r == self.spec_name(),
    {
        self.name
    }

    /// Get the size of the buffer in bytes
    pub fn size(&self) -> (r: usize)
        ensures
            r == self.spec_size(),
    {
        self.size
    }

    /// Get the default binding target
    pub fn get_target(&self) -> (r: BufferTarget)
        ensures
            r == self.spec_target(),
    {
        self.target
    }

    /// Get the usage when initializing
    pub fn get_usage(&self) -> (r: BufferUsage)
        ensures
            r == self.spec_usage(),
    {
        self.usage
    }

    /// Record a reallocation: the contents now live in the buffer object
    /// `new_name`, of `new_size` bytes, with the same usage and target.
    pub fn resize(&mut self, new_size: usize, new_name: u32)
        ensures
            final(self).spec_size() == new_size,
            final(self).spec_name() == new_name,
            final(self).spec_usage() == old(self).spec_usage(),
            final(self).spec_target() == old(self).spec_target(),
    {
        self.size = new_size;
        self.name = new_name;
    }

    /// Set the default binding target
    pub fn set_target(&mut self, target: BufferTarget)
        ensures
            final(self).spec_target() == target,
            final(self).spec_name() == old(self).spec_name(),
            final(self).spec_size() == old(self).spec_size(),
            final(self).spec_usage() == old(self).spec_usage(),
    {
        self.target = target;
    }

    /// Bind to the default target.
    pub fn bind<'a>(&'a self) -> (r: BufferBind<'a>)
        ensures
            r.spec_buffer() == *self,
            r.spec_target() == self.spec_target(),
    {
        BufferBind { buffer: self, target: self.target }
    }

    /// Bind to `target`, leaving the default target unchanged.
    pub fn bind_to<'a>(&'a self, target: BufferTarget) -> (r: BufferBind<'a>)
        ensures
            r.spec_buffer() == *self,
            r.spec_target() == target,
    {
        BufferBind { buffer: self, target }
    }
}

impl<'a> BufferBind<'a> {
    pub closed spec fn spec_buffer(&self) -> Buffer {
        *self.buffer
    }

    pub closed spec fn spec_target(&self) -> BufferTarget {
        self.target
    }

    /// Unbind the buffer
    pub fn unbind(self) {
    }

    /// Get the binding target
    pub fn get_target(&self) -> (r: BufferTarget)
        ensures
            r == self.spec_target(),
    {
        self.target
    }
}

} // verus!
