use vstd::prelude::*;
use crate::buffervec::{BufferVecDynamic, BufferVecItem, BufferVecStatic, BufferWrite};
use crate::gltexture::{GL_UNSIGNED_BYTE, GL_UNSIGNED_SHORT};
use crate::glshader::GL_UNSIGNED_INT;

verus! {

/// The GL enumerants of the primitive modes.
pub const GL_POINTS: u32 = 0x0000;
pub const GL_LINES: u32 = 0x0001;
pub const GL_LINE_LOOP: u32 = 0x0002;
pub const GL_LINE_STRIP: u32 = 0x0003;
pub const GL_TRIANGLES: u32 = 0x0004;
pub const GL_TRIANGLE_STRIP: u32 = 0x0005;
pub const GL_TRIANGLE_FAN: u32 = 0x0006;
pub const GL_LINES_ADJACENCY: u32 = 0x000A;
pub const GL_LINE_STRIP_ADJACENCY: u32 = 0x000B;
pub const GL_TRIANGLES_ADJACENCY: u32 = 0x000C;
pub const GL_TRIANGLE_STRIP_ADJACENCY: u32 = 0x000D;
pub const GL_PATCHES: u32 = 0x000E;

/// How the vertices of a mesh are assembled into shapes
#[derive(Clone, Copy, PartialEq, Eq, Structural, Debug)]
pub enum PrimitiveMode {
    Points,
    LineStrip,
    LineLoop,
    Lines,
    LineStripAdjacency,
    LinesAdjacency,
    TriangleStrip,
    TriangleFan,
    Triangles,
    TriangleStripAdjacency,
    TrianglesAdjacency,
    Patches,
}

/// The integer type the element buffer indexes vertices with
#[derive(Clone, Copy, PartialEq, Eq, Structural, Debug)]
pub enum ElementType {
    U8,
    U16,
    U32,
}

impl PrimitiveMode {
    pub open spec fn gl_value(self) -> u32 {
        match self {
            PrimitiveMode::Points => GL_POINTS,
            PrimitiveMode::LineStrip => GL_LINE_STRIP,
            PrimitiveMode::LineLoop => GL_LINE_LOOP,
            PrimitiveMode::Lines => GL_LINES,
            PrimitiveMode::LineStripAdjacency => GL_LINE_STRIP_ADJACENCY,
            PrimitiveMode::LinesAdjacency => GL_LINES_ADJACENCY,
            PrimitiveMode::TriangleStrip => GL_TRIANGLE_STRIP,
            PrimitiveMode::TriangleFan => GL_TRIANGLE_FAN,
            PrimitiveMode::Triangles => GL_TRIANGLES,
            PrimitiveMode::TriangleStripAdjacency => GL_TRIANGLE_STRIP_ADJACENCY,
            PrimitiveMode::TrianglesAdjacency => GL_TRIANGLES_ADJACENCY,
            PrimitiveMode::Patches => GL_PATCHES,
        }
    }

    /// The GL enumerant of this mode.
    pub fn to_gl(&self) -> (r: u32)
        ensures
            r == self.gl_value(),
    {
        match self {
            PrimitiveMode::Points => GL_POINTS,
            PrimitiveMode::LineStrip => GL_LINE_STRIP,
            PrimitiveMode::LineLoop => GL_LINE_LOOP,
            PrimitiveMode::Lines => GL_LINES,
            PrimitiveMode::LineStripAdjacency => GL_LINE_STRIP_ADJACENCY,
            PrimitiveMode::LinesAdjacency => GL_LINES_ADJACENCY,
            PrimitiveMode::TriangleStrip => GL_TRIANGLE_STRIP,
            PrimitiveMode::TriangleFan => GL_TRIANGLE_FAN,
            PrimitiveMode::Triangles => GL_TRIANGLES,
            PrimitiveMode::TriangleStripAdjacency => GL_TRIANGLE_STRIP_ADJACENCY,
            PrimitiveMode::TrianglesAdjacency => GL_TRIANGLES_ADJACENCY,
            PrimitiveMode::Patches => GL_PATCHES,
        }
    }
}

impl ElementType {
    pub open spec fn gl_value(self) -> u32 {
        match self {
            ElementType::U8 => GL_UNSIGNED_BYTE,
            ElementType::U16 => GL_UNSIGNED_SHORT,
            ElementType::U32 => GL_UNSIGNED_INT,
        }
    }

    pub open spec fn spec_size(self) -> usize {
        match self {
            ElementType::U8 => 1,
            ElementType::U16 => 2,
            ElementType::U32 => 4,
        }
    }

    /// Get the size of each index
    pub fn get_size(&self) -> (r: usize)
        ensures
            r == self.spec_size(),
    {
        match self {
            ElementType::U8 => 1,
            ElementType::U16 => 2,
            ElementType::U32 => 4,
        }
    }

    /// The GL enumerant of this index type.
    pub fn to_gl(&self) -> (r: u32)
        ensures
            r == self.gl_value(),
    {
        match self {
            ElementType::U8 => GL_UNSIGNED_BYTE,
            ElementType::U16 => GL_UNSIGNED_SHORT,
            ElementType::U32 => GL_UNSIGNED_INT,
        }
    }
}

/// A mesh: vertices and optional elements in uncached buffers, optional
/// instances and draw commands in cached buffers that are edited in place
/// and flushed.
#[derive(Debug)]
pub struct Mesh<V: BufferVecItem, E: BufferVecItem, I: BufferVecItem, C: BufferVecItem> {
    pub primitive: PrimitiveMode,
    pub vertex_buffer: BufferVecStatic<V>,
    pub element_buffer: Option<BufferVecStatic<E>>,
    pub instance_buffer: Option<BufferVecDynamic<I>>,
    pub command_buffer: Option<BufferVecDynamic<C>>,
}

impl<V: BufferVecItem, E: BufferVecItem, I: BufferVecItem, C: BufferVecItem> Mesh<V, E, I, C> {
    /// The cached buffers are well formed.
    pub open spec fn wf(&self) -> bool {
        &&& self.instance_buffer matches Some(b) ==> b.wf()
        &&& self.command_buffer matches Some(b) ==> b.wf()
    }

    /// Create a new mesh from the buffers
    pub fn new(
        primitive: PrimitiveMode,
        vertex_buffer: BufferVecStatic<V>,
        element_buffer: Option<BufferVecStatic<E>>,
        instance_buffer: Option<BufferVecDynamic<I>>,
        command_buffer: Option<BufferVecDynamic<C>>,
    ) -> (r: Self)
        ensures
            r.primitive == primitive,
            r.vertex_buffer == vertex_buffer,
            r.element_buffer == element_buffer,
            r.instance_buffer == instance_buffer,
            r.command_buffer == command_buffer,
    {
        Mesh { primitive, vertex_buffer, element_buffer, instance_buffer, command_buffer }
    }

    /// Flush the cached buffers. Returns the writes each asks for (none for
    /// an absent buffer); the uncached buffers have nothing to flush.
    pub fn flush(&mut self) -> (r: (Vec<BufferWrite<I>>, Vec<BufferWrite<C>>))
        requires
            old(self).wf(),
        ensures
            final(self).wf(),
            final(self).primitive == old(self).primitive,
            final(self).vertex_buffer == old(self).vertex_buffer,
            final(self).element_buffer == old(self).element_buffer,
            final(self).instance_buffer is Some <==> old(self).instance_buffer is Some,
            final(self).command_buffer is Some <==> old(self).command_buffer is Some,
            old(self).instance_buffer matches Some(b) ==> BufferVecDynamic::flush_post(
                b,
                final(self).instance_buffer->0,
                r.0@,
            ),
            old(self).instance_buffer is None ==> r.0@.len() == 0,
            old(self).command_buffer matches Some(b) ==> BufferVecDynamic::flush_post(
                b,
                final(self).command_buffer->0,
                r.1@,
            ),
            old(self).command_buffer is None ==> r.1@.len() == 0,
    {
        let instance_writes = match self.instance_buffer.take() {
            Some(mut b) => {
                let w = b.flush();
                self.instance_buffer = Some(b);
                w
            },
            None => Vec::new(),
        };
        let command_writes = match self.command_buffer.take() {
            Some(mut b) => {
                let w = b.flush();
                self.command_buffer = Some(b);
                w
            },
            None => Vec::new(),
        };
        (instance_writes, command_writes)
    }
}

} // verus!
