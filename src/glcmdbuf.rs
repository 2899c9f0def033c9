use vstd::prelude::*;

verus! {

/// The parameters of one indirect array draw, as the device reads them from
/// a buffer bound to `BufferTarget::DrawIndirectBuffer`
#[derive(Default, Debug, Clone, Copy, PartialEq, Eq, Structural)]
pub struct DrawArrayCommand {
    pub vertex_count: u32,
    pub instance_count: u32,
    pub first_index: u32,
    pub base_instance: u32,
}

/// The parameters of one indirect indexed draw, as the device reads them
/// from a buffer bound to `BufferTarget::DrawIndirectBuffer`
#[derive(Default, Debug, Clone, Copy, PartialEq, Eq, Structural)]
pub struct DrawElementsCommand {
    pub element_count: u32,
    pub instance_count: u32,
    pub first_index: u32,
    pub base_vertex: i32,
    pub base_instance: u32,
}

/// The work group counts of one indirect compute dispatch, as the device
/// reads them from a buffer bound to `BufferTarget::DispatchIndirectBuffer`
#[derive(Default, Debug, Clone, Copy, PartialEq, Eq, Structural)]
pub struct DispatchIndirectCommand {
    pub num_groups_x: u32,
    pub num_groups_y: u32,
    pub num_groups_z: u32,
}

/// The trait for all of the commands
pub trait DrawCommand: Copy + Sized {
}

impl DrawCommand for DrawArrayCommand {
}

impl DrawCommand for DrawElementsCommand {
}

impl DrawCommand for DispatchIndirectCommand {
}

impl DispatchIndirectCommand {
    /// The byte offset of the command at `index` in a buffer of them.
    pub fn byte_offset(index: usize) -> (r: usize)
        requires
            index * 12 <= usize::MAX,
        ensures
            r == index * 12,
    {
        index * 12
    }
}

} // verus!
