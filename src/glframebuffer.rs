use vstd::prelude::*;
use crate::gltexture::{TextureDimension, TextureTarget};

verus! {

/// The GL enumerants of framebuffer completeness and attachments.
pub const GL_FRAMEBUFFER_COMPLETE: u32 = 0x8CD5;
pub const GL_FRAMEBUFFER_UNDEFINED: u32 = 0x8219;
pub const GL_FRAMEBUFFER_INCOMPLETE_ATTACHMENT: u32 = 0x8CD6;
pub const GL_FRAMEBUFFER_INCOMPLETE_MISSING_ATTACHMENT: u32 = 0x8CD7;
pub const GL_FRAMEBUFFER_INCOMPLETE_DRAW_BUFFER: u32 = 0x8CDB;
pub const GL_FRAMEBUFFER_INCOMPLETE_READ_BUFFER: u32 = 0x8CDC;
pub const GL_FRAMEBUFFER_UNSUPPORTED: u32 = 0x8CDD;
pub const GL_FRAMEBUFFER_INCOMPLETE_MULTISAMPLE: u32 = 0x8D56;
pub const GL_FRAMEBUFFER_INCOMPLETE_LAYER_TARGETS: u32 = 0x8DA8;
pub const GL_COLOR_ATTACHMENT0: u32 = 0x8CE0;

/// The framebuffer render target type
#[derive(Clone, Copy, PartialEq, Eq, Structural, Debug)]
pub struct FramebufferTarget {
    /// The texture binding target
    pub texture_target: TextureTarget,
    /// The layer index of the 3D texture to bind (Only bind a 2D layer to the framebuffer)
    pub layer_of_3d: i32,
}

/// The error of the framebuffers
#[derive(Clone, Copy, PartialEq, Eq, Structural, Debug)]
pub enum FramebufferError {
    NoDefaultFramebuffer,
    IncompleteAttachment,
    IncompleteMissingAttachment,
    IncompleteDrawBuffer,
    IncompleteReadBuffer,
    Unsupported,
    IncompleteMultisample,
    IncompleteLayerTarget,
    UnknownError(u32),
}

/// A framebuffer object, by name. The device calls that create, attach and
/// delete it are made by the caller.
#[derive(Debug)]
pub struct Framebuffer {
    name: u32,
}

/// The binding of a framebuffer as the draw framebuffer, released by
/// `unbind` or on drop.
#[derive(Debug)]
pub struct FramebufferBind<'a> {
    framebuffer: &'a Framebuffer,
}

/// The outcome a completeness status reports.
pub open spec fn spec_status_result(status: u32) -> Result<(), FramebufferError> {
    if status == GL_FRAMEBUFFER_COMPLETE {
        Ok(())
    } else if status == GL_FRAMEBUFFER_UNDEFINED {
        Err(FramebufferError::NoDefaultFramebuffer)
    } else if status == GL_FRAMEBUFFER_INCOMPLETE_ATTACHMENT {
        Err(FramebufferError::IncompleteAttachment)
    } else if status == GL_FRAMEBUFFER_INCOMPLETE_MISSING_ATTACHMENT {
        Err(FramebufferError::IncompleteMissingAttachment)
    } else if status == GL_FRAMEBUFFER_INCOMPLETE_DRAW_BUFFER {
        Err(FramebufferError::IncompleteDrawBuffer)
    } else if status == GL_FRAMEBUFFER_INCOMPLETE_READ_BUFFER {
        Err(FramebufferError::IncompleteReadBuffer)
    } else if status == GL_FRAMEBUFFER_UNSUPPORTED {
        Err(FramebufferError::Unsupported)
    } else if status == GL_FRAMEBUFFER_INCOMPLETE_MULTISAMPLE {
        Err(FramebufferError::IncompleteMultisample)
    } else if status == GL_FRAMEBUFFER_INCOMPLETE_LAYER_TARGETS {
        Err(FramebufferError::IncompleteLayerTarget)
    } else {
        Err(FramebufferError::UnknownError(status))
    }
}

impl FramebufferError {
    /// Interpret the completeness status the device reports for a
    /// framebuffer: complete, or the error that names what is missing.
    pub fn from_status(status: u32) -> (r: Result<(), FramebufferError>)
        ensures
            r == spec_status_result(status),
    {
        if status == GL_FRAMEBUFFER_COMPLETE {
            Ok(())
        } else if status == GL_FRAMEBUFFER_UNDEFINED {
            Err(FramebufferError::NoDefaultFramebuffer)
        } else if status == GL_FRAMEBUFFER_INCOMPLETE_ATTACHMENT {
            Err(FramebufferError::IncompleteAttachment)
        } else if status == GL_FRAMEBUFFER_INCOMPLETE_MISSING_ATTACHMENT {
            Err(FramebufferError::IncompleteMissingAttachment)
        } else if status == GL_FRAMEBUFFER_INCOMPLETE_DRAW_BUFFER {
            Err(FramebufferError::IncompleteDrawBuffer)
        } else if status == GL_FRAMEBUFFER_INCOMPLETE_READ_BUFFER {
            Err(FramebufferError::IncompleteReadBuffer)
        } else if status == GL_FRAMEBUFFER_UNSUPPORTED {
            Err(FramebufferError::Unsupported)
        } else if status == GL_FRAMEBUFFER_INCOMPLETE_MULTISAMPLE {
            Err(FramebufferError::IncompleteMultisample)
        } else if status == GL_FRAMEBUFFER_INCOMPLETE_LAYER_TARGETS {
            Err(FramebufferError::IncompleteLayerTarget)
        } else {
            Err(FramebufferError::UnknownError(status))
        }
    }
}

impl Framebuffer {
    pub closed spec fn spec_name(&self) -> u32 {
        self.name
    }

    /// A framebuffer object named `name`
    pub fn new(name: u32) -> (r: Self)
        ensures
            r.spec_name() == name,
    {
        Framebuffer { name }
    }

    /// Get the internal name
    pub fn get_name(&self) -> (r: u32)
        ensures
            r == self.spec_name(),
    {
        self.name
    }

    /// Bind as the draw framebuffer.
    pub fn bind<'a>(&'a self) -> (r: FramebufferBind<'a>)
        ensures
            r.spec_framebuffer() == *self,
    {
        FramebufferBind { framebuffer: self }
    }
}

impl<'a> FramebufferBind<'a> {
    pub closed spec fn spec_framebuffer(&self) -> Framebuffer {
        *self.framebuffer
    }

    /// The attachment point a shader output at `location` draws to, for a
    /// location the program reports; `None` for a negative location, an
    /// output the program does not have.
    pub fn attachment_of_location(location: i32) -> (r: Option<u32>)
        ensures
            location < 0 ==> r is None,
            location >= 0 && location <= u32::MAX - GL_COLOR_ATTACHMENT0 ==> r == Some(
                (GL_COLOR_ATTACHMENT0 + location) as u32,
            ),
            location > u32::MAX - GL_COLOR_ATTACHMENT0 ==> r is None,
    {
        if location < 0 {
            None
        } else if location as u32 <= u32::MAX - GL_COLOR_ATTACHMENT0 {
            Some(GL_COLOR_ATTACHMENT0 + location as u32)
        } else {
            None
        }
    }

    /// The layer to attach for a texture of dimension `dim`: the target's
    /// layer for a 3D texture, none otherwise.
    pub fn attached_layer(dim: TextureDimension, target: FramebufferTarget) -> (r: Option<i32>)
        ensures
            dim == TextureDimension::Tex3d ==> r == Some(target.layer_of_3d),
            dim != TextureDimension::Tex3d ==> r is None,
    {
        match dim {
            TextureDimension::Tex3d => Some(target.layer_of_3d),
            _ => None,
        }
    }

    /// Explicitly unbind the framebuffer
    pub fn unbind(self) {
    }
}

} // verus!
