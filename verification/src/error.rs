//! Error taxonomy of the conversion engine: context acquisition, shader
//! compilation, program linking, resource allocation, driver error codes, and
//! the validation errors raised before any GPU work is issued.

use vstd::prelude::*;

verus! {

/// GL error code meaning that no error was recorded.
pub const GL_NO_ERROR: u32 = 0;

/// GL error code for an unacceptable enum argument.
pub const GL_INVALID_ENUM: u32 = 0x0500;

/// GL error code for an out-of-range numeric argument.
pub const GL_INVALID_VALUE: u32 = 0x0501;

/// GL error code for an operation not allowed in the current state.
pub const GL_INVALID_OPERATION: u32 = 0x0502;

/// GL error code for memory exhaustion.
pub const GL_OUT_OF_MEMORY: u32 = 0x0505;

/// GL error code for an operation on an incomplete framebuffer.
pub const GL_INVALID_FRAMEBUFFER_OPERATION: u32 = 0x0506;

/// A GL error code observed after an operation, by kind; codes outside the
/// known set are carried verbatim.
#[derive(Debug, Clone, Copy, PartialEq, Eq, Structural)]
pub enum DriverError {
    InvalidEnum,
    InvalidValue,
    InvalidOperation,
    OutOfMemory,
    InvalidFramebufferOperation,
    Other(u32),
}

/// A failure of the conversion engine. None of these is retried internally;
/// each aborts the call (or the session construction) that raised it.
#[derive(Debug, Clone, PartialEq)]
pub enum ConvertError {
    /// GPU context, display or configuration acquisition failed; session
    /// construction aborts.
    Context,
    /// The driver rejected a generated compute shader; carries the driver's
    /// diagnostic text. Not retryable: it indicates a mis-generated shader.
    Compile(String),
    /// Program linking failed; carries the driver's diagnostic text.
    Link(String),
    /// A buffer or program handle came back zero or null: resource
    /// exhaustion or an invalid context state.
    Resource,
    /// A GL error code was observed after an operation.
    Driver(DriverError),
    /// Frame dimensions the layout arithmetic or the chosen work-group tile
    /// size cannot serve; rejected at session construction.
    Dimensions { width: usize, height: usize, local_size: usize },
    /// An input frame buffer whose byte length is not the expected YUY2 size;
    /// rejected before any GPU call.
    FrameSize { expected: usize, actual: usize },
}

/// The kind a given GL error code classifies as.
pub open spec fn spec_driver_error(code: u32) -> DriverError {
    if code == GL_INVALID_ENUM {
        DriverError::InvalidEnum
    } else if code == GL_INVALID_VALUE {
        DriverError::InvalidValue
    } else if code == GL_INVALID_OPERATION {
        DriverError::InvalidOperation
    } else if code == GL_OUT_OF_MEMORY {
        DriverError::OutOfMemory
    } else if code == GL_INVALID_FRAMEBUFFER_OPERATION {
        DriverError::InvalidFramebufferOperation
    } else {
        DriverError::Other(code)
    }
}

/// Classifies the code a GL error query returned: `Ok` exactly on
/// `GL_NO_ERROR`, and otherwise the driver error of the specific code.
pub fn classify_gl_error(code: u32) -> (r: Result<(), ConvertError>)
    ensures
        r is Ok <==> code == GL_NO_ERROR,
        code != GL_NO_ERROR ==> r == Err::<(), ConvertError>(
            ConvertError::Driver(spec_driver_error(code)),
        ),
{
    if code == GL_NO_ERROR {
        Ok(())
    } else if code == GL_INVALID_ENUM {
        Err(ConvertError::Driver(DriverError::InvalidEnum))
    } else if code == GL_INVALID_VALUE {
        Err(ConvertError::Driver(DriverError::InvalidValue))
    } else if code == GL_INVALID_OPERATION {
        Err(ConvertError::Driver(DriverError::InvalidOperation))
    } else if code == GL_OUT_OF_MEMORY {
        Err(ConvertError::Driver(DriverError::OutOfMemory))
    } else if code == GL_INVALID_FRAMEBUFFER_OPERATION {
        Err(ConvertError::Driver(DriverError::InvalidFramebufferOperation))
    } else {
        Err(ConvertError::Driver(DriverError::Other(code)))
    }
}

} // verus!
