//! Errors of the renderer core.
//!
//! Configuration errors are detected before any device work; exhaustion
//! errors abort the current operation; invariant violations (building twice,
//! releasing a dead block) are reported loudly instead of corrupting state.

use vstd::prelude::*;

verus! {

/// Every failure a builder or resource operation can report.
#[derive(Clone, Copy, Debug, PartialEq, Eq, Structural)]
pub enum RenderError {
    /// A `BufferInfo` whose alignment mask or size is malformed.
    InvalidBufferInfo,
    /// No memory type satisfies the request, or an address/size limit of the
    /// device would be exceeded.
    OutOfMemory,
    /// A host upload was attempted on a buffer without host access.
    NotHostVisible,
    /// A host upload larger than the buffer it targets.
    StoreTooLarge,
    /// A memory block was released that is not live (double release).
    BlockNotLive,
    /// A fresh build was requested where a structure already exists.
    AlreadyBuilt,
    /// An update was requested where no structure exists yet.
    NotBuilt,
    /// An instance referenced a BLAS index past the end of the container.
    BlasIdOutOfRange,
    /// A referenced BLAS entry has not been built.
    BlasNotBuilt,
    /// A buffer that must carry a device address was created without one.
    MissingDeviceAddress,
    /// A shader language the device cannot consume.
    UnsupportedShaderLanguage,
    /// Shader byte code that is not a well-formed SPIR-V blob.
    InvalidShaderCode,
}

impl RenderError {
    /// A short human-readable name for the error.
    pub fn describe(&self) -> String {
        match self {
            RenderError::InvalidBufferInfo => "invalid buffer info".to_string(),
            RenderError::OutOfMemory => "out of memory".to_string(),
            RenderError::NotHostVisible => "buffer is not host-visible".to_string(),
            RenderError::StoreTooLarge => "store exceeds buffer size".to_string(),
            RenderError::BlockNotLive => "memory block is not live".to_string(),
            RenderError::AlreadyBuilt => "acceleration structure already built".to_string(),
            RenderError::NotBuilt => "acceleration structure not built".to_string(),
            RenderError::BlasIdOutOfRange => "instance references a BLAS id out of range".to_string(),
            RenderError::BlasNotBuilt => "referenced BLAS entry is not built".to_string(),
            RenderError::MissingDeviceAddress => "buffer has no device address".to_string(),
            RenderError::UnsupportedShaderLanguage => "unsupported shader language".to_string(),
            RenderError::InvalidShaderCode => "invalid shader byte code".to_string(),
        }
    }
}

} // verus!
