//! Shader modules: validated SPIR-V byte code and the handles compiled from
//! it. The byte code is validated, not parsed: a well-formed blob is a
//! non-empty sequence of 32-bit words starting with the SPIR-V magic number,
//! little-endian.

use vstd::prelude::*;

verus! {

/// The language a shader blob is written in. Only the binary SPIR-V format
/// can be handed to the device; anything else is rejected as unsupported.
#[derive(Clone, Copy, Debug, PartialEq, Eq, Structural)]
pub enum ShaderLanguage {
    /// GLSL source text; not consumable by the device.
    GLSL,
    /// SPIR-V binary words.
    SPIRV,
}

/// A shader blob with its language, as handed to module creation.
#[derive(Clone, Debug)]
pub struct ShaderModuleInfo {
    /// The shader byte code.
    pub code: Vec<u8>,
    /// The language of `code`.
    pub language: ShaderLanguage,
}

impl ShaderModuleInfo {
    /// Wraps already-loaded shader bytes; reading them from disk is the
    /// embedder's job.
    pub fn new(code: Vec<u8>, language: ShaderLanguage) -> (r: ShaderModuleInfo)
        ensures
            r.code@ == code@,
            r.language == language,
    {
        ShaderModuleInfo { code, language }
    }
}

/// A compiled shader module: the info it was created from and its handle.
#[derive(Clone, Debug)]
pub struct ShaderModule {
    /// The info the module was created from.
    pub info: ShaderModuleInfo,
    /// Native module handle; always the registry index plus one.
    pub handle: u64,
    /// Slot in the device's shader-module registry.
    pub index: usize,
}

impl ShaderModule {
    /// The info the module was created from.
    pub fn info(&self) -> (r: &ShaderModuleInfo)
        ensures
            r == self.info,
    {
        &self.info
    }

    /// The native module handle.
    pub fn handle(&self) -> (r: u64)
        ensures
            r == self.handle,
    {
        self.handle
    }
}

/// A well-formed SPIR-V blob: whole 32-bit words, at least one, and the
/// little-endian magic number 0x07230203 first.
pub open spec fn spec_valid_spirv(bytes: Seq<u8>) -> bool {
    &&& bytes.len() >= 4
    &&& bytes.len() % 4 == 0
    &&& bytes[0] == 0x03u8
    &&& bytes[1] == 0x02u8
    &&& bytes[2] == 0x23u8
    &&& bytes[3] == 0x07u8
}

/// Checks `spec_valid_spirv`.
pub fn is_valid_spirv(bytes: &[u8]) -> (r: bool)
    ensures
        r == spec_valid_spirv(bytes@),
{
    bytes.len() >= 4 && bytes.len() % 4 == 0 && bytes[0] == 0x03 && bytes[1] == 0x02 && bytes[2]
        == 0x23 && bytes[3] == 0x07
}

} // verus!
