use vstd::prelude::*;

verus! {

/// Why the simulation core refused an operation.
///
/// Failures of the GPU itself are not in this list: the core only records what the GPU is to
/// do, and whoever plays the record back sees those.
#[derive(Debug, PartialEq, Eq)]
pub enum Error {
    /// A shader unit did not compile. Carries the compiler's log.
    ShaderCompile(String),
    /// A program did not link, or could not be inspected after linking. Carries the linker's
    /// log.
    ProgramLink(String),
    /// A GPU object could not be allocated: the driver handed none out, the requested
    /// extent cannot be allocated, or the handle space is used up.
    GpuResource,
    /// A texture unit of 32 or above was asked for.
    InvalidTextureUnit,
}

} // verus!
