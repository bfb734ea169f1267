//! Errors of the kernel layer and of the backend.

use vstd::prelude::*;
use vstd::std_specs::convert::FromSpecImpl;

verus! {

/// Errors that can occur when building or dispatching Vulkan compute kernels.
#[derive(Debug)]
pub enum VulkanKernelError {
    /// Failed to parse a shader source.
    ParseError(String),
    /// Shader validation failed.
    ValidationError(String),
    /// Failed to write SPIR-V.
    SpvError(String),
    /// The shader entry point was not found.
    EntryPoint,
    /// Failed to create a descriptor set.
    DescriptorSet(String),
    /// Failed to build a compute pipeline.
    Pipeline(String),
    /// A command buffer operation failed.
    CommandBuffer(String),
    /// Failed to submit work.
    Execute(String),
    /// Failed to wait on the GPU.
    Fence(String),
    /// A buffer operation failed.
    Buffer(String),
    /// Any other failure, described by its message.
    Message(String),
}

impl From<String> for VulkanKernelError {
    fn from(e: String) -> (r: Self) {
        VulkanKernelError::Message(e)
    }
}

impl FromSpecImpl<String> for VulkanKernelError {
    open spec fn obeys_from_spec() -> bool {
        true
    }

    open spec fn from_spec(v: String) -> Self {
        VulkanKernelError::Message(v)
    }
}

/// Errors from the Vulkan backend.
#[derive(Debug)]
pub enum VulkanError {
    /// A kernel could not be built or dispatched.
    KernelError(VulkanKernelError),
    /// Any other failure, described by its message.
    Message(String),
}

impl From<String> for VulkanError {
    fn from(e: String) -> (r: Self) {
        VulkanError::Message(e)
    }
}

impl FromSpecImpl<String> for VulkanError {
    open spec fn obeys_from_spec() -> bool {
        true
    }

    open spec fn from_spec(v: String) -> Self {
        VulkanError::Message(v)
    }
}

impl From<VulkanKernelError> for VulkanError {
    fn from(e: VulkanKernelError) -> (r: Self) {
        VulkanError::KernelError(e)
    }
}

impl FromSpecImpl<VulkanKernelError> for VulkanError {
    open spec fn obeys_from_spec() -> bool {
        true
    }

    open spec fn from_spec(v: VulkanKernelError) -> Self {
        VulkanError::KernelError(v)
    }
}

} // verus!
