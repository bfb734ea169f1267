//! Verified planning layer of a Vulkan compute backend: the kernel and
//! shader catalogue, the pipeline cache, dispatch geometry and the
//! validation and parameter packing of the tensor operations.

pub mod kernel;
pub mod source;
pub mod error;
pub mod trace;
pub mod pipeline;
pub mod dispatch;
pub mod binding;
pub mod shape;
pub mod layout;
pub mod ops;
pub mod spatial;
pub mod indexing;
pub mod copy;
pub mod device;
pub mod inplace;
pub mod laws;
