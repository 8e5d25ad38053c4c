//! Typed descriptions of Vulkan data formats, descriptor-set layouts and
//! descriptor pools, with their rules checked by Verus.
pub mod depth_stencil;
pub mod formats;
pub mod layout_def;
pub mod pool;
