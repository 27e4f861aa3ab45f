//! Native interop core for a GPU backend driven by a managed host process.
//!
//! The crate marshals contiguous memory across the boundary without copying
//! (`InteropReadOnlySpan`), transfers ownership of native buffers with an
//! explicit create/destroy lifecycle (`InteropArray`), replaces unwinds with a
//! tagged success/error envelope (`InteropResult`), and tracks the
//! shared-ownership and initialization-scope rules of native graphics
//! resources (`InitScope`, `PipelineLayout`, `Pipeline`, `VulkanSurface`).
//! The raw driver calls themselves stay outside this crate; every entry point
//! here receives the driver's outcome as a plain value and decides what the
//! host sees.

pub mod init_scope;
pub mod interop_array;
pub mod interop_read_only_span;
pub mod interop_result;
pub mod pipeline;
pub mod pipeline_layout;
pub mod surface;
