use crate::interop_result::{classify_spec, InteropError, InteropErrorKind, InteropResult};
use crate::pipeline_layout::PipelineLayout;
use vstd::prelude::*;

verus! {

/// Plain stage descriptor handed across the boundary for a compute pipeline:
/// the backend handle of the shader module and the stage bits.
#[derive(Clone, Copy, PartialEq, Eq, Structural)]
pub struct PipelineShaderStage {
    pub module: u64,
    pub stage: u32,
}

/// Exclusively owned pipeline handle. Creation borrows the pipeline layout
/// only for the call; the handle records which layout and scope it was built
/// against, and a correct caller keeps the layout alive for as long as the
/// pipeline (the boundary erases that lifetime, so it is a documented caller
/// obligation).
pub struct Pipeline {
    pub inner: u64,
    pub layout_inner: u64,
    pub scope_id: u64,
    pub flags: u32,
}

/// Flat entry point: create a compute pipeline over a borrowed pipeline
/// layout. A null shader module is rejected as a validation error before the
/// backend outcome is looked at; a backend failure is classified; on success
/// the handle records the layout's backend handle and owning scope.
pub fn rendering_vulkan_compute_pipeline_create(
    layout: &PipelineLayout,
    stage: PipelineShaderStage,
    flags: u32,
    backend: Result<u64, i32>,
) -> (r: InteropResult<Box<Pipeline>>)
    ensures
        stage.module == 0 ==> (r matches InteropResult::Failure(e) && e.kind
            == InteropErrorKind::Validation),
        stage.module != 0 ==> match backend {
            Ok(inner) => {
                &&& r matches InteropResult::Success(p)
                &&& p.inner == inner
                &&& p.layout_inner == layout.inner
                &&& p.scope_id == layout.scope_id
                &&& p.flags == flags
            },
            Err(code) => (r matches InteropResult::Failure(e) && e.kind == classify_spec(code)
                && e.backend_code == code),
        },
{
    if stage.module == 0 {
        return InteropResult::with_err(
            InteropError::validation("a compute pipeline needs a shader module"),
        );
    }
    match backend {
        Ok(inner) => InteropResult::with_ok(
            Box::new(
                Pipeline { inner, layout_inner: layout.inner, scope_id: layout.scope_id, flags },
            ),
        ),
        Err(code) => InteropResult::with_err(InteropError::from_backend(code)),
    }
}

/// Flat entry point: take back ownership of a pipeline handle; the returned
/// value is the backend handle the teardown must destroy, exactly once.
pub fn rendering_vulkan_compute_pipeline_destroy(handle: Box<Pipeline>) -> (r: u64)
    ensures
        r == handle.inner,
{
    handle.inner
}

} // verus!
