use std::sync::Arc;
use vstd::prelude::*;

verus! {

/// The backend library/instance pair a surface is created from. The two
/// handles are plain values: the library is the loaded entry table, the
/// inner handle the backend instance object.
pub struct VulkanInstance {
    pub library: u64,
    pub inner: u64,
}

impl VulkanInstance {
    pub fn new(library: u64, inner: u64) -> (r: Self)
        ensures
            r.library == library,
            r.inner == inner,
    {
        VulkanInstance { library, inner }
    }
}

/// External windowing capability the surface only references by shared
/// ownership; the platform glue behind it is out of this core's scope.
pub struct Window {
    pub id: u64,
}

impl Window {
    pub fn new(id: u64) -> (r: Self)
        ensures
            r.id == id,
    {
        Window { id }
    }
}

/// The backend objects a surface teardown must use: the same library and
/// instance handles that created the surface, and the surface's own handle.
pub struct SurfaceTeardown {
    pub library: u64,
    pub instance: u64,
    pub surface: u64,
}

/// Exclusively owned surface. It holds a strong reference to its owning
/// instance, so the instance stays reachable — and must stay alive — until
/// the surface is torn down, and a shared reference to the platform window
/// it was created for.
pub struct VulkanSurface {
    instance: Arc<VulkanInstance>,
    window: Arc<Window>,
    inner: u64,
}

impl VulkanSurface {
    pub closed spec fn spec_instance(&self) -> Arc<VulkanInstance> {
        self.instance
    }

    pub closed spec fn spec_window(&self) -> Arc<Window> {
        self.window
    }

    pub closed spec fn spec_inner(&self) -> u64 {
        self.inner
    }

    pub fn new(instance: Arc<VulkanInstance>, window: Arc<Window>, inner: u64) -> (r: Self)
        ensures
            r.spec_instance() == instance,
            r.spec_window() == window,
            r.spec_inner() == inner,
    {
        VulkanSurface { instance, window, inner }
    }

    pub fn inner(&self) -> (r: u64)
        ensures
            r == self.spec_inner(),
    {
        self.inner
    }

    pub fn instance(&self) -> (r: &Arc<VulkanInstance>)
        ensures
            *r == self.spec_instance(),
    {
        &self.instance
    }

    pub fn window(&self) -> (r: &Arc<Window>)
        ensures
            *r == self.spec_window(),
    {
        &self.window
    }

    /// Consume the surface and report the teardown to perform. The library
    /// and instance handles in the result are exactly the ones of the
    /// instance this surface was created from — teardown is symmetric with
    /// creation and never re-resolves the instance.
    pub fn teardown(self) -> (r: SurfaceTeardown)
        ensures
            r.library == self.spec_instance().library,
            r.instance == self.spec_instance().inner,
            r.surface == self.spec_inner(),
    {
        SurfaceTeardown {
            library: self.instance.library,
            instance: self.instance.inner,
            surface: self.inner,
        }
    }
}

} // verus!
