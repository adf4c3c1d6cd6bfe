//! Windows and the builder that registers their surface with the loop.

use vstd::prelude::*;
use crate::event::WindowId;
use crate::event_loop::EventLoopWindowTarget;

verus! {

/// The host's handle of a drawable surface. The surface itself, with its
/// width and height, stays with the host.
#[derive(Debug, Clone, Copy, PartialEq, Eq, Structural, Hash)]
pub struct SurfaceHandle(pub u32);

/// A window: a surface of the host, connected to a graphics context.
#[derive(Debug, PartialEq, Eq, Structural)]
pub struct Window {
    surface: SurfaceHandle,
    graphics_context: u32,
    id: WindowId,
}

/// The identifier of the one window that the host supports.
pub open spec fn main_window_id() -> WindowId {
    WindowId(0)
}

impl Window {
    /// The surface that the window draws on, as a specification value.
    pub closed spec fn spec_surface(&self) -> SurfaceHandle {
        self.surface
    }

    /// The graphics context's handle, as a specification value.
    pub closed spec fn spec_graphics_context(&self) -> u32 {
        self.graphics_context
    }

    /// The window's identifier, as a specification value.
    pub closed spec fn spec_id(&self) -> WindowId {
        self.id
    }

    /// The surface that the window draws on.
    pub fn surface(&self) -> (surface: SurfaceHandle)
        ensures
            surface == self.spec_surface(),
    {
        self.surface
    }

    /// The host's handle of the graphics context connected to the surface.
    pub fn graphics_context(&self) -> (handle: u32)
        ensures
            handle == self.spec_graphics_context(),
    {
        self.graphics_context
    }

    /// The window's identifier, fixed when the window was built.
    pub fn id(&self) -> (id: WindowId)
        ensures
            id == self.spec_id(),
    {
        self.id
    }

    /// Asks for a redraw. The host redraws on every frame signal, so there
    /// is nothing to do.
    pub fn request_redraw(&self) {
    }
}

/// Builds the window of an event loop.
#[derive(Debug, Clone, Copy, PartialEq, Eq, Structural, Default)]
pub struct WindowBuilder {}

impl WindowBuilder {
    /// A builder with the default settings.
    pub fn new() -> (builder: Self)
        ensures
            builder == (WindowBuilder {}),
    {
        WindowBuilder {}
    }

    /// Sets the title. The host shows no title, so the builder is returned
    /// as it came.
    pub fn with_title<T: Into<String>>(self, _title: T) -> (builder: Self)
        ensures
            builder == self,
    {
        self
    }

    /// Makes a window of a surface that the host created and connected to
    /// the graphics context `graphics_context`, and registers the surface
    /// with the loop. The loop takes one surface and keeps it: once one is
    /// registered, building another window fails and changes nothing.
    pub fn build(
        self,
        window_target: &mut EventLoopWindowTarget,
        surface: SurfaceHandle,
        graphics_context: u32,
    ) -> (result: Result<Window, ()>)
        ensures
            old(window_target).surface() is None ==> {
                &&& result is Ok
                &&& result->Ok_0.spec_surface() == surface
                &&& result->Ok_0.spec_graphics_context() == graphics_context
                &&& result->Ok_0.spec_id() == main_window_id()
                &&& final(window_target).surface() == Some(surface)
            },
            old(window_target).surface() is Some ==> {
                &&& result is Err
                &&& *final(window_target) == *old(window_target)
            },
    {
        if window_target.register(surface) {
            Ok(Window { surface, graphics_context, id: WindowId(0) })
        } else {
            Err(())
        }
    }
}

} // verus!
