//! What the window system reports and what the viewer does about it, as
//! plain values. The program around the library turns each event of the
//! window system into one of these, asks the render state for the action,
//! and performs it.

use crate::pipeline::SurfaceConfiguration;
use vstd::prelude::*;

verus! {

/// A size in physical pixels.
#[derive(Clone, Copy, Debug, PartialEq, Eq, Structural)]
pub struct PhysicalSize {
    pub width: u32,
    pub height: u32,
}

/// Whether a key went down or came up.
#[derive(Clone, Copy, Debug, PartialEq, Eq, Structural)]
pub enum ElementState {
    Pressed,
    Released,
}

/// The keys the viewer tells apart.
#[derive(Clone, Copy, Debug, PartialEq, Eq, Structural)]
pub enum VirtualKeyCode {
    Escape,
    Return,
    /// Any other key.
    Other,
}

/// An event of one window.
#[derive(Clone, Copy, Debug, PartialEq, Eq, Structural)]
pub enum WindowEvent {
    /// The window's drawable area has a new size.
    Resized(PhysicalSize),
    /// The user asked for the window to be closed.
    CloseRequested,
    /// A key changed its state; the key is absent where the window system
    /// could not name it.
    KeyboardInput { state: ElementState, virtual_keycode: Option<VirtualKeyCode> },
    /// The cursor moved inside the window. Its position stays with the
    /// caller, who needs it for the `TrackCursor` action.
    CursorMoved,
    /// The window moved to a display of another scale; it has the given new
    /// size.
    ScaleFactorChanged { new_inner_size: PhysicalSize },
    /// Any other event of the window.
    Other,
}

/// An event of the event loop. `own_window` says whether the event belongs
/// to the window that the viewer draws into.
#[derive(Clone, Copy, Debug, PartialEq, Eq, Structural)]
pub enum Event {
    WindowEvent { own_window: bool, event: WindowEvent },
    /// The window's contents are to be drawn again.
    RedrawRequested { own_window: bool },
    /// All events that were waiting have been delivered.
    MainEventsCleared,
    /// Any other event.
    Other,
}

/// Why no image of the surface could be had for a frame.
#[derive(Clone, Copy, Debug, PartialEq, Eq, Structural)]
pub enum SurfaceError {
    /// The image did not become free in time.
    Timeout,
    /// The surface has changed under the configuration.
    Outdated,
    /// The surface is gone and has to be made anew.
    Lost,
    /// No memory is left for a new frame.
    OutOfMemory,
}

/// Why a shader source did not become a pipeline.
#[derive(Clone, Copy, Debug, PartialEq, Eq, Structural)]
pub enum ShaderError {
    /// The source file could not be read.
    Unreadable,
    /// The source did not compile against the viewer's pipeline.
    Invalid,
}

/// What the caller is to do after an event or a frame.
#[derive(Clone, Copy, Debug, PartialEq, Eq)]
pub enum Action {
    /// Nothing.
    Nothing,
    /// Store the cursor's position, relative to the current size, in the
    /// mouse uniform and in the background colour.
    TrackCursor,
    /// Leave the event loop.
    Exit,
    /// Read the shader source, build a pipeline from it, and hand the
    /// outcome to `State::refresh_shader`.
    ReloadShader,
    /// Configure the surface with the given configuration, once.
    ConfigureSurface(SurfaceConfiguration),
    /// Upload the uniforms, draw one frame, and hand the outcome to
    /// `State::frame_finished`.
    Redraw,
    /// Ask the window system for a redraw.
    RequestRedraw,
    /// Report the error; the next frame is the retry.
    Report(SurfaceError),
}

impl PhysicalSize {
    /// Neither dimension is zero, so a surface can have this size.
    pub open spec fn is_drawable(self) -> bool {
        self.width > 0 && self.height > 0
    }

    /// A size of the given dimensions.
    pub fn new(width: u32, height: u32) -> (size: Self)
        ensures
            size == (PhysicalSize { width, height }),
    {
        PhysicalSize { width, height }
    }
}

} // verus!
