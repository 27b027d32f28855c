//! The render state: what the viewer knows between two events, and how each
//! event, frame and shader reload changes it.
//!
//! The state owns the live pipeline and the facts that decisions rest on:
//! the surface's configuration, which holds the window's size, the number of
//! indices of the mesh, the start of the clock and the shader's path. The pipeline's
//! type `P` is the caller's: the state stores it, hands it out for drawing,
//! and replaces it when a reload has succeeded, and only then.
//!
//! Every operation is specified by a step function over the state's view, so
//! that what holds of sequences of operations can be stated and proved.

use crate::config::Config;
use crate::event::Action;
use crate::event::ElementState;
use crate::event::Event;
use crate::event::PhysicalSize;
use crate::event::ShaderError;
use crate::event::SurfaceError;
use crate::event::VirtualKeyCode;
use crate::event::WindowEvent;
use crate::geometry::quad_indices;
use crate::pipeline::group_order;
use crate::pipeline::IndexFormat;
use crate::pipeline::SurfaceConfiguration;
use crate::pipeline::UniformSlot;
use crate::pipeline::VERTEX_SLOT;
use std::time::Instant;
use vstd::prelude::*;
use wgpu::TextureFormat;

verus! {

/// The render state.
#[derive(Debug)]
pub struct State<P> {
    surface_config: SurfaceConfiguration,
    render_pipeline: P,
    num_indices: u32,
    start_time: Instant,
    config: Config,
}

/// The render state as a value: what contracts and laws speak of.
pub struct StateView<P> {
    /// The configuration the surface was last given. Its width and height
    /// are the size of the window's drawable area, as last accepted.
    pub surface_config: SurfaceConfiguration,
    /// The pipeline that the next frame is drawn with.
    pub render_pipeline: P,
    /// The reading of the clock from which the time uniform counts.
    pub start_time: Instant,
    /// The path of the shader source.
    pub path: Seq<char>,
}

/// The commands of one frame's render pass, in the order in which they are
/// recorded: clear the target, set the pipeline, attach the bind groups,
/// set the vertex and the index buffer, and draw once.
#[derive(Debug)]
pub struct FramePlan<'a, P> {
    /// Whether the target is cleared to the background colour first.
    pub clear: bool,
    /// Whether the pass's result is kept.
    pub store: bool,
    /// The pipeline to draw with.
    pub pipeline: &'a P,
    /// The uniforms whose bind groups are attached; the one at position `i`
    /// goes to group `i`.
    pub bind_groups: Vec<UniformSlot>,
    /// The slot that receives the whole vertex buffer.
    pub vertex_slot: u32,
    /// The width of the entries of the index buffer, which is bound whole.
    pub index_format: IndexFormat,
    /// The first index of the draw.
    pub first_index: u32,
    /// The index after the last one of the draw.
    pub end_index: u32,
    /// What is added to each index before the vertex is looked up.
    pub base_vertex: i32,
    /// The first instance of the draw.
    pub first_instance: u32,
    /// The instance after the last one of the draw.
    pub end_instance: u32,
}

impl<P> StateView<P> {
    /// The size of the window's drawable area, as last accepted.
    pub open spec fn size(self) -> PhysicalSize {
        PhysicalSize { width: self.surface_config.width, height: self.surface_config.height }
    }

    /// The state with the given size.
    pub open spec fn with_size(self, new_size: PhysicalSize) -> Self {
        StateView {
            surface_config: SurfaceConfiguration {
                width: new_size.width,
                height: new_size.height,
                ..self.surface_config
            },
            ..self
        }
    }

    /// The state with the given pipeline in place of the live one.
    pub open spec fn with_pipeline(self, pipeline: P) -> Self {
        StateView { render_pipeline: pipeline, ..self }
    }
}

/// The state after a resize to `new_size`: the new size is taken over where
/// it is drawable, and nothing changes where it is not.
pub open spec fn resize_step<P>(state: StateView<P>, new_size: PhysicalSize) -> StateView<P> {
    if new_size.is_drawable() {
        state.with_size(new_size)
    } else {
        state
    }
}

/// The configuration to give the surface after a resize to `new_size`:
/// the new one where the size is drawable, none where it is not.
pub open spec fn resize_request<P>(state: StateView<P>, new_size: PhysicalSize) -> Option<
    SurfaceConfiguration,
> {
    if new_size.is_drawable() {
        Some(state.with_size(new_size).surface_config)
    } else {
        None
    }
}

/// A resize as an action: configure the surface once, or do nothing.
pub open spec fn resize_action<P>(state: StateView<P>, new_size: PhysicalSize) -> Action {
    match resize_request(state, new_size) {
        Some(configuration) => Action::ConfigureSurface(configuration),
        None => Action::Nothing,
    }
}

/// The state after a reload whose rebuild ended in `rebuilt`: the fresh
/// pipeline is live where there is one, and nothing changes where there is
/// none.
pub open spec fn reload_step<P>(state: StateView<P>, rebuilt: Result<P, ShaderError>) -> StateView<
    P,
> {
    match rebuilt {
        Ok(pipeline) => state.with_pipeline(pipeline),
        Err(_) => state,
    }
}

/// What a reload hands back: the pipeline it took out of service, or the
/// error that kept the old one in service.
pub open spec fn reload_result<P>(state: StateView<P>, rebuilt: Result<P, ShaderError>) -> Result<
    P,
    ShaderError,
> {
    match rebuilt {
        Ok(_) => Ok(state.render_pipeline),
        Err(error) => Err(error),
    }
}

/// The events that the state's input handling consumes: cursor movements.
pub open spec fn is_consumed(event: WindowEvent) -> bool {
    event is CursorMoved
}

/// The events that end the program: a close request, or Escape going down.
pub open spec fn is_exit_request(event: WindowEvent) -> bool {
    ||| event is CloseRequested
    ||| event == (WindowEvent::KeyboardInput {
        state: ElementState::Pressed,
        virtual_keycode: Some(VirtualKeyCode::Escape),
    })
}

/// The event that asks for a shader reload: Return going down.
pub open spec fn is_reload_request(event: WindowEvent) -> bool {
    event == (WindowEvent::KeyboardInput {
        state: ElementState::Pressed,
        virtual_keycode: Some(VirtualKeyCode::Return),
    })
}

/// The size that an event brings, where it brings one.
pub open spec fn announced_size(event: WindowEvent) -> Option<PhysicalSize> {
    match event {
        WindowEvent::Resized(size) => Some(size),
        WindowEvent::ScaleFactorChanged { new_inner_size } => Some(new_inner_size),
        _ => None,
    }
}

/// The state after an event of the viewer's window. Only an event that
/// brings a size can change it.
pub open spec fn window_event_step<P>(state: StateView<P>, event: WindowEvent) -> StateView<P> {
    match announced_size(event) {
        Some(size) => resize_step(state, size),
        None => state,
    }
}

/// The action that an event of the viewer's window calls for. Input
/// handling comes first; what it leaves is a request to exit, a request to
/// reload, a new size, or nothing of interest.
pub open spec fn window_event_action<P>(state: StateView<P>, event: WindowEvent) -> Action {
    if is_consumed(event) {
        Action::TrackCursor
    } else if is_exit_request(event) {
        Action::Exit
    } else if is_reload_request(event) {
        Action::ReloadShader
    } else {
        match announced_size(event) {
            Some(size) => resize_action(state, size),
            None => Action::Nothing,
        }
    }
}

/// The state after an event of the event loop. Events of other windows
/// change nothing.
pub open spec fn event_step<P>(state: StateView<P>, event: Event) -> StateView<P> {
    match event {
        Event::WindowEvent { own_window: true, event } => window_event_step(state, event),
        _ => state,
    }
}

/// The action that an event of the event loop calls for.
pub open spec fn event_action<P>(state: StateView<P>, event: Event) -> Action {
    match event {
        Event::WindowEvent { own_window: true, event } => window_event_action(state, event),
        Event::RedrawRequested { own_window: true } => Action::Redraw,
        Event::MainEventsCleared => Action::RequestRedraw,
        _ => Action::Nothing,
    }
}

/// The action after a frame. A lost surface is configured again with the
/// last known size, where that size is drawable; running out of memory ends
/// the program; any other failure is reported and the next frame is the
/// retry.
pub open spec fn frame_action<P>(state: StateView<P>, outcome: Result<(), SurfaceError>) -> Action {
    match outcome {
        Ok(_) => Action::Nothing,
        Err(SurfaceError::Lost) => resize_action(state, state.size()),
        Err(SurfaceError::OutOfMemory) => Action::Exit,
        Err(error) => Action::Report(error),
    }
}

/// `plan` is the frame of `state`: one cleared and stored pass that draws
/// the whole index list once, as one instance, with the live pipeline, the
/// bind groups in the order of the pipeline layout, and 16-bit indices.
pub open spec fn is_frame_of<P>(plan: FramePlan<P>, state: StateView<P>) -> bool {
    &&& plan.clear
    &&& plan.store
    &&& *plan.pipeline == state.render_pipeline
    &&& plan.bind_groups@ == group_order()
    &&& plan.vertex_slot == VERTEX_SLOT
    &&& plan.index_format == IndexFormat::Uint16
    &&& plan.first_index == 0
    &&& plan.end_index == quad_indices().len()
    &&& plan.base_vertex == 0
    &&& plan.first_instance == 0
    &&& plan.end_instance == 1
}

/// Calls `Instant::now`: a reading of the monotonic clock. It depends on the
/// clock, so nothing is claimed of it.
#[verifier::external_body]
fn clock_now() -> (now: Instant) {
    Instant::now()
}

impl<P> View for State<P> {
    type V = StateView<P>;

    closed spec fn view(&self) -> StateView<P> {
        StateView {
            surface_config: self.surface_config,
            render_pipeline: self.render_pipeline,
            start_time: self.start_time,
            path: self.config.path@,
        }
    }
}

impl<P> State<P> {
    /// The draw always covers the quad's whole index list.
    #[verifier::type_invariant]
    spec fn covers_the_quad(self) -> bool {
        self.num_indices == quad_indices().len()
    }

    /// The state of a viewer that starts now, with a window of the given
    /// size, a surface of the given pixel format, and a first pipeline built
    /// from the shader source that `config` points at. The surface
    /// configuration that belongs to the state is to be applied by the
    /// caller.
    pub fn new(size: PhysicalSize, format: TextureFormat, render_pipeline: P, config: Config) -> (state:
        Self)
        ensures
            state@.size() == size,
            state@.surface_config == SurfaceConfiguration::initial(format, size.width, size.height),
            state@.render_pipeline == render_pipeline,
            state@.path == config.path@,
    {
        State {
            surface_config: SurfaceConfiguration::new(format, size.width, size.height),
            render_pipeline,
            num_indices: crate::geometry::num_indices(),
            start_time: clock_now(),
            config,
        }
    }

    /// Takes over a new size of the window. Where neither dimension is zero,
    /// the surface configuration is updated and returned, for the caller to
    /// configure the surface with, once. Otherwise nothing changes and
    /// nothing is returned.
    pub fn resize(&mut self, new_size: PhysicalSize) -> (request: Option<SurfaceConfiguration>)
        ensures
            final(self)@ == resize_step(old(self)@, new_size),
            request == resize_request(old(self)@, new_size),
    {
        proof {
            use_type_invariant(&*self);
        }
        if new_size.width > 0 && new_size.height > 0 {
            self.surface_config.width = new_size.width;
            self.surface_config.height = new_size.height;
            Some(self.surface_config)
        } else {
            None
        }
    }

    /// The size of the window as last accepted.
    pub fn current_size(&self) -> (size: PhysicalSize)
        ensures
            size == self@.size(),
    {
        PhysicalSize { width: self.surface_config.width, height: self.surface_config.height }
    }

    /// The configuration the surface was last given.
    pub fn surface_config(&self) -> (configuration: &SurfaceConfiguration)
        ensures
            *configuration == self@.surface_config,
    {
        &self.surface_config
    }

    /// The pipeline that the next frame is drawn with.
    pub fn render_pipeline(&self) -> (pipeline: &P)
        ensures
            *pipeline == self@.render_pipeline,
    {
        &self.render_pipeline
    }

    /// The number of indices one draw covers: those of the quad.
    pub fn num_indices(&self) -> (count: u32)
        ensures
            count == quad_indices().len(),
    {
        proof {
            use_type_invariant(self);
        }
        self.num_indices
    }

    /// The reading of the clock from which the time uniform counts.
    pub fn start_time(&self) -> (start: Instant)
        ensures
            start == self@.start_time,
    {
        self.start_time
    }

    /// The path of the shader source, to be read at each reload.
    pub fn shader_path(&self) -> (path: &str)
        ensures
            path@ == self@.path,
    {
        self.config.path()
    }

    /// Input handling: says whether the event is consumed here, in which
    /// case the caller tracks the cursor and looks no further at the event.
    pub fn input(&self, event: &WindowEvent) -> (consumed: bool)
        ensures
            consumed == is_consumed(*event),
    {
        match event {
            WindowEvent::CursorMoved => true,
            _ => false,
        }
    }

    /// Ends a shader reload. Where the rebuild gave a pipeline, that
    /// pipeline goes live and the one it replaces is handed back. Where the
    /// rebuild failed, the state is left exactly as it was, so that the next
    /// frame is drawn with the pipeline that was live before, and the error
    /// is handed back for the caller to report.
    pub fn refresh_shader(&mut self, rebuilt: Result<P, ShaderError>) -> (replaced: Result<
        P,
        ShaderError,
    >)
        ensures
            final(self)@ == reload_step(old(self)@, rebuilt),
            replaced == reload_result(old(self)@, rebuilt),
    {
        proof {
            use_type_invariant(&*self);
        }
        match rebuilt {
            Ok(pipeline) => {
                let mut pipeline = pipeline;
                std::mem::swap(&mut self.render_pipeline, &mut pipeline);
                Ok(pipeline)
            },
            Err(error) => Err(error),
        }
    }

    /// Decides what an event of the viewer's own window calls for, and
    /// takes over the size that it brings, if any.
    pub fn handle_window_event(&mut self, event: &WindowEvent) -> (action: Action)
        ensures
            final(self)@ == window_event_step(old(self)@, *event),
            action == window_event_action(old(self)@, *event),
    {
        if self.input(event) {
            return Action::TrackCursor;
        }
        match event {
            WindowEvent::CloseRequested => Action::Exit,
            WindowEvent::KeyboardInput {
                state: ElementState::Pressed,
                virtual_keycode: Some(VirtualKeyCode::Escape),
            } => Action::Exit,
            WindowEvent::KeyboardInput {
                state: ElementState::Pressed,
                virtual_keycode: Some(VirtualKeyCode::Return),
            } => Action::ReloadShader,
            WindowEvent::Resized(physical_size) => self.resize_to(*physical_size),
            WindowEvent::ScaleFactorChanged { new_inner_size } => self.resize_to(*new_inner_size),
            _ => Action::Nothing,
        }
    }

    /// Decides what an event of the event loop calls for.
    pub fn handle_event(&mut self, event: &Event) -> (action: Action)
        ensures
            final(self)@ == event_step(old(self)@, *event),
            action == event_action(old(self)@, *event),
    {
        match event {
            Event::WindowEvent { own_window: true, event } => self.handle_window_event(event),
            Event::RedrawRequested { own_window: true } => Action::Redraw,
            Event::MainEventsCleared => Action::RequestRedraw,
            _ => Action::Nothing,
        }
    }

    /// The render pass of the next frame.
    pub fn render(&self) -> (plan: FramePlan<'_, P>)
        ensures
            is_frame_of(plan, self@),
    {
        FramePlan {
            clear: true,
            store: true,
            pipeline: &self.render_pipeline,
            bind_groups: crate::pipeline::bind_group_order(),
            vertex_slot: VERTEX_SLOT,
            index_format: IndexFormat::Uint16,
            first_index: 0,
            end_index: self.num_indices(),
            base_vertex: 0,
            first_instance: 0,
            end_instance: 1,
        }
    }

    /// Decides what follows a frame from how acquiring its image ended. The
    /// state stays as it is: a lost surface is configured again with the
    /// configuration the state already has.
    pub fn frame_finished(&self, outcome: Result<(), SurfaceError>) -> (action: Action)
        ensures
            action == frame_action(self@, outcome),
    {
        match outcome {
            Ok(_) => Action::Nothing,
            Err(SurfaceError::Lost) => {
                if self.surface_config.width > 0 && self.surface_config.height > 0 {
                    Action::ConfigureSurface(self.surface_config)
                } else {
                    Action::Nothing
                }
            },
            Err(SurfaceError::OutOfMemory) => Action::Exit,
            Err(error) => Action::Report(error),
        }
    }

    /// A resize, with its request as an action.
    fn resize_to(&mut self, new_size: PhysicalSize) -> (action: Action)
        ensures
            final(self)@ == resize_step(old(self)@, new_size),
            action == resize_action(old(self)@, new_size),
    {
        match self.resize(new_size) {
            Some(configuration) => Action::ConfigureSurface(configuration),
            None => Action::Nothing,
        }
    }
}

} // verus!
