//! What holds of the render state over every sequence of events, frames and
//! reloads, proved from the step functions that specify its operations.

use crate::event::Action;
use crate::event::Event;
use crate::event::PhysicalSize;
use crate::event::ShaderError;
use crate::event::SurfaceError;
use crate::event::WindowEvent;
use crate::geometry::is_front_facing_mesh;
use crate::geometry::lemma_quad_is_front_facing;
use crate::geometry::quad_indices;
use crate::geometry::quad_vertices;
use crate::geometry::Vertex;
use crate::pipeline::is_viewer_pipeline;
use crate::pipeline::Face;
use crate::pipeline::FrontFace;
use crate::pipeline::IndexFormat;
use crate::pipeline::PrimitiveTopology;
use crate::pipeline::RenderPipelineDescriptor;
use crate::pipeline::SurfaceConfiguration;
use crate::state::event_action;
use crate::state::event_step;
use crate::state::frame_action;
use crate::state::is_frame_of;
use crate::state::reload_result;
use crate::state::reload_step;
use crate::state::resize_action;
use crate::state::resize_request;
use crate::state::resize_step;
use crate::state::window_event_action;
use crate::state::window_event_step;
use crate::state::FramePlan;
use crate::state::StateView;
use vstd::prelude::*;
use wgpu::TextureFormat;

verus! {

/// A reload that fails, for whatever reason, leaves the state as it was: the
/// pipeline that was live stays live, the error comes back to the caller,
/// and the frame that follows is the frame that would have been drawn
/// without the reload, with the old pipeline.
pub proof fn lemma_failed_reload_keeps_pipeline<P>(
    state: StateView<P>,
    error: ShaderError,
    plan: FramePlan<P>,
)
    requires
        is_frame_of(plan, reload_step(state, Err(error))),
    ensures
        reload_step(state, Err(error)) == state,
        reload_result(state, Err(error)) == Err::<P, ShaderError>(error),
        *plan.pipeline == state.render_pipeline,
        is_frame_of(plan, state),
{
}

/// A reload that succeeds puts the fresh pipeline in service and changes
/// nothing else: the pipeline that was live comes back to the caller, and
/// the frame that follows draws with the fresh one.
pub proof fn lemma_successful_reload_swaps_pipeline<P>(
    state: StateView<P>,
    fresh: P,
    plan: FramePlan<P>,
)
    requires
        is_frame_of(plan, reload_step(state, Ok(fresh))),
    ensures
        reload_step(state, Ok(fresh)) == state.with_pipeline(fresh),
        reload_step(state, Ok(fresh)).surface_config == state.surface_config,
        reload_step(state, Ok(fresh)).path == state.path,
        reload_step(state, Ok(fresh)).start_time == state.start_time,
        reload_result(state, Ok(fresh)) == Ok::<P, ShaderError>(state.render_pipeline),
        *plan.pipeline == fresh,
{
}

/// A resize to a size with a zero dimension changes nothing and asks for no
/// configuration of the surface, whether it is made directly or arrives as
/// an event of the window.
pub proof fn lemma_degenerate_resize_is_ignored<P>(state: StateView<P>, new_size: PhysicalSize)
    requires
        new_size.width == 0 || new_size.height == 0,
    ensures
        resize_step(state, new_size) == state,
        resize_request(state, new_size).is_none(),
        resize_action(state, new_size) == Action::Nothing,
        window_event_step(state, WindowEvent::Resized(new_size)) == state,
        window_event_action(state, WindowEvent::Resized(new_size)) == Action::Nothing,
        window_event_step(state, WindowEvent::ScaleFactorChanged { new_inner_size: new_size })
            == state,
        window_event_action(state, WindowEvent::ScaleFactorChanged { new_inner_size: new_size })
            == Action::Nothing,
{
}

/// A resize to a size with no zero dimension stores that size and asks for
/// exactly one configuration of the surface, with the stored configuration:
/// the new width and height, the pixel format and present mode as before.
/// The pipeline, the path and the clock are not touched.
pub proof fn lemma_drawable_resize_configures_once<P>(state: StateView<P>, new_size: PhysicalSize)
    requires
        new_size.width > 0,
        new_size.height > 0,
    ensures
        resize_step(state, new_size).size() == new_size,
        resize_step(state, new_size).surface_config == (SurfaceConfiguration {
            width: new_size.width,
            height: new_size.height,
            ..state.surface_config
        }),
        resize_step(state, new_size).render_pipeline == state.render_pipeline,
        resize_step(state, new_size).path == state.path,
        resize_step(state, new_size).start_time == state.start_time,
        resize_request(state, new_size) == Some(resize_step(state, new_size).surface_config),
        resize_action(state, new_size) == Action::ConfigureSurface(
            resize_step(state, new_size).surface_config,
        ),
        window_event_step(state, WindowEvent::Resized(new_size)) == resize_step(state, new_size),
        window_event_action(state, WindowEvent::Resized(new_size)) == resize_action(
            state,
            new_size,
        ),
{
}

/// Resizing twice to the same size is resizing once: the second resize
/// leaves the state as the first one made it.
pub proof fn lemma_resize_is_idempotent<P>(state: StateView<P>, new_size: PhysicalSize)
    ensures
        resize_step(resize_step(state, new_size), new_size) == resize_step(state, new_size),
{
}

/// No event replaces the live pipeline, the shader's path or the start of
/// the clock, and no event changes the surface's pixel format or present
/// mode: the pipeline changes through a successful reload and in no other
/// way.
pub proof fn lemma_events_keep_pipeline<P>(state: StateView<P>, event: Event)
    ensures
        event_step(state, event).render_pipeline == state.render_pipeline,
        event_step(state, event).path == state.path,
        event_step(state, event).start_time == state.start_time,
        event_step(state, event).surface_config.format == state.surface_config.format,
        event_step(state, event).surface_config.present_mode == state.surface_config.present_mode,
{
}

/// The surface is configured only with what is stored: whenever an event
/// calls for a configuration, it is the configuration the state holds after
/// the event, and its size is drawable.
pub proof fn lemma_configuration_is_the_stored_one<P>(
    state: StateView<P>,
    event: Event,
    configuration: SurfaceConfiguration,
)
    requires
        event_action(state, event) == Action::ConfigureSurface(configuration),
    ensures
        event_step(state, event).surface_config == configuration,
        configuration.width > 0,
        configuration.height > 0,
{
}

/// An event changes the stored configuration only together with a request
/// to configure the surface: without that request, the state is as before.
pub proof fn lemma_no_silent_reconfiguration<P>(state: StateView<P>, event: Event)
    requires
        !(event_action(state, event) is ConfigureSurface),
    ensures
        event_step(state, event) == state,
{
}

/// A lost surface is configured again with the configuration the state
/// holds, unchanged, where its size is drawable; a surface that was never
/// given a drawable size is left alone.
pub proof fn lemma_lost_surface_is_reconfigured<P>(state: StateView<P>)
    ensures
        state.size().is_drawable() ==> frame_action(state, Err(SurfaceError::Lost))
            == Action::ConfigureSurface(state.surface_config),
        !state.size().is_drawable() ==> frame_action(state, Err(SurfaceError::Lost))
            == Action::Nothing,
{
    if state.size().is_drawable() {
        assert(state.with_size(state.size()).surface_config == state.surface_config);
    }
}

/// Only running out of memory ends the program after a frame; every other
/// outcome lets the event loop go on.
pub proof fn lemma_only_out_of_memory_is_fatal<P>(
    state: StateView<P>,
    outcome: Result<(), SurfaceError>,
)
    ensures
        frame_action(state, outcome) == Action::Exit <==> outcome == Err::<(), SurfaceError>(
            SurfaceError::OutOfMemory,
        ),
{
}

/// The frame fits the pipeline it is drawn with and the buffers it reads.
/// The vertex buffer goes to the one slot the pipeline reads; the bind group
/// of each uniform goes to the group of its place in the pipeline layout;
/// the draw covers the quad's whole index list, which is a whole number of
/// triangles for the pipeline's triangle list; every index it reads names a
/// vertex of the table; and every triangle shows the face that the pipeline
/// keeps, so nothing of the quad is culled.
pub proof fn lemma_frame_fits_pipeline<P>(
    state: StateView<P>,
    plan: FramePlan<P>,
    descriptor: RenderPipelineDescriptor,
    format: TextureFormat,
    vertices: Seq<Vertex>,
)
    requires
        is_frame_of(plan, state),
        is_viewer_pipeline(descriptor, format),
        vertices.map_values(|v: Vertex| v.record()) == quad_vertices(),
    ensures
        plan.vertex_slot < descriptor.buffers@.len(),
        forall|i: int|
            0 <= i < plan.bind_groups@.len() ==> (#[trigger] plan.bind_groups@[i]).group_index()
                == i,
        plan.index_format == IndexFormat::Uint16,
        plan.first_index == 0,
        plan.end_index == quad_indices().len(),
        plan.end_instance - plan.first_instance == 1,
        descriptor.primitive.topology == PrimitiveTopology::TriangleList,
        (plan.end_index - plan.first_index) % 3 == 0,
        forall|i: int|
            plan.first_index <= i < plan.end_index ==> 0 <= (#[trigger] quad_indices()[i])
                + plan.base_vertex < vertices.len(),
        descriptor.primitive.front_face == FrontFace::Ccw,
        descriptor.primitive.cull_mode == Some(Face::Back),
        is_front_facing_mesh(vertices, quad_indices()),
{
    lemma_quad_is_front_facing(vertices);
}

} // verus!
