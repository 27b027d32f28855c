use shader_view::config::Config;
use shader_view::config::DEFAULT_SHADER_PATH;
use shader_view::geometry::Vertex;
use shader_view::pipeline::bind_group_order;
use shader_view::pipeline::new_pipeline;
use shader_view::pipeline::uniform_layout_entry;
use shader_view::pipeline::BlendState;
use shader_view::pipeline::ColorTargetState;
use shader_view::pipeline::ColorWrites;
use shader_view::pipeline::Face;
use shader_view::pipeline::FrontFace;
use shader_view::pipeline::PolygonMode;
use shader_view::pipeline::PresentMode;
use shader_view::pipeline::PrimitiveTopology;
use shader_view::pipeline::ShaderStages;
use shader_view::pipeline::SurfaceConfiguration;
use shader_view::pipeline::UniformSlot;
use shader_view::pipeline::UNIFORM_BINDING;
use shader_view::pipeline::VERTEX_SLOT;
use wgpu::TextureFormat;

#[test]
fn surface_configuration_presents_in_order() {
    let configuration = SurfaceConfiguration::new(TextureFormat::Bgra8UnormSrgb, 800, 600);
    assert_eq!(configuration.format, TextureFormat::Bgra8UnormSrgb);
    assert_eq!(configuration.width, 800);
    assert_eq!(configuration.height, 600);
    assert_eq!(configuration.present_mode, PresentMode::Fifo);
}

#[test]
fn pipeline_entry_points() {
    let configuration = SurfaceConfiguration::new(TextureFormat::Bgra8UnormSrgb, 800, 600);
    let descriptor = new_pipeline(&configuration);
    assert_eq!(descriptor.vertex_entry_point, "vs_main");
    assert_eq!(descriptor.fragment_entry_point, "fs_main");
}

#[test]
fn pipeline_reads_the_quad_layout() {
    let configuration = SurfaceConfiguration::new(TextureFormat::Bgra8UnormSrgb, 800, 600);
    let descriptor = new_pipeline(&configuration);
    assert_eq!(descriptor.buffers.len(), 1);
    assert_eq!(descriptor.buffers[VERTEX_SLOT as usize], Vertex::desc());
}

#[test]
fn pipeline_target_follows_the_surface() {
    for format in [TextureFormat::Bgra8UnormSrgb, TextureFormat::Rgba8Unorm, TextureFormat::Rgba16Float] {
        let configuration = SurfaceConfiguration::new(format, 1, 1);
        let descriptor = new_pipeline(&configuration);
        assert_eq!(
            descriptor.targets,
            vec![ColorTargetState {
                format,
                blend: Some(BlendState::Replace),
                write_mask: ColorWrites { red: true, green: true, blue: true, alpha: true },
            }]
        );
    }
}

#[test]
fn pipeline_fixed_function_state() {
    let configuration = SurfaceConfiguration::new(TextureFormat::Rgba8UnormSrgb, 640, 480);
    let descriptor = new_pipeline(&configuration);
    assert_eq!(descriptor.primitive.topology, PrimitiveTopology::TriangleList);
    assert_eq!(descriptor.primitive.strip_index_format, None);
    assert_eq!(descriptor.primitive.front_face, FrontFace::Ccw);
    assert_eq!(descriptor.primitive.cull_mode, Some(Face::Back));
    assert_eq!(descriptor.primitive.polygon_mode, PolygonMode::Fill);
    assert!(!descriptor.primitive.unclipped_depth);
    assert!(!descriptor.primitive.conservative);
    assert!(!descriptor.depth_stencil);
    assert_eq!(descriptor.multisample.count, 1);
    assert_eq!(descriptor.multisample.mask, !0);
    assert!(!descriptor.multisample.alpha_to_coverage_enabled);
    assert_eq!(descriptor.multiview, None);
}

#[test]
fn pipeline_does_not_depend_on_the_size() {
    let small = new_pipeline(&SurfaceConfiguration::new(TextureFormat::Rgba8Unorm, 1, 1));
    let large = new_pipeline(&SurfaceConfiguration::new(TextureFormat::Rgba8Unorm, 4096, 2160));
    assert_eq!(small, large);
}

#[test]
fn time_is_group_zero_and_mouse_is_group_one() {
    assert_eq!(UniformSlot::Time.group(), 0);
    assert_eq!(UniformSlot::Mouse.group(), 1);
    let order = bind_group_order();
    assert_eq!(order, vec![UniformSlot::Time, UniformSlot::Mouse]);
    for (position, slot) in order.iter().enumerate() {
        assert_eq!(slot.group() as usize, position);
    }
}

#[test]
fn uniform_buffers_are_seen_by_both_stages() {
    let entry = uniform_layout_entry();
    assert_eq!(entry.binding, 0);
    assert_eq!(entry.binding, UNIFORM_BINDING);
    assert_eq!(entry.visibility, ShaderStages { vertex: true, fragment: true, compute: false });
    assert!(!entry.has_dynamic_offset);
    assert_eq!(entry.min_binding_size, None);
    assert_eq!(entry.count, None);
}

#[test]
fn default_config_points_at_the_bundled_shader() {
    let config = Config::default();
    assert_eq!(config.path, "./src/shader.wgsl");
    assert_eq!(config.path(), DEFAULT_SHADER_PATH);
}

#[test]
fn config_keeps_the_given_path() {
    let config = Config::new(String::from("shaders/plasma.wgsl"));
    assert_eq!(config.path(), "shaders/plasma.wgsl");
    assert_eq!(Config::new(String::new()).path(), "");
}
