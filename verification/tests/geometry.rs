use shader_view::geometry::attribute_array;
use shader_view::geometry::indices;
use shader_view::geometry::num_indices;
use shader_view::geometry::vertices;
use shader_view::geometry::Vertex;
use shader_view::geometry::VertexAttribute;
use shader_view::geometry::VertexFormat;
use shader_view::geometry::VertexStepMode;

#[test]
fn quad_has_four_corners() {
    let corners = vertices();
    assert_eq!(corners.len(), 4);
    assert_eq!(corners[0], Vertex { position: [-1, -1, 0], tex_coords: [0, 0] });
    assert_eq!(corners[1], Vertex { position: [1, -1, 0], tex_coords: [1, 0] });
    assert_eq!(corners[2], Vertex { position: [1, 1, 0], tex_coords: [1, 1] });
    assert_eq!(corners[3], Vertex { position: [-1, 1, 0], tex_coords: [0, 1] });
}

#[test]
fn quad_is_two_triangles() {
    assert_eq!(indices(), vec![2, 3, 0, 1, 2, 0]);
    assert_eq!(num_indices(), 6);
    assert_eq!(indices().len() as u32, num_indices());
}

#[test]
fn every_index_names_a_corner() {
    let corners = vertices();
    for index in indices() {
        assert!((index as usize) < corners.len());
    }
}

#[test]
fn every_triangle_runs_counter_clockwise() {
    let corners = vertices();
    let list = indices();
    assert_eq!(list.len() % 3, 0);
    for triangle in list.chunks(3) {
        let a = corners[triangle[0] as usize].position;
        let b = corners[triangle[1] as usize].position;
        let c = corners[triangle[2] as usize].position;
        let doubled_area = (b[0] - a[0]) * (c[1] - a[1]) - (b[1] - a[1]) * (c[0] - a[0]);
        assert_eq!(doubled_area, 4);
    }
}

#[test]
fn texture_coordinates_follow_positions() {
    for corner in vertices() {
        assert_eq!(corner.tex_coords[0] * 2 - 1, corner.position[0]);
        assert_eq!(corner.tex_coords[1] * 2 - 1, corner.position[1]);
        assert_eq!(corner.position[2], 0);
    }
}

#[test]
fn format_sizes() {
    assert_eq!(VertexFormat::Float32.size(), 4);
    assert_eq!(VertexFormat::Float32x2.size(), 8);
    assert_eq!(VertexFormat::Float32x3.size(), 12);
    assert_eq!(VertexFormat::Float32x4.size(), 16);
}

#[test]
fn vertex_layout_is_packed() {
    let layout = Vertex::desc();
    assert_eq!(layout.array_stride, 20);
    assert_eq!(layout.step_mode, VertexStepMode::Vertex);
    assert_eq!(
        layout.attributes,
        vec![
            VertexAttribute { format: VertexFormat::Float32x3, offset: 0, shader_location: 0 },
            VertexAttribute { format: VertexFormat::Float32x2, offset: 12, shader_location: 1 },
        ]
    );
}

#[test]
fn vertex_layout_matches_the_record_in_floats() {
    let layout = Vertex::desc();
    assert_eq!(layout.array_stride as usize, 5 * std::mem::size_of::<f32>());
    assert_eq!(layout.array_stride as usize, std::mem::size_of::<([f32; 3], [f32; 2])>());
}

#[test]
fn attribute_array_of_nothing() {
    let (attributes, stride) = attribute_array(&Vec::new());
    assert!(attributes.is_empty());
    assert_eq!(stride, 0);
}

#[test]
fn attribute_array_adds_up_offsets() {
    let formats = vec![
        VertexFormat::Float32x4,
        VertexFormat::Float32,
        VertexFormat::Float32x2,
        VertexFormat::Float32x3,
    ];
    let (attributes, stride) = attribute_array(&formats);
    assert_eq!(
        attributes,
        vec![
            VertexAttribute { format: VertexFormat::Float32x4, offset: 0, shader_location: 0 },
            VertexAttribute { format: VertexFormat::Float32, offset: 16, shader_location: 1 },
            VertexAttribute { format: VertexFormat::Float32x2, offset: 20, shader_location: 2 },
            VertexAttribute { format: VertexFormat::Float32x3, offset: 28, shader_location: 3 },
        ]
    );
    assert_eq!(stride, 40);
}
