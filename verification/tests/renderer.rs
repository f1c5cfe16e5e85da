use rotating_cube::cube::{resolve_context, CanvasProbe, Cube, StartAction};
use rotating_cube::errors::RenderError;
use rotating_cube::frame::{initial_render_state, DepthComparison, IndexKind, PrimitiveKind};
use rotating_cube::geometry::{cube_colors, cube_indices, cube_positions, init_buffers};
use rotating_cube::program::{
    compile_shader, fragment_shader_source, link_program, resolve_locations, vertex_shader_source,
    BuildStatus,
};

fn fresh_cube(now_ms: u64) -> Cube {
    let buffers = init_buffers(true, true, true).unwrap();
    let info = resolve_locations(0, 1, true, true).unwrap();
    Cube::new(info, buffers, now_ms)
}

#[test]
fn start_is_idempotent() {
    let mut cube = fresh_cube(0);
    assert_eq!(cube.start(), StartAction::RequestFrame);
    cube.scheduled(11);
    // A second start with no intervening stop is a no-op: nothing to
    // schedule, and the one recorded handle is still the pending one.
    assert_eq!(cube.start(), StartAction::AlreadyRunning);
    assert_eq!(cube.animation_id, Some(11));
}

#[test]
fn stop_before_start_is_safe() {
    let mut cube = fresh_cube(5);
    let cancel = cube.stop();
    assert_eq!(cancel, None);
    assert_eq!(cube.animation_id, None);
    assert_eq!(cube.rotation_mrad, 0);
    assert_eq!(cube.last_time_ms, 5);
}

#[test]
fn rotation_accumulates_from_time_deltas() {
    let mut cube = fresh_cube(0);
    cube.render(0);
    cube.render(16);
    let params = cube.render(33);
    // 0 + 16 + 17 elapsed milliseconds: 33 thousandths of a radian.
    assert_eq!(cube.rotation_mrad, 33);
    assert_eq!(params.model_view.euler_angle_mrad, 33);
    let radians = cube.rotation_mrad as f64 * 0.001;
    assert!((radians - 0.033).abs() < 1e-9);
}

#[test]
fn rotation_is_not_a_fixed_per_frame_increment() {
    let mut steady = fresh_cube(0);
    steady.render(10);
    steady.render(20);
    let mut uneven = fresh_cube(0);
    uneven.render(3);
    uneven.render(50);
    // Same frame count, different elapsed time, different rotation.
    assert_eq!(steady.rotation_mrad, 20);
    assert_eq!(uneven.rotation_mrad, 50);
}

#[test]
fn geometry_sizes_and_index_range() {
    let positions = cube_positions();
    let colors = cube_colors();
    let indices = cube_indices();
    assert_eq!(positions.len(), 72);
    assert_eq!(colors.len(), 96);
    assert_eq!(indices.len(), 36);
    for &i in indices.iter() {
        assert!(i <= 23);
    }
}

#[test]
fn geometry_matches_the_uploaded_arrays() {
    let expected_positions: [f32; 72] = [
        -1.0, -1.0, 1.0, 1.0, -1.0, 1.0, 1.0, 1.0, 1.0, -1.0, 1.0, 1.0, // front
        -1.0, -1.0, -1.0, -1.0, 1.0, -1.0, 1.0, 1.0, -1.0, 1.0, -1.0, -1.0, // back
        -1.0, 1.0, -1.0, -1.0, 1.0, 1.0, 1.0, 1.0, 1.0, 1.0, 1.0, -1.0, // top
        -1.0, -1.0, -1.0, 1.0, -1.0, -1.0, 1.0, -1.0, 1.0, -1.0, -1.0, 1.0, // bottom
        1.0, -1.0, -1.0, 1.0, 1.0, -1.0, 1.0, 1.0, 1.0, 1.0, -1.0, 1.0, // right
        -1.0, -1.0, -1.0, -1.0, -1.0, 1.0, -1.0, 1.0, 1.0, -1.0, 1.0, -1.0, // left
    ];
    let positions = cube_positions();
    for (i, &p) in positions.iter().enumerate() {
        assert_eq!(p as f32, expected_positions[i]);
    }

    let face_colors: [[f32; 4]; 6] = [
        [1.0, 1.0, 1.0, 1.0], // front: white
        [1.0, 0.0, 0.0, 1.0], // back: red
        [0.0, 1.0, 0.0, 1.0], // top: green
        [0.0, 0.0, 1.0, 1.0], // bottom: blue
        [1.0, 1.0, 0.0, 1.0], // right: yellow
        [1.0, 0.0, 1.0, 1.0], // left: purple
    ];
    let colors = cube_colors();
    for (i, &c) in colors.iter().enumerate() {
        let face = i / 16;
        let component = i % 4;
        assert_eq!(c as f32, face_colors[face][component]);
    }

    let expected_indices: [u16; 36] = [
        0, 1, 2, 0, 2, 3, // front
        4, 5, 6, 4, 6, 7, // back
        8, 9, 10, 8, 10, 11, // top
        12, 13, 14, 12, 14, 15, // bottom
        16, 17, 18, 16, 18, 19, // right
        20, 21, 22, 20, 22, 23, // left
    ];
    let indices = cube_indices();
    for (i, &x) in indices.iter().enumerate() {
        assert_eq!(x, expected_indices[i]);
    }
}

#[test]
fn missing_canvas_fails_construction() {
    let r = resolve_context("nonexistent-id", CanvasProbe::Missing);
    match r {
        Err(RenderError::CanvasNotFound { id }) => assert_eq!(id, "nonexistent-id"),
        other => panic!("expected CanvasNotFound, got {:?}", other),
    }
}

#[test]
fn wrong_element_kind_fails_construction() {
    match resolve_context("c", CanvasProbe::NotACanvas) {
        Err(RenderError::InvalidCanvasElement) => {}
        other => panic!("expected InvalidCanvasElement, got {:?}", other),
    }
}

#[test]
fn missing_context_fails_construction() {
    match resolve_context("c", CanvasProbe::NoContext) {
        Err(RenderError::ContextAcquisitionFailed) => {}
        other => panic!("expected ContextAcquisitionFailed, got {:?}", other),
    }
}

#[test]
fn acquired_context_continues_construction() {
    assert!(resolve_context("c", CanvasProbe::Acquired).is_ok());
}

#[test]
fn draw_call_parameters_are_fixed() {
    let mut cube = fresh_cube(0);
    let params = cube.render(16);
    assert_eq!(params.draw.mode, PrimitiveKind::Triangles);
    assert_eq!(params.draw.count, 36);
    assert_eq!(params.draw.index_kind, IndexKind::UnsignedShort);
    assert_eq!(params.draw.offset, 0);
    assert!(params.clear_color && params.clear_depth);
    assert_eq!(params.projection.fov_y_degrees, 45);
    assert_eq!(params.projection.aspect_thousandths, 1000);
    assert_eq!(params.projection.z_near_thousandths, 100);
    assert_eq!(params.projection.z_far_thousandths, 100000);
    assert_eq!(params.model_view.translate_z, -6);
    assert!(!params.matrix_transpose);
    assert_eq!(params.position_attrib.location, 0);
    assert_eq!(params.position_attrib.components, 3);
    assert!(!params.position_attrib.normalized);
    assert_eq!(params.position_attrib.stride, 0);
    assert_eq!(params.position_attrib.offset, 0);
    assert_eq!(params.color_attrib.location, 1);
    assert_eq!(params.color_attrib.components, 4);
    assert!(!params.color_attrib.normalized);
}

#[test]
fn stop_cancels_pending_schedule() {
    let mut cube = fresh_cube(0);
    assert_eq!(cube.start(), StartAction::RequestFrame);
    cube.scheduled(42);
    cube.render(10);
    cube.scheduled(43);
    let cancel = cube.stop();
    // The host is told to cancel exactly the pending request.
    assert_eq!(cancel, Some(43));
    // A stale invocation of the callback afterwards draws nothing.
    let stale = cube.on_frame(20);
    assert!(stale.is_none());
    assert_eq!(cube.rotation_mrad, 10);
    assert_eq!(cube.last_time_ms, 10);
}

#[test]
fn frame_callback_draws_while_running() {
    let mut cube = fresh_cube(0);
    cube.scheduled(1);
    let drawn = cube.on_frame(25);
    assert!(drawn.is_some());
    assert_eq!(cube.rotation_mrad, 25);
}

#[test]
fn shader_compile_outcomes() {
    let ok = compile_shader(BuildStatus {
        created: true,
        ok_flag: Some(true),
        info_log: None,
    });
    assert!(ok.is_ok());

    match compile_shader(BuildStatus { created: false, ok_flag: None, info_log: None }) {
        Err(RenderError::ShaderCompileFailed { log }) => {
            assert_eq!(log, "Unable to create shader object")
        }
        other => panic!("expected ShaderCompileFailed, got {:?}", other),
    }

    match compile_shader(BuildStatus {
        created: true,
        ok_flag: Some(false),
        info_log: Some(String::from("bad shader")),
    }) {
        Err(RenderError::ShaderCompileFailed { log }) => assert_eq!(log, "bad shader"),
        other => panic!("expected ShaderCompileFailed, got {:?}", other),
    }

    match compile_shader(BuildStatus { created: true, ok_flag: None, info_log: None }) {
        Err(RenderError::ShaderCompileFailed { log }) => {
            assert_eq!(log, "Unknown error creating shader")
        }
        other => panic!("expected ShaderCompileFailed, got {:?}", other),
    }
}

#[test]
fn program_link_outcomes() {
    let ok = link_program(BuildStatus { created: true, ok_flag: Some(true), info_log: None });
    assert!(ok.is_ok());

    match link_program(BuildStatus { created: false, ok_flag: None, info_log: None }) {
        Err(RenderError::ProgramLinkFailed { log }) => {
            assert_eq!(log, "Unable to create shader program")
        }
        other => panic!("expected ProgramLinkFailed, got {:?}", other),
    }

    match link_program(BuildStatus {
        created: true,
        ok_flag: Some(false),
        info_log: Some(String::from("undefined varying")),
    }) {
        Err(RenderError::ProgramLinkFailed { log }) => assert_eq!(log, "undefined varying"),
        other => panic!("expected ProgramLinkFailed, got {:?}", other),
    }

    match link_program(BuildStatus { created: true, ok_flag: None, info_log: None }) {
        Err(RenderError::ProgramLinkFailed { log }) => {
            assert_eq!(log, "Unknown error creating program")
        }
        other => panic!("expected ProgramLinkFailed, got {:?}", other),
    }
}

#[test]
fn attribute_locations_must_resolve() {
    let info = resolve_locations(2, 5, true, false).unwrap();
    assert_eq!(info.vertex_position, 2);
    assert_eq!(info.vertex_color, 5);
    assert!(info.has_projection_matrix);
    assert!(!info.has_model_view_matrix);

    match resolve_locations(-1, 5, true, true) {
        Err(RenderError::ProgramLinkFailed { log }) => {
            assert_eq!(log, "shader program is missing a vertex attribute")
        }
        other => panic!("expected ProgramLinkFailed, got {:?}", other),
    }
    assert!(resolve_locations(2, -1, true, true).is_err());
}

#[test]
fn buffer_allocation_failure() {
    for (p, c, i) in [(false, true, true), (true, false, true), (true, true, false)] {
        match init_buffers(p, c, i) {
            Err(RenderError::BufferAllocationFailed) => {}
            other => panic!("expected BufferAllocationFailed, got {:?}", other),
        }
    }
    assert!(init_buffers(true, true, true).is_ok());
}

#[test]
fn failed_first_schedule_leaves_state_unstarted() {
    let mut cube = fresh_cube(0);
    assert_eq!(cube.start(), StartAction::RequestFrame);
    // The host scheduler refused the first frame request.
    let e = cube.schedule_failed();
    match e {
        RenderError::SchedulingFailed => {}
        other => panic!("expected SchedulingFailed, got {:?}", other),
    }
    assert_eq!(cube.animation_id, None);
    assert_eq!(cube.start(), StartAction::RequestFrame);
}

#[test]
fn initial_render_state_values() {
    let s = initial_render_state();
    assert_eq!(
        (s.clear_red, s.clear_green, s.clear_blue, s.clear_alpha),
        (0, 0, 0, 1)
    );
    assert_eq!(s.clear_depth, 1);
    assert!(s.depth_test);
    assert_eq!(s.depth_comparison, DepthComparison::LessOrEqual);
}

#[test]
fn shader_sources_declare_the_pipeline() {
    let vs = vertex_shader_source();
    assert!(vs.contains("attribute vec4 aVertexPosition;"));
    assert!(vs.contains("attribute vec4 aVertexColor;"));
    assert!(vs.contains("uniform mat4 uModelViewMatrix;"));
    assert!(vs.contains("uniform mat4 uProjectionMatrix;"));
    assert!(vs.contains("gl_Position = uProjectionMatrix * uModelViewMatrix * aVertexPosition;"));
    let fs = fragment_shader_source();
    assert!(fs.contains("varying lowp vec4 vColor;"));
    assert!(fs.contains("gl_FragColor = vColor;"));
}

#[test]
fn construction_initial_state() {
    let cube = fresh_cube(123);
    assert_eq!(cube.rotation_mrad, 0);
    assert_eq!(cube.last_time_ms, 123);
    assert_eq!(cube.animation_id, None);
    assert_eq!(cube.buffers.positions.len(), 72);
    assert_eq!(cube.buffers.colors.len(), 96);
    assert_eq!(cube.buffers.indices.len(), 36);
}
