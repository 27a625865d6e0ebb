use rotating_cube::surface::FormatInfo;
use rotating_cube::surface::PresentMode;
use rotating_cube::state::RenderState;
use rotating_cube::uniforms::CameraTransform;
use rotating_cube::uniforms::ModelTransform;
use rotating_cube::uniforms::UniformBuffer;

fn formats() -> Vec<FormatInfo> {
    vec![FormatInfo { id: 0, srgb: false }, FormatInfo { id: 1, srgb: true }]
}

fn fresh_state() -> RenderState {
    let camera_bytes: Vec<u8> = (0u8..64).collect();
    let model_bytes: Vec<u8> = vec![0u8; 64];
    RenderState::new(800, 600, &formats(), camera_bytes, model_bytes)
}

#[test]
fn startup_state() {
    let state = fresh_state();
    assert_eq!(state.ticks, 0);
    assert_eq!(state.config.width, 800);
    assert_eq!(state.config.height, 600);
    assert_eq!(state.config.format, FormatInfo { id: 1, srgb: true });
    assert_eq!(state.config.present_mode, PresentMode::Fifo);
    assert_eq!(state.camera_desc, CameraTransform { width: 800, height: 600 });
    let expected: Vec<u8> = (0u8..64).collect();
    assert_eq!(state.camera.contents()[..], expected[..]);
    assert_eq!(state.model.contents()[..], vec![0u8; 64][..]);
}

#[test]
fn one_tick_advances_the_angle_one_centiradian() {
    let mut state = fresh_state();
    let transform = state.tick();
    assert_eq!(state.ticks, 1);
    assert_eq!(transform, ModelTransform { ticks: 1 });
}

#[test]
fn model_transform_is_a_pure_function_of_the_tick() {
    let mut state = fresh_state();
    for _ in 0..5 {
        state.tick();
    }
    assert_eq!(state.model_transform(), state.model_transform());
    assert_eq!(state.model_transform(), ModelTransform { ticks: 5 });
}

#[test]
fn camera_bytes_survive_ticks_and_model_writes() {
    let mut state = fresh_state();
    let at_startup = state.camera.contents().clone();
    for step in 0u8..3 {
        state.tick();
        let model_bytes = vec![step + 1; 64];
        state.write_model(&model_bytes);
        assert_eq!(state.model.contents()[..], model_bytes[..]);
        assert_eq!(state.camera.contents()[..], at_startup[..]);
    }
    assert_eq!(state.camera_desc, CameraTransform { width: 800, height: 600 });
}

#[test]
fn resize_keeps_camera_ticks_and_format() {
    let mut state = fresh_state();
    state.tick();
    let at_startup = state.camera.contents().clone();
    let format = state.config.format;
    state.resize(1024, 768);
    assert_eq!(state.config.width, 1024);
    assert_eq!(state.config.height, 768);
    assert_eq!(state.config.format, format);
    assert_eq!(state.ticks, 1);
    assert_eq!(state.camera.contents()[..], at_startup[..]);
    state.resize(800, 600);
    assert_eq!(state.config.width, 800);
    assert_eq!(state.config.height, 600);
    assert_eq!(state.config.format, format);
}

#[test]
fn render_pass_plan_draws_the_whole_cube_after_a_resize() {
    let mut state = fresh_state();
    state.resize(640, 480);
    let plan = state.render_pass_plan();
    assert!(plan.clear_to_black);
    assert!(!plan.use_depth);
    assert_eq!(plan.index_count, 36);
    assert_eq!(plan.instance_count, 1);
    assert_eq!(plan.first_index, 0);
    assert_eq!(plan.base_vertex, 0);
    assert_eq!(plan.target_width, 640);
    assert_eq!(plan.target_height, 480);
}

#[test]
fn uniform_buffer_write_replaces_contents() {
    let mut buffer = UniformBuffer::new(vec![7u8; 64]);
    assert_eq!(buffer.contents()[..], vec![7u8; 64][..]);
    let data = vec![42u8; 64];
    buffer.write(&data);
    assert_eq!(buffer.contents()[..], data[..]);
}
