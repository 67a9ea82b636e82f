use egui_glfw_mdi::gl::{
    info_log_to_string, shader_type_str, Program, COMPUTE_SHADER, FRAGMENT_SHADER,
    GEOMETRY_SHADER, TESS_CONTROL_SHADER, TESS_EVALUATION_SHADER, VERTEX_SHADER,
};

#[test]
fn shader_stage_numbers_are_those_of_the_graphics_api() {
    assert_eq!(VERTEX_SHADER, gl::VERTEX_SHADER);
    assert_eq!(FRAGMENT_SHADER, gl::FRAGMENT_SHADER);
    assert_eq!(COMPUTE_SHADER, gl::COMPUTE_SHADER);
    assert_eq!(GEOMETRY_SHADER, gl::GEOMETRY_SHADER);
    assert_eq!(TESS_CONTROL_SHADER, gl::TESS_CONTROL_SHADER);
    assert_eq!(TESS_EVALUATION_SHADER, gl::TESS_EVALUATION_SHADER);
}

#[test]
fn shader_stages_have_names() {
    assert_eq!(shader_type_str(VERTEX_SHADER), "vertex");
    assert_eq!(shader_type_str(FRAGMENT_SHADER), "fragment");
    assert_eq!(shader_type_str(COMPUTE_SHADER), "compute");
    assert_eq!(shader_type_str(GEOMETRY_SHADER), "geometry");
    assert_eq!(shader_type_str(TESS_CONTROL_SHADER), "tesselation control");
    assert_eq!(shader_type_str(TESS_EVALUATION_SHADER), "tesselation evalution");
}

#[test]
fn unknown_shader_stage_is_named_by_its_number() {
    assert_eq!(shader_type_str(0), "unknown (0)");
    assert_eq!(shader_type_str(7), "unknown (7)");
    assert_eq!(shader_type_str(10), "unknown (10)");
    assert_eq!(shader_type_str(0x8B32), "unknown (35634)");
    assert_eq!(shader_type_str(u32::MAX), "unknown (4294967295)");
}

#[test]
fn info_log_is_cut_at_its_length() {
    let buf = b"error: 0:1 bad token\0\0\0\0";
    assert_eq!(info_log_to_string(buf, 20), "error: 0:1 bad token");
    assert_eq!(info_log_to_string(buf, 5), "error");
    assert_eq!(info_log_to_string(buf, 0), "");
}

#[test]
fn info_log_longer_than_the_buffer_is_the_whole_buffer() {
    let buf = b"abc";
    assert_eq!(info_log_to_string(buf, 3), "abc");
    assert_eq!(info_log_to_string(buf, 4), "abc");
    assert_eq!(info_log_to_string(buf, i32::MAX), "abc");
    assert_eq!(info_log_to_string(b"", 512), "");
}

#[test]
fn info_log_with_ill_formed_bytes_is_still_text() {
    let buf = [b'a', 0xff, b'b', 0xc3, 0xa9, 0xc3];
    assert_eq!(info_log_to_string(&buf, 3), "a\u{fffd}b");
    assert_eq!(info_log_to_string(&buf, 5), "a\u{fffd}b\u{e9}");
    assert_eq!(info_log_to_string(&buf, 6), "a\u{fffd}b\u{e9}\u{fffd}");
}

#[test]
fn uniform_locations_are_found_by_position() {
    let program = Program::new(9, vec![4, -1, 0, 17]);
    assert_eq!(program.id(), 9);
    assert_eq!(program.uniform_location(0), Some(4));
    assert_eq!(program.uniform_location(1), Some(-1));
    assert_eq!(program.uniform_location(3), Some(17));
    assert_eq!(program.uniform_location(4), None);
    assert_eq!(program.uniform_location(usize::MAX), None);
    assert_eq!(Program::new(1, Vec::new()).uniform_location(0), None);
}
