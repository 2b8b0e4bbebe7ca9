use glconvert::layout::Nv12SizeInfo;
use glconvert::shader::{decimal_string, yuy2_to_uv_source, yuy2_to_y8_source};

#[test]
fn decimal_renderings() {
    assert_eq!(decimal_string(0), "0");
    assert_eq!(decimal_string(7), "7");
    assert_eq!(decimal_string(10), "10");
    assert_eq!(decimal_string(1080), "1080");
    assert_eq!(decimal_string(1920), "1920");
    assert_eq!(decimal_string(u64::MAX), "18446744073709551615");
}

#[test]
fn y_shader_text_matches_template() {
    let info = Nv12SizeInfo { width: 1920, height: 1080 };
    let got = yuy2_to_y8_source(&info, 8, 8, 0, 1);
    let expected = format!(
        "#version 310 es\n\
layout(local_size_x = {local_size_x}, local_size_y = {local_size_y}) in;\n\
layout(std430) buffer;\n\
layout(binding = {input_buffer_idx}) readonly buffer Input0 {{\n\
    uint elements[{height}][{in_word_stride}];\n\
}} input_data0;\n\
layout(binding = {output_buffer_idx}) writeonly buffer Output {{\n\
    uint elements[{height}][{out_word_stride}];\n\
}} output_data;\n\
void main() {{\n\
    uint out_px_per_word = {out_px_per_word}u;\n\
    uint y = gl_GlobalInvocationID.x;\n\
    uint x = gl_GlobalInvocationID.y * out_px_per_word;\n\
\n\
    uint out_word = 0u;\n\
    for(uint i = 0u; i < out_px_per_word; i++) {{\n\
        uint shift = (x + i) % 2u == 0u ? 0u : 16u;\n\
        uint Y = (input_data0.elements[y][(x + i) / 2u] >> shift) & 0xFFu;\n\
        out_word |= (Y << (i * 8u));\n\
    }}\n\
\n\
    output_data.elements[y][gl_GlobalInvocationID.y] = out_word;\n\
}}",
        height = 1080,
        in_word_stride = 960,
        out_word_stride = 480,
        out_px_per_word = 4,
        local_size_x = 8,
        local_size_y = 8,
        input_buffer_idx = 0,
        output_buffer_idx = 1,
    );
    assert_eq!(got, expected);
}

#[test]
fn uv_shader_text_matches_template() {
    let info = Nv12SizeInfo { width: 1920, height: 1080 };
    let got = yuy2_to_uv_source(&info, 4, 4, 0, 1);
    let expected = format!(
        "#version 310 es\n\
layout(local_size_x = {local_size_x}, local_size_y = {local_size_y}) in;\n\
layout(std430) buffer;\n\
layout(binding = {input_buffer_idx}) readonly buffer Input0 {{\n\
    uint elements[{in_height}][{in_word_stride}];\n\
}} input_data0;\n\
layout(binding = {output_buffer_idx}) writeonly buffer Output {{\n\
    uint elements[{out_height}][{out_word_stride}];\n\
}} output_data;\n\
void main() {{\n\
    uint px_per_word = {px_per_word}u;\n\
    uint out_x = gl_GlobalInvocationID.y * px_per_word;\n\
    uint out_y = gl_GlobalInvocationID.x;\n\
    uint in_x = out_x;\n\
    uint in_y = out_y * 2u;\n\
\n\
    uint u1 = ((input_data0.elements[in_y][in_x + 0u] >> 8) & 0xFFu);\n\
    uint v1 = ((input_data0.elements[in_y][in_x + 0u] >> 24) & 0xFFu);\n\
    uint u2 = ((input_data0.elements[in_y][in_x + 1u] >> 8) & 0xFFu);\n\
    uint v2 = ((input_data0.elements[in_y][in_x + 1u] >> 24) & 0xFFu);\n\
    uint out_word = u1 | v1 << 8 | u2 << 16 | v2 << 24;\n\
\n\
    output_data.elements[out_y][gl_GlobalInvocationID.y] = out_word;\n\
}}",
        in_height = 1080,
        out_height = 540,
        in_word_stride = 960,
        out_word_stride = 480,
        px_per_word = 2,
        local_size_x = 4,
        local_size_y = 4,
        input_buffer_idx = 0,
        output_buffer_idx = 1,
    );
    assert_eq!(got, expected);
}

#[test]
fn shader_declares_same_bounds_that_size_buffers() {
    // the declared array extents multiply out to the buffer word counts
    let info = Nv12SizeInfo { width: 640, height: 480 };
    let y = yuy2_to_y8_source(&info, 2, 2, 0, 1);
    assert!(y.contains(&format!("uint elements[{}][{}];", 480, info.y_in_word_stride())));
    assert!(y.contains(&format!("uint elements[{}][{}];", 480, info.y_out_word_stride())));
    assert_eq!(480 * info.y_out_word_stride() * 4, info.y_out_byte_cnt());
    let uv = yuy2_to_uv_source(&info, 2, 2, 0, 1);
    assert!(uv.contains(&format!("uint elements[{}][{}];", info.uv_out_height(), info.uv_out_word_stride())));
    assert_eq!(info.uv_out_height() * info.uv_out_word_stride() * 4, info.uv_out_byte_cnt());
}
