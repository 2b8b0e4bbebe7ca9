//! Compute-program source generation. The two programs (Y extraction, UV
//! extraction) are produced by substituting decimal renderings of the layout
//! quantities into fixed GLSL templates; the contracts pin the emitted text
//! down to the character, so the array bounds declared in the programs are
//! provably the same values that size the buffers.

use vstd::prelude::*;
use vstd::string::*;

use crate::layout::Nv12SizeInfo;

verus! {

/// The character of one decimal digit.
pub open spec fn spec_digit_char(d: nat) -> char {
    if d == 0 {
        '0'
    } else if d == 1 {
        '1'
    } else if d == 2 {
        '2'
    } else if d == 3 {
        '3'
    } else if d == 4 {
        '4'
    } else if d == 5 {
        '5'
    } else if d == 6 {
        '6'
    } else if d == 7 {
        '7'
    } else if d == 8 {
        '8'
    } else {
        '9'
    }
}

/// The decimal rendering of `n`, most significant digit first, without
/// leading zeros (zero renders as a single `'0'`).
pub open spec fn spec_decimal(n: nat) -> Seq<char>
    decreases n,
{
    if n < 10 {
        seq![spec_digit_char(n)]
    } else {
        spec_decimal(n / 10).push(spec_digit_char(n % 10))
    }
}

fn digit_str(d: u64) -> (r: &'static str)
    requires
        d < 10,
    ensures
        r@ == seq![spec_digit_char(d as nat)],
{
    let s: &'static str = if d == 0 {
        "0"
    } else if d == 1 {
        "1"
    } else if d == 2 {
        "2"
    } else if d == 3 {
        "3"
    } else if d == 4 {
        "4"
    } else if d == 5 {
        "5"
    } else if d == 6 {
        "6"
    } else if d == 7 {
        "7"
    } else if d == 8 {
        "8"
    } else {
        "9"
    };
    proof {
        reveal_strlit("0");
        reveal_strlit("1");
        reveal_strlit("2");
        reveal_strlit("3");
        reveal_strlit("4");
        reveal_strlit("5");
        reveal_strlit("6");
        reveal_strlit("7");
        reveal_strlit("8");
        reveal_strlit("9");
        assert(s@ =~= seq![spec_digit_char(d as nat)]);
    }
    s
}

/// Renders `n` in decimal, exactly as `spec_decimal` states it.
pub fn decimal_string(n: u64) -> (r: String)
    ensures
        r@ == spec_decimal(n as nat),
    decreases n,
{
    if n < 10 {
        digit_str(n).to_owned()
    } else {
        let mut s = decimal_string(n / 10);
        s.append(digit_str(n % 10));
        proof {
            assert(s@ =~= spec_decimal(n as nat));
        }
        s
    }
}

/// The source text of the Y-extraction compute program, as a function of the
/// layout quantities substituted into its template. Each invocation writes
/// one output word of `out_px_per_word` luma bytes, packed little-endian,
/// taking each byte from the low 8 bits (even columns) or bits 16..24 (odd
/// columns) of the input word at half the column index.
pub open spec fn spec_y_shader_source(
    height: nat,
    in_word_stride: nat,
    out_word_stride: nat,
    out_px_per_word: nat,
    local_size_x: nat,
    local_size_y: nat,
    input_idx: nat,
    output_idx: nat,
) -> Seq<char> {
    "#version 310 es\nlayout(local_size_x = "@ + spec_decimal(local_size_x)
        + ", local_size_y = "@ + spec_decimal(local_size_y)
        + ") in;\nlayout(std430) buffer;\nlayout(binding = "@ + spec_decimal(input_idx)
        + ") readonly buffer Input0 {\nuint elements["@ + spec_decimal(height) + "]["@
        + spec_decimal(in_word_stride) + "];\n} input_data0;\nlayout(binding = "@
        + spec_decimal(output_idx) + ") writeonly buffer Output {\nuint elements["@
        + spec_decimal(height) + "]["@ + spec_decimal(out_word_stride)
        + "];\n} output_data;\nvoid main() {\nuint out_px_per_word = "@
        + spec_decimal(out_px_per_word)
        + "u;\nuint y = gl_GlobalInvocationID.x;\nuint x = gl_GlobalInvocationID.y * out_px_per_word;\n\nuint out_word = 0u;\nfor(uint i = 0u; i < out_px_per_word; i++) {\nuint shift = (x + i) % 2u == 0u ? 0u : 16u;\nuint Y = (input_data0.elements[y][(x + i) / 2u] >> shift) & 0xFFu;\nout_word |= (Y << (i * 8u));\n}\n\noutput_data.elements[y][gl_GlobalInvocationID.y] = out_word;\n}"@
}

/// The source text of the UV-extraction compute program. Each invocation
/// reads the U (bits 8..16) and V (bits 24..32) bytes of two adjacent words
/// of one input row (every second row, as chroma is vertically subsampled
/// 2:1) and packs the four bytes `u1, v1, u2, v2` little-endian into one
/// output word.
pub open spec fn spec_uv_shader_source(
    in_height: nat,
    out_height: nat,
    in_word_stride: nat,
    out_word_stride: nat,
    px_per_word: nat,
    local_size_x: nat,
    local_size_y: nat,
    input_idx: nat,
    output_idx: nat,
) -> Seq<char> {
    "#version 310 es\nlayout(local_size_x = "@ + spec_decimal(local_size_x)
        + ", local_size_y = "@ + spec_decimal(local_size_y)
        + ") in;\nlayout(std430) buffer;\nlayout(binding = "@ + spec_decimal(input_idx)
        + ") readonly buffer Input0 {\nuint elements["@ + spec_decimal(in_height) + "]["@
        + spec_decimal(in_word_stride) + "];\n} input_data0;\nlayout(binding = "@
        + spec_decimal(output_idx) + ") writeonly buffer Output {\nuint elements["@
        + spec_decimal(out_height) + "]["@ + spec_decimal(out_word_stride)
        + "];\n} output_data;\nvoid main() {\nuint px_per_word = "@
        + spec_decimal(px_per_word)
        + "u;\nuint out_x = gl_GlobalInvocationID.y * px_per_word;\nuint out_y = gl_GlobalInvocationID.x;\nuint in_x = out_x;\nuint in_y = out_y * 2u;\n\nuint u1 = ((input_data0.elements[in_y][in_x + 0u] >> 8) & 0xFFu);\nuint v1 = ((input_data0.elements[in_y][in_x + 0u] >> 24) & 0xFFu);\nuint u2 = ((input_data0.elements[in_y][in_x + 1u] >> 8) & 0xFFu);\nuint v2 = ((input_data0.elements[in_y][in_x + 1u] >> 24) & 0xFFu);\nuint out_word = u1 | v1 << 8 | u2 << 16 | v2 << 24;\n\noutput_data.elements[out_y][gl_GlobalInvocationID.y] = out_word;\n}"@
}

/// Emits the Y-extraction program source for the given layout, work-group
/// tile sizes and storage-buffer binding indices. The declared array bounds
/// come from the same layout arithmetic that sizes the buffers.
pub fn yuy2_to_y8_source(
    info: &Nv12SizeInfo,
    local_size_x: usize,
    local_size_y: usize,
    input_buffer_idx: u32,
    output_buffer_idx: u32,
) -> (r: String)
    ensures
        r@ == spec_y_shader_source(
            info.height as nat,
            info.spec_y_in_word_stride(),
            info.spec_y_out_word_stride(),
            info.spec_y_out_px_per_word(),
            local_size_x as nat,
            local_size_y as nat,
            input_buffer_idx as nat,
            output_buffer_idx as nat,
        ),
{
    let mut s = "#version 310 es\nlayout(local_size_x = ".to_owned();
    s.append(decimal_string(local_size_x as u64).as_str());
    s.append(", local_size_y = ");
    s.append(decimal_string(local_size_y as u64).as_str());
    s.append(") in;\nlayout(std430) buffer;\nlayout(binding = ");
    s.append(decimal_string(input_buffer_idx as u64).as_str());
    s.append(") readonly buffer Input0 {\nuint elements[");
    s.append(decimal_string(info.height as u64).as_str());
    s.append("][");
    s.append(decimal_string(info.y_in_word_stride() as u64).as_str());
    s.append("];\n} input_data0;\nlayout(binding = ");
    s.append(decimal_string(output_buffer_idx as u64).as_str());
    s.append(") writeonly buffer Output {\nuint elements[");
    s.append(decimal_string(info.height as u64).as_str());
    s.append("][");
    s.append(decimal_string(info.y_out_word_stride() as u64).as_str());
    s.append("];\n} output_data;\nvoid main() {\nuint out_px_per_word = ");
    s.append(decimal_string(info.y_out_px_per_word() as u64).as_str());
    s.append(
        "u;\nuint y = gl_GlobalInvocationID.x;\nuint x = gl_GlobalInvocationID.y * out_px_per_word;\n\nuint out_word = 0u;\nfor(uint i = 0u; i < out_px_per_word; i++) {\nuint shift = (x + i) % 2u == 0u ? 0u : 16u;\nuint Y = (input_data0.elements[y][(x + i) / 2u] >> shift) & 0xFFu;\nout_word |= (Y << (i * 8u));\n}\n\noutput_data.elements[y][gl_GlobalInvocationID.y] = out_word;\n}",
    );
    proof {
        assert(s@ =~= spec_y_shader_source(
            info.height as nat,
            info.spec_y_in_word_stride(),
            info.spec_y_out_word_stride(),
            info.spec_y_out_px_per_word(),
            local_size_x as nat,
            local_size_y as nat,
            input_buffer_idx as nat,
            output_buffer_idx as nat,
        ));
    }
    s
}

/// Emits the UV-extraction program source for the given layout, work-group
/// tile sizes and storage-buffer binding indices.
pub fn yuy2_to_uv_source(
    info: &Nv12SizeInfo,
    local_size_x: usize,
    local_size_y: usize,
    input_buffer_idx: u32,
    output_buffer_idx: u32,
) -> (r: String)
    ensures
        r@ == spec_uv_shader_source(
            info.height as nat,
            info.spec_uv_out_height(),
            info.spec_uv_in_word_stride(),
            info.spec_uv_out_word_stride(),
            info.spec_uv_px_per_word(),
            local_size_x as nat,
            local_size_y as nat,
            input_buffer_idx as nat,
            output_buffer_idx as nat,
        ),
{
    let mut s = "#version 310 es\nlayout(local_size_x = ".to_owned();
    s.append(decimal_string(local_size_x as u64).as_str());
    s.append(", local_size_y = ");
    s.append(decimal_string(local_size_y as u64).as_str());
    s.append(") in;\nlayout(std430) buffer;\nlayout(binding = ");
    s.append(decimal_string(input_buffer_idx as u64).as_str());
    s.append(") readonly buffer Input0 {\nuint elements[");
    s.append(decimal_string(info.height as u64).as_str());
    s.append("][");
    s.append(decimal_string(info.uv_in_word_stride() as u64).as_str());
    s.append("];\n} input_data0;\nlayout(binding = ");
    s.append(decimal_string(output_buffer_idx as u64).as_str());
    s.append(") writeonly buffer Output {\nuint elements[");
    s.append(decimal_string(info.uv_out_height() as u64).as_str());
    s.append("][");
    s.append(decimal_string(info.uv_out_word_stride() as u64).as_str());
    s.append("];\n} output_data;\nvoid main() {\nuint px_per_word = ");
    s.append(decimal_string(info.uv_px_per_word() as u64).as_str());
    s.append(
        "u;\nuint out_x = gl_GlobalInvocationID.y * px_per_word;\nuint out_y = gl_GlobalInvocationID.x;\nuint in_x = out_x;\nuint in_y = out_y * 2u;\n\nuint u1 = ((input_data0.elements[in_y][in_x + 0u] >> 8) & 0xFFu);\nuint v1 = ((input_data0.elements[in_y][in_x + 0u] >> 24) & 0xFFu);\nuint u2 = ((input_data0.elements[in_y][in_x + 1u] >> 8) & 0xFFu);\nuint v2 = ((input_data0.elements[in_y][in_x + 1u] >> 24) & 0xFFu);\nuint out_word = u1 | v1 << 8 | u2 << 16 | v2 << 24;\n\noutput_data.elements[out_y][gl_GlobalInvocationID.y] = out_word;\n}",
    );
    proof {
        assert(s@ =~= spec_uv_shader_source(
            info.height as nat,
            info.spec_uv_out_height(),
            info.spec_uv_in_word_stride(),
            info.spec_uv_out_word_stride(),
            info.spec_uv_px_per_word(),
            local_size_x as nat,
            local_size_y as nat,
            input_buffer_idx as nat,
            output_buffer_idx as nat,
        ));
    }
    s
}

} // verus!
