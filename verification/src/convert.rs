//! Byte-level semantics of the YUY2 to NV12 conversion: which input byte
//! every output byte comes from. The spec functions here state what the two
//! compute programs write; the executable functions compute the same planes
//! on the host, byte for byte, and back the session's contract.
//!
//! YUY2 packs two horizontal pixels into four bytes `[Y0, U, Y1, V]`; the
//! NV12 output is the full-resolution Y plane followed by the
//! half-resolution interleaved UV plane.

use vstd::prelude::*;

use crate::error::ConvertError;
use crate::layout::Nv12SizeInfo;

verus! {

/// The luma byte of pixel `(x, y)` of a YUY2 frame `width` pixels wide:
/// every pixel's Y sample sits at twice its pixel index.
pub open spec fn spec_y_sample(src: Seq<u8>, width: nat, x: nat, y: nat) -> u8 {
    src[(2 * (y * width + x)) as int]
}

/// The U byte shared by the horizontal pixel pair `pair` of row `y`: the
/// second byte of that pair's four-byte `[Y0, U, Y1, V]` word.
pub open spec fn spec_u_sample(src: Seq<u8>, width: nat, pair: nat, y: nat) -> u8 {
    src[(2 * (y * width + 2 * pair) + 1) as int]
}

/// The V byte shared by the horizontal pixel pair `pair` of row `y`: the
/// fourth byte of that pair's four-byte `[Y0, U, Y1, V]` word.
pub open spec fn spec_v_sample(src: Seq<u8>, width: nat, pair: nat, y: nat) -> u8 {
    src[(2 * (y * width + 2 * pair) + 3) as int]
}

/// Byte `i` of the Y plane: the luma sample of pixel
/// `(i % width, i / width)`.
pub open spec fn spec_y_plane_byte(src: Seq<u8>, width: nat, i: nat) -> u8 {
    spec_y_sample(src, width, i % width, i / width)
}

/// The Y plane: `width * height` bytes, row-major, one luma byte per pixel.
pub open spec fn spec_y_plane(src: Seq<u8>, width: nat, height: nat) -> Seq<u8> {
    Seq::new(width * height, |i: int| spec_y_plane_byte(src, width, i as nat))
}

/// Byte `j` of the UV plane. UV rows hold `width / 2` interleaved `U, V`
/// pairs (`width` bytes); row `j / width` is sampled from input row
/// `2 * (j / width)`, as chroma is vertically subsampled 2:1.
pub open spec fn spec_uv_plane_byte(src: Seq<u8>, width: nat, j: nat) -> u8 {
    let r = j % width;
    if r % 2 == 0 {
        spec_u_sample(src, width, r / 2, 2 * (j / width))
    } else {
        spec_v_sample(src, width, r / 2, 2 * (j / width))
    }
}

/// The UV plane: `width * (height / 2)` bytes, row-major.
pub open spec fn spec_uv_plane(src: Seq<u8>, width: nat, height: nat) -> Seq<u8> {
    Seq::new(width * (height / 2), |j: int| spec_uv_plane_byte(src, width, j as nat))
}

/// The whole NV12 frame: the Y plane followed by the UV plane.
pub open spec fn spec_nv12_frame(src: Seq<u8>, width: nat, height: nat) -> Seq<u8> {
    spec_y_plane(src, width, height) + spec_uv_plane(src, width, height)
}

/// Extracts the full-resolution luma plane: what the Y-extraction program
/// computes, one byte per pixel, row-major.
pub fn extract_y_plane(src: &Vec<u8>, info: &Nv12SizeInfo) -> (out: Vec<u8>)
    requires
        info.well_formed(),
        src@.len() == info.spec_yuy2_byte_cnt(),
    ensures
        out@ == spec_y_plane(src@, info.width as nat, info.height as nat),
        out@.len() == info.spec_y_out_byte_cnt(),
{
    proof {
        info.lemma_products_fit();
    }
    let px = info.y_out_px_cnt();
    let mut out: Vec<u8> = Vec::with_capacity(px);
    let mut i: usize = 0;
    while i < px
        invariant
            i <= px,
            px == info.spec_y_out_px_cnt(),
            px * 2 <= usize::MAX,
            info.well_formed(),
            src@.len() == info.spec_yuy2_byte_cnt(),
            out@.len() == i,
            forall|k: int|
                0 <= k < i ==> out@[k] == spec_y_plane_byte(src@, info.width as nat, k as nat),
        decreases px - i,
    {
        proof {
            vstd::arithmetic::div_mod::lemma_fundamental_div_mod(i as int, info.width as int);
            let iw = info.width as int;
            let ii = i as int;
            assert((ii / iw) * iw == iw * (ii / iw)) by (nonlinear_arith);
            assert(spec_y_plane_byte(src@, info.width as nat, i as nat) == src@[2 * i]);
        }
        out.push(src[2 * i]);
        i += 1;
    }
    proof {
        info.lemma_products_fit();
        assert(out@ =~= spec_y_plane(src@, info.width as nat, info.height as nat));
    }
    out
}

/// Extracts the half-resolution interleaved UV plane: what the
/// UV-extraction program computes. Each output row pairs the U and V bytes
/// of every second input row.
pub fn extract_uv_plane(src: &Vec<u8>, info: &Nv12SizeInfo) -> (out: Vec<u8>)
    requires
        info.well_formed(),
        src@.len() == info.spec_yuy2_byte_cnt(),
    ensures
        out@ == spec_uv_plane(src@, info.width as nat, info.height as nat),
        out@.len() == info.spec_uv_out_byte_cnt(),
{
    proof {
        info.lemma_products_fit();
    }
    let w = info.width;
    let hh = info.uv_out_height();
    let cnt = info.uv_out_byte_cnt();
    proof {
        assert(cnt == w * (hh as nat)) by (nonlinear_arith)
            requires
                w % 2 == 0,
                cnt == (w as nat / 2) * (hh as nat) * 2,
        ;
    }
    let mut out: Vec<u8> = Vec::with_capacity(cnt);
    let mut j: usize = 0;
    let mut oy: usize = 0;
    let mut r: usize = 0;
    while j < cnt
        invariant
            j <= cnt,
            j == oy * w + r,
            r < w,
            cnt == w * (hh as nat),
            hh == info.spec_uv_out_height(),
            w == info.width,
            info.well_formed(),
            src@.len() == info.spec_yuy2_byte_cnt(),
            out@.len() == j,
            forall|k: int|
                0 <= k < j ==> out@[k] == spec_uv_plane_byte(src@, info.width as nat, k as nat),
        decreases cnt - j,
    {
        proof {
            // j < cnt pins the row counter under the plane height
            assert(oy < hh) by (nonlinear_arith)
                requires
                    j == oy * w + r,
                    0 <= r < w,
                    j < cnt,
                    cnt == w * (hh as nat),
            ;
            // the source byte index stays inside the frame
            assert(2 * ((2 * oy) * w + 2 * (r / 2)) + 3 < 2 * (info.width as nat
                * info.height as nat)) by (nonlinear_arith)
                requires
                    oy < hh,
                    hh == info.height as nat / 2,
                    info.height % 2 == 0,
                    0 <= r < w,
                    w == info.width,
                    w > 0,
            ;
            vstd::arithmetic::div_mod::lemma_fundamental_div_mod_converse(
                j as int,
                w as int,
                oy as int,
                r as int,
            );
        }
        let pair = r / 2;
        let in_row = 2 * oy;
        let base = 2 * (in_row * w + 2 * pair);
        let idx = if r % 2 == 0 {
            base + 1
        } else {
            base + 3
        };
        proof {
            assert(spec_uv_plane_byte(src@, info.width as nat, j as nat) == src@[idx as int]);
        }
        out.push(src[idx]);
        j += 1;
        r += 1;
        if r == w {
            r = 0;
            oy += 1;
            proof {
                assert((oy as nat) * w == (oy - 1) * w + w) by (nonlinear_arith);
            }
        }
    }
    proof {
        assert(out@ =~= spec_uv_plane(src@, info.width as nat, info.height as nat));
    }
    out
}

/// Converts one packed YUY2 frame to one NV12 frame on the host, after
/// validating the input length. Returns the Y plane followed by the UV
/// plane — `total_byte_cnt` bytes — for an input of exactly the expected
/// YUY2 byte count, and rejects any other length before touching the data.
pub fn convert_frame(src: &Vec<u8>, info: &Nv12SizeInfo) -> (r: Result<Vec<u8>, ConvertError>)
    requires
        info.well_formed(),
    ensures
        match r {
            Ok(out) => {
                &&& src@.len() == info.spec_yuy2_byte_cnt()
                &&& out@ == spec_nv12_frame(src@, info.width as nat, info.height as nat)
                &&& out@.len() == info.spec_total_byte_cnt()
            },
            Err(e) => {
                &&& src@.len() != info.spec_yuy2_byte_cnt()
                &&& e == (ConvertError::FrameSize {
                    expected: (info.width * info.height * 2) as usize,
                    actual: src@.len() as usize,
                })
            },
        },
{
    let expected = info.yuy2_byte_cnt();
    if src.len() != expected {
        return Err(ConvertError::FrameSize { expected, actual: src.len() });
    }
    let mut out = extract_y_plane(src, info);
    let mut uv = extract_uv_plane(src, info);
    out.append(&mut uv);
    Ok(out)
}

/// A uniform input yields a uniform output: when every byte of the frame
/// holds one value, every byte of both output planes holds it too.
pub proof fn lemma_uniform_input_uniform_output(src: Seq<u8>, width: nat, height: nat, v: u8)
    requires
        width > 0,
        src.len() == width * height * 2,
        forall|k: int| 0 <= k < src.len() ==> src[k] == v,
    ensures
        forall|k: int|
            0 <= k < spec_nv12_frame(src, width, height).len() ==> spec_nv12_frame(
                src,
                width,
                height,
            )[k] == v,
{
    let frame = spec_nv12_frame(src, width, height);
    let y_len = spec_y_plane(src, width, height).len() as int;
    assert forall|k: int| 0 <= k < frame.len() implies frame[k] == v by {
        if k < y_len {
            vstd::arithmetic::div_mod::lemma_fundamental_div_mod(k, width as int);
            assert((k / width as int) * width as int == width as int * (k / width as int))
                by (nonlinear_arith);
            assert(frame[k] == src[2 * k]);
        } else {
            let j = k - y_len;
            let q = j / width as int;
            let r = j % width as int;
            vstd::arithmetic::div_mod::lemma_fundamental_div_mod(j, width as int);
            vstd::arithmetic::div_mod::lemma_mod_bound(j, width as int);
            // the row index stays under height / 2, so the sampled byte is
            // inside the frame
            assert(q < height / 2 && 2 * (2 * q * width + 2 * (r / 2)) + 3 < src.len())
                by (nonlinear_arith)
                requires
                    j == width * q + r,
                    0 <= r < width,
                    width > 0,
                    0 <= j < width * (height / 2),
                    src.len() == width * height * 2,
            ;
        }
    }
}

/// Conversion is a function of the input bytes and the dimensions alone:
/// two conversions of the same unchanged input yield byte-identical output.
pub proof fn lemma_convert_deterministic(
    src: Seq<u8>,
    width: nat,
    height: nat,
    r1: Seq<u8>,
    r2: Seq<u8>,
)
    requires
        r1 == spec_nv12_frame(src, width, height),
        r2 == spec_nv12_frame(src, width, height),
    ensures
        r1 == r2,
{
}

} // verus!
