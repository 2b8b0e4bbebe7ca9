use glconvert::convert::{convert_frame, extract_uv_plane, extract_y_plane};
use glconvert::error::ConvertError;
use glconvert::layout::Nv12SizeInfo;

fn info(width: usize, height: usize) -> Nv12SizeInfo {
    Nv12SizeInfo { width, height }
}

#[test]
fn tiny_frame_exact_bytes() {
    // 4x2 pixels: two [Y0, U, Y1, V] words per row
    let src: Vec<u8> = vec![
        10, 20, 30, 40, 50, 60, 70, 80, // row 0
        90, 100, 110, 120, 130, 140, 150, 160, // row 1
    ];
    let i = info(4, 2);
    let y = extract_y_plane(&src, &i);
    assert_eq!(y, vec![10, 30, 50, 70, 90, 110, 130, 150]);
    let uv = extract_uv_plane(&src, &i);
    // one UV row, sampled from input row 0: U0 V0 U1 V1
    assert_eq!(uv, vec![20, 40, 60, 80]);
    let out = convert_frame(&src, &i).unwrap();
    assert_eq!(out, vec![10, 30, 50, 70, 90, 110, 130, 150, 20, 40, 60, 80]);
}

#[test]
fn uv_plane_skips_odd_rows() {
    // 2x4 pixels: one word per row; U bytes 21/23/25/27, V bytes 41/43/45/47
    let src: Vec<u8> = vec![
        1, 21, 2, 41, // row 0
        3, 23, 4, 43, // row 1
        5, 25, 6, 45, // row 2
        7, 27, 8, 47, // row 3
    ];
    let i = info(2, 4);
    let uv = extract_uv_plane(&src, &i);
    // rows 0 and 2 only
    assert_eq!(uv, vec![21, 41, 25, 45]);
}

#[test]
fn uniform_input_gives_uniform_planes() {
    // every Y, U and V sample is 0x80, so every output byte is 0x80
    let (w, h) = (16usize, 8usize);
    let src = vec![0x80u8; w * h * 2];
    let i = info(w, h);
    let out = convert_frame(&src, &i).unwrap();
    assert_eq!(out.len(), w * h * 3 / 2);
    assert!(out.iter().all(|&b| b == 0x80));
    // the UV plane alternates 0x80, 0x80
    let uv = &out[w * h..];
    assert_eq!(uv.len(), w * h / 2);
    for pair in uv.chunks(2) {
        assert_eq!(pair, [0x80, 0x80]);
    }
}

#[test]
fn luma_ramp_survives_at_full_resolution() {
    // Y ramps 0..=255 across each row, U and V constant
    let (w, h) = (256usize, 2usize);
    let mut src = vec![0u8; w * h * 2];
    for y in 0..h {
        for x in 0..w {
            src[2 * (y * w + x)] = x as u8;
            src[2 * (y * w + x) + 1] = 0x80;
        }
    }
    let i = info(w, h);
    let out = convert_frame(&src, &i).unwrap();
    for y in 0..h {
        for x in 0..w {
            assert_eq!(out[y * w + x], x as u8, "pixel ({}, {})", x, y);
        }
    }
}

#[test]
fn converting_twice_is_byte_identical() {
    let (w, h) = (64usize, 4usize);
    let src: Vec<u8> = (0..w * h * 2).map(|i| (i * 7 % 251) as u8).collect();
    let i = info(w, h);
    let first = convert_frame(&src, &i).unwrap();
    let second = convert_frame(&src, &i).unwrap();
    assert_eq!(first, second);
}

#[test]
fn wrong_input_length_is_rejected() {
    let i = info(640, 480);
    let short = vec![0u8; 640 * 480 * 2 - 1];
    match convert_frame(&short, &i) {
        Err(ConvertError::FrameSize { expected, actual }) => {
            assert_eq!(expected, 640 * 480 * 2);
            assert_eq!(actual, 640 * 480 * 2 - 1);
        }
        other => panic!("expected FrameSize error, got {:?}", other),
    }
    let empty: Vec<u8> = vec![];
    assert!(matches!(
        convert_frame(&empty, &i),
        Err(ConvertError::FrameSize { .. })
    ));
}

#[test]
fn output_length_is_total_byte_cnt() {
    for (w, h) in [(4usize, 2usize), (640, 480), (354, 242)] {
        let i = info(w, h);
        let src = vec![7u8; w * h * 2];
        let out = convert_frame(&src, &i).unwrap();
        assert_eq!(out.len(), i.total_byte_cnt());
    }
}
