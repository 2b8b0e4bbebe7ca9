use glconvert::layout::Nv12SizeInfo;

fn info(width: usize, height: usize) -> Nv12SizeInfo {
    Nv12SizeInfo { width, height }
}

#[test]
fn constants_per_word() {
    let i = info(1920, 1080);
    assert_eq!(i.y_in_px_per_word(), 2);
    assert_eq!(i.y_out_px_per_word(), 4);
    assert_eq!(i.uv_scale(), 2);
    assert_eq!(i.uv_bytes_per_px(), 2);
    assert_eq!(i.uv_px_per_word(), 2);
}

#[test]
fn layout_1080p() {
    let i = info(1920, 1080);
    assert_eq!(i.y_out_px_cnt(), 2_073_600);
    assert_eq!(i.y_out_word_cnt(), 518_400);
    assert_eq!(i.y_out_byte_cnt(), 2_073_600);
    assert_eq!(i.y_in_word_stride(), 960);
    assert_eq!(i.y_out_word_stride(), 480);
    assert_eq!(i.uv_out_width(), 960);
    assert_eq!(i.uv_out_height(), 540);
    assert_eq!(i.uv_out_px_cnt(), 518_400);
    assert_eq!(i.uv_out_byte_cnt(), 1_036_800);
    assert_eq!(i.uv_in_word_stride(), 960);
    assert_eq!(i.uv_out_word_stride(), 480);
    assert_eq!(i.total_byte_cnt(), 3_110_400);
    assert_eq!(i.yuy2_byte_cnt(), 4_147_200);
}

#[test]
fn total_is_three_halves_of_pixels() {
    // representative resolutions, including one not divisible by 16
    for (w, h) in [(1920usize, 1080usize), (1280, 720), (640, 480), (354, 242), (2, 2)] {
        let i = info(w, h);
        assert_eq!(i.total_byte_cnt(), w * h * 3 / 2, "{}x{}", w, h);
    }
}

#[test]
fn plane_byte_accounting_round_trip() {
    for (w, h) in [(1920usize, 1080usize), (1280, 720), (640, 480), (354, 242)] {
        let i = info(w, h);
        assert_eq!(i.y_out_byte_cnt() + i.uv_out_byte_cnt(), i.total_byte_cnt(), "{}x{}", w, h);
    }
}
