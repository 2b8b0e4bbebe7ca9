use glconvert::test_file::{get_extension, get_res_from_file_path, NameError, TestFile};

#[test]
fn well_named_file_parses() {
    let tf = TestFile::new("/data/frames".to_string(), "1920x1080.raw".to_string()).unwrap();
    assert_eq!(tf.dir, "/data/frames");
    assert_eq!(tf.name, "1920x1080.raw");
    assert_eq!(tf.extension, "raw");
    assert_eq!(tf.width, 1920);
    assert_eq!(tf.height, 1080);
}

#[test]
fn path_joins_dir_and_name() {
    let tf = TestFile::new("/data/frames".to_string(), "640x480.yuy2".to_string()).unwrap();
    assert_eq!(tf.path(), "/data/frames/640x480.yuy2");
}

#[test]
fn extension_is_after_last_dot() {
    assert_eq!(get_extension("1920x1080.tar.gz").unwrap(), "gz");
    assert_eq!(get_extension("12x34.").unwrap(), "");
    assert_eq!(get_extension("a.b").unwrap(), "b");
}

#[test]
fn missing_extension_is_rejected() {
    assert_eq!(get_extension("1920x1080"), Err(NameError::NoExtension));
    assert_eq!(get_extension(".raw"), Err(NameError::NoExtension));
    assert_eq!(get_extension(""), Err(NameError::NoExtension));
    assert_eq!(
        TestFile::new("d".to_string(), "1920x1080".to_string()),
        Err(NameError::NoExtension)
    );
}

#[test]
fn resolution_needs_two_digits_each_side() {
    assert_eq!(get_res_from_file_path("1920x1080.raw").unwrap(), (1920, 1080));
    assert_eq!(get_res_from_file_path("10x20"), Ok((10, 20)));
    assert_eq!(get_res_from_file_path("5x50.raw"), Err(NameError::NoResolution));
    assert_eq!(get_res_from_file_path("50x5.raw"), Err(NameError::NoResolution));
    assert_eq!(get_res_from_file_path("x1080.raw"), Err(NameError::NoResolution));
    assert_eq!(get_res_from_file_path("1920.raw"), Err(NameError::NoResolution));
    assert_eq!(get_res_from_file_path("frame.raw"), Err(NameError::NoResolution));
    assert_eq!(get_res_from_file_path(""), Err(NameError::NoResolution));
}

#[test]
fn resolution_reads_leading_runs_only() {
    // the pattern is anchored at the start; later text is ignored
    assert_eq!(get_res_from_file_path("1920x1080x60.raw").unwrap(), (1920, 1080));
    assert_eq!(get_res_from_file_path("640x480_dark.yuy2").unwrap(), (640, 480));
    assert_eq!(
        TestFile::new("d".to_string(), "12x34x56.raw".to_string()).unwrap().height,
        34
    );
}

#[test]
fn oversized_resolution_is_rejected() {
    let name = "99999999999999999999x99999999999999999999.raw";
    assert_eq!(get_res_from_file_path(name), Err(NameError::ResolutionOverflow));
    assert_eq!(
        TestFile::new("d".to_string(), name.to_string()),
        Err(NameError::ResolutionOverflow)
    );
}

#[test]
fn new_checks_extension_before_resolution() {
    // no extension and no resolution: the extension error wins
    assert_eq!(
        TestFile::new("d".to_string(), "frame".to_string()),
        Err(NameError::NoExtension)
    );
}
