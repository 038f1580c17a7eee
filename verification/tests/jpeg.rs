use arducam_mega::find_jpeg_eof;

#[test]
fn find_jpeg_eof_finds_first_byte() {
    assert_eq!(find_jpeg_eof(&[0xff, 0xd9]).unwrap(), 2);
}

#[test]
fn find_jpeg_eof_finds_not_2_aligned_byte() {
    assert_eq!(find_jpeg_eof(&[0x00, 0xff, 0xd9]).unwrap(), 3);
}

#[test]
fn find_jpeg_eof_returns_last_match() {
    assert_eq!(find_jpeg_eof(&[0xff, 0xd9, 0xff, 0xd9]).unwrap(), 4);
}

#[test]
fn find_jpeg_eof_identifies_missing_tag() {
    assert!(find_jpeg_eof(&[]).is_none());
}

#[test]
fn find_jpeg_eof_ignores_trailing_padding() {
    let data = [0xff, 0xff, 0xff, 0xd9, 0x00, 0x00, 0x00];
    assert_eq!(find_jpeg_eof(&data).unwrap(), 4);
}

#[test]
fn find_jpeg_eof_handles_single_byte() {
    assert!(find_jpeg_eof(&[0xff]).is_none());
}

#[test]
fn find_jpeg_eof_handles_marker_bytes_apart() {
    assert!(find_jpeg_eof(&[0xff, 0x00, 0xd9]).is_none());
}
