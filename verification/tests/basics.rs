use arducam_mega::add_one;

#[test]
fn test_add_one() {
    assert_eq!(add_one(5), 6);
    assert_eq!(add_one(0), 1);
    assert_eq!(add_one(u32::MAX), 0);
}
