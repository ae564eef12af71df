use authenticode::align_up_to_8;

#[test]
fn test_align_up() {
    assert_eq!(align_up_to_8(0).unwrap(), 0);
    for i in 1..=8 {
        assert_eq!(align_up_to_8(i).unwrap(), 8);
    }
    for i in 9..=16 {
        assert_eq!(align_up_to_8(i).unwrap(), 16);
    }
}

#[test]
fn align_up_is_idempotent() {
    for i in 0..=64usize {
        let once = align_up_to_8(i).unwrap();
        assert_eq!(align_up_to_8(once), Some(once));
        assert_eq!(once % 8, 0);
        assert!(once >= i && once < i + 8);
    }
}

#[test]
fn align_up_reports_overflow() {
    assert_eq!(align_up_to_8(usize::MAX), None);
    assert_eq!(align_up_to_8(usize::MAX - 6), None);
    assert_eq!(align_up_to_8(usize::MAX - 7), Some(usize::MAX - 7));
    assert_eq!(align_up_to_8(usize::MAX - 8), Some(usize::MAX - 7));
}
