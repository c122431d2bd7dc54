use tlsf::bits::{ffs, fls};

#[test]
fn fls_single_bits() {
    assert_eq!(fls(1), 0);
    assert_eq!(fls(2), 1);
    assert_eq!(fls(64), 6);
    assert_eq!(fls(256), 8);
    assert_eq!(fls(0x8000), 15);
}

#[test]
fn fls_mixed_bits() {
    assert_eq!(fls(3), 1);
    assert_eq!(fls(100), 6);
    assert_eq!(fls(255), 7);
    assert_eq!(fls(0xffff), 15);
}

#[test]
fn ffs_single_bits() {
    assert_eq!(ffs(1), 0);
    assert_eq!(ffs(2), 1);
    assert_eq!(ffs(8), 3);
    assert_eq!(ffs(0x8000), 15);
}

#[test]
fn ffs_mixed_bits() {
    assert_eq!(ffs(12), 2);
    assert_eq!(ffs(0xffff), 0);
    assert_eq!(ffs(0xff00), 8);
}

#[test]
fn ffs_zero_has_no_set_bit() {
    assert_eq!(ffs(0), 16);
}
