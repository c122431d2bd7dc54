use tlsf::align::{round_down, round_up};

#[test]
fn round_up_unaligned() {
    assert_eq!(round_up(13, 4), (16, 1));
}

#[test]
fn round_down_unaligned() {
    assert_eq!(round_down(13, 4), 12);
}

#[test]
fn round_aligned_values_stay() {
    assert_eq!(round_up(16, 4), (16, 0));
    assert_eq!(round_down(16, 4), 16);
    assert_eq!(round_up(0, 4), (0, 0));
    assert_eq!(round_down(0, 7), 0);
}

#[test]
fn round_by_one_is_identity() {
    assert_eq!(round_up(5, 1), (5, 0));
    assert_eq!(round_down(5, 1), 5);
}

#[test]
fn round_down_idempotent() {
    let once = round_down(13, 4);
    assert_eq!(round_down(once, 4), once);
}

#[test]
fn round_up_idempotent_with_zero_remainder() {
    let once = round_up(13, 4).0;
    assert_eq!(round_up(once, 4), (once, 0));
}

#[test]
fn rounding_lands_on_multiples() {
    for x in 0..100usize {
        for m in 1..10usize {
            let down = round_down(x, m);
            assert_eq!(down % m, 0);
            assert!(down <= x);
            assert!(x - down < m);

            let (up, rem) = round_up(x, m);
            assert_eq!(up % m, 0);
            assert!(up >= x);
            assert!(up - x < m);
            assert_eq!(rem, x % m);
        }
    }
}
