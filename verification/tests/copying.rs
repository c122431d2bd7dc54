use tlsf::copying::copy_nonoverlapping;

#[test]
fn copies_exactly_a_whole_number_of_words() {
    let src = vec![1u8, 2, 3, 4, 5, 6, 7, 8];
    let mut dst = vec![0u8; 8];
    copy_nonoverlapping(&src, &mut dst, 4);
    assert_eq!(dst, vec![1, 2, 3, 4, 0, 0, 0, 0]);
}

#[test]
fn copies_full_buffer() {
    let src = vec![9u8, 8, 7, 6, 5, 4, 3, 2];
    let mut dst = vec![0u8; 8];
    copy_nonoverlapping(&src, &mut dst, 8);
    assert_eq!(dst, src);
}

#[test]
fn ragged_count_overwrites_up_to_the_next_word() {
    // A count of 5 is rounded up to 8: the three bytes past the requested
    // range are written too, as the word-wise copy contract warns.
    let src = vec![1u8, 2, 3, 4, 5, 6, 7, 8];
    let mut dst = vec![0u8; 8];
    copy_nonoverlapping(&src, &mut dst, 5);
    assert_eq!(dst, vec![1, 2, 3, 4, 5, 6, 7, 8]);
}

#[test]
fn bytes_past_the_rounded_count_keep_their_values() {
    let src = vec![0xaau8; 12];
    let mut dst = vec![0x55u8; 12];
    copy_nonoverlapping(&src, &mut dst, 4);
    assert_eq!(dst[..4], [0xaa; 4]);
    assert_eq!(dst[4..], [0x55; 8]);
}

#[test]
fn zero_count_copies_nothing() {
    let src = vec![1u8, 2, 3, 4];
    let mut dst = vec![9u8, 9, 9, 9];
    copy_nonoverlapping(&src, &mut dst, 0);
    assert_eq!(dst, vec![9, 9, 9, 9]);
}
