use ahci_block::blocks::{block_count, is_block_aligned};

#[test]
fn empty_buffer_needs_no_block() {
    assert_eq!(block_count(0, 512), 0);
    assert_eq!(block_count(0, 1), 0);
    assert_eq!(block_count(0, 4096), 0);
}

#[test]
fn one_block_exactly() {
    assert_eq!(block_count(512, 512), 1);
    assert_eq!(block_count(4096, 4096), 1);
    assert_eq!(block_count(1, 1), 1);
}

#[test]
fn one_byte_over_a_block_needs_two() {
    assert_eq!(block_count(513, 512), 2);
    assert_eq!(block_count(4097, 4096), 2);
    assert_eq!(block_count(2, 1), 2);
}

#[test]
fn count_rounds_up() {
    assert_eq!(block_count(1, 512), 1);
    assert_eq!(block_count(511, 512), 1);
    assert_eq!(block_count(600, 512), 2);
    assert_eq!(block_count(1023, 512), 2);
    assert_eq!(block_count(1024, 512), 2);
    assert_eq!(block_count(1025, 512), 3);
    assert_eq!(block_count(10, 3), 4);
    assert_eq!(block_count(9, 3), 3);
}

#[test]
fn count_is_the_least_cover() {
    for block_size in 1usize..40 {
        for len in 0usize..400 {
            let n = block_count(len, block_size);
            assert!(n * block_size >= len);
            assert!(n == 0 || (n - 1) * block_size < len);
        }
    }
}

#[test]
fn count_of_the_largest_length_does_not_overflow() {
    assert_eq!(block_count(usize::MAX, 1), usize::MAX);
    assert_eq!(block_count(usize::MAX, usize::MAX), 1);
    assert_eq!(block_count(usize::MAX - 1, usize::MAX), 1);
    assert_eq!(block_count(usize::MAX, 2), usize::MAX / 2 + 1);
    assert_eq!(block_count(usize::MAX, 512), usize::MAX / 512 + 1);
    assert_eq!(block_count(usize::MAX - 511, 512), usize::MAX / 512);
}

#[test]
fn alignment_is_a_zero_remainder() {
    assert!(is_block_aligned(0, 512));
    assert!(is_block_aligned(512, 512));
    assert!(is_block_aligned(1024, 512));
    assert!(!is_block_aligned(1, 512));
    assert!(!is_block_aligned(511, 512));
    assert!(!is_block_aligned(513, 512));
    assert!(!is_block_aligned(600, 512));
    assert!(is_block_aligned(7, 1));
    assert!(!is_block_aligned(usize::MAX, 2));
}

#[test]
fn aligned_lengths_are_covered_exactly() {
    for block_size in 1usize..40 {
        for blocks in 0usize..20 {
            let len = blocks * block_size;
            assert!(is_block_aligned(len, block_size));
            assert_eq!(block_count(len, block_size), blocks);
        }
    }
}
