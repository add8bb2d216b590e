use ahci_block::{DevError, Direction, Transfer};

#[test]
fn plan_counts_blocks_rounding_up() {
    let t = Transfer::plan(Direction::Read, 512, 5, 512);
    assert_eq!((t.start_block, t.block_count, t.expected, t.aligned), (5, 1, 1, true));
    let t = Transfer::plan(Direction::Read, 512, 5, 513);
    assert_eq!((t.start_block, t.block_count, t.expected, t.aligned), (5, 2, 2, false));
    let t = Transfer::plan(Direction::Write, 512, 5, 0);
    assert_eq!((t.start_block, t.block_count, t.expected, t.aligned), (5, 0, 0, true));
    let t = Transfer::plan(Direction::Write, 512, 5, 1536);
    assert_eq!((t.start_block, t.block_count, t.expected, t.aligned), (5, 3, 3, true));
}

#[test]
fn plan_keeps_the_direction() {
    assert_eq!(Transfer::plan(Direction::Read, 512, 0, 512).direction, Direction::Read);
    assert_eq!(Transfer::plan(Direction::Write, 512, 0, 512).direction, Direction::Write);
}

#[test]
fn matching_report_succeeds() {
    let t = Transfer::plan(Direction::Read, 512, 0, 1024);
    assert_eq!(t.finish(2), Ok(()));
}

#[test]
fn short_report_is_an_io_error() {
    let t = Transfer::plan(Direction::Read, 512, 0, 1024);
    assert_eq!(t.finish(1), Err(DevError::Io));
    assert_eq!(t.finish(0), Err(DevError::Io));
    let t = Transfer::plan(Direction::Write, 512, 0, 1024);
    assert_eq!(t.finish(1), Err(DevError::Io));
}

#[test]
fn long_report_is_an_io_error() {
    let t = Transfer::plan(Direction::Write, 512, 0, 1024);
    assert_eq!(t.finish(3), Err(DevError::Io));
    assert_eq!(t.finish(u64::MAX), Err(DevError::Io));
}

#[test]
fn report_is_held_against_the_full_count() {
    let t = Transfer {
        direction: Direction::Read,
        start_block: 0,
        block_count: 5,
        expected: 0x1_0000_0005,
        aligned: true,
    };
    assert_eq!(t.finish(5), Err(DevError::Io));
    assert_eq!(t.finish(0x1_0000_0005), Ok(()));
}

#[test]
fn controller_is_handed_the_low_32_bits_of_the_count() {
    let len: u64 = 0x1_0000_0005;
    if let Ok(len) = usize::try_from(len) {
        let t = Transfer::plan(Direction::Write, 1, 0, len);
        assert_eq!(t.expected, 0x1_0000_0005);
        assert_eq!(t.block_count, 5);
        assert!(t.aligned);
        let t = Transfer::plan(Direction::Write, 2, 0, len);
        assert_eq!(t.expected, 0x8000_0003);
        assert_eq!(t.block_count, 0x8000_0003);
        assert!(!t.aligned);
    }
    let t = Transfer::plan(Direction::Read, 1, 0, 0xFFFF_FFFF);
    assert_eq!(t.expected, 0xFFFF_FFFF);
    assert_eq!(t.block_count, 0xFFFF_FFFF);
}

#[test]
fn largest_buffer_is_planned_without_overflow() {
    let t = Transfer::plan(Direction::Read, 512, 0, usize::MAX);
    assert_eq!(t.expected, (usize::MAX / 512) as u64 + 1);
    assert_eq!(t.block_count, t.expected as u32);
    assert!(!t.aligned);
}
