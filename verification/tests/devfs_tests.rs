use userspace::devfs::{assemble_block_read, block_span, create_devfs_super_block, Block, Character, BLOCK_SIZE};
use userspace::ramfs::InoAllocator;
use userspace::vfs::{Rdev, SuperBlock};

fn block(seed: u8) -> Vec<u8> {
    (0..BLOCK_SIZE).map(|k| (k as u8).wrapping_add(seed)).collect()
}

#[test]
fn span_of_a_read() {
    assert_eq!(block_span(10, 5), (0, 0));
    assert_eq!(block_span(510, 4), (0, 1));
    assert_eq!(block_span(1024, 512), (2, 2));
}

#[test]
fn read_within_one_block() {
    let r = assemble_block_read(10, 5, &vec![block(0)]);
    assert_eq!(r, vec![10, 11, 12, 13, 14]);
}

#[test]
fn read_across_a_block_boundary() {
    let r = assemble_block_read(510, 4, &vec![block(0), block(100)]);
    assert_eq!(r, vec![254, 255, 100, 101]);
}

#[test]
fn read_ending_on_a_block_boundary_copies_the_whole_last_block() {
    let whole = assemble_block_read(0, 512, &vec![block(1)]);
    assert_eq!(whole, block(1));
    let r = assemble_block_read(500, 524, &vec![block(0), block(7)]);
    assert_eq!(&r[..12], &block(0)[500..512]);
    assert_eq!(&r[12..], &block(7)[..]);
    let tail = assemble_block_read(500, 12, &vec![block(3)]);
    assert_eq!(tail, block(3)[500..512].to_vec());
}

#[test]
fn device_handles_and_super_block() {
    let b = Block::new(Rdev::new(0, 2));
    assert_eq!(b.rdev, Rdev::new(0, 2));
    assert_eq!(Character::new(Rdev::new(1, 4)).rdev, Rdev::new(1, 4));
    let mut inos = InoAllocator::new();
    assert_eq!(
        create_devfs_super_block(Rdev::new(0, 0), &mut inos),
        Some(SuperBlock { rdev: Rdev::new(0, 0), root: Some(0) })
    );
    assert_eq!(inos.allocate(), 1);
}
