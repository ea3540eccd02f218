use userspace::ramfs::{create_ramfs_super_block, InoAllocator, RamFileSystem, RamFileSystems, RamFsInode};
use userspace::syscall::{SysError, EEXIST};
use userspace::vfs::{FileTypeFlag, Rdev, SuperBlock};

#[test]
fn inode_numbers_count_up_and_are_reused_last_first() {
    let mut a = InoAllocator::new();
    assert_eq!(a.allocate(), 0);
    assert_eq!(a.allocate(), 1);
    assert_eq!(a.allocate(), 2);
    a.dealloc(1);
    a.dealloc(0);
    assert_eq!(a.allocate(), 0);
    assert_eq!(a.allocate(), 1);
    assert_eq!(a.allocate(), 3);
}

#[test]
fn read_after_write() {
    let mut n = RamFsInode::empty(7);
    n.mark_as_file();
    n.write(0, b"hello");
    assert_eq!(n.read(0, 5), b"hello".to_vec());
    assert_eq!(n.read(1, 3), b"ell".to_vec());
}

#[test]
fn write_past_the_end_fills_with_zeros() {
    let mut n = RamFsInode::empty(7);
    n.write(0, b"hello");
    n.write(7, b"xy");
    assert_eq!(n.content, b"hello\0\0xy".to_vec());
    n.write(1, b"EL");
    assert_eq!(n.content, b"hELlo\0\0xy".to_vec());
}

#[test]
fn read_stops_at_the_end() {
    let mut n = RamFsInode::empty(7);
    n.write(0, b"abc");
    assert_eq!(n.read(1, 100), b"bc".to_vec());
    assert_eq!(n.read(3, 1), Vec::<u8>::new());
    assert_eq!(n.read(20, 1), Vec::<u8>::new());
}

#[test]
fn inode_device_number_round_trip() {
    let mut n = RamFsInode::empty(3);
    n.set_file_type(FileTypeFlag::DT_BLK);
    let r = Rdev::new(1, 5);
    n.set_rdev(r);
    assert_eq!(n.content.len(), std::mem::size_of::<usize>());
    if std::mem::size_of::<usize>() == 8 {
        assert_eq!(n.read_rdev(), r);
    } else {
        assert_eq!(n.read_rdev(), Rdev::new(1, 0));
    }
}

#[test]
fn marks_and_names() {
    let mut n = RamFsInode::empty(2);
    assert_eq!(n.file_type, FileTypeFlag::DT_UNKNOWN);
    n.mark_as_dir();
    assert_eq!(n.file_type, FileTypeFlag::DT_DIR);
    n.set_name("etc");
    assert_eq!(n.name, "etc");
    assert_eq!(n.read_dir(), Vec::<usize>::new());
}

#[test]
fn new_file_system_has_a_root() {
    let fs = RamFileSystem::new();
    assert_eq!(fs.inode_queue.len(), 1);
    assert_eq!(fs.inode_queue[0].ino, 0);
    assert_eq!(fs.inode_queue[0].name, "/");
    assert_eq!(fs.inode_queue[0].file_type, FileTypeFlag::DT_DIR);
    assert_eq!(fs.search_ramfs_inode(0), Some(0));
    assert_eq!(fs.search_ramfs_inode(1), None);
}

#[test]
fn create_then_lookup() {
    let mut fs = RamFileSystem::new();
    assert_eq!(fs.lookup(0, "a"), None);
    assert_eq!(fs.create(0, "a"), Ok(1));
    assert_eq!(fs.lookup(0, "a"), Some(1));
    assert_eq!(fs.inode_queue[1].file_type, FileTypeFlag::DT_REG);
    assert_eq!(fs.create(0, "a"), Err(SysError { errno: EEXIST }));
    assert_eq!(fs.inode_queue.len(), 2);
}

#[test]
fn directories_nest() {
    let mut fs = RamFileSystem::new();
    assert_eq!(fs.mkdir(0, "dev"), Ok(1));
    assert_eq!(fs.create(1, "tty"), Ok(2));
    assert_eq!(fs.lookup(1, "tty"), Some(2));
    assert_eq!(fs.lookup(0, "tty"), None);
    assert_eq!(fs.inode_queue[0].read_dir(), vec![1]);
    assert_eq!(fs.mkdir(0, "dev"), Err(SysError { errno: EEXIST }));
}

#[test]
fn device_nodes_are_not_listed() {
    let mut fs = RamFileSystem::new();
    let ino = fs.mknod(0, "sda", FileTypeFlag::DT_BLK, Rdev::new(0, 2)).unwrap();
    assert_eq!(ino, 1);
    assert_eq!(fs.lookup(0, "sda"), None);
    assert_eq!(fs.inode_queue[1].read_rdev(), Rdev::new(0, if std::mem::size_of::<usize>() == 8 { 2 } else { 0 }));
    let i = fs.alloc_ramfs_inode();
    assert_eq!(i, 2);
    assert_eq!(fs.search_ramfs_inode(2), Some(2));
}

#[test]
fn super_block_for_a_new_device() {
    let mut instances = RamFileSystems::new();
    let sb = create_ramfs_super_block(&mut instances, Rdev::new(0, 7));
    assert_eq!(sb, Some(SuperBlock { rdev: Rdev::new(0, 7), root: Some(0) }));
    assert_eq!(instances.list.len(), 1);
    assert_eq!(instances.get_ram_fs_instance(7u64 << 32), Some(0));
    assert_eq!(instances.get_ram_fs_instance(7), None);
}

#[test]
fn handing_back_numbers_in_use_reuses_them() {
    let mut a = InoAllocator::new();
    let x = a.allocate();
    let y = a.allocate();
    assert_eq!((x, y), (0, 1));
    a.dealloc(x);
    a.dealloc(y);
    assert_eq!(a.allocate(), 1);
    assert_eq!(a.allocate(), 0);
    assert_eq!(a.allocate(), 2);
}
