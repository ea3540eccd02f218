use userspace::fs_types::{register_devfs, register_ezfs, register_fatfs, register_ramfs};
use userspace::vfs::{FileSystem, FileSystems, FileTypeFlag, OpenFlag, Rdev, SuperBlock, SuperBlockReader};

#[test]
fn device_number_halves() {
    let r = Rdev::from(0x0000_0005_0000_0003u64);
    assert_eq!(r, Rdev { minor: 3, major: 5 });
    let v: u64 = Rdev::new(3, 5).into();
    assert_eq!(v, 0x0000_0005_0000_0003);
}

#[test]
fn rdev_u64_round_trip() {
    for v in [0u64, 1, u64::MAX, 0x1234_5678_9abc_def0] {
        let r = Rdev::from(v);
        let back: u64 = r.into();
        assert_eq!(back, v);
        assert_eq!(Rdev::from(back), r);
    }
}

#[test]
fn device_types() {
    assert!(FileTypeFlag::DT_CHR.is_device());
    assert!(FileTypeFlag::DT_BLK.is_device());
    assert!(!FileTypeFlag::DT_DIR.is_device());
    assert!(!FileTypeFlag::DT_REG.is_device());
}

#[test]
fn names_are_registered_once() {
    let mut fss = FileSystems::new();
    assert!(fss.register_filesystem(FileSystem::new("ramfs", SuperBlockReader::Ramfs)));
    assert!(fss.register_filesystem(FileSystem::new("devfs", SuperBlockReader::Devfs)));
    assert!(!fss.register_filesystem(FileSystem::new("ramfs", SuperBlockReader::Ramfs)));
    assert_eq!(fss.list.len(), 2);
}

#[test]
fn known_file_system_types() {
    let mut fss = FileSystems::new();
    register_ezfs(&mut fss);
    register_ramfs(&mut fss);
    register_devfs(&mut fss);
    register_fatfs(&mut fss);
    let names: Vec<&str> = fss.list.iter().map(|f| f.name.as_str()).collect();
    assert_eq!(names, vec!["ezfs", "ramfs", "devfs", "fatfs"]);
    let readers: Vec<SuperBlockReader> = fss.list.iter().map(|f| f.read_sb).collect();
    assert_eq!(
        readers,
        vec![SuperBlockReader::Ezfs, SuperBlockReader::Ramfs, SuperBlockReader::Devfs, SuperBlockReader::Fatfs]
    );
}

#[test]
fn super_blocks_are_read_once_per_device() {
    let mut fs = FileSystem::new("ezfs", SuperBlockReader::Ezfs);
    let reader = |r: Rdev| Some(SuperBlock { rdev: r, root: Some(0) });
    let a = fs.read_super_block(Rdev::new(0, 1), reader);
    assert_eq!(a, Some(SuperBlock { rdev: Rdev::new(0, 1), root: Some(0) }));
    let other = |r: Rdev| Some(SuperBlock { rdev: r, root: Some(9) });
    // Cached: the second reader is not asked.
    let b = fs.read_super_block(Rdev::new(0, 1), other);
    assert_eq!(b, a);
    assert_eq!(fs.super_blocks.len(), 1);
    let c = fs.read_super_block(Rdev::new(0, 2), other);
    assert_eq!(c, Some(SuperBlock { rdev: Rdev::new(0, 2), root: Some(9) }));
    assert_eq!(fs.super_blocks.len(), 2);
    let none = |_r: Rdev| None;
    assert_eq!(fs.read_super_block(Rdev::new(0, 3), none), None);
    assert_eq!(fs.super_blocks.len(), 2);
}

#[test]
fn open_flags_readable_writable() {
    let ro = OpenFlag { bits: 0 };
    let wo = OpenFlag { bits: OpenFlag::WRONLY };
    let rw = OpenFlag { bits: OpenFlag::RDWR };
    assert!(ro.readable() && !ro.writable());
    assert!(!wo.readable() && wo.writable());
    assert!(rw.readable() && rw.writable());
}

#[test]
fn directory_and_block_kinds() {
    assert!(FileTypeFlag::DT_DIR.is_dir());
    assert!(!FileTypeFlag::DT_REG.is_dir());
    assert!(FileTypeFlag::DT_BLK.is_blk());
    assert!(!FileTypeFlag::DT_CHR.is_blk());
}
