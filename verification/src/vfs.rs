//! Virtual file system records: device numbers, file types, super blocks and
//! the table of registered file systems.
use vstd::prelude::*;
use vstd::std_specs::convert::FromSpecImpl;

verus! {

/// A device number: minor and major.
#[derive(Clone, Copy, Debug, PartialEq, Eq, Structural)]
pub struct Rdev {
    pub minor: u32,
    pub major: u32,
}

/// The 64-bit form of a device number: minor in the low half, major in the
/// high half.
pub open spec fn rdev_bits(r: Rdev) -> u64 {
    (r.minor as u64) | ((r.major as u64) << 32u64)
}

/// The device number a 64-bit value stands for.
pub open spec fn rdev_of(val: u64) -> Rdev {
    Rdev { minor: (val & 0xFFFF_FFFF) as u32, major: ((val >> 32u64) & 0xFFFF_FFFF) as u32 }
}

impl Rdev {
    pub fn new(minor: u32, major: u32) -> (r: Rdev)
        ensures
            r == (Rdev { minor, major }),
    {
        Rdev { minor, major }
    }
}

impl From<u64> for Rdev {
    fn from(val: u64) -> (r: Rdev) {
        Rdev { minor: (val & 0xFFFF_FFFF) as u32, major: ((val >> 32) & 0xFFFF_FFFF) as u32 }
    }
}

impl FromSpecImpl<u64> for Rdev {
    open spec fn obeys_from_spec() -> bool {
        true
    }

    open spec fn from_spec(val: u64) -> Rdev {
        rdev_of(val)
    }
}

impl From<Rdev> for u64 {
    fn from(r: Rdev) -> (v: u64) {
        (r.minor as u64) | ((r.major as u64) << 32)
    }
}

impl FromSpecImpl<Rdev> for u64 {
    open spec fn obeys_from_spec() -> bool {
        true
    }

    open spec fn from_spec(r: Rdev) -> u64 {
        rdev_bits(r)
    }
}

/// Law: a device number survives the trip through its 64-bit form, and a
/// 64-bit value survives the trip through a device number.
pub proof fn law_rdev_round_trip(r: Rdev, val: u64)
    ensures
        rdev_of(rdev_bits(r)) == r,
        rdev_bits(rdev_of(val)) == val,
{
    let mi = r.minor;
    let ma = r.major;
    let b = (mi as u64) | ((ma as u64) << 32u64);
    assert((b & 0xFFFF_FFFF) as u32 == mi && ((b >> 32u64) & 0xFFFF_FFFF) as u32 == ma) by (bit_vector)
        requires
            b == (mi as u64) | ((ma as u64) << 32u64),
    ;
    let lo = (val & 0xFFFF_FFFF) as u32;
    let hi = ((val >> 32u64) & 0xFFFF_FFFF) as u32;
    assert((lo as u64) | ((hi as u64) << 32u64) == val) by (bit_vector)
        requires
            lo == (val & 0xFFFF_FFFF) as u32,
            hi == ((val >> 32u64) & 0xFFFF_FFFF) as u32,
    ;
}

/// Kind of a file.
#[derive(Clone, Copy, Debug, PartialEq, Eq, Structural)]
pub enum FileTypeFlag {
    DT_UNKNOWN,
    DT_FIFO,
    DT_CHR,
    DT_DIR,
    DT_BLK,
    DT_REG,
    DT_LNK,
    DT_SOCK,
    DT_WHT,
}

impl FileTypeFlag {
    /// Whether the file is a device: a character or block device.
    pub open spec fn device(self) -> bool {
        self is DT_CHR || self is DT_BLK
    }

    /// Whether the file is a directory.
    pub fn is_dir(&self) -> (r: bool)
        ensures
            r == (*self is DT_DIR),
    {
        match self {
            FileTypeFlag::DT_DIR => true,
            _ => false,
        }
    }

    /// Whether the file is a block device.
    pub fn is_blk(&self) -> (r: bool)
        ensures
            r == (*self is DT_BLK),
    {
        match self {
            FileTypeFlag::DT_BLK => true,
            _ => false,
        }
    }

    /// Whether the file is a device: a character or block device.
    pub fn is_device(&self) -> (r: bool)
        ensures
            r == self.device(),
    {
        match self {
            FileTypeFlag::DT_CHR | FileTypeFlag::DT_BLK => true,
            _ => false,
        }
    }
}

/// The flags a file was opened with.
#[derive(Clone, Copy, Debug, PartialEq, Eq, Structural)]
pub struct OpenFlag {
    pub bits: u32,
}

impl OpenFlag {
    /// Open for writing only.
    pub const WRONLY: u32 = 1;
    /// Open for reading and writing.
    pub const RDWR: u32 = 2;

    /// Whether a file opened so can be read: it is not write-only, or it is
    /// read-write.
    pub fn readable(&self) -> (r: bool)
        ensures
            r == ((self.bits & 1) == 0 || (self.bits & 2) != 0),
    {
        (self.bits & Self::WRONLY) == 0 || (self.bits & Self::RDWR) != 0
    }

    /// Whether a file opened so can be written: it is write-only or
    /// read-write.
    pub fn writable(&self) -> (r: bool)
        ensures
            r == ((self.bits & 1) != 0 || (self.bits & 2) != 0),
    {
        (self.bits & Self::WRONLY) != 0 || (self.bits & Self::RDWR) != 0
    }
}

/// A mounted file system instance: its device and the inode number of its
/// root directory entry, once there is one.
#[derive(Clone, Copy, Debug, PartialEq, Eq, Structural)]
pub struct SuperBlock {
    pub rdev: Rdev,
    pub root: Option<usize>,
}

impl SuperBlock {
    pub fn new(rdev: Rdev) -> (r: SuperBlock)
        ensures
            r == (SuperBlock { rdev, root: None }),
    {
        SuperBlock { rdev, root: None }
    }
}

/// The function a file system type reads a device's super block with.
#[derive(Clone, Copy, Debug, PartialEq, Eq, Structural)]
pub enum SuperBlockReader {
    /// `ramfs::create_ramfs_super_block`.
    Ramfs,
    /// `devfs::create_devfs_super_block`.
    Devfs,
    /// The easy-fs reader.
    Ezfs,
    /// The FAT reader.
    Fatfs,
}

/// `f` reads super blocks as `reader` does: the in-memory file system's
/// reader gives a super block for the device with the root at inode 0, the
/// device file system's one for the device with some root. Nothing is
/// asked of the readers of the file systems this library does not hold.
pub open spec fn reads_as<F: Fn(Rdev) -> Option<SuperBlock>>(reader: SuperBlockReader, f: F) -> bool {
    match reader {
        SuperBlockReader::Ramfs => forall|rdev: Rdev, r: Option<SuperBlock>| #[trigger] f.ensures((rdev,), r)
            ==> r == Some(SuperBlock { rdev, root: Some(0usize) }),
        SuperBlockReader::Devfs => forall|rdev: Rdev, r: Option<SuperBlock>| #[trigger] f.ensures((rdev,), r)
            ==> (r is Some && r->0.rdev == rdev && r->0.root is Some),
        _ => true,
    }
}

/// A file system type: its name, the function that reads its super blocks,
/// and the super blocks read so far.
pub struct FileSystem {
    pub name: String,
    pub read_sb: SuperBlockReader,
    pub super_blocks: Vec<SuperBlock>,
}

impl FileSystem {
    /// A file system type with no super block read yet.
    pub fn new(name: &str, read_sb: SuperBlockReader) -> (r: FileSystem)
        ensures
            r.name@ == name@,
            r.read_sb == read_sb,
            r.super_blocks@ == Seq::<SuperBlock>::empty(),
    {
        FileSystem { name: name.to_owned(), read_sb, super_blocks: Vec::new() }
    }

    /// The super block of a device: the one read before for it, if any;
    /// else the one `read_sb` reads, which is kept for next time. `None` when
    /// there was none and `read_sb` finds none.
    pub fn read_super_block<F: Fn(Rdev) -> Option<SuperBlock>>(&mut self, rdev: Rdev, read_sb: F) -> (r:
        Option<SuperBlock>)
        requires
            read_sb.requires((rdev,)),
            reads_as(self.read_sb, read_sb),
        ensures
            final(self).name == old(self).name,
            final(self).read_sb == old(self).read_sb,
            (exists|i: int| 0 <= i < old(self).super_blocks@.len() && (#[trigger] old(self).super_blocks@[i]).rdev == rdev) ==> {
                &&& final(self).super_blocks@ == old(self).super_blocks@
                &&& r matches Some(sb) && exists|k: int|
                    #![trigger old(self).super_blocks@[k]]
                    0 <= k < old(self).super_blocks@.len() && old(self).super_blocks@[k] == sb && sb.rdev == rdev
                        && forall|j: int| 0 <= j < k ==> (#[trigger] old(self).super_blocks@[j]).rdev != rdev
            },
            !(exists|i: int| 0 <= i < old(self).super_blocks@.len() && (#[trigger] old(self).super_blocks@[i]).rdev == rdev) ==> {
                &&& read_sb.ensures((rdev,), r)
                &&& r matches Some(sb) ==> final(self).super_blocks@ == old(self).super_blocks@.push(sb)
                &&& r is None ==> final(self).super_blocks@ == old(self).super_blocks@
            },
    {
        let mut i: usize = 0;
        while i < self.super_blocks.len()
            invariant
                i <= self.super_blocks@.len(),
                *self == *old(self),
                forall|j: int| 0 <= j < i ==> (#[trigger] self.super_blocks@[j]).rdev != rdev,
            decreases self.super_blocks@.len() - i,
        {
            if self.super_blocks[i].rdev == rdev {
                return Some(self.super_blocks[i]);
            }
            i = i + 1;
        }
        let result = read_sb(rdev);
        match result {
            Some(sb) => {
                self.super_blocks.push(sb);
                Some(sb)
            },
            None => None,
        }
    }
}

/// The names of registered file system types.
pub open spec fn fs_names(fss: Seq<FileSystem>) -> Seq<Seq<char>> {
    fss.map_values(|f: FileSystem| f.name@)
}

/// The registered file system types, each name once.
pub struct FileSystems {
    pub list: Vec<FileSystem>,
}

impl FileSystems {
    pub fn new() -> (r: FileSystems)
        ensures
            r.list@.len() == 0,
    {
        FileSystems { list: Vec::new() }
    }

    /// Register a file system type; refused (false, nothing changed) when a
    /// type of that name is registered already.
    pub fn register_filesystem(&mut self, new_filesystem: FileSystem) -> (r: bool)
        ensures
            r == !fs_names(old(self).list@).contains(new_filesystem.name@),
            r ==> final(self).list@ == old(self).list@.push(new_filesystem),
            !r ==> final(self).list@ == old(self).list@,
    {
        let mut i: usize = 0;
        while i < self.list.len()
            invariant
                i <= self.list@.len(),
                self.list@ == old(self).list@,
                forall|j: int| 0 <= j < i ==> (#[trigger] self.list@[j]).name@ != new_filesystem.name@,
            decreases self.list@.len() - i,
        {
            if self.list[i].name == new_filesystem.name {
                proof {
                    assert(fs_names(old(self).list@)[i as int] == new_filesystem.name@);
                }
                return false;
            }
            i = i + 1;
        }
        proof {
            assert forall|j: int| 0 <= j < fs_names(old(self).list@).len() implies fs_names(old(self).list@)[j]
                != new_filesystem.name@ by {
                assert(self.list@[j].name@ != new_filesystem.name@);
            }
        }
        self.list.push(new_filesystem);
        true
    }
}

/// Law: registration keeps the registered names distinct.
pub proof fn law_register_keeps_names_unique(before: Seq<FileSystem>, fs: FileSystem, registered: bool, after: Seq<FileSystem>)
    requires
        fs_names(before).no_duplicates(),
        registered == !fs_names(before).contains(fs.name@),
        registered ==> after == before.push(fs),
        !registered ==> after == before,
    ensures
        fs_names(after).no_duplicates(),
{
    if registered {
        assert(fs_names(after) =~= fs_names(before).push(fs.name@));
    }
}

} // verus!
