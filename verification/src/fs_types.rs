//! Registration of the file system types the server knows.
use vstd::prelude::*;
use crate::vfs::{FileSystem, FileSystems, fs_names, SuperBlock, SuperBlockReader};

verus! {

/// The registry after registering a type of name `name`, read by `reader`,
/// with no super block.
pub open spec fn registered(
    before: Seq<FileSystem>,
    name: Seq<char>,
    reader: SuperBlockReader,
    after: Seq<FileSystem>,
) -> bool {
    &&& after.len() == before.len() + 1
    &&& after.drop_last() == before
    &&& after.last().name@ == name
    &&& after.last().read_sb == reader
    &&& after.last().super_blocks@ == Seq::<SuperBlock>::empty()
}

/// Register the in-memory file system type, "ramfs", whose super blocks
/// `create_ramfs_super_block` reads; it must not be registered yet.
pub fn register_ramfs(fss: &mut FileSystems)
    requires
        !fs_names(old(fss).list@).contains("ramfs"@),
    ensures
        registered(old(fss).list@, "ramfs"@, SuperBlockReader::Ramfs, final(fss).list@),
{
    let filesystem = FileSystem::new("ramfs", SuperBlockReader::Ramfs);
    let ok = fss.register_filesystem(filesystem);
    proof {
        assert(final(fss).list@.drop_last() =~= old(fss).list@) by {
            assert(ok);
        }
    }
}

/// Register the device file system type, "devfs", whose super blocks
/// `create_devfs_super_block` reads; it must not be registered yet.
pub fn register_devfs(fss: &mut FileSystems)
    requires
        !fs_names(old(fss).list@).contains("devfs"@),
    ensures
        registered(old(fss).list@, "devfs"@, SuperBlockReader::Devfs, final(fss).list@),
{
    let filesystem = FileSystem::new("devfs", SuperBlockReader::Devfs);
    let ok = fss.register_filesystem(filesystem);
    proof {
        assert(final(fss).list@.drop_last() =~= old(fss).list@) by {
            assert(ok);
        }
    }
}

/// Register the easy-fs file system type, "ezfs"; it must not be
/// registered yet.
pub fn register_ezfs(fss: &mut FileSystems)
    requires
        !fs_names(old(fss).list@).contains("ezfs"@),
    ensures
        registered(old(fss).list@, "ezfs"@, SuperBlockReader::Ezfs, final(fss).list@),
{
    let filesystem = FileSystem::new("ezfs", SuperBlockReader::Ezfs);
    let ok = fss.register_filesystem(filesystem);
    proof {
        assert(final(fss).list@.drop_last() =~= old(fss).list@) by {
            assert(ok);
        }
    }
}

/// Register the FAT file system type, "fatfs"; it must not be registered
/// yet.
pub fn register_fatfs(fss: &mut FileSystems)
    requires
        !fs_names(old(fss).list@).contains("fatfs"@),
    ensures
        registered(old(fss).list@, "fatfs"@, SuperBlockReader::Fatfs, final(fss).list@),
{
    let filesystem = FileSystem::new("fatfs", SuperBlockReader::Fatfs);
    let ok = fss.register_filesystem(filesystem);
    proof {
        assert(final(fss).list@.drop_last() =~= old(fss).list@) by {
            assert(ok);
        }
    }
}

} // verus!
