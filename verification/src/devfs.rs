//! The device file system: device handles, and how a read of a block
//! device is put together from the blocks it touches.
use vstd::prelude::*;
use std::sync::Arc;
use crate::vfs::{Rdev, SuperBlock, rdev_bits};
use crate::ramfs::InoAllocator;

verus! {

/// Bytes in a block of a block device.
pub const BLOCK_SIZE: usize = 512;

/// A block device.
pub struct Block {
    pub rdev: Rdev,
}

impl Block {
    pub fn new(rdev: Rdev) -> (r: Arc<Block>)
        ensures
            r.rdev == rdev,
    {
        Arc::new(Block { rdev })
    }
}

/// A character device.
pub struct Character {
    pub rdev: Rdev,
}

impl Character {
    pub fn new(rdev: Rdev) -> (r: Character)
        ensures
            r.rdev == rdev,
    {
        Character { rdev }
    }
}

/// The first and last block a read of `size` bytes at `pos` touches.
pub open spec fn first_block(pos: int) -> int {
    pos / BLOCK_SIZE as int
}

/// The last block a read of `size` bytes at `pos` touches.
pub open spec fn last_block(pos: int, size: int) -> int {
    (pos + size - 1) / BLOCK_SIZE as int
}

/// Whether the read can be put together: its end is in range.
pub open spec fn block_read_ok(pos: int, size: int) -> bool {
    1 <= pos + size <= usize::MAX
}

/// Byte `i` of the read: the byte at `pos + i` of its block.
pub open spec fn read_byte(pos: int, size: int, blocks: Seq<Seq<u8>>, i: int) -> u8 {
    let x = pos + i;
    blocks[x / BLOCK_SIZE as int - first_block(pos)][x % BLOCK_SIZE as int]
}

/// A position splits into its block and its offset in the block.
proof fn lemma_block_of(pos: int)
    requires
        pos >= 0,
    ensures
        pos == first_block(pos) * 512 + pos % 512,
        0 <= pos % 512 < 512,
{
    vstd::arithmetic::div_mod::lemma_fundamental_div_mod(pos, 512);
}

/// Where the read ends within its last block.
proof fn lemma_last_block_end(pos: int, size: int)
    requires
        pos >= 0,
        pos + size >= 1,
    ensures
        (pos + size) % 512 != 0 ==> last_block(pos, size) * 512 + (pos + size) % 512 == pos + size,
        (pos + size) % 512 == 0 ==> last_block(pos, size) * 512 + 512 == pos + size,
{
    let e = pos + size;
    vstd::arithmetic::div_mod::lemma_fundamental_div_mod(e, 512);
    vstd::arithmetic::div_mod::lemma_fundamental_div_mod(e - 1, 512);
    if e % 512 != 0 {
        vstd::arithmetic::div_mod::lemma_fundamental_div_mod_converse(e - 1, 512, e / 512, e % 512 - 1);
    } else {
        vstd::arithmetic::div_mod::lemma_fundamental_div_mod_converse(e - 1, 512, e / 512 - 1, 511);
    }
}

/// The blocks `[first, last]` a read of `size` bytes at `pos` touches
/// (none when the read is empty at a block start).
pub fn block_span(pos: usize, size: usize) -> (r: (usize, usize))
    requires
        1 <= pos + size <= usize::MAX,
    ensures
        r.0 == first_block(pos as int),
        r.1 == last_block(pos as int, size as int),
{
    (pos / BLOCK_SIZE, (pos + size - 1) / BLOCK_SIZE)
}

/// Put a read of `size` bytes at `pos` together from the blocks it touches,
/// `blocks[j]` holding block `first + j`: from each block, the bytes from the
/// read's start (first block) or 0, up to the read's end within the block
/// (last block, unless the read ends on a block boundary) or the block's
/// end, in order.
pub fn assemble_block_read(pos: usize, size: usize, blocks: &Vec<Vec<u8>>) -> (r: Vec<u8>)
    requires
        block_read_ok(pos as int, size as int),
        blocks@.len() == if last_block(pos as int, size as int) >= first_block(pos as int) {
            last_block(pos as int, size as int) - first_block(pos as int) + 1
        } else {
            0
        },
        forall|j: int| 0 <= j < blocks@.len() ==> (#[trigger] blocks@[j])@.len() == BLOCK_SIZE,
    ensures
        r@.len() == size,
        forall|i: int| 0 <= i < size ==> #[trigger] r@[i] == read_byte(pos as int, size as int, blocks@.map_values(|b: Vec<u8>| b@), i),
{
    let (first, last) = block_span(pos, size);
    let ghost bs = blocks@.map_values(|b: Vec<u8>| b@);
    let mut content: Vec<u8> = Vec::new();
    let mut z: usize = 0;
    while z < size
        invariant
            z <= size,
            content@.len() == z,
            forall|i: int| 0 <= i < z ==> content@[i] == 0u8,
        decreases size - z,
    {
        content.push(0);
        z = z + 1;
    }
    let mut content_start: usize = 0;
    let mut id = first;
    proof {
        lemma_block_of(pos as int);
    }
    while id <= last
        invariant
            first == first_block(pos as int),
            last == last_block(pos as int, size as int),
            pos as int == first * 512 + pos as int % 512,
            block_read_ok(pos as int, size as int),
            blocks@.len() == if last >= first { last - first + 1 } else { 0 },
            forall|j: int| 0 <= j < blocks@.len() ==> (#[trigger] blocks@[j])@.len() == BLOCK_SIZE,
            bs == blocks@.map_values(|b: Vec<u8>| b@),
            first <= id,
            id <= last + 1,
            content@.len() == size,
            id <= last ==> content_start as int == if id == first { 0 } else { id * 512 - pos },
            content_start <= size,
            forall|i: int|
                0 <= i < size ==> #[trigger] content@[i] == if (pos + i) / 512 < id {
                    read_byte(pos as int, size as int, bs, i)
                } else {
                    0u8
                },
        decreases last + 1 - id,
    {
        let block = &blocks[id - first];
        let start: usize = if id == first { pos % BLOCK_SIZE } else { 0 };
        let stop: usize = if id == last && (pos + size) % BLOCK_SIZE != 0 {
            (pos + size) % BLOCK_SIZE
        } else {
            BLOCK_SIZE
        };
        proof {
            lemma_last_block_end(pos as int, size as int);
            if id == first && id == last {
                assert(start <= stop);
            }
        }
        let mut t = start;
        while t < stop
            invariant
                first == first_block(pos as int),
                last == last_block(pos as int, size as int),
                pos as int == first * 512 + pos as int % 512,
                first <= id <= last,
                id - first < blocks@.len(),
                block == &blocks@[id - first],
                block@.len() == BLOCK_SIZE,
                bs == blocks@.map_values(|b: Vec<u8>| b@),
                start <= t <= stop <= 512,
                start == (if id == first { pos as int % 512 } else { 0 }),
                stop == (if id == last && (pos + size) as int % 512 != 0 { (pos + size) as int % 512 } else { 512 }),
                content_start as int == if id == first { 0 } else { id * 512 - pos },
                (pos + size) as int % 512 != 0 ==> last * 512 + (pos + size) as int % 512 == pos + size,
                (pos + size) as int % 512 == 0 ==> last * 512 + 512 == pos + size,
                content@.len() == size,
                forall|i: int|
                    0 <= i < size ==> #[trigger] content@[i] == if (pos + i) / 512 < id {
                        read_byte(pos as int, size as int, bs, i)
                    } else if (pos + i) / 512 == id && (pos + i) % 512 < t {
                        read_byte(pos as int, size as int, bs, i)
                    } else {
                        0u8
                    },
            decreases stop - t,
        {
            let ghost x = id * 512 + t;
            let idx = content_start + t - start;
            proof {
                vstd::arithmetic::div_mod::lemma_fundamental_div_mod_converse(x, 512, id as int, t as int);
                assert(idx as int == x - pos);
                assert(x < pos + size);
            }
            content.set(idx, block[t]);
            proof {
                assert forall|i: int| 0 <= i < size implies #[trigger] content@[i] == if (pos + i) / 512 < id {
                    read_byte(pos as int, size as int, bs, i)
                } else if (pos + i) / 512 == id && (pos + i) % 512 < t + 1 {
                    read_byte(pos as int, size as int, bs, i)
                } else {
                    0u8
                } by {
                    if i == idx as int {
                        assert(bs[id - first] == blocks@[id - first]@);
                    }
                }
            }
            t = t + 1;
        }
        proof {
            assert forall|i: int| 0 <= i < size implies #[trigger] content@[i] == if (pos + i) / 512 < id + 1 {
                read_byte(pos as int, size as int, bs, i)
            } else {
                0u8
            } by {
                let x = pos + i;
                if x / 512 == id {
                    assert(x % 512 < stop) by {
                        assert(x == id * 512 + x % 512);
                    }
                }
            }
        }
        content_start = content_start + (stop - start);
        id = id + 1;
    }
    proof {
        assert forall|i: int| 0 <= i < size implies #[trigger] content@[i] == read_byte(pos as int, size as int, bs, i) by {
            assert(pos + i <= pos + size - 1);
            vstd::arithmetic::div_mod::lemma_div_is_ordered(pos + i, pos + size - 1, 512);
        }
    }
    content
}


/// Create the device file system's super block: there is one device file
/// system, on device 0; its root directory gets a fresh inode number.
pub fn create_devfs_super_block(rdev: Rdev, inos: &mut InoAllocator) -> (r: Option<SuperBlock>)
    requires
        rdev_bits(rdev) == 0,
        old(inos).recycled().len() > 0 || old(inos).next() < usize::MAX,
    ensures
        ({
            let ino = if old(inos).recycled().len() == 0 { old(inos).next() } else { old(inos).recycled().last() };
            &&& old(inos).alloc_step(ino, *final(inos))
            &&& r == Some(SuperBlock { rdev, root: Some(ino) })
        }),
{
    let ino = inos.allocate();
    let mut sb = SuperBlock::new(rdev);
    sb.root = Some(ino);
    Some(sb)
}

} // verus!
