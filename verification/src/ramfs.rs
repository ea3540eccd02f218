//! An in-memory file system: inode numbers, inode contents, and the
//! directory tree kept as a table of inodes.
use vstd::prelude::*;
use crate::vfs::{Rdev, FileTypeFlag, rdev_bits, rdev_of, SuperBlock};
use crate::syscall::{SysError, ENOENT, EEXIST};

verus! {

/// A simple inode number allocator, one per file system: numbers handed
/// back are reused last-in first-out, else the next unused number is taken.
pub struct InoAllocator {
    cur: usize,
    recycled: Vec<usize>,
}

impl InoAllocator {
    /// The next never-used number.
    pub closed spec fn next(&self) -> usize {
        self.cur
    }

    /// Numbers handed back, the most recent last.
    pub closed spec fn recycled(&self) -> Seq<usize> {
        self.recycled@
    }

    /// Whether `x` is handed out: taken once and not handed back.
    pub open spec fn in_use(&self, x: usize) -> bool {
        x < self.next() && !self.recycled().contains(x)
    }

    /// Numbers handed back were taken before, each at most once.
    pub open spec fn wf(&self) -> bool {
        &&& self.recycled().no_duplicates()
        &&& forall|i: int| 0 <= i < self.recycled().len() ==> #[trigger] self.recycled()[i] < self.next()
    }

    /// What `allocate` does: `r` is the number handed out, `after` the allocator.
    pub open spec fn alloc_step(self, r: usize, after: Self) -> bool {
        if self.recycled().len() == 0 {
            &&& r == self.next()
            &&& after.next() == self.next() + 1
            &&& after.recycled() == self.recycled()
        } else {
            &&& r == self.recycled().last()
            &&& after.next() == self.next()
            &&& after.recycled() == self.recycled().drop_last()
        }
    }

    /// What `dealloc` does.
    pub open spec fn dealloc_step(self, ino: usize, after: Self) -> bool {
        &&& after.next() == self.next()
        &&& after.recycled() == self.recycled().push(ino)
    }

    pub fn new() -> (r: Self)
        ensures
            r.next() == 0,
            r.recycled() == Seq::<usize>::empty(),
            r.wf(),
    {
        InoAllocator { cur: 0, recycled: Vec::new() }
    }

    /// Hand out a number: the last one handed back, else the next new one.
    /// On a well-formed allocator (every allocator `new` makes, and every one
    /// `allocate` and `dealloc` of a number in use leave), the number was not
    /// in use.
    pub fn allocate(&mut self) -> (r: usize)
        requires
            old(self).recycled().len() > 0 || old(self).next() < usize::MAX,
        ensures
            old(self).alloc_step(r, *final(self)),
            old(self).wf() ==> final(self).wf() && !old(self).in_use(r) && final(self).in_use(r),
    {
        let ghost before = *self;
        let r = if self.recycled.len() == 0 {
            self.cur = self.cur + 1;
            self.cur - 1
        } else {
            let r = self.recycled.pop().unwrap();
            r
        };
        proof {
            if before.wf() {
                law_alloc_hands_out_free_number(before, r, *self);
            }
        }
        r
    }

    /// Take a number back. Handing back a number in use keeps the
    /// allocator well-formed.
    pub fn dealloc(&mut self, ino: usize)
        ensures
            old(self).dealloc_step(ino, *final(self)),
            old(self).wf() && old(self).in_use(ino) ==> final(self).wf(),
    {
        self.recycled.push(ino);
        proof {
            if old(self).wf() && old(self).in_use(ino) {
                law_dealloc_frees_number(*old(self), ino, *self);
            }
        }
    }
}

/// Law: on a well-formed allocator, `allocate` hands out a number not in use,
/// and only that number changes state; the allocator stays well-formed.
pub proof fn law_alloc_hands_out_free_number(before: InoAllocator, r: usize, after: InoAllocator)
    requires
        before.wf(),
        before.alloc_step(r, after),
    ensures
        !before.in_use(r),
        after.in_use(r),
        forall|x: usize| x != r ==> (after.in_use(x) <==> before.in_use(x)),
        after.wf(),
{
    if before.recycled().len() > 0 {
        let s = before.recycled();
        assert(s =~= s.drop_last().push(s.last()));
        assert(s.contains(r)) by {
            assert(s[s.len() - 1] == r);
        }
        assert(!s.drop_last().contains(r)) by {
            if s.drop_last().contains(r) {
                let j = choose|j: int| 0 <= j < s.drop_last().len() && s.drop_last()[j] == r;
                assert(s[j] == s[s.len() - 1]);
            }
        }
        assert forall|x: usize| x != r implies (after.in_use(x) <==> before.in_use(x)) by {
            if s.contains(x) {
                let j = choose|j: int| 0 <= j < s.len() && s[j] == x;
                assert(j != s.len() - 1);
                assert(s.drop_last()[j] == x);
            }
            if s.drop_last().contains(x) {
                let j = choose|j: int| 0 <= j < s.drop_last().len() && s.drop_last()[j] == x;
                assert(s[j] == x);
            }
        }
    }
}

/// Law: handing back a number in use keeps the allocator well-formed; that
/// number is then free and no other number changes state.
pub proof fn law_dealloc_frees_number(before: InoAllocator, ino: usize, after: InoAllocator)
    requires
        before.wf(),
        before.in_use(ino),
        before.dealloc_step(ino, after),
    ensures
        after.wf(),
        !after.in_use(ino),
        forall|x: usize| x != ino ==> (after.in_use(x) <==> before.in_use(x)),
{
    let s = before.recycled();
    let t = after.recycled();
    assert(t[t.len() - 1] == ino);
    assert forall|i: int, j: int| 0 <= i < t.len() && 0 <= j < t.len() && i != j implies t[i] != t[j] by {
        if i < s.len() && j < s.len() {
            assert(t[i] == s[i] && t[j] == s[j]);
        } else if i < s.len() {
            assert(t[i] == s[i]);
            assert(s.contains(t[i]));
        } else if j < s.len() {
            assert(t[j] == s[j]);
            assert(s.contains(t[j]));
        }
    }
    assert forall|i: int| 0 <= i < t.len() implies #[trigger] t[i] < after.next() by {
        if i < s.len() {
            assert(t[i] == s[i]);
        }
    }
    assert forall|x: usize| x != ino implies (after.in_use(x) <==> before.in_use(x)) by {
        if t.contains(x) {
            let j = choose|j: int| 0 <= j < t.len() && t[j] == x;
            assert(j < s.len());
            assert(s[j] == x);
        }
        if s.contains(x) {
            let j = choose|j: int| 0 <= j < s.len() && s[j] == x;
            assert(t[j] == x);
        }
    }
}

/// Law: a number handed back is the next one `allocate` hands out, and the
/// allocator is then as it was before.
pub proof fn law_dealloc_then_alloc(a: InoAllocator, ino: usize, b: InoAllocator, r: usize, c: InoAllocator)
    requires
        a.dealloc_step(ino, b),
        b.alloc_step(r, c),
    ensures
        r == ino,
        c.next() == a.next(),
        c.recycled() == a.recycled(),
{
    assert(a.recycled().push(ino).drop_last() =~= a.recycled());
}

/// The bytes a device number is stored as: the low `n` bytes of its 64-bit
/// form, least significant first.
pub open spec fn rdev_bytes(v: u64, n: nat) -> Seq<u8> {
    Seq::new(n, |i: int| ((v >> (8 * i) as u64) & 0xff) as u8)
}

/// The 64-bit value bytes stand for, least significant first.
pub open spec fn pack_bytes(s: Seq<u8>, n: nat) -> u64
    decreases n,
{
    if n == 0 {
        0
    } else {
        pack_bytes(s, (n - 1) as nat) | ((s[n - 1] as u64) << (8 * (n - 1)) as u64)
    }
}

/// The low `n` bytes of `v`.
pub open spec fn low_bytes(v: u64, n: nat) -> u64 {
    if n >= 8 {
        v
    } else {
        v & (((1u64 << (8 * n) as u64) - 1) as u64)
    }
}

/// Packing the first `k` bytes of a value gives its low `k` bytes.
proof fn lemma_pack_bytes(v: u64, n: nat, k: nat)
    requires
        k <= n <= 8,
    ensures
        pack_bytes(rdev_bytes(v, n), k) == low_bytes(v, k),
    decreases k,
{
    if k == 0 {
        assert(v & (((1u64 << 0u64) - 1) as u64) == 0) by (bit_vector);
    } else {
        lemma_pack_bytes(v, n, (k - 1) as nat);
        let s = (8 * (k - 1)) as u64;
        let b = rdev_bytes(v, n)[k - 1];
        assert(b == ((v >> s) & 0xff) as u8);
        let acc = low_bytes(v, (k - 1) as nat);
        assert(acc == v & (((1u64 << s) - 1) as u64));
        if k < 8 {
            assert((v & (((1u64 << s) - 1) as u64)) | ((((v >> s) & 0xff) as u8 as u64) << s) == v & (((1u64 << (s
                + 8)) - 1) as u64)) by (bit_vector)
                requires
                    s < 56,
            ;
            assert(low_bytes(v, k) == v & (((1u64 << (s + 8)) - 1) as u64));
        } else {
            assert((v & (((1u64 << s) - 1) as u64)) | ((((v >> s) & 0xff) as u8 as u64) << s) == v) by (bit_vector)
                requires
                    s == 56,
            ;
        }
    }
}

/// An inode of the in-memory file system. Directories list their children
/// by inode number; device inodes keep their device number as content.
pub struct RamFsInode {
    pub ino: usize,
    pub name: String,
    pub file_type: FileTypeFlag,
    pub sub_nodes: Vec<usize>,
    pub content: Vec<u8>,
}

/// The content after writing `data` at `pos`: zeros fill any gap past the
/// old end.
pub open spec fn written(old: Seq<u8>, pos: int, data: Seq<u8>) -> Seq<u8> {
    let len = if old.len() > pos + data.len() { old.len() as int } else { pos + data.len() };
    Seq::new(
        len as nat,
        |i: int|
            if pos <= i < pos + data.len() {
                data[i - pos]
            } else if i < old.len() {
                old[i]
            } else {
                0u8
            },
    )
}

/// The bytes `read` gives: from `pos`, at most `size` of them, none past
/// the end.
pub open spec fn read_range(content: Seq<u8>, pos: int, size: int) -> Seq<u8> {
    if pos >= content.len() {
        Seq::empty()
    } else {
        let end = if content.len() < size + pos { content.len() as int } else { size + pos };
        content.subrange(pos, end)
    }
}

impl RamFsInode {
    /// A nameless inode of unknown type, with no content.
    pub fn empty(ino: usize) -> (r: Self)
        ensures
            r.ino == ino,
            r.name@ == Seq::<char>::empty(),
            r.file_type == FileTypeFlag::DT_UNKNOWN,
            r.sub_nodes@ == Seq::<usize>::empty(),
            r.content@ == Seq::<u8>::empty(),
    {
        RamFsInode {
            ino,
            name: String::new(),
            file_type: FileTypeFlag::DT_UNKNOWN,
            sub_nodes: Vec::new(),
            content: Vec::new(),
        }
    }

    pub fn mark_as_file(&mut self)
        ensures
            final(self).file_type == FileTypeFlag::DT_REG,
            final(self).ino == old(self).ino,
            final(self).name == old(self).name,
            final(self).sub_nodes == old(self).sub_nodes,
            final(self).content == old(self).content,
    {
        self.file_type = FileTypeFlag::DT_REG;
    }

    pub fn mark_as_dir(&mut self)
        ensures
            final(self).file_type == FileTypeFlag::DT_DIR,
            final(self).ino == old(self).ino,
            final(self).name == old(self).name,
            final(self).sub_nodes == old(self).sub_nodes,
            final(self).content == old(self).content,
    {
        self.file_type = FileTypeFlag::DT_DIR;
    }

    pub fn set_file_type(&mut self, file_type: FileTypeFlag)
        ensures
            final(self).file_type == file_type,
            final(self).ino == old(self).ino,
            final(self).name == old(self).name,
            final(self).sub_nodes == old(self).sub_nodes,
            final(self).content == old(self).content,
    {
        self.file_type = file_type;
    }

    pub fn set_name(&mut self, name: &str)
        ensures
            final(self).name@ == name@,
            final(self).ino == old(self).ino,
            final(self).file_type == old(self).file_type,
            final(self).sub_nodes == old(self).sub_nodes,
            final(self).content == old(self).content,
    {
        self.name = name.to_owned();
    }

    /// Store a device number as the content: the bytes of its 64-bit form,
    /// least significant first, as many as a `usize` has.
    pub fn set_rdev(&mut self, rdev: Rdev)
        requires
            old(self).file_type.device(),
        ensures
            final(self).content@ == rdev_bytes(rdev_bits(rdev), vstd::layout::size_of::<usize>()),
            final(self).ino == old(self).ino,
            final(self).name == old(self).name,
            final(self).file_type == old(self).file_type,
            final(self).sub_nodes == old(self).sub_nodes,
    {
        broadcast use vstd::layout::layout_of_primitives;

        self.content.clear();
        let v: u64 = rdev.into();
        let n = core::mem::size_of::<usize>();
        let mut i: usize = 0;
        while i < n
            invariant
                n == vstd::layout::size_of::<usize>(),
                n == 4 || n == 8,
                i <= n,
                v == rdev_bits(rdev),
                self.content@ == rdev_bytes(v, i as nat),
                self.ino == old(self).ino,
                self.name == old(self).name,
                self.file_type == old(self).file_type,
                self.sub_nodes == old(self).sub_nodes,
            decreases n - i,
        {
            let byte = ((v >> (8 * i as u64)) & 0xFF) as u8;
            self.content.push(byte);
            i = i + 1;
            proof {
                assert(self.content@ =~= rdev_bytes(v, i as nat));
            }
        }
    }

    /// The device number stored as the content.
    pub fn read_rdev(&self) -> (r: Rdev)
        requires
            self.file_type.device(),
            self.content@.len() >= vstd::layout::size_of::<usize>(),
        ensures
            r == rdev_of(pack_bytes(self.content@, vstd::layout::size_of::<usize>())),
    {
        broadcast use vstd::layout::layout_of_primitives;

        let n = core::mem::size_of::<usize>();
        let mut rdev: u64 = 0;
        let mut i: usize = 0;
        while i < n
            invariant
                n == vstd::layout::size_of::<usize>(),
                n == 4 || n == 8,
                i <= n,
                n <= self.content@.len(),
                rdev == pack_bytes(self.content@, i as nat),
            decreases n - i,
        {
            rdev = rdev | ((self.content[i] as u64) << (8 * i as u64));
            i = i + 1;
        }
        rdev.into()
    }

    /// At most `size` bytes of content from `pos`; none when `pos` is at or
    /// past the end.
    pub fn read(&self, pos: usize, size: usize) -> (r: Vec<u8>)
        requires
            pos < self.content@.len() ==> size + pos <= usize::MAX,
        ensures
            r@ == read_range(self.content@, pos as int, size as int),
    {
        let length = self.content.len();
        if pos >= length {
            return Vec::new();
        }
        let end = if length < size + pos { length } else { size + pos };
        let mut out: Vec<u8> = Vec::new();
        let mut i: usize = pos;
        while i < end
            invariant
                pos <= i <= end <= length == self.content@.len(),
                out@ == self.content@.subrange(pos as int, i as int),
            decreases end - i,
        {
            out.push(self.content[i]);
            i = i + 1;
            proof {
                assert(out@ =~= self.content@.subrange(pos as int, i as int));
            }
        }
        out
    }

    /// Write `content` at `pos`, first growing the file with zeros up to
    /// `pos` plus its length.
    pub fn write(&mut self, pos: usize, content: &[u8])
        requires
            pos + content@.len() <= usize::MAX,
        ensures
            final(self).content@ == written(old(self).content@, pos as int, content@),
            final(self).ino == old(self).ino,
            final(self).name == old(self).name,
            final(self).file_type == old(self).file_type,
            final(self).sub_nodes == old(self).sub_nodes,
    {
        let length = self.content.len();
        let end = pos + content.len();
        let mut j: usize = length;
        while j < end
            invariant
                length == old(self).content@.len(),
                end == pos + content@.len(),
                length <= j,
                j <= end || j == length,
                self.content@.len() == if j > length { j as int } else { length as int },
                forall|k: int| 0 <= k < length ==> self.content@[k] == old(self).content@[k],
                forall|k: int| length <= k < self.content@.len() ==> self.content@[k] == 0u8,
                self.ino == old(self).ino,
                self.name == old(self).name,
                self.file_type == old(self).file_type,
                self.sub_nodes == old(self).sub_nodes,
            decreases end - j,
        {
            self.content.push(0);
            j = j + 1;
        }
        let mut i: usize = pos;
        while i < end
            invariant
                pos <= i <= end,
                end == pos + content@.len(),
                length == old(self).content@.len(),
                self.content@.len() == if end > length { end as int } else { length as int },
                forall|k: int|
                    0 <= k < self.content@.len() ==> #[trigger] self.content@[k] == if pos <= k < i {
                        content@[k - pos]
                    } else if k < length {
                        old(self).content@[k]
                    } else {
                        0u8
                    },
                self.ino == old(self).ino,
                self.name == old(self).name,
                self.file_type == old(self).file_type,
                self.sub_nodes == old(self).sub_nodes,
            decreases end - i,
        {
            self.content.set(i, content[i - pos]);
            i = i + 1;
        }
        proof {
            assert(self.content@ =~= written(old(self).content@, pos as int, content@));
        }
    }

    /// The children of a directory, by inode number.
    pub fn read_dir(&self) -> (r: Vec<usize>)
        requires
            self.file_type == FileTypeFlag::DT_DIR,
        ensures
            r@ == self.sub_nodes@,
    {
        self.sub_nodes.clone()
    }
}

/// Law: reading back what was just written, from where it was written and
/// for its length, gives exactly those bytes.
pub proof fn law_read_after_write(old_content: Seq<u8>, pos: int, data: Seq<u8>)
    requires
        0 <= pos,
        data.len() > 0,
    ensures
        read_range(written(old_content, pos, data), pos, data.len() as int) == data,
{
    let w = written(old_content, pos, data);
    assert(read_range(w, pos, data.len() as int) =~= data);
}

/// Law: writing leaves every byte outside the written range as it was, or
/// zero where the file grew.
pub proof fn law_write_keeps_other_bytes(old_content: Seq<u8>, pos: int, data: Seq<u8>, k: int)
    requires
        0 <= pos,
        0 <= k < written(old_content, pos, data).len(),
        !(pos <= k < pos + data.len()),
    ensures
        written(old_content, pos, data)[k] == if k < old_content.len() { old_content[k] } else { 0u8 },
{
}

/// Law: the device number read back from a device inode is the one stored,
/// cut to the bytes of a `usize`; all of it where a `usize` has 8 bytes.
pub proof fn law_read_rdev_after_set_rdev(rdev: Rdev)
    ensures
        rdev_of(pack_bytes(rdev_bytes(rdev_bits(rdev), vstd::layout::size_of::<usize>()), vstd::layout::size_of::<
            usize,
        >())) == rdev_of(low_bytes(rdev_bits(rdev), vstd::layout::size_of::<usize>())),
        vstd::layout::size_of::<usize>() == 8 ==> rdev_of(
            pack_bytes(rdev_bytes(rdev_bits(rdev), vstd::layout::size_of::<usize>()), vstd::layout::size_of::<usize>()),
        ) == rdev,
{
    broadcast use vstd::layout::layout_of_primitives;

    let n = vstd::layout::size_of::<usize>();
    assert(n == 4 || n == 8);
    lemma_pack_bytes(rdev_bits(rdev), n, n);
    crate::vfs::law_rdev_round_trip(rdev, 0);
}


/// Whether some inode of the table has number `ino` and name `name`.
pub open spec fn named(q: Seq<RamFsInode>, ino: usize, name: Seq<char>) -> bool {
    exists|i: int| 0 <= i < q.len() && (#[trigger] q[i]).ino == ino && q[i].name@ == name
}

/// The first of `kids` whose inode has name `name`.
pub open spec fn first_named(q: Seq<RamFsInode>, kids: Seq<usize>, name: Seq<char>) -> Option<usize>
    decreases kids.len(),
{
    if kids.len() == 0 {
        None
    } else if named(q, kids[0], name) {
        Some(kids[0])
    } else {
        first_named(q, kids.drop_first(), name)
    }
}

/// Index of the inode numbered `ino` (the table holds each number once).
pub open spec fn index_of(q: Seq<RamFsInode>, ino: usize) -> int {
    choose|i: int| 0 <= i < q.len() && (#[trigger] q[i]).ino == ino
}

/// Whether the table holds a directory numbered `ino`.
pub open spec fn has_dir(q: Seq<RamFsInode>, ino: usize) -> bool {
    exists|i: int| 0 <= i < q.len() && (#[trigger] q[i]).ino == ino && q[i].file_type == FileTypeFlag::DT_DIR
}

/// What `lookup` gives: the first child of directory `dir` with that name.
pub open spec fn lookup_spec(q: Seq<RamFsInode>, dir: usize, name: Seq<char>) -> Option<usize> {
    first_named(q, q[index_of(q, dir)].sub_nodes@, name)
}

/// The inode a new entry gets: its number, name and type, no children and
/// no content.
pub open spec fn fresh_inode(n: RamFsInode, ino: usize, name: Seq<char>, t: FileTypeFlag) -> bool {
    &&& n.ino == ino
    &&& n.name@ == name
    &&& n.file_type == t
    &&& n.sub_nodes@ == Seq::<usize>::empty()
    &&& n.content@ == Seq::<u8>::empty()
}

/// The table `n` is `q` with a fresh inode `c` of type `t` named `name`
/// added last, and, when `link`, listed as the last child of directory
/// `parent`; nothing else changes.
pub open spec fn entry_step(
    q: Seq<RamFsInode>,
    parent: usize,
    name: Seq<char>,
    t: FileTypeFlag,
    link: bool,
    c: usize,
    n: Seq<RamFsInode>,
) -> bool {
    let d = index_of(q, parent);
    &&& n.len() == q.len() + 1
    &&& fresh_inode(n.last(), c, name, t)
    &&& forall|i: int| 0 <= i < q.len() && i != d ==> n[i] == q[i]
    &&& n[d].ino == q[d].ino && n[d].name == q[d].name && n[d].file_type == q[d].file_type && n[d].content == q[d].content
    &&& n[d].sub_nodes@ == if link { q[d].sub_nodes@.push(c) } else { q[d].sub_nodes@ }
}

/// An in-memory file system: its inode number allocator and its inodes.
pub struct RamFileSystem {
    pub ino_allocator: InoAllocator,
    pub inode_queue: Vec<RamFsInode>,
}

impl RamFileSystem {
    /// Every inode number in the table is handed out, and held once; every
    /// child number of a directory is handed out.
    pub open spec fn wf(&self) -> bool {
        let q = self.inode_queue@;
        &&& self.ino_allocator.wf()
        &&& forall|i: int| 0 <= i < q.len() ==> self.ino_allocator.in_use(#[trigger] q[i].ino)
        &&& forall|i: int, j: int| 0 <= i < q.len() && 0 <= j < q.len() && i != j ==> (#[trigger] q[i]).ino != (#[trigger] q[j]).ino
        &&& forall|i: int, k: int|
            0 <= i < q.len() && 0 <= k < q[i].sub_nodes@.len() ==> self.ino_allocator.in_use(
                #[trigger] q[i].sub_nodes@[k],
            )
    }

    /// Whether `allocate` can hand out a number.
    pub open spec fn can_allocate(&self) -> bool {
        self.ino_allocator.recycled().len() > 0 || self.ino_allocator.next() < usize::MAX
    }

    /// A file system holding only its root directory "/", numbered 0.
    pub fn new() -> (r: Self)
        ensures
            r.wf(),
            r.inode_queue@.len() == 1,
            fresh_inode(r.inode_queue@[0], 0, "/"@, FileTypeFlag::DT_DIR),
    {
        let mut ino_allocator = InoAllocator::new();
        let ino = ino_allocator.allocate();
        let mut root = RamFsInode::empty(ino);
        root.mark_as_dir();
        root.set_name("/");
        let mut inode_queue: Vec<RamFsInode> = Vec::new();
        inode_queue.push(root);
        RamFileSystem { ino_allocator, inode_queue }
    }

    /// Add a new empty inode under a fresh number, and return the number.
    pub fn alloc_ramfs_inode(&mut self) -> (ino: usize)
        requires
            old(self).wf(),
            old(self).can_allocate(),
        ensures
            final(self).wf(),
            !old(self).ino_allocator.in_use(ino),
            final(self).inode_queue@.len() == old(self).inode_queue@.len() + 1,
            final(self).inode_queue@.drop_last() == old(self).inode_queue@,
            fresh_inode(final(self).inode_queue@.last(), ino, Seq::<char>::empty(), FileTypeFlag::DT_UNKNOWN),
    {
        let ghost before = self.ino_allocator;
        let ino = self.ino_allocator.allocate();
        proof {
            law_alloc_hands_out_free_number(before, ino, self.ino_allocator);
        }
        let node = RamFsInode::empty(ino);
        self.inode_queue.push(node);
        proof {
            let q = old(self).inode_queue@;
            let n = self.inode_queue@;
            assert(n.drop_last() =~= q);
            assert forall|i: int| 0 <= i < n.len() implies self.ino_allocator.in_use(#[trigger] n[i].ino) by {
                if i < q.len() {
                    assert(before.in_use(q[i].ino));
                }
            }
            assert forall|i: int, j: int| 0 <= i < n.len() && 0 <= j < n.len() && i != j implies (#[trigger] n[i]).ino
                != (#[trigger] n[j]).ino by {
                if i < q.len() {
                    assert(before.in_use(q[i].ino));
                }
                if j < q.len() {
                    assert(before.in_use(q[j].ino));
                }
            }
            assert forall|i: int, k: int|
                0 <= i < n.len() && 0 <= k < n[i].sub_nodes@.len() implies self.ino_allocator.in_use(
                #[trigger] n[i].sub_nodes@[k]) by {
                if i < q.len() {
                    assert(n[i] == q[i]);
                    assert(before.in_use(q[i].sub_nodes@[k]));
                }
            }
        }
        ino
    }

    /// The table index of the inode numbered `ino`.
    pub fn search_ramfs_inode(&self, ino: usize) -> (r: Option<usize>)
        ensures
            r matches Some(i) ==> i < self.inode_queue@.len() && self.inode_queue@[i as int].ino == ino && forall|j: int|
                0 <= j < i ==> (#[trigger] self.inode_queue@[j]).ino != ino,
            r is None ==> forall|i: int| 0 <= i < self.inode_queue@.len() ==> (#[trigger] self.inode_queue@[i]).ino
                != ino,
    {
        let mut i: usize = 0;
        while i < self.inode_queue.len()
            invariant
                i <= self.inode_queue@.len(),
                forall|j: int| 0 <= j < i ==> (#[trigger] self.inode_queue@[j]).ino != ino,
            decreases self.inode_queue@.len() - i,
        {
            if self.inode_queue[i].ino == ino {
                return Some(i);
            }
            i = i + 1;
        }
        None
    }

    /// The child of directory `dir` named `name`, by inode number.
    pub fn lookup(&self, dir: usize, name: &str) -> (r: Option<usize>)
        requires
            self.wf(),
            has_dir(self.inode_queue@, dir),
        ensures
            r == lookup_spec(self.inode_queue@, dir, name@),
    {
        let q = &self.inode_queue;
        let d = self.search_ramfs_inode(dir).unwrap();
        proof {
            let w = choose|i: int| 0 <= i < q@.len() && (#[trigger] q@[i]).ino == dir && q@[i].file_type
                == FileTypeFlag::DT_DIR;
            assert(index_of(q@, dir) == d as int);
        }
        let kids = &q[d].sub_nodes;
        let target = name.to_owned();
        let mut k: usize = 0;
        proof {
            assert(kids@.subrange(0, kids@.len() as int) =~= kids@);
        }
        while k < kids.len()
            invariant
                self.wf(),
                q == &self.inode_queue,
                d < q@.len(),
                index_of(q@, dir) == d as int,
                kids == &q@[d as int].sub_nodes,
                target@ == name@,
                k <= kids@.len(),
                first_named(q@, kids@, name@) == first_named(q@, kids@.subrange(k as int, kids@.len() as int), name@),
            decreases kids@.len() - k,
        {
            let child = kids[k];
            let found = self.search_ramfs_inode(child);
            let ghost rest = kids@.subrange(k as int, kids@.len() as int);
            assert(rest[0] == child);
            match found {
                Some(i) => {
                    if q[i].name == target {
                        proof {
                            assert(named(q@, child, name@)) by {
                                assert(q@[i as int].ino == child);
                            }
                        }
                        return Some(child);
                    }
                    proof {
                        if named(q@, child, name@) {
                            let j = choose|j: int| 0 <= j < q@.len() && (#[trigger] q@[j]).ino == child && q@[j].name@
                                == name@;
                            assert(j == i as int);
                        }
                    }
                },
                None => {
                },
            }
            proof {
                assert(!named(q@, child, name@));
                assert(rest.drop_first() =~= kids@.subrange(k + 1, kids@.len() as int));
            }
            k = k + 1;
        }
        proof {
            assert(kids@.subrange(k as int, kids@.len() as int).len() == 0);
        }
        None
    }
}

/// With no earlier child named `name`, the first named child of the list
/// with `c` appended is `c`, if `c` is named so.
proof fn lemma_first_named_push(q: Seq<RamFsInode>, kids: Seq<usize>, c: usize, name: Seq<char>)
    requires
        first_named(q, kids, name) is None,
        named(q, c, name),
    ensures
        first_named(q, kids.push(c), name) == Some(c),
    decreases kids.len(),
{
    if kids.len() == 0 {
        assert(kids.push(c)[0] == c);
    } else {
        assert(kids.push(c)[0] == kids[0]);
        assert(kids.push(c).drop_first() =~= kids.drop_first().push(c));
        lemma_first_named_push(q, kids.drop_first(), c, name);
    }
}

/// The first named child does not change when the names of the children
/// stay the same.
proof fn lemma_first_named_same(q1: Seq<RamFsInode>, q2: Seq<RamFsInode>, kids: Seq<usize>, name: Seq<char>)
    requires
        forall|k: int| 0 <= k < kids.len() ==> (named(q1, #[trigger] kids[k], name) <==> named(q2, kids[k], name)),
    ensures
        first_named(q1, kids, name) == first_named(q2, kids, name),
    decreases kids.len(),
{
    if kids.len() > 0 {
        assert(named(q1, kids[0], name) <==> named(q2, kids[0], name));
        assert forall|k: int| 0 <= k < kids.drop_first().len() implies (named(q1, #[trigger] kids.drop_first()[k], name)
            <==> named(q2, kids.drop_first()[k], name)) by {
            assert(kids.drop_first()[k] == kids[k + 1]);
        }
        lemma_first_named_same(q1, q2, kids.drop_first(), name);
    }
}

impl RamFileSystem {
    /// Add a fresh inode of type `t` named `name` under directory `parent`;
    /// when `link`, list it among the directory's children. Refused with
    /// `EEXIST` (nothing changed) when the directory has a child of that name.
    fn add_entry(&mut self, parent: usize, name: &str, t: FileTypeFlag, link: bool) -> (r: Result<usize, SysError>)
        requires
            old(self).wf(),
            has_dir(old(self).inode_queue@, parent),
            old(self).can_allocate(),
        ensures
            lookup_spec(old(self).inode_queue@, parent, name@) is Some ==> {
                &&& r == Err::<usize, SysError>(SysError { errno: EEXIST })
                &&& *final(self) == *old(self)
            },
            lookup_spec(old(self).inode_queue@, parent, name@) is None ==> {
                &&& r matches Ok(c)
                &&& !old(self).ino_allocator.in_use(c)
                &&& final(self).wf()
                &&& entry_step(old(self).inode_queue@, parent, name@, t, link, c, final(self).inode_queue@)
                &&& !link ==> final(self).inode_queue@.drop_last() == old(self).inode_queue@
            },
    {
        if self.lookup(parent, name).is_some() {
            return Err(SysError::new(EEXIST));
        }
        let ghost q = self.inode_queue@;
        let d = self.search_ramfs_inode(parent).unwrap();
        proof {
            let w = choose|i: int| 0 <= i < q.len() && (#[trigger] q[i]).ino == parent && q[i].file_type
                == FileTypeFlag::DT_DIR;
            assert(index_of(q, parent) == d as int);
        }
        let ghost before = self.ino_allocator;
        let c = self.ino_allocator.allocate();
        proof {
            law_alloc_hands_out_free_number(before, c, self.ino_allocator);
        }
        let mut node = RamFsInode::empty(c);
        node.set_file_type(t);
        node.set_name(name);
        if link {
            let mut kids = self.inode_queue[d].sub_nodes.clone();
            kids.push(c);
            proof {
                assert(kids@ == q[d as int].sub_nodes@.push(c));
            }
            self.inode_queue[d].sub_nodes = kids;
        }
        self.inode_queue.push(node);
        proof {
            let n = self.inode_queue@;
            if !link {
                assert(n.drop_last() =~= q);
            }
            assert forall|i: int, k: int|
                0 <= i < n.len() && 0 <= k < n[i].sub_nodes@.len() implies self.ino_allocator.in_use(
                #[trigger] n[i].sub_nodes@[k]) by {
                if i == d && link && k == q[d as int].sub_nodes@.len() {
                    assert(n[i].sub_nodes@[k] == c);
                } else if i < q.len() {
                    assert(n[i].sub_nodes@[k] == q[i].sub_nodes@[k]);
                    assert(before.in_use(q[i].sub_nodes@[k]));
                }
            }
            assert forall|i: int| 0 <= i < n.len() implies self.ino_allocator.in_use(#[trigger] n[i].ino) by {
                if i < q.len() {
                    assert(before.in_use(q[i].ino));
                }
            }
            assert forall|i: int, j: int| 0 <= i < n.len() && 0 <= j < n.len() && i != j implies (#[trigger] n[i]).ino
                != (#[trigger] n[j]).ino by {
                if i < q.len() {
                    assert(before.in_use(q[i].ino));
                }
                if j < q.len() {
                    assert(before.in_use(q[j].ino));
                }
            }
        }
        Ok(c)
    }

    /// Create a regular file `name` in directory `parent`; `EEXIST` when the
    /// directory has a child of that name.
    pub fn create(&mut self, parent: usize, name: &str) -> (r: Result<usize, SysError>)
        requires
            old(self).wf(),
            has_dir(old(self).inode_queue@, parent),
            old(self).can_allocate(),
        ensures
            lookup_spec(old(self).inode_queue@, parent, name@) is Some ==> {
                &&& r == Err::<usize, SysError>(SysError { errno: EEXIST })
                &&& *final(self) == *old(self)
            },
            lookup_spec(old(self).inode_queue@, parent, name@) is None ==> {
                &&& r matches Ok(c)
                &&& !old(self).ino_allocator.in_use(c)
                &&& final(self).wf()
                &&& entry_step(old(self).inode_queue@, parent, name@, FileTypeFlag::DT_REG, true, c, final(self).inode_queue@)
            },
    {
        self.add_entry(parent, name, FileTypeFlag::DT_REG, true)
    }

    /// Create a directory `name` in directory `parent`; `EEXIST` when the
    /// directory has a child of that name.
    pub fn mkdir(&mut self, parent: usize, name: &str) -> (r: Result<usize, SysError>)
        requires
            old(self).wf(),
            has_dir(old(self).inode_queue@, parent),
            old(self).can_allocate(),
        ensures
            lookup_spec(old(self).inode_queue@, parent, name@) is Some ==> {
                &&& r == Err::<usize, SysError>(SysError { errno: EEXIST })
                &&& *final(self) == *old(self)
            },
            lookup_spec(old(self).inode_queue@, parent, name@) is None ==> {
                &&& r matches Ok(c)
                &&& !old(self).ino_allocator.in_use(c)
                &&& final(self).wf()
                &&& entry_step(old(self).inode_queue@, parent, name@, FileTypeFlag::DT_DIR, true, c, final(self).inode_queue@)
            },
    {
        self.add_entry(parent, name, FileTypeFlag::DT_DIR, true)
    }
}


/// Law: after an entry is created or made a directory under `parent`,
/// looking its name up in `parent` finds it.
pub proof fn law_create_then_lookup(
    before: RamFileSystem,
    parent: usize,
    name: Seq<char>,
    t: FileTypeFlag,
    c: usize,
    after: RamFileSystem,
)
    requires
        before.wf(),
        after.wf(),
        has_dir(before.inode_queue@, parent),
        lookup_spec(before.inode_queue@, parent, name) is None,
        !before.ino_allocator.in_use(c),
        entry_step(before.inode_queue@, parent, name, t, true, c, after.inode_queue@),
    ensures
        lookup_spec(after.inode_queue@, parent, name) == Some(c),
{
    let q = before.inode_queue@;
    let n = after.inode_queue@;
    let d = index_of(q, parent);
    assert(q[d].ino == parent);
    assert(n[d].ino == parent);
    assert(index_of(n, parent) == d) by {
        let e = index_of(n, parent);
        assert(n[e].ino == parent);
    }
    let kids = q[d].sub_nodes@;
    assert forall|k: int| 0 <= k < kids.len() implies (named(q, #[trigger] kids[k], name) <==> named(n, kids[k], name)) by {
        let x = kids[k];
        assert(before.ino_allocator.in_use(q[d].sub_nodes@[k]));
        if named(q, x, name) {
            let i = choose|i: int| 0 <= i < q.len() && (#[trigger] q[i]).ino == x && q[i].name@ == name;
            assert(n[i].ino == x && n[i].name@ == name);
        }
        if named(n, x, name) {
            let i = choose|i: int| 0 <= i < n.len() && (#[trigger] n[i]).ino == x && n[i].name@ == name;
            if i == q.len() {
                assert(n[i] == n.last());
            } else {
                assert(q[i].ino == x && q[i].name@ == name);
            }
        }
    }
    lemma_first_named_same(q, n, kids, name);
    assert(named(n, c, name)) by {
        assert(n[n.len() - 1].ino == c);
    }
    lemma_first_named_push(n, kids, c, name);
}


impl RamFileSystem {
    /// Make a device node `name` of type `file_type` for device `rdev`: a
    /// fresh inode holding the device number, which the directory does not
    /// list among its children. `EEXIST` when the directory has a child of
    /// that name.
    pub fn mknod(&mut self, parent: usize, name: &str, file_type: FileTypeFlag, rdev: Rdev) -> (r: Result<
        usize,
        SysError,
    >)
        requires
            old(self).wf(),
            has_dir(old(self).inode_queue@, parent),
            old(self).can_allocate(),
            file_type.device(),
        ensures
            lookup_spec(old(self).inode_queue@, parent, name@) is Some ==> {
                &&& r == Err::<usize, SysError>(SysError { errno: EEXIST })
                &&& *final(self) == *old(self)
            },
            lookup_spec(old(self).inode_queue@, parent, name@) is None ==> {
                let n = final(self).inode_queue@;
                &&& r matches Ok(c)
                &&& !old(self).ino_allocator.in_use(c)
                &&& final(self).wf()
                &&& n.drop_last() == old(self).inode_queue@
                &&& n.last().ino == c
                &&& n.last().name@ == name@
                &&& n.last().file_type == file_type
                &&& n.last().sub_nodes@ == Seq::<usize>::empty()
                &&& n.last().content@ == rdev_bytes(rdev_bits(rdev), vstd::layout::size_of::<usize>())
            },
    {
        let r = self.add_entry(parent, name, file_type, false);
        match r {
            Ok(c) => {
                let ghost q1 = self.inode_queue@;
                let last = self.inode_queue.len() - 1;
                self.inode_queue[last].set_rdev(rdev);
                proof {
                    let q = old(self).inode_queue@;
                    let n = self.inode_queue@;
                    let d = index_of(q, parent);
                    assert forall|i: int| 0 <= i < q.len() implies n[i] == q[i] by {
                        assert(q1.drop_last()[i] == q[i]);
                    }
                    assert(n.drop_last() =~= q);
                    assert forall|i: int, k: int|
                        0 <= i < n.len() && 0 <= k < n[i].sub_nodes@.len() implies self.ino_allocator.in_use(
                        #[trigger] n[i].sub_nodes@[k]) by {
                        assert(n[i].sub_nodes == q1[i].sub_nodes);
                        assert(q1[i].sub_nodes@[k] == n[i].sub_nodes@[k]);
                    }
                    assert forall|i: int| 0 <= i < n.len() implies self.ino_allocator.in_use(#[trigger] n[i].ino) by {
                        assert(n[i].ino == q1[i].ino);
                    }
                    assert forall|i: int, j: int| 0 <= i < n.len() && 0 <= j < n.len() && i != j implies (#[trigger] n[i]).ino
                        != (#[trigger] n[j]).ino by {
                        assert(n[i].ino == q1[i].ino);
                        assert(n[j].ino == q1[j].ino);
                    }
                }
                Ok(c)
            },
            Err(e) => Err(e),
        }
    }
}


/// An in-memory file system mounted for a device, by its 64-bit number.
pub struct RamFsInstance {
    pub rdev: u64,
    pub fs: RamFileSystem,
}

/// The in-memory file systems, at most one per device.
pub struct RamFileSystems {
    pub list: Vec<RamFsInstance>,
}

/// Whether some instance serves device `rdev`.
pub open spec fn has_instance(list: Seq<RamFsInstance>, rdev: u64) -> bool {
    exists|i: int| 0 <= i < list.len() && (#[trigger] list[i]).rdev == rdev
}

impl RamFileSystems {
    pub fn new() -> (r: Self)
        ensures
            r.list@.len() == 0,
    {
        RamFileSystems { list: Vec::new() }
    }

    /// Add the instance for a device that has none yet.
    pub fn add_ram_fs_instance(&mut self, rdev: u64, ram_fs_instance: RamFileSystem)
        requires
            !has_instance(old(self).list@, rdev),
        ensures
            final(self).list@.len() == old(self).list@.len() + 1,
            final(self).list@.drop_last() == old(self).list@,
            final(self).list@.last().rdev == rdev,
            final(self).list@.last().fs == ram_fs_instance,
    {
        self.list.push(RamFsInstance { rdev, fs: ram_fs_instance });
        proof {
            assert(self.list@.drop_last() =~= old(self).list@);
        }
    }

    /// The index of the instance serving device `rdev`.
    pub fn get_ram_fs_instance(&self, rdev: u64) -> (r: Option<usize>)
        ensures
            r matches Some(i) ==> i < self.list@.len() && self.list@[i as int].rdev == rdev && forall|j: int|
                0 <= j < i ==> (#[trigger] self.list@[j]).rdev != rdev,
            r is None ==> !has_instance(self.list@, rdev),
    {
        let mut i: usize = 0;
        while i < self.list.len()
            invariant
                i <= self.list@.len(),
                forall|j: int| 0 <= j < i ==> (#[trigger] self.list@[j]).rdev != rdev,
            decreases self.list@.len() - i,
        {
            if self.list[i].rdev == rdev {
                return Some(i);
            }
            i = i + 1;
        }
        None
    }
}

/// Create an in-memory file system for a device that has none yet: a new
/// instance holding only its root directory, and a super block whose root
/// is that directory (inode 0).
pub fn create_ramfs_super_block(instances: &mut RamFileSystems, rdev: Rdev) -> (r: Option<SuperBlock>)
    requires
        !has_instance(old(instances).list@, rdev_bits(rdev)),
    ensures
        r == Some(SuperBlock { rdev, root: Some(0usize) }),
        final(instances).list@.len() == old(instances).list@.len() + 1,
        final(instances).list@.drop_last() == old(instances).list@,
        final(instances).list@.last().rdev == rdev_bits(rdev),
        final(instances).list@.last().fs.wf(),
        final(instances).list@.last().fs.inode_queue@.len() == 1,
        fresh_inode(final(instances).list@.last().fs.inode_queue@[0], 0, "/"@, FileTypeFlag::DT_DIR),
{
    let fs = RamFileSystem::new();
    let key: u64 = rdev.into();
    instances.add_ram_fs_instance(key, fs);
    let mut sb = SuperBlock::new(rdev);
    sb.root = Some(0);
    Some(sb)
}

} // verus!
