//! The mathematical model of the buddy heap: free lists as sequences of
//! block addresses, one sequence per size class, and the bytes they cover.
use vstd::prelude::*;
use vstd::arithmetic::power2::{pow2, lemma_pow2_pos, lemma_pow2_unfold};

verus! {

/// Number of size classes: class `c` holds blocks of `2^c` bytes.
pub const ORDER: usize = 32;

/// Size in bytes of a block of class `c`.
pub open spec fn block_size(c: int) -> int {
    pow2(c as nat) as int
}

/// A block of class `c` at address `a` is aligned to its size and lies in the
/// address space.
pub open spec fn block_ok(a: int, c: int) -> bool {
    &&& 0 <= c < ORDER
    &&& 0 <= a
    &&& a % block_size(c) == 0
    &&& a + block_size(c) <= usize::MAX + 1
}

/// Two blocks do not share a byte.
pub open spec fn disjoint(a1: int, c1: int, a2: int, c2: int) -> bool {
    a1 + block_size(c1) <= a2 || a2 + block_size(c2) <= a1
}

/// Byte `x` lies in the block of class `c` at `a`.
pub open spec fn in_block(x: int, a: int, c: int) -> bool {
    a <= x < a + block_size(c)
}

/// Well-formed free lists: one list per class, every block aligned and in
/// range, and no two listed blocks overlapping.
pub open spec fn lists_wf(fl: Seq<Seq<usize>>) -> bool {
    &&& fl.len() == ORDER
    &&& forall|c: int, i: int|
        0 <= c < ORDER && 0 <= i < fl[c].len() ==> #[trigger] block_ok(fl[c][i] as int, c)
    &&& forall|c1: int, i1: int, c2: int, i2: int|
        #![trigger fl[c1][i1], fl[c2][i2]]
        0 <= c1 < ORDER && 0 <= i1 < fl[c1].len() && 0 <= c2 < ORDER && 0 <= i2 < fl[c2].len()
            && (c1 != c2 || i1 != i2) ==> disjoint(fl[c1][i1] as int, c1, fl[c2][i2] as int, c2)
}

/// Bytes of the free blocks in the lists of the classes below `n`.
pub open spec fn list_bytes(fl: Seq<Seq<usize>>, n: int) -> int
    decreases n,
{
    if n <= 0 {
        0
    } else {
        list_bytes(fl, n - 1) + fl[n - 1].len() * block_size(n - 1)
    }
}

/// Bytes of all the free blocks.
pub open spec fn listed_bytes(fl: Seq<Seq<usize>>) -> int {
    list_bytes(fl, fl.len() as int)
}

/// Bytes of the blocks `(address, class)`.
pub open spec fn blocks_bytes(blocks: Seq<(int, int)>) -> int
    decreases blocks.len(),
{
    if blocks.len() == 0 {
        0
    } else {
        block_size(blocks[0].1) + blocks_bytes(blocks.drop_first())
    }
}

/// No free block starts at address zero.
pub open spec fn no_block_at_zero(fl: Seq<Seq<usize>>) -> bool {
    forall|c: int, i: int| 0 <= c < fl.len() && 0 <= i < fl[c].len() ==> #[trigger] fl[c][i] != 0
}

/// Every byte covered by some free block.
pub open spec fn free_bytes(fl: Seq<Seq<usize>>) -> Set<int> {
    Set::new(
        |x: int|
            exists|c: int, i: int|
                0 <= c < fl.len() && 0 <= i < fl[c].len() && #[trigger] in_block(x, fl[c][i] as int, c),
    )
}

/// The bytes of one block.
pub open spec fn block_bytes(a: int, c: int) -> Set<int> {
    Set::new(|x: int| in_block(x, a, c))
}

/// The smallest class, at least `c`, whose blocks hold `m` bytes (capped at 63).
pub open spec fn least_class(m: int, c: nat) -> nat
    decreases 63 - c,
{
    if c >= 63 || pow2(c) >= m {
        c
    } else {
        least_class(m, c + 1)
    }
}

/// The larger of two sizes.
pub open spec fn max_size(a: int, b: int) -> int {
    if a >= b { a } else { b }
}

/// The class that serves a request of `size` bytes aligned to `align`: blocks
/// are at least a word, at least the alignment, and a power of two.
pub open spec fn request_class(size: int, align: int) -> nat {
    least_class(max_size(size, max_size(align, 8)), 0)
}

/// `align` is a power of two, as the alignment of a layout always is.
pub open spec fn is_power_of_two(n: usize) -> bool {
    n != 0 && n & ((n - 1) as usize) == 0
}

/// The first class at or above `k` whose list is not empty (`ORDER` if none).
pub open spec fn first_nonempty(fl: Seq<Seq<usize>>, k: int) -> int
    decreases ORDER - k,
{
    if k >= ORDER || k < 0 {
        ORDER as int
    } else if fl[k].len() > 0 {
        k
    } else {
        first_nonempty(fl, k + 1)
    }
}

/// The lists after taking the top block `b` of class `i` and splitting it down
/// to class `k`: each class `m` in `k..i` receives the upper half `b + 2^m`,
/// and the lowest half `b` is handed out.
pub open spec fn split_lists(fl: Seq<Seq<usize>>, k: int, i: int) -> Seq<Seq<usize>> {
    let b = fl[i].last();
    Seq::new(
        fl.len(),
        |m: int|
            if m == i {
                fl[i].drop_last()
            } else if k <= m < i {
                fl[m].push((b + block_size(m)) as usize)
            } else {
                fl[m]
            },
    )
}

/// The lists part way through splitting the top block `b` of class `i` down
/// to class `k`, with class `j` holding the piece still to be split on top.
pub open spec fn split_stage(fl: Seq<Seq<usize>>, k: int, i: int, j: int) -> Seq<Seq<usize>> {
    let b = fl[i].last();
    Seq::new(
        fl.len(),
        |m: int|
            if m == j {
                if j == i {
                    fl[i]
                } else {
                    fl[j].push((b + block_size(j)) as usize).push(b)
                }
            } else if j < m < i {
                fl[m].push((b + block_size(m)) as usize)
            } else if m == i {
                fl[i].drop_last()
            } else {
                fl[m]
            },
    )
}

/// Word size: the smallest block, and the alignment of added memory.
pub const WORD: usize = 8;

/// `x` rounded up to a whole word.
pub open spec fn word_up(x: int) -> int {
    (x + 7) / 8 * 8
}

/// `x` rounded down to a whole word.
pub open spec fn word_down(x: int) -> int {
    x / 8 * 8
}

/// The largest class, from `c` up, whose blocks divide `cur` and fit in `room`
/// bytes.
pub open spec fn fit_class(cur: int, room: int, c: nat) -> nat
    decreases 63 - c,
{
    if c < 63 && cur % (pow2(c + 1) as int) == 0 && pow2(c + 1) <= room {
        fit_class(cur, room, c + 1)
    } else {
        c
    }
}

/// The blocks, as (address, class), that cut the range `[cur, end)` when each
/// block is the largest one aligned at its start that still fits.
pub open spec fn range_blocks(cur: int, end: int) -> Seq<(int, int)>
    decreases end - cur,
{
    if cur <= 0 || cur + 8 > end {
        Seq::empty()
    } else {
        let c = fit_class(cur, end - cur, 0);
        if pow2(c) <= 0 || cur + pow2(c) > end {
            Seq::empty()
        } else {
            seq![(cur, c as int)] + range_blocks(cur + pow2(c), end)
        }
    }
}

/// The lists after pushing `blocks` in order, each on the list of its class.
pub open spec fn push_blocks(fl: Seq<Seq<usize>>, blocks: Seq<(int, int)>) -> Seq<Seq<usize>>
    decreases blocks.len(),
{
    if blocks.len() == 0 {
        fl
    } else {
        let b = blocks[0];
        push_blocks(fl.update(b.1, fl[b.1].push(b.0 as usize)), blocks.drop_first())
    }
}

/// Number of trailing zero bits of `x` (64 for zero).
pub open spec fn trailing_zeros(x: int) -> nat
    decreases x,
{
    if x <= 0 {
        64
    } else if x % 2 == 1 {
        0
    } else {
        1 + trailing_zeros(x / 2)
    }
}

/// Index of the topmost (last) occurrence of `x` in `s`.
pub open spec fn find_last(s: Seq<usize>, x: usize) -> Option<int>
    decreases s.len(),
{
    if s.len() == 0 {
        None
    } else if s.last() == x {
        Some(s.len() - 1)
    } else {
        find_last(s.drop_last(), x)
    }
}

/// The buddy of the block of class `c` at `a`.
pub open spec fn buddy_of(a: usize, c: int) -> usize {
    a ^ (1usize << (c as usize))
}

/// The lists after returning the block `cur` of class `cc` and merging it with
/// free buddies as long as one is listed.
pub open spec fn merge_into(fl: Seq<Seq<usize>>, cur: usize, cc: int) -> Seq<Seq<usize>>
    decreases ORDER - cc,
{
    if cc < 0 || cc >= ORDER {
        fl
    } else {
        match find_last(fl[cc], buddy_of(cur, cc)) {
            Some(k) => {
                let merged = if cur <= buddy_of(cur, cc) { cur } else { buddy_of(cur, cc) };
                if cc + 1 < ORDER {
                    merge_into(fl.update(cc, fl[cc].remove(k)), merged, cc + 1)
                } else {
                    fl
                }
            },
            None => fl.update(cc, fl[cc].push(cur)),
        }
    }
}

/// Merging `cur` at class `cc` would reach past the last class, where the
/// merged block has no list to go to.
pub open spec fn merge_overflows(fl: Seq<Seq<usize>>, cur: usize, cc: int) -> bool
    decreases ORDER - cc,
{
    if cc < 0 || cc >= ORDER {
        false
    } else {
        match find_last(fl[cc], buddy_of(cur, cc)) {
            Some(k) => {
                let merged = if cur <= buddy_of(cur, cc) { cur } else { buddy_of(cur, cc) };
                if cc + 1 < ORDER {
                    merge_overflows(fl.update(cc, fl[cc].remove(k)), merged, cc + 1)
                } else {
                    true
                }
            },
            None => false,
        }
    }
}


/// No free byte lies in `[lo, hi)`: the range is memory new to the heap.
pub open spec fn fresh_range(fl: Seq<Seq<usize>>, lo: int, hi: int) -> bool {
    forall|x: int| free_bytes(fl).contains(x) ==> x < lo || x >= hi
}

/// The blocks are well placed, each after the one before, all within
/// `[lo, hi)`.
pub open spec fn blocks_in(blocks: Seq<(int, int)>, lo: int, hi: int) -> bool
    decreases blocks.len(),
{
    if blocks.len() == 0 {
        true
    } else {
        let b = blocks[0];
        &&& block_ok(b.0, b.1)
        &&& lo <= b.0
        &&& b.0 + block_size(b.1) <= hi
        &&& blocks_in(blocks.drop_first(), b.0 + block_size(b.1), hi)
    }
}


/// Every free byte of `after` was free in `before` or lies in `[lo, hi)`.
pub open spec fn grows_within(before: Seq<Seq<usize>>, after: Seq<Seq<usize>>, lo: int, hi: int) -> bool {
    forall|x: int| free_bytes(after).contains(x) ==> free_bytes(before).contains(x) || (lo <= x && x < hi)
}

} // verus!
