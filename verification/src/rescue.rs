//! Growing the heap when a request cannot be met: a block of the request's
//! size, aligned to that size, is asked of the kernel at the program break
//! and added to the heap, so that the request can be tried once more.
use vstd::prelude::*;
use vstd::arithmetic::power2::{pow2, lemma_pow2_pos, lemma_pow2_unfold, lemma_pow2_strictly_increases, lemma2_to64};
use crate::bits::lemma_shl_pow2;
use crate::heap::{Heap, size_class};
use crate::heap_laws::lemma_least_class;
use crate::buddy_spec::{ORDER, block_size, request_class, first_nonempty, word_up, word_down, range_blocks,
    push_blocks, trailing_zeros, fit_class, max_size, lists_wf, fresh_range, block_ok, free_bytes, no_block_at_zero};

verus! {

/// Where the rescued block starts and the break the kernel is asked for.
#[derive(Clone, Copy, Debug, PartialEq, Eq, Structural)]
pub struct RescuePlan {
    pub start: usize,
    pub new_brk: usize,
}

/// The start of the rescued block of `size` bytes: the break when it is
/// aligned to the size, else the next multiple of the size above it.
pub open spec fn rescue_start(cur: int, size: int) -> int {
    if cur % size == 0 {
        cur
    } else {
        cur / size * size + size
    }
}

/// `add_to_heap` can take the range `[start, end)` on a heap holding `total`
/// bytes.
pub open spec fn heap_range_ok(total: int, start: int, end: int) -> bool {
    &&& start + 7 <= usize::MAX
    &&& word_up(start) <= word_down(end)
    &&& word_down(end) + 8 <= usize::MAX
    &&& word_up(start) + 8 <= word_down(end) ==> word_up(start) != 0
    &&& forall|j: int|
        0 <= j < range_blocks(word_up(start), word_down(end)).len() ==> (#[trigger] range_blocks(
            word_up(start),
            word_down(end),
        )[j]).1 < ORDER
    &&& total + (word_down(end) - word_up(start)) <= usize::MAX
}

/// `add_to_heap_rescue` can take the range `[start, end)` on a heap holding
/// `total` bytes.
pub open spec fn block_range_ok(total: int, start: int, end: int) -> bool {
    &&& start + 7 <= usize::MAX
    &&& word_up(start) <= word_down(end)
    &&& trailing_zeros(word_down(end) - word_up(start)) < ORDER
    &&& total + (word_down(end) - word_up(start)) <= usize::MAX
}

/// The rescue can add the memory from the break `cur` to `new_brk`, the
/// block starting at `start`, to a heap holding `total` bytes.
pub open spec fn rescue_ok(total: int, cur: int, start: int, new_brk: int) -> bool {
    &&& cur <= start
    &&& start == cur ==> block_range_ok(total, cur, new_brk)
    &&& start != cur ==> heap_range_ok(total, cur, start) && block_range_ok(
        total + (word_down(start) - word_up(cur)),
        start,
        new_brk,
    )
}

/// The free lists after the rescue: the gap from the break up to the block
/// cut into aligned blocks, then the block `[start, new_brk)` as one block of
/// the class given by its length.
pub open spec fn rescued_lists(fl: Seq<Seq<usize>>, cur: int, start: int, new_brk: int) -> Seq<Seq<usize>> {
    let base = if start == cur {
        fl
    } else {
        push_blocks(fl, range_blocks(word_up(cur), word_down(start)))
    };
    let c = trailing_zeros(word_down(new_brk) - word_up(start)) as int;
    base.update(c, base[c].push(word_up(start) as usize))
}

/// The bytes the rescue adds to the heap.
pub open spec fn rescued_bytes(cur: int, start: int, new_brk: int) -> int {
    if start == cur {
        word_down(new_brk) - word_up(cur)
    } else {
        (word_down(start) - word_up(cur)) + (word_down(new_brk) - word_up(start))
    }
}

/// What to ask of the kernel for a request of `layout_size` bytes aligned to
/// `layout_align` when the break is at `cur_brk`: a block of the request's
/// class size, starting at the break or at the next multiple of that size.
pub fn rescue_plan(cur_brk: usize, layout_size: usize, layout_align: usize) -> (p: RescuePlan)
    requires
        layout_size as int <= usize::MAX / 2 + 1,
        layout_align as int <= usize::MAX / 2 + 1,
        request_class(layout_size as int, layout_align as int) < ORDER,
        ({
            let s = block_size(request_class(layout_size as int, layout_align as int) as int);
            rescue_start(cur_brk as int, s) + s <= usize::MAX
        }),
    ensures
        ({
            let s = block_size(request_class(layout_size as int, layout_align as int) as int);
            &&& p.start == rescue_start(cur_brk as int, s)
            &&& p.new_brk == p.start + s
        }),
{
    let class = size_class(layout_size, layout_align);
    proof {
        lemma_shl_pow2(class);
    }
    let size = 1usize << class;
    if cur_brk % size == 0 {
        RescuePlan { start: cur_brk, new_brk: cur_brk + size }
    } else {
        proof {
            assert(cur_brk / size * size <= cur_brk) by (nonlinear_arith)
                requires
                    size > 0,
            ;
        }
        let start = cur_brk / size * size + size;
        RescuePlan { start, new_brk: start + size }
    }
}

/// Add what the kernel gave, from the old break `cur_brk` to the new break
/// `new_brk`, with the rescued block starting at `start`: the gap below the
/// block (if any) as aligned blocks, then the block itself.
pub fn rescue(heap: &mut Heap, cur_brk: usize, start: usize, new_brk: usize)
    requires
        old(heap).shaped(),
        rescue_ok(old(heap).total() as int, cur_brk as int, start as int, new_brk as int),
    ensures
        final(heap).shaped(),
        final(heap).lists() == rescued_lists(old(heap).lists(), cur_brk as int, start as int, new_brk as int),
        final(heap).total() == old(heap).total() + rescued_bytes(cur_brk as int, start as int, new_brk as int),
        final(heap).user() == old(heap).user(),
        final(heap).allocated() == old(heap).allocated(),
        ({
            let lo = word_up(start as int);
            let hi = word_down(new_brk as int);
            let c = trailing_zeros(hi - lo) as int;
            lists_wf(old(heap).lists()) && fresh_range(old(heap).lists(), word_up(cur_brk as int), hi) && block_ok(lo, c)
                && hi - lo == block_size(c) ==> lists_wf(final(heap).lists())
        }),
        final(heap).outstanding() == old(heap).outstanding(),
        old(heap).accounted() ==> final(heap).accounted(),
        no_block_at_zero(old(heap).lists()) && word_up(cur_brk as int) != 0 ==> no_block_at_zero(final(heap).lists()),
{
    if start == cur_brk {
        heap.add_to_heap_rescue(cur_brk, new_brk);
    } else {
        let ghost fl0 = heap.lists();
        heap.add_to_heap(cur_brk, start);
        let ghost fl1 = heap.lists();
        proof {
            let hi = word_down(new_brk as int);
            if lists_wf(fl0) && fresh_range(fl0, word_up(cur_brk as int), hi) {
                assert(word_down(start as int) <= word_up(start as int)) by (nonlinear_arith);
                assert(fresh_range(fl0, word_up(cur_brk as int), word_down(start as int)));
                assert(fresh_range(fl1, word_up(start as int), hi)) by {
                    assert forall|x: int| free_bytes(fl1).contains(x) implies x < word_up(start as int) || x >= hi by {
                    }
                }
            }
        }
        heap.add_to_heap_rescue(start, new_brk);
    }
}

/// A power of two has as many trailing zeros as its exponent.
proof fn lemma_trailing_zeros_pow2(k: nat)
    ensures
        trailing_zeros(pow2(k) as int) == k,
    decreases k,
{
    lemma_pow2_pos(k);
    if k == 0 {
        assert(pow2(0) == 1) by {
            lemma2_to64();
        }
    } else {
        lemma_pow2_unfold(k);
        lemma_pow2_pos((k - 1) as nat);
        assert((pow2(k) as int) % 2 == 0);
        assert((pow2(k) as int) / 2 == pow2((k - 1) as nat));
        lemma_trailing_zeros_pow2((k - 1) as nat);
    }
}

/// Every block cutting `[a, b)` is no larger than the range.
proof fn lemma_range_blocks_fit(a: int, b: int)
    ensures
        forall|j: int|
            0 <= j < range_blocks(a, b).len() ==> pow2((#[trigger] range_blocks(a, b)[j]).1 as nat) <= b - a
                && range_blocks(a, b)[j].1 >= 0,
    decreases b - a,
{
    if a <= 0 || a + 8 > b {
    } else {
        let c = fit_class(a, b - a, 0);
        if pow2(c) <= 0 || a + pow2(c) > b {
        } else {
            lemma_range_blocks_fit(a + pow2(c), b);
            let rest = range_blocks(a + pow2(c), b);
            assert(range_blocks(a, b) == seq![(a, c as int)] + rest);
            assert forall|j: int| 0 <= j < range_blocks(a, b).len() implies pow2(
                (#[trigger] range_blocks(a, b)[j]).1 as nat,
            ) <= b - a && range_blocks(a, b)[j].1 >= 0 by {
                if j > 0 {
                    assert(range_blocks(a, b)[j] == rest[j - 1]);
                }
            }
        }
    }
}

/// Pushing blocks of classes other than `k` leaves list `k` and the number
/// of lists as they were.
proof fn lemma_push_blocks_keeps(fl: Seq<Seq<usize>>, blocks: Seq<(int, int)>, k: int)
    requires
        0 <= k < fl.len(),
        forall|j: int| 0 <= j < blocks.len() ==> (#[trigger] blocks[j]).1 != k,
        forall|j: int| 0 <= j < blocks.len() ==> 0 <= (#[trigger] blocks[j]).1 < fl.len(),
    ensures
        push_blocks(fl, blocks).len() == fl.len(),
        push_blocks(fl, blocks)[k] == fl[k],
    decreases blocks.len(),
{
    if blocks.len() > 0 {
        let b = blocks[0];
        let fl2 = fl.update(b.1, fl[b.1].push(b.0 as usize));
        assert(blocks[0].1 != k);
        assert(fl2.len() == fl.len());
        assert(fl2[k] == fl[k]);
        assert forall|j: int| 0 <= j < blocks.drop_first().len() implies (#[trigger] blocks.drop_first()[j]).1 != k
            && 0 <= blocks.drop_first()[j].1 < fl2.len() by {
            assert(blocks.drop_first()[j] == blocks[j + 1]);
        }
        lemma_push_blocks_keeps(fl2, blocks.drop_first(), k);
    }
}

/// Law: after the rescue for a request, with the kernel moving the break as
/// asked, the retried request is served from the rescued block: its class
/// is the first non-empty list at or above the request's class, and the
/// block is on top of it. The rescue can always be made then.
pub proof fn law_rescue_serves_retry(fl: Seq<Seq<usize>>, total: int, cur: usize, size: usize, align: usize)
    requires
        fl.len() == ORDER,
        cur > 0,
        size as int <= usize::MAX / 2 + 1,
        align as int <= usize::MAX / 2 + 1,
        request_class(size as int, align as int) < ORDER,
        ({
            let s = block_size(request_class(size as int, align as int) as int);
            let start = rescue_start(cur as int, s);
            &&& start + s <= usize::MAX
            &&& 0 <= total
            &&& total + (start + s - cur) <= usize::MAX
        }),
    ensures
        ({
            let k = request_class(size as int, align as int) as int;
            let s = block_size(k);
            let start = rescue_start(cur as int, s);
            let after = rescued_lists(fl, cur as int, start, start + s);
            &&& rescue_ok(total, cur as int, start, start + s)
            &&& first_nonempty(after, k) == k
            &&& after[k].last() == start
            &&& word_up(start) == start && word_down(start + s) == start + s
            &&& trailing_zeros(s) == k
            &&& block_ok(start, k)
        }),
{
    let k = request_class(size as int, align as int) as int;
    let s = block_size(k);
    let start = rescue_start(cur as int, s);
    let new_brk = start + s;
    lemma2_to64();
    lemma_pow2_pos(k as nat);
    // The class is at least that of a word.
    let m = max_size(size as int, max_size(align as int, 8));
    vstd::arithmetic::power2::lemma2_to64_rest();
    lemma_least_class(m, 0);
    if k < 3 {
        if k < 2 {
            lemma_pow2_strictly_increases(k as nat, 2);
        }
        assert(false);
    }
    vstd::arithmetic::power2::lemma_pow2_adds(3, (k - 3) as nat);
    assert(s == 8 * pow2((k - 3) as nat));
    // The block is aligned to its size, hence to a word, and lies above the break.
    assert(start % s == 0 && start >= cur && start - cur < s) by (nonlinear_arith)
        requires
            s > 0,
            start == (if (cur as int) % s == 0 { cur as int } else { (cur as int) / s * s + s }),
    ;
    let p = pow2((k - 3) as nat) as int;
    let q = start / s;
    vstd::arithmetic::div_mod::lemma_fundamental_div_mod(start, s);
    assert(start == (q * p) * 8) by (nonlinear_arith)
        requires
            start == s * q + 0,
            s == 8 * p,
    ;
    vstd::arithmetic::div_mod::lemma_mod_multiples_basic(q * p, 8);
    assert(new_brk == (q * p + p) * 8) by (nonlinear_arith)
        requires
            start == (q * p) * 8,
            s == 8 * p,
            new_brk == start + s,
    ;
    vstd::arithmetic::div_mod::lemma_mod_multiples_basic(q * p + p, 8);
    assert(start % 8 == 0 && new_brk % 8 == 0);
    assert(word_up(start) == start && word_down(start) == start && word_down(new_brk) == new_brk) by (nonlinear_arith)
        requires
            start % 8 == 0,
            new_brk % 8 == 0,
    ;
    assert(cur <= word_up(cur as int) <= start && word_up(cur as int) >= 8) by (nonlinear_arith)
        requires
            start % 8 == 0,
            start >= cur,
            cur > 0,
    ;
    lemma_trailing_zeros_pow2(k as nat);
    assert(word_down(new_brk) - word_up(start) == s);
    if start != cur {
        let lo = word_up(cur as int);
        lemma_range_blocks_fit(lo, start);
        assert forall|j: int| 0 <= j < range_blocks(lo, start).len() implies (#[trigger] range_blocks(lo, start)[j]).1
            < k && 0 <= range_blocks(lo, start)[j].1 < fl.len() by {
            let c = range_blocks(lo, start)[j].1;
            if c >= k {
                if c > k {
                    lemma_pow2_strictly_increases(k as nat, c as nat);
                }
            }
        }
        lemma_push_blocks_keeps(fl, range_blocks(lo, start), k);
    }
    let after = rescued_lists(fl, cur as int, start, new_brk);
    assert(after[k].len() > 0);
}

} // verus!
