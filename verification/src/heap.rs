//! A heap that uses the buddy system.
use vstd::prelude::*;
use vstd::arithmetic::power2::{pow2, lemma_pow2_pos, lemma_pow2_unfold};
use crate::bits::lemma_shl_pow2;
use crate::heap_laws::{lemma_find_last, lemma_range_blocks_in, lemma_push_blocks_wf, lemma_push_block,
    law_allocate_takes_free_block, law_dealloc_frees_block, lemma_split_list_bytes, lemma_merge_list_bytes,
    lemma_push_blocks_bytes, lemma_range_blocks_bytes, lemma_push_list_bytes, lemma_trailing_block,
    lemma_list_bytes_nonneg, lemma_split_keeps_nonzero, lemma_merge_keeps_a_block, lemma_range_blocks_positive,
    lemma_push_blocks_nonzero, lemma_push_nonzero, stats_track, requests, given_back, lemma_tracks_steps};
use crate::buddy_spec::{ORDER, lists_wf, request_class, max_size, least_class, block_size, block_ok,
    first_nonempty, split_lists, split_stage, is_power_of_two, find_last, buddy_of, merge_into,
    merge_overflows, word_up, word_down, fit_class, range_blocks, push_blocks, trailing_zeros, fresh_range,
    grows_within, block_bytes, free_bytes, in_block, list_bytes, listed_bytes, no_block_at_zero};

verus! {

/// A heap that uses the buddy system: one free list per size class, plus
/// statistics on what was requested, what was handed out and what was added.
pub struct Heap {
    free_list: Vec<Vec<usize>>,
    user: usize,
    allocated: usize,
    total: usize,
    outstanding: Ghost<Seq<(usize, usize, usize)>>,
}

/// Law: a heap that `new` or `empty` made, and that was then only grown
/// (`add_to_heap`, `init`, `add_to_heap_rescue`, `rescue`), asked for blocks
/// (`allocate`), and given back blocks it had handed out, each with the size
/// and alignment it was asked for (`dealloc`), has every byte accounted for
/// and counters that are those of its outstanding requests: each of those
/// functions' contracts keeps `accounted` and `tracks`, and `new` and `empty`
/// establish them. On such a heap the requested bytes never exceed the
/// allocated bytes, and those never exceed the bytes added.
pub proof fn law_counters_ordered(h: Heap)
    requires
        h.accounted(),
        h.tracks(),
    ensures
        h.user() <= h.allocated() <= h.total(),
{
    lemma_list_bytes_nonneg(h.lists(), h.lists().len() as int);
    lemma_tracks_steps(h.user() as int, h.allocated() as int, h.outstanding(), (0usize, 0usize, 0usize));
}

/// Empty lists hold no bytes.
proof fn lemma_no_bytes(fl: Seq<Seq<usize>>, n: int)
    requires
        n <= fl.len(),
        forall|c: int| 0 <= c < fl.len() ==> (#[trigger] fl[c]).len() == 0,
    ensures
        list_bytes(fl, n) == 0,
    decreases n,
{
    if n > 0 {
        lemma_no_bytes(fl, n - 1);
    }
}

impl Heap {
    /// The free lists, class by class.
    pub closed spec fn lists(&self) -> Seq<Seq<usize>> {
        Seq::new(self.free_list@.len(), |c: int| self.free_list@[c]@)
    }

    /// Bytes that users asked for and still hold.
    pub closed spec fn user(&self) -> nat {
        self.user as nat
    }

    /// Bytes handed out, rounded up to whole blocks.
    pub closed spec fn allocated(&self) -> nat {
        self.allocated as nat
    }

    /// Bytes ever added to the heap.
    pub closed spec fn total(&self) -> nat {
        self.total as nat
    }

    /// Every byte is accounted for: the free blocks and the blocks handed
    /// out hold no more than the bytes added to the heap.
    pub open spec fn accounted(&self) -> bool {
        listed_bytes(self.lists()) + self.allocated() <= self.total()
    }

    /// The requests served and not given back yet, in the order they were
    /// served: each the block's address, the size and the alignment asked.
    pub closed spec fn outstanding(&self) -> Seq<(usize, usize, usize)> {
        self.outstanding@
    }

    /// The counters of requested and allocated bytes are those of the
    /// outstanding requests.
    pub open spec fn tracks(&self) -> bool {
        &&& stats_track(self.user() as int, self.allocated() as int, requests(self.outstanding()))
        &&& forall|j: int| 0 <= j < self.outstanding().len() ==> (#[trigger] self.outstanding()[j]).1 as int
            <= pow2(63) && self.outstanding()[j].2 as int <= pow2(63)
    }

    /// The free lists have one list per class.
    pub closed spec fn shaped(&self) -> bool {
        self.free_list@.len() == ORDER
    }

    /// Create an empty heap.
    pub fn new() -> (h: Self)
        ensures
            h.shaped(),
            h.lists() == Seq::new(ORDER as nat, |c: int| Seq::<usize>::empty()),
            lists_wf(h.lists()),
            h.user() == 0,
            h.allocated() == 0,
            h.total() == 0,
            h.accounted(),
            no_block_at_zero(h.lists()),
            h.outstanding() == Seq::<(usize, usize, usize)>::empty(),
            h.tracks(),
    {
        let mut free_list: Vec<Vec<usize>> = Vec::new();
        let mut c: usize = 0;
        while c < ORDER
            invariant
                c <= ORDER,
                free_list@.len() == c,
                forall|m: int| 0 <= m < c ==> (#[trigger] free_list@[m])@.len() == 0,
            decreases ORDER - c,
        {
            free_list.push(Vec::new());
            c = c + 1;
        }
        let h = Heap { free_list, user: 0, allocated: 0, total: 0, outstanding: Ghost(Seq::empty()) };
        assert forall|m: int| 0 <= m < ORDER implies h.lists()[m] =~= Seq::<usize>::empty() by {
            assert(h.free_list@[m]@.len() == 0);
        }
        assert(h.lists() =~= Seq::new(ORDER as nat, |c: int| Seq::<usize>::empty()));
        proof {
            lemma_no_bytes(h.lists(), ORDER as int);
        }
        h
    }

    /// Create an empty heap.
    pub fn empty() -> (h: Self)
        ensures
            h.shaped(),
            h.lists() == Seq::new(ORDER as nat, |c: int| Seq::<usize>::empty()),
            lists_wf(h.lists()),
            h.user() == 0,
            h.allocated() == 0,
            h.total() == 0,
            h.accounted(),
            no_block_at_zero(h.lists()),
            h.outstanding() == Seq::<(usize, usize, usize)>::empty(),
            h.tracks(),
    {
        Self::new()
    }

    /// Alloc a block of memory satisfying a request of `layout_size` bytes
    /// aligned to `layout_align`. The request is served from the first
    /// non-empty list at or above its class; the top block there is split in
    /// halves down to the class, the upper halves going back to the lists.
    pub fn allocate(&mut self, layout_size: usize, layout_align: usize) -> (r: Result<usize, ()>)
        requires
            old(self).shaped(),
            lists_wf(old(self).lists()),
            layout_size as int <= usize::MAX / 2 + 1,
            is_power_of_two(layout_align),
            layout_align as int <= usize::MAX / 2 + 1,
            ({
                let k = request_class(layout_size as int, layout_align as int) as int;
                let i = first_nonempty(old(self).lists(), k);
                i < ORDER && old(self).lists()[i].last() != 0 ==> old(self).user() + layout_size
                    <= usize::MAX && old(self).allocated() + block_size(k) <= usize::MAX
            }),
        ensures
            final(self).shaped(),
            final(self).total() == old(self).total(),
            lists_wf(final(self).lists()),
            old(self).accounted() ==> final(self).accounted(),
            no_block_at_zero(old(self).lists()) ==> no_block_at_zero(final(self).lists()),
            final(self).outstanding() == (match r {
                Ok(b) => old(self).outstanding().push((b, layout_size, layout_align)),
                Err(_) => old(self).outstanding(),
            }),
            old(self).tracks() ==> final(self).tracks(),
            ({
                let k = request_class(layout_size as int, layout_align as int) as int;
                let i = first_nonempty(old(self).lists(), k);
                if i >= ORDER {
                    &&& r is Err
                    &&& final(self).lists() == old(self).lists()
                    &&& final(self).user() == old(self).user()
                    &&& final(self).allocated() == old(self).allocated()
                } else {
                    let b = old(self).lists()[i].last();
                    &&& final(self).lists() == split_lists(old(self).lists(), k, i)
                    &&& b == 0 ==> r is Err && final(self).user() == old(self).user()
                        && final(self).allocated() == old(self).allocated()
                    &&& b != 0 ==> r == Ok::<usize, ()>(b) && final(self).user() == old(self).user()
                        + layout_size && final(self).allocated() == old(self).allocated()
                        + block_size(k)
                }
            }),
    {
        proof {
            let k = request_class(layout_size as int, layout_align as int) as int;
            if first_nonempty(self.lists(), k) < ORDER {
                vstd::arithmetic::power2::lemma2_to64_rest();
                law_allocate_takes_free_block(self.lists(), layout_size, layout_align);
                crate::heap_laws::lemma_first_nonempty(self.lists(), k);
                lemma_split_list_bytes(self.lists(), k, first_nonempty(self.lists(), k), ORDER as int);
                vstd::arithmetic::power2::lemma_pow2_pos(k as nat);
                if no_block_at_zero(self.lists()) {
                    lemma_split_keeps_nonzero(self.lists(), k, first_nonempty(self.lists(), k));
                }
            }
            if self.tracks() {
                vstd::arithmetic::power2::lemma2_to64_rest();
                lemma_tracks_steps(self.user() as int, self.allocated() as int, self.outstanding(), (
                    0usize, layout_size, layout_align));
            }
        }
        let class = size_class(layout_size, layout_align);
        let ghost fl0 = self.lists();
        let ghost k = class as int;
        let mut i = class;
        while i < ORDER
            invariant
                self.shaped(),
                self.lists() == fl0,
                self.user == old(self).user,
                self.allocated == old(self).allocated,
                self.total == old(self).total,
                self.outstanding == old(self).outstanding,
                class <= i,
                first_nonempty(fl0, k) == first_nonempty(fl0, i as int),
                fl0 == old(self).lists(),
                lists_wf(fl0),
                k == request_class(layout_size as int, layout_align as int),
                k == class,
                class < 64,
                pow2(class as nat) >= max_size(layout_size as int, max_size(layout_align as int, 8)),
                first_nonempty(fl0, k) < ORDER && fl0[first_nonempty(fl0, k)].last() != 0
                    ==> self.user + layout_size <= usize::MAX && self.allocated + block_size(k) <= usize::MAX,
                first_nonempty(fl0, k) < ORDER ==> lists_wf(split_lists(fl0, k, first_nonempty(fl0, k))),
                first_nonempty(fl0, k) < ORDER ==> listed_bytes(split_lists(fl0, k, first_nonempty(fl0, k)))
                    + block_size(k) == listed_bytes(fl0) && block_size(k) > 0,
                first_nonempty(fl0, k) < ORDER && no_block_at_zero(fl0) ==> no_block_at_zero(
                    split_lists(fl0, k, first_nonempty(fl0, k))),
                layout_size as int <= usize::MAX / 2 + 1,
                layout_align as int <= usize::MAX / 2 + 1,
            decreases ORDER - i,
        {
            if self.free_list[i].len() > 0 {
                proof {
                    assert(fl0[i as int] == self.free_list@[i as int]@);
                    assert(first_nonempty(fl0, i as int) == i);
                }
                let ghost b = fl0[i as int].last();
                let mut j = i;
                proof {
                    assert(self.lists() =~= split_stage(fl0, k, i as int, i as int));
                }
                while j > class
                    invariant
                        self.shaped(),
                        class <= j <= i < ORDER,
                        self.lists() == split_stage(fl0, k, i as int, j as int),
                        lists_wf(fl0),
                        fl0[i as int].len() > 0,
                        b == fl0[i as int].last(),
                        k == class,
                        self.user == old(self).user,
                        self.allocated == old(self).allocated,
                        self.total == old(self).total,
                        self.outstanding == old(self).outstanding,
                    decreases j,
                {
                    proof {
                        assert(self.free_list@[j as int]@ == split_stage(fl0, k, i as int, j as int)[j as int]);
                    }
                    let ghost st = self.lists();
                    let popped = self.free_list[j].pop();
                    match popped {
                        Some(block) => {
                            proof {
                                assert(block == b);
                                assert(block_ok(fl0[i as int][fl0[i as int].len() - 1] as int, i as int));
                                lemma_shl_pow2((j - 1) as usize);
                                vstd::arithmetic::power2::lemma_pow2_strictly_increases((j - 1) as nat, i as nat);
                            }
                            self.free_list[j - 1].push(block + (1usize << (j - 1)));
                            self.free_list[j - 1].push(block);
                            proof {
                                let nx = split_stage(fl0, k, i as int, (j - 1) as int);
                                assert((block + (1usize << (j - 1))) as int == block + block_size(j - 1));
                                assert forall|m: int| 0 <= m < ORDER implies #[trigger] self.lists()[m] == nx[m] by {
                                    if m == j - 1 {
                                        assert(st[m] == fl0[m]);
                                        assert(self.lists()[m] =~= nx[m]);
                                    } else if m == j {
                                        assert(self.lists()[m] =~= st[m].drop_last());
                                        assert(self.lists()[m] =~= nx[m]);
                                    } else {
                                        assert(self.lists()[m] == st[m]);
                                    }
                                }
                                assert(self.lists() =~= nx);
                            }
                        },
                        None => {
                            return Err(());
                        },
                    }
                    j = j - 1;
                }
                proof {
                    assert(self.free_list@[class as int]@ == split_stage(fl0, k, i as int, k)[k]);
                    assert(self.free_list@[class as int]@.len() > 0);
                }
                let ghost st = self.lists();
                let top = self.free_list[class].pop();
                let result = match top {
                    Some(block) => block,
                    None => {
                        return Err(());
                    },
                };
                proof {
                    assert(result == b);
                    let nx = split_lists(fl0, k, i as int);
                    assert forall|m: int| 0 <= m < ORDER implies #[trigger] self.lists()[m] == nx[m] by {
                        if m == k {
                            assert(self.lists()[m] =~= st[m].drop_last());
                            assert(self.lists()[m] =~= nx[m]);
                        } else {
                            assert(self.lists()[m] == st[m]);
                        }
                    }
                    assert(self.lists() =~= nx);
                }
                if result == 0 {
                    return Err(());
                }
                proof {
                    lemma_shl_pow2(class);
                }
                self.user = self.user + layout_size;
                self.allocated = self.allocated + (1usize << class);
                proof {
                    if old(self).tracks() {
                        vstd::arithmetic::power2::lemma2_to64_rest();
                        lemma_tracks_steps(old(self).user() as int, old(self).allocated() as int,
                            old(self).outstanding(), (result, layout_size, layout_align));
                    }
                }
                self.outstanding = Ghost(self.outstanding@.push((result, layout_size, layout_align)));
                return Ok(result);
            }
            proof {
                assert(fl0[i as int] == self.free_list@[i as int]@);
            }
            i = i + 1;
        }
        Err(())
    }

    /// Dealloc the block at `ptr` that served a request of `layout_size` bytes
    /// aligned to `layout_align`: the block goes back to its list, and as long
    /// as its buddy is free too the two are merged into one block of the next
    /// class.
    pub fn dealloc(&mut self, ptr: usize, layout_size: usize, layout_align: usize)
        requires
            old(self).shaped(),
            layout_size as int <= usize::MAX / 2 + 1,
            is_power_of_two(layout_align),
            layout_align as int <= usize::MAX / 2 + 1,
            request_class(layout_size as int, layout_align as int) < ORDER,
            !merge_overflows(old(self).lists(), ptr, request_class(layout_size as int, layout_align as int) as int),
            old(self).user() >= layout_size,
            old(self).allocated() >= block_size(request_class(layout_size as int, layout_align as int) as int),
        ensures
            final(self).shaped(),
            final(self).lists() == merge_into(old(self).lists(), ptr,
                request_class(layout_size as int, layout_align as int) as int),
            final(self).user() == old(self).user() - layout_size,
            final(self).allocated() == old(self).allocated()
                - block_size(request_class(layout_size as int, layout_align as int) as int),
            final(self).total() == old(self).total(),
            old(self).accounted() ==> final(self).accounted(),
            no_block_at_zero(old(self).lists()) && ptr != 0 ==> no_block_at_zero(final(self).lists()),
            final(self).outstanding() == given_back(old(self).outstanding(), (ptr, layout_size, layout_align)),
            old(self).tracks() && old(self).outstanding().contains((ptr, layout_size, layout_align))
                ==> final(self).tracks(),
            ({
                let k = request_class(layout_size as int, layout_align as int) as int;
                lists_wf(old(self).lists()) && block_ok(ptr as int, k) && block_bytes(ptr as int, k).disjoint(
                    free_bytes(old(self).lists()),
                ) ==> lists_wf(final(self).lists())
            }),
    {
        proof {
            let k = request_class(layout_size as int, layout_align as int) as int;
            lemma_merge_list_bytes(self.lists(), ptr, k);
            if no_block_at_zero(self.lists()) && ptr != 0 {
                lemma_merge_keeps_a_block(self.lists(), ptr, k);
            }
            if lists_wf(self.lists()) && block_ok(ptr as int, k) && block_bytes(ptr as int, k).disjoint(
                free_bytes(self.lists()),
            ) {
                law_dealloc_frees_block(self.lists(), ptr, layout_size, layout_align);
            }
        }
        let class = size_class(layout_size, layout_align);
        let ghost fl0 = self.lists();
        let ghost mut base = fl0;
        let ghost st = self.lists();
        self.free_list[class].push(ptr);
        proof {
            assert(self.lists() =~= base.update(class as int, base[class as int].push(ptr)));
        }
        let mut cur = ptr;
        let mut cc = class;
        while cc < ORDER
            invariant_except_break
                class <= cc,
            invariant
                cc <= ORDER,
                self.shaped(),
                cc < ORDER ==> self.lists() == base.update(cc as int, base[cc as int].push(cur)),
                base.len() == ORDER,
                merge_into(fl0, ptr, class as int) == (if cc < ORDER { merge_into(base, cur, cc as int) } else { self.lists() }),
                !merge_overflows(base, cur, cc as int),
                self.user == old(self).user,
                self.allocated == old(self).allocated,
                self.total == old(self).total,
                self.outstanding == old(self).outstanding,
            ensures
                self.lists() == merge_into(fl0, ptr, class as int),
                self.shaped(),
                self.user == old(self).user,
                self.allocated == old(self).allocated,
                self.total == old(self).total,
                self.outstanding == old(self).outstanding,
            decreases ORDER - cc,
        {
            let buddy = cur ^ (1usize << cc);
            proof {
                assert(buddy == buddy_of(cur, cc as int));
                assert((cur ^ (1usize << cc)) != cur) by (bit_vector)
                    requires cc < 32;
                assert(self.lists()[cc as int] == self.free_list@[cc as int]@);
                assert(self.free_list@[cc as int]@ == base[cc as int].push(cur));
                assert(base[cc as int].push(cur).drop_last() =~= base[cc as int]);
                assert(find_last(base[cc as int].push(cur), buddy) == find_last(base[cc as int], buddy));
            }
            let found = find_top(&self.free_list[cc], buddy);
            match found {
                Some(idx) => {
                    let ghost k = idx as int;
                    let ghost cur0 = cur;
                    let ghost st = self.lists();
                    proof {
                        lemma_find_last(base[cc as int], buddy);
                        assert(k < base[cc as int].len());
                    }
                    self.free_list[cc].remove(idx);
                    self.free_list[cc].pop();
                    cur = if cur <= buddy { cur } else { buddy };
                    proof {
                        let nb = base.update(cc as int, base[cc as int].remove(k));
                        assert(self.free_list@[cc as int]@ =~= nb[cc as int]);
                        assert forall|m: int| 0 <= m < ORDER implies #[trigger] self.lists()[m] == nb[m] by {
                            if m == cc {
                                assert(self.lists()[m] == self.free_list@[m]@);
                            } else {
                                assert(self.lists()[m] == self.free_list@[m]@);
                                assert(st[m] == base.update(cc as int, base[cc as int].push(cur0))[m]);
                            }
                        }
                        assert(self.lists() =~= nb);
                        if cc + 1 >= ORDER {
                            assert(merge_overflows(base, cur0, cc as int));
                        }
                        assert(merge_into(base, cur0, cc as int) == merge_into(nb, cur, cc + 1));
                        base = nb;
                    }
                    cc = cc + 1;
                    let ghost st2 = self.lists();
                    self.free_list[cc].push(cur);
                    proof {
                        let goal = base.update(cc as int, base[cc as int].push(cur));
                        assert forall|m: int| 0 <= m < ORDER implies #[trigger] self.lists()[m] == goal[m] by {
                            assert(self.lists()[m] == self.free_list@[m]@);
                            assert(st2[m] == base[m]);
                            if m == cc {
                                assert(self.lists()[m] =~= goal[m]);
                            }
                        }
                        assert(self.lists() =~= goal);
                    }
                },
                None => {
                    proof {
                        assert(self.lists() =~= merge_into(base, cur, cc as int));
                    }
                    break;
                },
            }
        }
        self.user = self.user - layout_size;
        proof {
            lemma_shl_pow2(class);
        }
        self.allocated = self.allocated - (1usize << class);
        proof {
            if old(self).tracks() {
                vstd::arithmetic::power2::lemma2_to64_rest();
                lemma_tracks_steps(old(self).user() as int, old(self).allocated() as int, old(self).outstanding(), (
                    ptr, layout_size, layout_align));
            }
        }
        self.outstanding = Ghost(given_back(self.outstanding@, (ptr, layout_size, layout_align)));
        ()
    }

    /// Add the memory range `[start, end)` to the heap, trimmed inward to
    /// whole words and cut into the largest aligned blocks that fit.
    pub fn add_to_heap(&mut self, start: usize, end: usize)
        requires
            old(self).shaped(),
            start as int + 7 <= usize::MAX,
            word_up(start as int) <= word_down(end as int),
            word_down(end as int) + 8 <= usize::MAX,
            word_up(start as int) + 8 <= word_down(end as int) ==> word_up(start as int) != 0,
            forall|j: int| 0 <= j < range_blocks(word_up(start as int), word_down(end as int)).len()
                ==> (#[trigger] range_blocks(word_up(start as int), word_down(end as int))[j]).1 < ORDER,
            old(self).total() + (word_down(end as int) - word_up(start as int)) <= usize::MAX,
        ensures
            final(self).shaped(),
            final(self).lists() == push_blocks(old(self).lists(),
                range_blocks(word_up(start as int), word_down(end as int))),
            final(self).total() == old(self).total() + (word_down(end as int) - word_up(start as int)),
            final(self).user() == old(self).user(),
            final(self).allocated() == old(self).allocated(),
            final(self).outstanding() == old(self).outstanding(),
            old(self).accounted() ==> final(self).accounted(),
            no_block_at_zero(old(self).lists()) ==> no_block_at_zero(final(self).lists()),
            lists_wf(old(self).lists()) && fresh_range(old(self).lists(), word_up(start as int), word_down(end as int))
                ==> lists_wf(final(self).lists()) && grows_within(old(self).lists(), final(self).lists(), word_up(
                start as int), word_down(end as int)),
    {
        let up = start + 7;
        let s = up & !7usize;
        let e = end & !7usize;
        proof {
            assert(up & !7usize == up / 8 * 8) by (bit_vector);
            assert(end & !7usize == end / 8 * 8) by (bit_vector);
        }
        let ghost fl0 = self.lists();
        let ghost all = range_blocks(s as int, e as int);
        proof {
            lemma_range_blocks_bytes(s as int, e as int);
            lemma_push_blocks_bytes(fl0, all);
            lemma_range_blocks_positive(s as int, e as int);
            if no_block_at_zero(fl0) {
                lemma_push_blocks_nonzero(fl0, all);
            }
            lemma_range_blocks_in(s as int, e as int);
            if lists_wf(fl0) && fresh_range(fl0, s as int, e as int) {
                lemma_push_blocks_wf(fl0, all, s as int, e as int);
            }
        }
        let mut total: usize = 0;
        let mut cur = s;
        while cur + 8 <= e
            invariant
                self.shaped(),
                s <= cur <= e,
                e as int + 8 <= usize::MAX,
                cur % 8 == 0,
                e % 8 == 0,
                s + 8 <= e ==> s != 0,
                total == cur - s,
                push_blocks(fl0, all) == push_blocks(self.lists(), range_blocks(cur as int, e as int)),
                forall|j: int| 0 <= j < range_blocks(cur as int, e as int).len()
                    ==> (#[trigger] range_blocks(cur as int, e as int)[j]).1 < ORDER,
                self.user == old(self).user,
                self.allocated == old(self).allocated,
                self.total == old(self).total,
                self.outstanding == old(self).outstanding,
            decreases e - cur,
        {
            let room = e - cur;
            let c = fit_class_of(cur, room);
            let ghost rest = range_blocks(cur as int, e as int);
            proof {
                lemma_fit_class_at_least_word(cur as int, room as int);
                lemma_shl_pow2(3);
                assert(cur > 0);
                lemma_pow2_pos(c as nat);
                assert(pow2(c as nat) <= e - cur);
                assert(rest[0] == (cur as int, c as int));
                assert(c < ORDER);
                lemma_shl_pow2(c);
            }
            let size = 1usize << c;
            let ghost st = self.lists();
            self.free_list[c].push(cur);
            proof {
                assert(self.lists() =~= st.update(c as int, st[c as int].push(cur)));
                assert(rest.drop_first() =~= range_blocks(cur + size, e as int));
                vstd::arithmetic::power2::lemma_pow2_adds((c - 3) as nat, 3);
                vstd::arithmetic::power2::lemma2_to64();
                assert(((c - 3) as nat) + 3 == c as nat);
                assert(size as int == pow2((c - 3) as nat) * 8);
                assert((cur + size) % 8 == 0) by (nonlinear_arith)
                    requires cur % 8 == 0, size as int == pow2((c - 3) as nat) * 8;
                assert forall|j: int| 0 <= j < range_blocks(cur + size, e as int).len()
                    implies (#[trigger] range_blocks(cur + size, e as int)[j]).1 < ORDER by {
                    assert(range_blocks(cur + size, e as int)[j] == rest[j + 1]);
                }
            }
            total = total + size;
            cur = cur + size;
        }
        proof {
            assert(cur == e);
            assert(range_blocks(cur as int, e as int) =~= Seq::<(int, int)>::empty());
        }
        self.total = self.total + total;
    }

    /// Add the memory range `[start, end)`, trimmed inward to whole words, to
    /// the heap as a single block of the class given by the trailing zeros of
    /// its length; meant for ranges whose length is a power of two.
    pub fn add_to_heap_rescue(&mut self, start: usize, end: usize)
        requires
            old(self).shaped(),
            start as int + 7 <= usize::MAX,
            word_up(start as int) <= word_down(end as int),
            trailing_zeros(word_down(end as int) - word_up(start as int)) < ORDER,
            old(self).total() + (word_down(end as int) - word_up(start as int)) <= usize::MAX,
        ensures
            final(self).shaped(),
            final(self).lists() == old(self).lists().update(
                trailing_zeros(word_down(end as int) - word_up(start as int)) as int,
                old(self).lists()[trailing_zeros(word_down(end as int) - word_up(start as int)) as int].push(
                    word_up(start as int) as usize)),
            final(self).total() == old(self).total() + (word_down(end as int) - word_up(start as int)),
            final(self).user() == old(self).user(),
            final(self).allocated() == old(self).allocated(),
            final(self).outstanding() == old(self).outstanding(),
            old(self).accounted() ==> final(self).accounted(),
            no_block_at_zero(old(self).lists()) && word_up(start as int) != 0 ==> no_block_at_zero(final(self).lists()),
            ({
                let lo = word_up(start as int);
                let hi = word_down(end as int);
                let c = trailing_zeros(hi - lo) as int;
                lists_wf(old(self).lists()) && fresh_range(old(self).lists(), lo, hi) && block_ok(lo, c) && hi - lo
                    == block_size(c) ==> lists_wf(final(self).lists()) && grows_within(
                    old(self).lists(),
                    final(self).lists(),
                    lo,
                    hi,
                )
            }),
    {
        let up = start + 7;
        let s = up & !7usize;
        let e = end & !7usize;
        proof {
            assert(up & !7usize == up / 8 * 8) by (bit_vector);
            assert(end & !7usize == end / 8 * 8) by (bit_vector);
        }
        let size = e - s;
        let class = trailing_zeros_of(size);
        let ghost st = self.lists();
        self.free_list[class].push(s);
        proof {
            assert(self.lists() =~= st.update(class as int, st[class as int].push(s)));
            lemma_push_list_bytes(st, class as int, s);
            if no_block_at_zero(st) && s != 0 {
                lemma_push_nonzero(st, class as int, s);
            }
            lemma_trailing_block(size as int);
            if lists_wf(st) && fresh_range(st, s as int, e as int) && block_ok(s as int, class as int) && e - s
                == block_size(class as int) {
                assert(block_bytes(s as int, class as int).disjoint(free_bytes(st))) by {
                    assert forall|x: int| block_bytes(s as int, class as int).contains(x) implies !free_bytes(
                        st,
                    ).contains(x) by {
                        assert(in_block(x, s as int, class as int));
                    }
                }
                lemma_push_block(st, s, class as int);
            }
        }
        self.total = self.total + size;
    }

    /// Add the memory range `[start, start + size)` to the heap.
    pub fn init(&mut self, start: usize, size: usize)
        requires
            old(self).shaped(),
            start as int + size <= usize::MAX,
            start as int + 7 <= usize::MAX,
            word_up(start as int) <= word_down(start + size),
            word_down(start + size) + 8 <= usize::MAX,
            word_up(start as int) + 8 <= word_down(start + size) ==> word_up(start as int) != 0,
            forall|j: int| 0 <= j < range_blocks(word_up(start as int), word_down(start + size)).len()
                ==> (#[trigger] range_blocks(word_up(start as int), word_down(start + size))[j]).1 < ORDER,
            old(self).total() + (word_down(start + size) - word_up(start as int)) <= usize::MAX,
        ensures
            final(self).shaped(),
            final(self).lists() == push_blocks(old(self).lists(),
                range_blocks(word_up(start as int), word_down(start + size))),
            final(self).total() == old(self).total() + (word_down(start + size) - word_up(start as int)),
            final(self).user() == old(self).user(),
            final(self).allocated() == old(self).allocated(),
            final(self).outstanding() == old(self).outstanding(),
            old(self).accounted() ==> final(self).accounted(),
            no_block_at_zero(old(self).lists()) ==> no_block_at_zero(final(self).lists()),
            lists_wf(old(self).lists()) && fresh_range(old(self).lists(), word_up(start as int), word_down(start + size))
                ==> lists_wf(final(self).lists()) && grows_within(old(self).lists(), final(self).lists(), word_up(
                start as int), word_down(start + size)),
    {
        self.add_to_heap(start, start + size);
    }

    /// Whether giving back the block at `ptr` for a request of `layout_size`
    /// bytes aligned to `layout_align` would merge it past the last class,
    /// where the merged block has no list to go to.
    pub fn dealloc_overflows(&self, ptr: usize, layout_size: usize, layout_align: usize) -> (r: bool)
        requires
            self.shaped(),
            layout_size as int <= usize::MAX / 2 + 1,
            layout_align as int <= usize::MAX / 2 + 1,
            request_class(layout_size as int, layout_align as int) < ORDER,
        ensures
            r == merge_overflows(self.lists(), ptr, request_class(layout_size as int, layout_align as int) as int),
    {
        let class = size_class(layout_size, layout_align);
        let mut cc = class;
        let mut cur = ptr;
        let ghost mut flv = self.lists();
        loop
            invariant
                self.shaped(),
                cc < ORDER,
                flv.len() == ORDER,
                forall|c: int| cc <= c < ORDER ==> #[trigger] flv[c] == self.lists()[c],
                merge_overflows(flv, cur, cc as int) == merge_overflows(self.lists(), ptr, class as int),
                class == request_class(layout_size as int, layout_align as int),
            decreases ORDER - cc,
        {
            let buddy = cur ^ (1usize << cc);
            proof {
                assert(buddy == buddy_of(cur, cc as int));
                assert(self.lists()[cc as int] == self.free_list@[cc as int]@);
            }
            let found = find_top(&self.free_list[cc], buddy);
            match found {
                None => {
                    return false;
                },
                Some(idx) => {
                    if cc + 1 >= ORDER {
                        return true;
                    }
                    proof {
                        flv = flv.update(cc as int, flv[cc as int].remove(idx as int));
                    }
                    cur = if cur <= buddy { cur } else { buddy };
                    cc = cc + 1;
                },
            }
        }
    }

    /// Return the number of bytes that user requests
    pub fn stats_alloc_user(&self) -> (r: usize)
        ensures
            r == self.user(),
    {
        self.user
    }

    /// Return the number of bytes that are actually allocated
    pub fn stats_alloc_actual(&self) -> (r: usize)
        ensures
            r == self.allocated(),
    {
        self.allocated
    }

    /// Return the total number of bytes in the heap
    pub fn stats_total_bytes(&self) -> (r: usize)
        ensures
            r == self.total(),
    {
        self.total
    }
}

/// The position of the topmost `x` in `list`, searching from the top down.
fn find_top(list: &Vec<usize>, x: usize) -> (r: Option<usize>)
    ensures
        match r {
            Some(i) => find_last(list@, x) == Some(i as int) && i < list@.len(),
            None => find_last(list@, x) is None,
        },
{
    let mut idx = list.len();
    proof {
        assert(list@.subrange(0, idx as int) =~= list@);
    }
    while idx > 0
        invariant
            idx <= list@.len(),
            find_last(list@, x) == find_last(list@.subrange(0, idx as int), x),
        decreases idx,
    {
        let ghost pre = list@.subrange(0, idx as int);
        proof {
            assert(pre.drop_last() =~= list@.subrange(0, idx - 1));
        }
        idx = idx - 1;
        if list[idx] == x {
            return Some(idx);
        }
    }
    None
}

/// The largest class whose blocks divide `cur` and fit in `room` bytes.
fn fit_class_of(cur: usize, room: usize) -> (c: usize)
    requires
        room >= 1,
    ensures
        c == fit_class(cur as int, room as int, 0),
        c < 64,
        pow2(c as nat) <= room,
        cur as int % (pow2(c as nat) as int) == 0,
{
    let mut c: usize = 0;
    let mut p: usize = 1;
    proof {
        vstd::arithmetic::power2::lemma2_to64();
    }
    while c < 63 && p <= room / 2 && cur % (p * 2) == 0
        invariant
            c < 64,
            p as int == pow2(c as nat),
            p >= 1,
            p <= room,
            cur as int % (p as int) == 0,
            fit_class(cur as int, room as int, 0) == fit_class(cur as int, room as int, c as nat),
        decreases 64 - c,
    {
        proof {
            lemma_pow2_unfold((c + 1) as nat);
        }
        p = p * 2;
        c = c + 1;
    }
    proof {
        lemma_pow2_unfold((c + 1) as nat);
        if c < 63 && p <= room / 2 {
            assert(pow2((c + 1) as nat) == p * 2);
        } else if c < 63 {
            assert(pow2((c + 1) as nat) > room);
        }
    }
    c
}

/// A word-aligned start with at least a word of room takes a block of at
/// least a word.
proof fn lemma_fit_class_at_least_word(cur: int, room: int)
    requires
        cur % 8 == 0,
        room >= 8,
    ensures
        fit_class(cur, room, 0) >= 3,
{
    vstd::arithmetic::power2::lemma2_to64();
    assert(cur % 2 == 0 && cur % 4 == 0) by (nonlinear_arith)
        requires cur % 8 == 0;
    assert(fit_class(cur, room, 0) == fit_class(cur, room, 1));
    assert(fit_class(cur, room, 1) == fit_class(cur, room, 2));
    assert(fit_class(cur, room, 2) == fit_class(cur, room, 3));
    lemma_fit_class_grows(cur, room, 3);
}

/// `fit_class` never goes below where it starts.
proof fn lemma_fit_class_grows(cur: int, room: int, c: nat)
    ensures
        fit_class(cur, room, c) >= c,
    decreases 63 - c,
{
    if c < 63 && cur % (pow2(c + 1) as int) == 0 && pow2(c + 1) <= room {
        lemma_fit_class_grows(cur, room, c + 1);
    }
}

/// The number of trailing zero bits of `x`.
fn trailing_zeros_of(x: usize) -> (r: usize)
    requires
        x > 0,
    ensures
        r == trailing_zeros(x as int),
        r < 64,
{
    let mut v = x;
    let mut r: usize = 0;
    proof {
        vstd::arithmetic::power2::lemma2_to64();
    }
    while v % 2 == 0
        invariant
            v > 0,
            r + trailing_zeros(v as int) == trailing_zeros(x as int),
            r < 64,
            v as int * pow2(r as nat) == x,
        decreases v,
    {
        proof {
            lemma_pow2_unfold((r + 1) as nat);
            assert(v as int * pow2(r as nat) == (v / 2) as int * pow2((r + 1) as nat)) by (nonlinear_arith)
                requires v % 2 == 0, pow2((r + 1) as nat) == 2 * pow2(r as nat);
            if r == 63 {
                vstd::arithmetic::power2::lemma2_to64_rest();
                assert((v / 2) as int * pow2(64) >= pow2(64)) by (nonlinear_arith)
                    requires v / 2 >= 1, pow2(64) > 0;
                assert(false);
            }
        }
        v = v / 2;
        r = r + 1;
    }
    r
}

/// The class serving a request: the smallest `c` with `2^c` at least the size,
/// the alignment and a word.
pub fn size_class(size: usize, align: usize) -> (c: usize)
    requires
        size as int <= usize::MAX / 2 + 1,
        align as int <= usize::MAX / 2 + 1,
    ensures
        c == request_class(size as int, align as int),
        c < 64,
        pow2(c as nat) >= max_size(size as int, max_size(align as int, 8)),
{
    let m: usize = if size >= align {
        if size >= 8 { size } else { 8 }
    } else {
        if align >= 8 { align } else { 8 }
    };
    assert(m == max_size(size as int, max_size(align as int, 8)));
    let mut c: usize = 0;
    let mut p: usize = 1;
    proof {
        vstd::arithmetic::power2::lemma2_to64();
    }
    while p < m
        invariant
            c < 64,
            p as int == pow2(c as nat),
            m as int <= usize::MAX / 2 + 1,
            forall|e: nat| e < c ==> pow2(e) < m,
            least_class(m as int, 0) == least_class(m as int, c as nat),
        decreases 64 - c,
    {
        proof {
            lemma_pow2_unfold((c + 1) as nat);
            vstd::arithmetic::power2::lemma2_to64();
            vstd::arithmetic::power2::lemma2_to64_rest();
            let top: nat = if usize::MAX == 0xffff_ffff { 31 } else { 63 };
            assert(pow2(top) == usize::MAX / 2 + 1);
            if c >= top {
                if c > top {
                    vstd::arithmetic::power2::lemma_pow2_strictly_increases(top, c as nat);
                }
                assert(false);
            }
            if c + 1 < top {
                vstd::arithmetic::power2::lemma_pow2_strictly_increases((c + 1) as nat, top);
            }
            assert(p * 2 == pow2((c + 1) as nat));
        }
        p = p * 2;
        c = c + 1;
    }
    proof {
        assert(least_class(m as int, c as nat) == c as nat);
    }
    c
}


/// The largest power of two not above `num`.
pub fn prev_power_of_two(num: usize) -> (r: usize)
    requires
        num > 0,
    ensures
        exists|k: nat| r == pow2(k),
        r <= num,
        num < 2 * r,
{
    let mut p: usize = 1;
    let ghost mut k: nat = 0;
    proof {
        vstd::arithmetic::power2::lemma2_to64();
    }
    while p <= num / 2
        invariant
            1 <= p <= num,
            p == pow2(k),
        decreases num - p,
    {
        proof {
            lemma_pow2_unfold(k + 1);
        }
        p = p * 2;
        proof {
            k = k + 1;
        }
    }
    p
}

} // verus!
