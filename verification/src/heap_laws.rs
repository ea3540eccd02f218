//! What the buddy heap keeps and what it hands out, stated over the free
//! lists and the bytes they cover.
use vstd::prelude::*;
use vstd::arithmetic::power2::{pow2, lemma_pow2_pos, lemma_pow2_unfold, lemma_pow2_adds,
    lemma_pow2_strictly_increases};
use vstd::arithmetic::div_mod::lemma_mod_mod;
use crate::buddy_spec::{ORDER, block_size, block_ok, disjoint, in_block, lists_wf, free_bytes,
    block_bytes, split_lists, merge_into, merge_overflows, find_last, buddy_of, first_nonempty, request_class, least_class, max_size,
    fit_class, range_blocks, push_blocks, fresh_range, blocks_in, grows_within, no_block_at_zero,
    list_bytes, listed_bytes, blocks_bytes, trailing_zeros};
use crate::bits::{lemma_buddy, lemma_shl_pow2};

verus! {

/// A multiple of `2^i` is a multiple of every smaller power of two.
pub proof fn lemma_aligned_down(a: int, i: nat, m: nat)
    requires
        m <= i,
        a % block_size(i as int) == 0,
    ensures
        a % block_size(m as int) == 0,
{
    lemma_pow2_adds(m, (i - m) as nat);
    lemma_pow2_pos(m);
    lemma_pow2_pos((i - m) as nat);
    assert((m + (i - m) as nat) as nat == i);
    assert(pow2(i) == pow2(m) * pow2((i - m) as nat));
    lemma_mod_mod(a, pow2(m) as int, pow2((i - m) as nat) as int);
    assert(a % (pow2(m) as int * pow2((i - m) as nat) as int) == 0);
    assert((a % (pow2(m) as int * pow2((i - m) as nat) as int)) % (pow2(m) as int) == 0);
}

/// Powers of two grow with the exponent.
pub proof fn lemma_size_le(m: int, i: int)
    requires
        0 <= m <= i,
    ensures
        block_size(m) <= block_size(i),
        block_size(m) > 0,
{
    lemma_pow2_pos(m as nat);
    if m < i {
        lemma_pow2_strictly_increases(m as nat, i as nat);
    }
}

/// A byte above `b + 2^k` and below `b + 2^i` lies in one of the upper halves
/// `[b + 2^m, b + 2^(m+1))` for some `m` in `k..i`.
pub proof fn lemma_upper_half(x: int, b: int, k: int, i: int) -> (m: int)
    requires
        0 <= k <= i,
        b + block_size(k) <= x < b + block_size(i),
    ensures
        k <= m < i,
        in_block(x, b + block_size(m), m),
    decreases i - k,
{
    lemma_pow2_unfold(i as nat);
    if i == k {
        assert(false);
        0
    } else if x >= b + block_size(i - 1) {
        assert(block_size(i) == 2 * block_size(i - 1));
        i - 1
    } else {
        lemma_upper_half(x, b, k, i - 1)
    }
}

/// Splitting the top block `b` of class `i` down to class `k` keeps the lists
/// well formed, and the free bytes lose exactly the block of class `k` at `b`,
/// which was free and is aligned to its size.
pub proof fn lemma_split_lists(fl: Seq<Seq<usize>>, k: int, i: int)
    requires
        lists_wf(fl),
        0 <= k <= i < ORDER,
        fl[i].len() > 0,
    ensures
        lists_wf(split_lists(fl, k, i)),
        block_ok(fl[i].last() as int, k),
        block_bytes(fl[i].last() as int, k).subset_of(free_bytes(fl)),
        free_bytes(split_lists(fl, k, i)) == free_bytes(fl).difference(
            block_bytes(fl[i].last() as int, k)),
{
    let nf = split_lists(fl, k, i);
    let n = fl[i].len() - 1;
    let b: int = fl[i].last() as int;
    assert(block_ok(fl[i][n] as int, i));
    lemma_size_le(k, i);
    lemma_aligned_down(b, i as nat, k as nat);
    // pieces
    assert forall|m: int| k <= m < i implies block_ok(b + block_size(m), m) && b + block_size(m)
        + block_size(m) <= b + block_size(i) && b + block_size(k) <= b + block_size(m) by {
        lemma_aligned_down(b, i as nat, m as nat);
        lemma_pow2_unfold((m + 1) as nat);
        lemma_size_le(m + 1, i);
        lemma_size_le(k, m);
        assert((b + block_size(m)) % block_size(m) == 0) by (nonlinear_arith)
            requires b % block_size(m) == 0, block_size(m) > 0;
    }
    // what each new position holds
    assert forall|c: int, j: int| 0 <= c < ORDER && 0 <= j < nf[c].len() implies
        (if k <= c < i && j == fl[c].len() { nf[c][j] as int == b + block_size(c) } else {
            (c != i || j < n) && j < fl[c].len() && nf[c][j] == fl[c][j]
        }) by {
        if k <= c < i && j == fl[c].len() {
            assert((b + block_size(c)) as usize as int == b + block_size(c));
        }
    }
    // well formed: alignment
    assert forall|c: int, j: int| 0 <= c < ORDER && 0 <= j < nf[c].len() implies #[trigger] block_ok(
        nf[c][j] as int, c) by {
        if !(k <= c < i && j == fl[c].len()) {
            assert(block_ok(fl[c][j] as int, c));
        }
    }
    // well formed: disjointness
    assert forall|c1: int, j1: int, c2: int, j2: int|
        #![trigger nf[c1][j1], nf[c2][j2]]
        0 <= c1 < ORDER && 0 <= j1 < nf[c1].len() && 0 <= c2 < ORDER && 0 <= j2 < nf[c2].len()
            && (c1 != c2 || j1 != j2) implies disjoint(nf[c1][j1] as int, c1, nf[c2][j2] as int, c2) by {
        let p1 = k <= c1 < i && j1 == fl[c1].len();
        let p2 = k <= c2 < i && j2 == fl[c2].len();
        if p1 && p2 {
            if c1 < c2 {
                lemma_pow2_unfold((c1 + 1) as nat);
                lemma_size_le(c1 + 1, c2);
            } else {
                lemma_pow2_unfold((c2 + 1) as nat);
                lemma_size_le(c2 + 1, c1);
            }
        } else if p1 {
            assert(disjoint(fl[c2][j2] as int, c2, fl[i][n] as int, i));
        } else if p2 {
            assert(disjoint(fl[c1][j1] as int, c1, fl[i][n] as int, i));
        } else {
            assert(disjoint(fl[c1][j1] as int, c1, fl[c2][j2] as int, c2));
        }
    }
    assert(lists_wf(nf));
    // the handed-out block was free
    assert forall|x: int| block_bytes(b as int, k).contains(x) implies free_bytes(fl).contains(x) by {
        assert(in_block(x, fl[i][n] as int, i));
    }
    // free bytes after
    assert forall|x: int| free_bytes(nf).contains(x) <==> free_bytes(fl).difference(block_bytes(
        b as int, k)).contains(x) by {
        if free_bytes(nf).contains(x) {
            let (c, j) = choose|c: int, j: int|
                0 <= c < nf.len() && 0 <= j < nf[c].len() && #[trigger] in_block(x, nf[c][j] as int, c);
            if k <= c < i && j == fl[c].len() {
                assert(in_block(x, fl[i][n] as int, i));
            } else {
                assert(in_block(x, fl[c][j] as int, c));
                assert(disjoint(fl[c][j] as int, c, fl[i][n] as int, i));
            }
        }
        if free_bytes(fl).difference(block_bytes(b as int, k)).contains(x) {
            let (c, j) = choose|c: int, j: int|
                0 <= c < fl.len() && 0 <= j < fl[c].len() && #[trigger] in_block(x, fl[c][j] as int, c);
            if c == i && j == n {
                let m = lemma_upper_half(x, b as int, k, i);
                assert(nf[m][fl[m].len() as int] as int == b + block_size(m));
                assert(in_block(x, nf[m][fl[m].len() as int] as int, m));
            } else {
                assert(nf[c][j] == fl[c][j]);
                assert(in_block(x, nf[c][j] as int, c));
            }
        }
    }
    assert(free_bytes(nf) =~= free_bytes(fl).difference(block_bytes(b as int, k)));
}

/// Two blocks that are not disjoint share the higher of their two starts.
pub proof fn lemma_overlap_byte(a1: int, c1: int, a2: int, c2: int)
    requires
        0 <= c1,
        0 <= c2,
        !disjoint(a1, c1, a2, c2),
    ensures
        in_block(if a1 >= a2 { a1 } else { a2 }, a1, c1),
        in_block(if a1 >= a2 { a1 } else { a2 }, a2, c2),
{
    lemma_size_le(0, c1);
    lemma_size_le(0, c2);
}

/// Pushing a block that shares no byte with the free ones keeps the lists well
/// formed and adds exactly its bytes.
pub proof fn lemma_push_block(fl: Seq<Seq<usize>>, a: usize, c: int)
    requires
        lists_wf(fl),
        block_ok(a as int, c),
        block_bytes(a as int, c).disjoint(free_bytes(fl)),
    ensures
        lists_wf(fl.update(c, fl[c].push(a))),
        free_bytes(fl.update(c, fl[c].push(a))) == free_bytes(fl).union(block_bytes(a as int, c)),
{
    let nf = fl.update(c, fl[c].push(a));
    let top = fl[c].len() as int;
    assert forall|c1: int, j1: int| 0 <= c1 < ORDER && 0 <= j1 < nf[c1].len() implies #[trigger] block_ok(
        nf[c1][j1] as int, c1) by {
        if !(c1 == c && j1 == top) {
            assert(nf[c1][j1] == fl[c1][j1]);
        }
    }
    assert forall|c1: int, j1: int, c2: int, j2: int|
        #![trigger nf[c1][j1], nf[c2][j2]]
        0 <= c1 < ORDER && 0 <= j1 < nf[c1].len() && 0 <= c2 < ORDER && 0 <= j2 < nf[c2].len()
            && (c1 != c2 || j1 != j2) implies disjoint(nf[c1][j1] as int, c1, nf[c2][j2] as int, c2) by {
        let n1 = c1 == c && j1 == top;
        let n2 = c2 == c && j2 == top;
        if !n1 && !n2 {
            assert(nf[c1][j1] == fl[c1][j1] && nf[c2][j2] == fl[c2][j2]);
        } else if n1 && !n2 {
            assert(nf[c2][j2] == fl[c2][j2]);
            if !disjoint(nf[c1][j1] as int, c1, nf[c2][j2] as int, c2) {
                let a1 = nf[c1][j1] as int;
                let a2 = nf[c2][j2] as int;
                lemma_overlap_byte(a1, c1, a2, c2);
                let x = if a1 >= a2 { a1 } else { a2 };
                assert(free_bytes(fl).contains(x));
                assert(block_bytes(a as int, c).contains(x));
            }
        } else if !n1 && n2 {
            assert(nf[c1][j1] == fl[c1][j1]);
            if !disjoint(nf[c1][j1] as int, c1, nf[c2][j2] as int, c2) {
                let a1 = nf[c1][j1] as int;
                let a2 = nf[c2][j2] as int;
                lemma_overlap_byte(a1, c1, a2, c2);
                let x = if a1 >= a2 { a1 } else { a2 };
                assert(free_bytes(fl).contains(x));
                assert(block_bytes(a as int, c).contains(x));
            }
        }
    }
    assert forall|x: int| free_bytes(nf).contains(x) <==> free_bytes(fl).union(block_bytes(a as int, c)).contains(x) by {
        if free_bytes(nf).contains(x) {
            let (c1, j1) = choose|c1: int, j1: int|
                0 <= c1 < nf.len() && 0 <= j1 < nf[c1].len() && #[trigger] in_block(x, nf[c1][j1] as int, c1);
            if !(c1 == c && j1 == top) {
                assert(in_block(x, fl[c1][j1] as int, c1));
            }
        }
        if free_bytes(fl).contains(x) {
            let (c1, j1) = choose|c1: int, j1: int|
                0 <= c1 < fl.len() && 0 <= j1 < fl[c1].len() && #[trigger] in_block(x, fl[c1][j1] as int, c1);
            assert(nf[c1][j1] == fl[c1][j1]);
            assert(in_block(x, nf[c1][j1] as int, c1));
        }
        if block_bytes(a as int, c).contains(x) {
            assert(in_block(x, nf[c][top] as int, c));
        }
    }
    assert(free_bytes(nf) =~= free_bytes(fl).union(block_bytes(a as int, c)));
}

/// Taking a listed block off its list keeps the lists well formed and frees
/// exactly its bytes.
pub proof fn lemma_remove_block(fl: Seq<Seq<usize>>, c: int, k: int)
    requires
        lists_wf(fl),
        0 <= c < ORDER,
        0 <= k < fl[c].len(),
    ensures
        lists_wf(fl.update(c, fl[c].remove(k))),
        free_bytes(fl.update(c, fl[c].remove(k))) == free_bytes(fl).difference(
            block_bytes(fl[c][k] as int, c)),
        block_bytes(fl[c][k] as int, c).subset_of(free_bytes(fl)),
{
    let nf = fl.update(c, fl[c].remove(k));
    // position in the old lists of each new position
    assert forall|c1: int, j1: int| 0 <= c1 < ORDER && 0 <= j1 < nf[c1].len() implies
        nf[c1][j1] == fl[c1][if c1 == c && j1 >= k { j1 + 1 } else { j1 }] by {
    }
    assert forall|c1: int, j1: int| 0 <= c1 < ORDER && 0 <= j1 < nf[c1].len() implies #[trigger] block_ok(
        nf[c1][j1] as int, c1) by {
        let o1 = if c1 == c && j1 >= k { j1 + 1 } else { j1 };
        assert(block_ok(fl[c1][o1] as int, c1));
    }
    assert forall|c1: int, j1: int, c2: int, j2: int|
        #![trigger nf[c1][j1], nf[c2][j2]]
        0 <= c1 < ORDER && 0 <= j1 < nf[c1].len() && 0 <= c2 < ORDER && 0 <= j2 < nf[c2].len()
            && (c1 != c2 || j1 != j2) implies disjoint(nf[c1][j1] as int, c1, nf[c2][j2] as int, c2) by {
        let o1 = if c1 == c && j1 >= k { j1 + 1 } else { j1 };
        let o2 = if c2 == c && j2 >= k { j2 + 1 } else { j2 };
        assert(disjoint(fl[c1][o1] as int, c1, fl[c2][o2] as int, c2));
    }
    assert forall|x: int| free_bytes(nf).contains(x) <==> free_bytes(fl).difference(block_bytes(fl[c][k] as int, c)).contains(x) by {
        if free_bytes(nf).contains(x) {
            let (c1, j1) = choose|c1: int, j1: int|
                0 <= c1 < nf.len() && 0 <= j1 < nf[c1].len() && #[trigger] in_block(x, nf[c1][j1] as int, c1);
            let o1 = if c1 == c && j1 >= k { j1 + 1 } else { j1 };
            assert(in_block(x, fl[c1][o1] as int, c1));
            assert(disjoint(fl[c1][o1] as int, c1, fl[c][k] as int, c));
        }
        if free_bytes(fl).difference(block_bytes(fl[c][k] as int, c)).contains(x) {
            let (c1, j1) = choose|c1: int, j1: int|
                0 <= c1 < fl.len() && 0 <= j1 < fl[c1].len() && #[trigger] in_block(x, fl[c1][j1] as int, c1);
            assert(c1 != c || j1 != k);
            let n1 = if c1 == c && j1 > k { j1 - 1 } else { j1 };
            assert(nf[c1][n1] == fl[c1][j1]);
            assert(in_block(x, nf[c1][n1] as int, c1));
        }
    }
    assert(free_bytes(nf) =~= free_bytes(fl).difference(block_bytes(fl[c][k] as int, c)));
    assert forall|x: int| block_bytes(fl[c][k] as int, c).contains(x) implies free_bytes(fl).contains(x) by {
        assert(in_block(x, fl[c][k] as int, c));
    }
}

/// `find_last` names a position holding the value looked for.
pub proof fn lemma_find_last(s: Seq<usize>, x: usize)
    ensures
        match find_last(s, x) {
            Some(k) => 0 <= k < s.len() && s[k] == x,
            None => !s.contains(x),
        },
    decreases s.len(),
{
    if s.len() > 0 && s.last() != x {
        lemma_find_last(s.drop_last(), x);
        if s.contains(x) {
            let j = choose|j: int| 0 <= j < s.len() && s[j] == x;
            assert(s.drop_last()[j] == x);
        }
    }
}

/// The first non-empty class at or above `k` is non-empty, and every class
/// from `k` below it is empty.
pub proof fn lemma_first_nonempty(fl: Seq<Seq<usize>>, k: int)
    requires
        fl.len() == ORDER,
        0 <= k,
    ensures
        first_nonempty(fl, k) >= k || first_nonempty(fl, k) == ORDER,
        first_nonempty(fl, k) <= ORDER,
        first_nonempty(fl, k) < ORDER ==> fl[first_nonempty(fl, k)].len() > 0,
        forall|m: int| k <= m < first_nonempty(fl, k) ==> #[trigger] fl[m].len() == 0,
    decreases ORDER - k,
{
    if k < ORDER && fl[k].len() == 0 {
        lemma_first_nonempty(fl, k + 1);
    }
}

/// Returning a block that shares no byte with the free ones, and merging it
/// with its free buddies, keeps the lists well formed and frees exactly the
/// returned bytes.
pub proof fn lemma_merge_into(fl: Seq<Seq<usize>>, cur: usize, cc: int)
    requires
        lists_wf(fl),
        0 <= cc < ORDER,
        block_ok(cur as int, cc),
        block_bytes(cur as int, cc).disjoint(free_bytes(fl)),
        !merge_overflows(fl, cur, cc),
    ensures
        lists_wf(merge_into(fl, cur, cc)),
        free_bytes(merge_into(fl, cur, cc)) == free_bytes(fl).union(block_bytes(cur as int, cc)),
    decreases ORDER - cc,
{
    let b = buddy_of(cur, cc);
    lemma_find_last(fl[cc], b);
    match find_last(fl[cc], b) {
        None => {
            lemma_push_block(fl, cur, cc);
        },
        Some(k) => {
            assert(cc + 1 < ORDER);
            lemma_buddy(cur, cc as usize);
            assert(block_ok(fl[cc][k] as int, cc));
            let merged = if cur <= b { cur } else { b };
            let nb = fl.update(cc, fl[cc].remove(k));
            lemma_remove_block(fl, cc, k);
            lemma_pow2_unfold((cc + 1) as nat);
            assert(block_size(cc + 1) == 2 * block_size(cc));
            assert(block_ok(merged as int, cc + 1));
            assert(block_bytes(merged as int, cc + 1) =~= block_bytes(cur as int, cc).union(
                block_bytes(b as int, cc)));
            assert(block_bytes(merged as int, cc + 1).disjoint(free_bytes(nb)));
            lemma_merge_into(nb, merged, cc + 1);
            assert(free_bytes(merge_into(fl, cur, cc)) =~= free_bytes(fl).union(
                block_bytes(cur as int, cc)));
        },
    }
}

/// The class found by `least_class` holds `m` bytes whenever a class below 64
/// can.
pub proof fn lemma_least_class(m: int, c: nat)
    requires
        c <= 63,
        m <= pow2(63),
    ensures
        pow2(least_class(m, c)) >= m,
        least_class(m, c) >= c,
        least_class(m, c) <= 63,
    decreases 63 - c,
{
    if c < 63 && pow2(c) < m {
        lemma_least_class(m, c + 1);
    }
}

/// Law: a request is served from the first non-empty list at or above its
/// class. The block handed out was free, is aligned to its size, holds at
/// least the requested bytes and alignment, and leaves the free bytes; the
/// lists stay well formed.
pub proof fn law_allocate_takes_free_block(fl: Seq<Seq<usize>>, size: usize, align: usize)
    requires
        lists_wf(fl),
        size as int <= pow2(63),
        align as int <= pow2(63),
        first_nonempty(fl, request_class(size as int, align as int) as int) < ORDER,
    ensures
        ({
            let k = request_class(size as int, align as int) as int;
            let i = first_nonempty(fl, k);
            let b = fl[i].last() as int;
            &&& lists_wf(split_lists(fl, k, i))
            &&& block_ok(b, k)
            &&& block_size(k) >= size && block_size(k) >= align
            &&& block_bytes(b, k).subset_of(free_bytes(fl))
            &&& free_bytes(split_lists(fl, k, i)) == free_bytes(fl).difference(block_bytes(b, k))
        }),
{
    let k = request_class(size as int, align as int) as int;
    lemma_first_nonempty(fl, k);
    vstd::arithmetic::power2::lemma2_to64_rest();
    lemma_least_class(max_size(size as int, max_size(align as int, 8)), 0);
    lemma_split_lists(fl, k, first_nonempty(fl, k));
}

/// Law: returning a block that is aligned, in range and shares no byte with
/// the free blocks frees exactly its bytes, whatever merging follows, and the
/// lists stay well formed.
pub proof fn law_dealloc_frees_block(fl: Seq<Seq<usize>>, ptr: usize, size: usize, align: usize)
    requires
        lists_wf(fl),
        request_class(size as int, align as int) < ORDER,
        block_ok(ptr as int, request_class(size as int, align as int) as int),
        block_bytes(ptr as int, request_class(size as int, align as int) as int).disjoint(free_bytes(fl)),
        !merge_overflows(fl, ptr, request_class(size as int, align as int) as int),
    ensures
        lists_wf(merge_into(fl, ptr, request_class(size as int, align as int) as int)),
        free_bytes(merge_into(fl, ptr, request_class(size as int, align as int) as int)) == free_bytes(
            fl).union(block_bytes(ptr as int, request_class(size as int, align as int) as int)),
{
    lemma_merge_into(fl, ptr, request_class(size as int, align as int) as int);
}

/// Law: giving back the block that a request was just served, with the same
/// request, restores exactly the free bytes there were before the request.
pub proof fn law_dealloc_undoes_allocate(fl: Seq<Seq<usize>>, size: usize, align: usize)
    requires
        lists_wf(fl),
        size as int <= pow2(63),
        align as int <= pow2(63),
        first_nonempty(fl, request_class(size as int, align as int) as int) < ORDER,
        ({
            let k = request_class(size as int, align as int) as int;
            let i = first_nonempty(fl, k);
            !merge_overflows(split_lists(fl, k, i), fl[i].last(), k)
        }),
    ensures
        ({
            let k = request_class(size as int, align as int) as int;
            let i = first_nonempty(fl, k);
            let after = merge_into(split_lists(fl, k, i), fl[i].last(), k);
            &&& lists_wf(after)
            &&& free_bytes(after) == free_bytes(fl)
        }),
{
    let k = request_class(size as int, align as int) as int;
    let i = first_nonempty(fl, k);
    let b = fl[i].last();
    law_allocate_takes_free_block(fl, size, align);
    let mid = split_lists(fl, k, i);
    assert(block_bytes(b as int, k).disjoint(free_bytes(mid)));
    lemma_merge_into(mid, b, k);
    assert(free_bytes(merge_into(mid, b, k)) =~= free_bytes(fl));
}


/// Merging a non-zero block into lists that hold none at zero leaves none at
/// zero, and leaves a block at its class or above.
pub proof fn lemma_merge_keeps_a_block(fl: Seq<Seq<usize>>, cur: usize, cc: int)
    requires
        fl.len() == ORDER,
        0 <= cc < ORDER,
        !merge_overflows(fl, cur, cc),
        no_block_at_zero(fl),
        cur != 0,
    ensures
        merge_into(fl, cur, cc).len() == ORDER,
        no_block_at_zero(merge_into(fl, cur, cc)),
        exists|c: int| cc <= c < ORDER && (#[trigger] merge_into(fl, cur, cc)[c]).len() > 0,
    decreases ORDER - cc,
{
    let b = buddy_of(cur, cc);
    lemma_find_last(fl[cc], b);
    match find_last(fl[cc], b) {
        None => {
            let r = fl.update(cc, fl[cc].push(cur));
            assert(r[cc].len() > 0);
            assert forall|c: int, i: int| 0 <= c < r.len() && 0 <= i < r[c].len() implies #[trigger] r[c][i] != 0 by {
                if c == cc && i < fl[cc].len() {
                    assert(r[c][i] == fl[cc][i]);
                }
            }
        },
        Some(k) => {
            assert(fl[cc][k] == b);
            let merged = if cur <= b { cur } else { b };
            let fl2 = fl.update(cc, fl[cc].remove(k));
            assert forall|c: int, i: int| 0 <= c < fl2.len() && 0 <= i < fl2[c].len() implies #[trigger] fl2[c][i] != 0 by {
                if c == cc {
                    if i < k {
                        assert(fl2[c][i] == fl[cc][i]);
                    } else {
                        assert(fl2[c][i] == fl[cc][i + 1]);
                    }
                }
            }
            lemma_merge_keeps_a_block(fl2, merged, cc + 1);
        },
    }
}

/// Splitting a block of lists that hold none at zero leaves none at zero.
pub proof fn lemma_split_keeps_nonzero(fl: Seq<Seq<usize>>, k: int, i: int)
    requires
        lists_wf(fl),
        no_block_at_zero(fl),
        0 <= k <= i < ORDER,
        fl[i].len() > 0,
    ensures
        no_block_at_zero(split_lists(fl, k, i)),
        split_lists(fl, k, i).len() == ORDER,
{
    let s = split_lists(fl, k, i);
    let b = fl[i].last();
    assert(block_ok(fl[i][fl[i].len() - 1] as int, i));
    assert forall|c: int, j: int| 0 <= c < s.len() && 0 <= j < s[c].len() implies #[trigger] s[c][j] != 0 by {
        if c == i {
            assert(s[c][j] == fl[i][j]);
        } else if k <= c < i {
            if j < fl[c].len() {
                assert(s[c][j] == fl[c][j]);
            } else {
                lemma_pow2_pos(c as nat);
                lemma_pow2_strictly_increases(c as nat, i as nat);
                assert(s[c][j] == (b + block_size(c)) as usize);
            }
        }
    }
}

/// Law: once the block a request was served is given back with the same
/// request, asking again is served: the free lists hold a block at the
/// request's class or above, and it is not at address zero, so `allocate`
/// hands it out. The free lists are those of any heap the library's steps
/// build: well formed, and with no block at address zero (`new` starts so,
/// and every step keeps it for the blocks it is given). The give-back must
/// not merge past the last class, the input on which `dealloc` is not
/// defined.
pub proof fn law_retry_after_dealloc_is_served(fl: Seq<Seq<usize>>, size: usize, align: usize)
    requires
        lists_wf(fl),
        no_block_at_zero(fl),
        size as int <= pow2(63),
        align as int <= pow2(63),
        first_nonempty(fl, request_class(size as int, align as int) as int) < ORDER,
        ({
            let k = request_class(size as int, align as int) as int;
            let i = first_nonempty(fl, k);
            !merge_overflows(split_lists(fl, k, i), fl[i].last(), k)
        }),
    ensures
        ({
            let k = request_class(size as int, align as int) as int;
            let i = first_nonempty(fl, k);
            let after = merge_into(split_lists(fl, k, i), fl[i].last(), k);
            let i2 = first_nonempty(after, k);
            &&& fl[i].last() != 0
            &&& lists_wf(after)
            &&& free_bytes(after) == free_bytes(fl)
            &&& i2 < ORDER
            &&& after[i2].last() != 0
        }),
{
    let k = request_class(size as int, align as int) as int;
    let i = first_nonempty(fl, k);
    law_dealloc_undoes_allocate(fl, size, align);
    lemma_first_nonempty(fl, k);
    let b = fl[i].last();
    assert(b == fl[i][fl[i].len() - 1]);
    lemma_split_keeps_nonzero(fl, k, i);
    let mid = split_lists(fl, k, i);
    lemma_merge_keeps_a_block(mid, b, k);
    let after = merge_into(mid, b, k);
    let c = choose|c: int| k <= c < ORDER && (#[trigger] after[c]).len() > 0;
    lemma_first_nonempty(after, k);
    let i2 = first_nonempty(after, k);
    assert(i2 < ORDER) by {
        if i2 >= ORDER {
            assert(after[c].len() == 0);
        }
    }
    assert(after[i2][after[i2].len() - 1] != 0);
}

/// Bytes asked for by the requests served and not yet given back, each a
/// size and an alignment.
pub open spec fn live_user(live: Seq<(usize, usize)>) -> int
    decreases live.len(),
{
    if live.len() == 0 {
        0
    } else {
        live_user(live.drop_last()) + live.last().0
    }
}

/// Bytes of the blocks those requests were served.
pub open spec fn live_allocated(live: Seq<(usize, usize)>) -> int
    decreases live.len(),
{
    if live.len() == 0 {
        0
    } else {
        live_allocated(live.drop_last()) + block_size(request_class(live.last().0 as int, live.last().1 as int) as int)
    }
}

/// The size and alignment of each served request.
pub open spec fn requests(s: Seq<(usize, usize, usize)>) -> Seq<(usize, usize)> {
    s.map_values(|e: (usize, usize, usize)| (e.1, e.2))
}

/// Index of the first occurrence of `x` in `s`, or -1.
pub open spec fn first_index(s: Seq<(usize, usize, usize)>, x: (usize, usize, usize)) -> int
    decreases s.len(),
{
    if s.len() == 0 {
        -1
    } else if s[0] == x {
        0
    } else {
        let r = first_index(s.drop_first(), x);
        if r < 0 {
            -1
        } else {
            r + 1
        }
    }
}

/// `first_index` finds `x` exactly when `s` holds it.
pub proof fn lemma_first_index(s: Seq<(usize, usize, usize)>, x: (usize, usize, usize))
    ensures
        s.contains(x) ==> 0 <= first_index(s, x) < s.len() && s[first_index(s, x)] == x,
        !s.contains(x) ==> first_index(s, x) == -1,
    decreases s.len(),
{
    if s.len() > 0 && s[0] != x {
        lemma_first_index(s.drop_first(), x);
        if s.contains(x) {
            let j = choose|j: int| 0 <= j < s.len() && s[j] == x;
            assert(s.drop_first()[j - 1] == x);
        }
        if s.drop_first().contains(x) {
            let j = choose|j: int| 0 <= j < s.drop_first().len() && s.drop_first()[j] == x;
            assert(s[j + 1] == x);
        }
    }
}

/// The outstanding requests after giving back `x`: its first occurrence
/// removed, if there is one.
pub open spec fn given_back(s: Seq<(usize, usize, usize)>, x: (usize, usize, usize)) -> Seq<(usize, usize, usize)> {
    if s.contains(x) {
        s.remove(first_index(s, x))
    } else {
        s
    }
}

/// Serving and giving back requests keeps the counters those of the
/// outstanding requests.
pub proof fn lemma_tracks_steps(
    user: int,
    allocated: int,
    s: Seq<(usize, usize, usize)>,
    x: (usize, usize, usize),
)
    requires
        stats_track(user, allocated, requests(s)),
        forall|j: int| 0 <= j < s.len() ==> (#[trigger] s[j]).1 as int <= pow2(63) && s[j].2 as int <= pow2(63),
        x.1 as int <= pow2(63),
        x.2 as int <= pow2(63),
    ensures
        stats_track(user + x.1, allocated + block_size(request_class(x.1 as int, x.2 as int) as int),
            requests(s.push(x))),
        forall|j: int| 0 <= j < s.push(x).len() ==> (#[trigger] s.push(x)[j]).1 as int <= pow2(63)
            && s.push(x)[j].2 as int <= pow2(63),
        s.contains(x) ==> stats_track(user - x.1, allocated - block_size(request_class(x.1 as int, x.2 as int) as int),
            requests(given_back(s, x))),
        forall|j: int| 0 <= j < given_back(s, x).len() ==> (#[trigger] given_back(s, x)[j]).1 as int <= pow2(63)
            && given_back(s, x)[j].2 as int <= pow2(63),
        user <= allocated,
{
    let r = requests(s);
    assert forall|m: int| 0 <= m < r.len() implies (#[trigger] r[m]).0 as int <= pow2(63) && r[m].1 as int
        <= pow2(63) by {
        assert(r[m] == (s[m].1, s[m].2));
    }
    lemma_first_index(s, x);
    let j = first_index(s, x);
    law_stats_track_outstanding_requests(user, allocated, r, x.1, x.2, j);
    assert(requests(s.push(x)) =~= r.push((x.1, x.2)));
    assert forall|m: int| 0 <= m < s.push(x).len() implies (#[trigger] s.push(x)[m]).1 as int <= pow2(63)
        && s.push(x)[m].2 as int <= pow2(63) by {
        if m < s.len() {
            assert(s.push(x)[m] == s[m]);
        }
    }
    if s.contains(x) {
        assert(r[j] == (x.1, x.2));
        assert(requests(s.remove(j)) =~= r.remove(j));
        assert forall|m: int| 0 <= m < s.remove(j).len() implies (#[trigger] s.remove(j)[m]).1 as int <= pow2(63)
            && s.remove(j)[m].2 as int <= pow2(63) by {
            if m < j {
                assert(s.remove(j)[m] == s[m]);
            } else {
                assert(s.remove(j)[m] == s[m + 1]);
            }
        }
    }
}

/// The heap's counters of requested and allocated bytes are those of the
/// requests `live`.
pub open spec fn stats_track(user: int, allocated: int, live: Seq<(usize, usize)>) -> bool {
    user == live_user(live) && allocated == live_allocated(live)
}

/// Each served request's block holds at least the bytes asked for.
pub proof fn lemma_live_user_le_allocated(live: Seq<(usize, usize)>)
    requires
        forall|j: int| 0 <= j < live.len() ==> (#[trigger] live[j]).0 as int <= pow2(63) && live[j].1 as int
            <= pow2(63),
    ensures
        0 <= live_user(live) <= live_allocated(live),
    decreases live.len(),
{
    if live.len() > 0 {
        let l = live.last();
        assert(live[live.len() - 1] == l);
        lemma_live_user_le_allocated(live.drop_last());
        vstd::arithmetic::power2::lemma2_to64_rest();
        lemma_least_class(max_size(l.0 as int, max_size(l.1 as int, 8)), 0);
    }
}

/// Removing request `j` takes its bytes off both sums.
pub proof fn lemma_live_remove(live: Seq<(usize, usize)>, j: int)
    requires
        0 <= j < live.len(),
    ensures
        live_user(live.remove(j)) == live_user(live) - live[j].0,
        live_allocated(live.remove(j)) == live_allocated(live) - block_size(
            request_class(live[j].0 as int, live[j].1 as int) as int),
    decreases live.len(),
{
    if j < live.len() - 1 {
        let d = live.drop_last();
        lemma_live_remove(d, j);
        assert(live.remove(j).drop_last() =~= d.remove(j));
        assert(live.remove(j).last() == live.last());
    } else {
        assert(live.remove(j) =~= live.drop_last());
    }
}

/// Law: over any history of requests, each giving back a block that a
/// request still outstanding was served with the same size and alignment,
/// the heap's counters stay those of the outstanding requests; so the
/// requested bytes never exceed the allocated bytes, and giving back an
/// outstanding request never takes a counter below zero. Here `user` and
/// `allocated` are the counters before a step, `live` the outstanding
/// requests; a served request adds `size` and its block's bytes, a given
/// back one (`live[j]`) takes them off.
pub proof fn law_stats_track_outstanding_requests(
    user: int,
    allocated: int,
    live: Seq<(usize, usize)>,
    size: usize,
    align: usize,
    j: int,
)
    requires
        stats_track(user, allocated, live),
        forall|m: int| 0 <= m < live.len() ==> (#[trigger] live[m]).0 as int <= pow2(63) && live[m].1 as int
            <= pow2(63),
        size as int <= pow2(63),
        align as int <= pow2(63),
    ensures
        user <= allocated,
        stats_track(user + size, allocated + block_size(request_class(size as int, align as int) as int),
            live.push((size, align))),
        0 <= j < live.len() ==> {
            &&& user >= live[j].0
            &&& allocated >= block_size(request_class(live[j].0 as int, live[j].1 as int) as int)
            &&& stats_track(user - live[j].0, allocated - block_size(
                request_class(live[j].0 as int, live[j].1 as int) as int), live.remove(j))
        },
{
    lemma_live_user_le_allocated(live);
    let pushed = live.push((size, align));
    assert(pushed.drop_last() =~= live);
    if 0 <= j < live.len() {
        lemma_live_remove(live, j);
        let rest = live.remove(j);
        assert forall|m: int| 0 <= m < rest.len() implies (#[trigger] rest[m]).0 as int <= pow2(63) && rest[m].1 as int
            <= pow2(63) by {
            if m < j {
                assert(rest[m] == live[m]);
            } else {
                assert(rest[m] == live[m + 1]);
            }
        }
        lemma_live_user_le_allocated(rest);
        vstd::arithmetic::power2::lemma2_to64_rest();
        lemma_pow2_pos(request_class(live[j].0 as int, live[j].1 as int));
    }
}

/// The free blocks of the classes below `n` hold no negative number of bytes.
pub proof fn lemma_list_bytes_nonneg(fl: Seq<Seq<usize>>, n: int)
    ensures
        list_bytes(fl, n) >= 0,
    decreases n,
{
    if n > 0 {
        lemma_list_bytes_nonneg(fl, n - 1);
        let a = fl[n - 1].len();
        let b = block_size(n - 1);
        assert(a * b >= 0) by (nonlinear_arith)
            requires
                a >= 0,
                b >= 0,
        ;
    }
}

/// Replacing the list of class `c` changes the bytes of the classes below `n`
/// by the difference between the two lists, when `c` is among them.
pub proof fn lemma_list_bytes_update(fl: Seq<Seq<usize>>, c: int, s: Seq<usize>, n: int)
    requires
        0 <= c < fl.len(),
        n <= fl.len(),
    ensures
        list_bytes(fl.update(c, s), n) == list_bytes(fl, n) + (if c < n {
            s.len() * block_size(c) - fl[c].len() * block_size(c)
        } else {
            0
        }),
    decreases n,
{
    if n > 0 {
        lemma_list_bytes_update(fl, c, s, n - 1);
    }
}

/// One more block on a list of class `c` adds `2^c` bytes.
pub proof fn lemma_one_more(a: int, b: int)
    ensures
        (a + 1) * b - a * b == b,
        (a - 1) * b - a * b == -b,
{
    assert((a + 1) * b - a * b == b) by (nonlinear_arith);
    assert((a - 1) * b - a * b == -b) by (nonlinear_arith);
}

/// Pushing a block on the list of class `c` adds its bytes.
pub proof fn lemma_push_list_bytes(fl: Seq<Seq<usize>>, c: int, x: usize)
    requires
        0 <= c < fl.len(),
    ensures
        listed_bytes(fl.update(c, fl[c].push(x))) == listed_bytes(fl) + block_size(c),
{
    lemma_list_bytes_update(fl, c, fl[c].push(x), fl.len() as int);
    lemma_one_more(fl[c].len() as int, block_size(c));
}

/// Splitting the top block of class `i` down to class `k` takes `2^k` bytes
/// off the lists, counted over the classes below `n`.
pub proof fn lemma_split_list_bytes(fl: Seq<Seq<usize>>, k: int, i: int, n: int)
    requires
        fl.len() == ORDER,
        0 <= k <= i < ORDER,
        fl[i].len() > 0,
        0 <= n <= ORDER,
    ensures
        list_bytes(split_lists(fl, k, i), n) == list_bytes(fl, n) + (if n <= k {
            0
        } else if n <= i {
            block_size(n) - block_size(k)
        } else {
            -block_size(k)
        }),
    decreases n,
{
    if n > 0 {
        let s = split_lists(fl, k, i);
        let m = n - 1;
        lemma_split_list_bytes(fl, k, i, m);
        if m == i {
            assert(s[m].len() == fl[m].len() - 1);
            lemma_one_more(fl[m].len() as int, block_size(m));
        } else if k <= m < i {
            assert(s[m].len() == fl[m].len() + 1);
            lemma_one_more(fl[m].len() as int, block_size(m));
            lemma_pow2_unfold((m + 1) as nat);
        } else {
            assert(s[m] == fl[m]);
        }
    }
}

/// Returning a block of class `cc` and merging it with its free buddies adds
/// `2^cc` bytes to the lists.
pub proof fn lemma_merge_list_bytes(fl: Seq<Seq<usize>>, cur: usize, cc: int)
    requires
        fl.len() == ORDER,
        0 <= cc < ORDER,
        !merge_overflows(fl, cur, cc),
    ensures
        merge_into(fl, cur, cc).len() == ORDER,
        listed_bytes(merge_into(fl, cur, cc)) == listed_bytes(fl) + block_size(cc),
    decreases ORDER - cc,
{
    let b = buddy_of(cur, cc);
    lemma_find_last(fl[cc], b);
    match find_last(fl[cc], b) {
        None => {
            lemma_push_list_bytes(fl, cc, cur);
        },
        Some(k) => {
            let merged = if cur <= b { cur } else { b };
            let fl2 = fl.update(cc, fl[cc].remove(k));
            lemma_list_bytes_update(fl, cc, fl[cc].remove(k), ORDER as int);
            lemma_one_more(fl[cc].len() as int, block_size(cc));
            lemma_merge_list_bytes(fl2, merged, cc + 1);
            lemma_pow2_unfold((cc + 1) as nat);
        },
    }
}

/// Pushing blocks of classes below `ORDER` adds their bytes.
pub proof fn lemma_push_blocks_bytes(fl: Seq<Seq<usize>>, blocks: Seq<(int, int)>)
    requires
        fl.len() == ORDER,
        forall|j: int| 0 <= j < blocks.len() ==> 0 <= (#[trigger] blocks[j]).1 < ORDER,
    ensures
        push_blocks(fl, blocks).len() == ORDER,
        listed_bytes(push_blocks(fl, blocks)) == listed_bytes(fl) + blocks_bytes(blocks),
    decreases blocks.len(),
{
    if blocks.len() > 0 {
        let b = blocks[0];
        let fl2 = fl.update(b.1, fl[b.1].push(b.0 as usize));
        lemma_push_list_bytes(fl, b.1, b.0 as usize);
        let rest = blocks.drop_first();
        assert forall|j: int| 0 <= j < rest.len() implies 0 <= (#[trigger] rest[j]).1 < ORDER by {
            assert(rest[j] == blocks[j + 1]);
        }
        lemma_push_blocks_bytes(fl2, rest);
    }
}

/// The blocks cutting `[cur, end)` hold no more bytes than the range.
pub proof fn lemma_range_blocks_bytes(cur: int, end: int)
    requires
        cur <= end,
    ensures
        0 <= blocks_bytes(range_blocks(cur, end)) <= end - cur,
        forall|j: int| 0 <= j < range_blocks(cur, end).len() ==> 0 <= (#[trigger] range_blocks(cur, end)[j]).1,
    decreases end - cur,
{
    if cur <= 0 || cur + 8 > end {
    } else {
        let c = fit_class(cur, end - cur, 0);
        if pow2(c) <= 0 || cur + pow2(c) > end {
        } else {
            let rest = range_blocks(cur + pow2(c), end);
            lemma_range_blocks_bytes(cur + pow2(c), end);
            let all = range_blocks(cur, end);
            assert(all == seq![(cur, c as int)] + rest);
            assert(all.drop_first() =~= rest);
            assert forall|j: int| 0 <= j < all.len() implies 0 <= (#[trigger] all[j]).1 by {
                if j > 0 {
                    assert(all[j] == rest[j - 1]);
                }
            }
        }
    }
}

/// The block of the lowest set bit of a positive number is no larger than
/// the number.
pub proof fn lemma_trailing_block(x: int)
    requires
        x > 0,
    ensures
        pow2(trailing_zeros(x)) <= x,
    decreases x,
{
    if x % 2 == 1 {
        vstd::arithmetic::power2::lemma2_to64();
    } else {
        lemma_trailing_block(x / 2);
        lemma_pow2_unfold((1 + trailing_zeros(x / 2)) as nat);
    }
}

/// The blocks cutting `[cur, end)` start inside it, above address zero.
pub proof fn lemma_range_blocks_positive(cur: int, end: int)
    ensures
        forall|j: int| 0 <= j < range_blocks(cur, end).len() ==> 0 < (#[trigger] range_blocks(cur, end)[j]).0 < end,
    decreases end - cur,
{
    if cur <= 0 || cur + 8 > end {
    } else {
        let c = fit_class(cur, end - cur, 0);
        if pow2(c) <= 0 || cur + pow2(c) > end {
        } else {
            let rest = range_blocks(cur + pow2(c), end);
            lemma_range_blocks_positive(cur + pow2(c), end);
            let all = range_blocks(cur, end);
            assert(all == seq![(cur, c as int)] + rest);
            assert forall|j: int| 0 <= j < all.len() implies 0 < (#[trigger] all[j]).0 < end by {
                if j > 0 {
                    assert(all[j] == rest[j - 1]);
                }
            }
        }
    }
}

/// Pushing blocks that start above zero keeps the lists free of a block at
/// zero.
pub proof fn lemma_push_blocks_nonzero(fl: Seq<Seq<usize>>, blocks: Seq<(int, int)>)
    requires
        fl.len() == ORDER,
        no_block_at_zero(fl),
        forall|j: int| 0 <= j < blocks.len() ==> 0 <= (#[trigger] blocks[j]).1 < ORDER && 0 < blocks[j].0
            <= usize::MAX,
    ensures
        no_block_at_zero(push_blocks(fl, blocks)),
    decreases blocks.len(),
{
    if blocks.len() > 0 {
        let b = blocks[0];
        let fl2 = fl.update(b.1, fl[b.1].push(b.0 as usize));
        assert forall|c: int, i: int| 0 <= c < fl2.len() && 0 <= i < fl2[c].len() implies #[trigger] fl2[c][i] != 0 by {
            if c == b.1 && i < fl[c].len() {
                assert(fl2[c][i] == fl[c][i]);
            }
        }
        let rest = blocks.drop_first();
        assert forall|j: int| 0 <= j < rest.len() implies 0 <= (#[trigger] rest[j]).1 < ORDER && 0 < rest[j].0
            <= usize::MAX by {
            assert(rest[j] == blocks[j + 1]);
        }
        lemma_push_blocks_nonzero(fl2, rest);
    }
}

/// Pushing a block not at zero keeps the lists free of a block at zero.
pub proof fn lemma_push_nonzero(fl: Seq<Seq<usize>>, c: int, x: usize)
    requires
        0 <= c < fl.len(),
        no_block_at_zero(fl),
        x != 0,
    ensures
        no_block_at_zero(fl.update(c, fl[c].push(x))),
{
    let fl2 = fl.update(c, fl[c].push(x));
    assert forall|d: int, i: int| 0 <= d < fl2.len() && 0 <= i < fl2[d].len() implies #[trigger] fl2[d][i] != 0 by {
        if d == c && i < fl[c].len() {
            assert(fl2[d][i] == fl[d][i]);
        }
    }
}

/// The class `fit_class` settles on keeps the alignment and the fit it
/// started from.
pub proof fn lemma_fit_class_fits(cur: int, room: int, c: nat)
    requires
        cur % (pow2(c) as int) == 0,
        pow2(c) <= room,
    ensures
        cur % (pow2(fit_class(cur, room, c)) as int) == 0,
        pow2(fit_class(cur, room, c)) <= room,
        fit_class(cur, room, c) >= c,
    decreases 63 - c,
{
    if c < 63 && cur % (pow2(c + 1) as int) == 0 && pow2(c + 1) <= room {
        lemma_fit_class_fits(cur, room, c + 1);
    }
}

/// The blocks cutting `[cur, end)` are well placed, in order, within it,
/// when their classes are below `ORDER` and the range is in the address
/// space.
pub proof fn lemma_range_blocks_in(cur: int, end: int)
    requires
        end <= usize::MAX,
        forall|j: int| 0 <= j < range_blocks(cur, end).len() ==> (#[trigger] range_blocks(cur, end)[j]).1 < ORDER,
    ensures
        blocks_in(range_blocks(cur, end), cur, end),
    decreases end - cur,
{
    if cur <= 0 || cur + 8 > end {
    } else {
        let c = fit_class(cur, end - cur, 0);
        if pow2(c) <= 0 || cur + pow2(c) > end {
        } else {
            vstd::arithmetic::power2::lemma2_to64();
            lemma_fit_class_fits(cur, end - cur, 0);
            let rest = range_blocks(cur + pow2(c), end);
            let all = range_blocks(cur, end);
            assert(all == seq![(cur, c as int)] + rest);
            assert(all[0] == (cur, c as int));
            assert(c < ORDER);
            assert forall|j: int| 0 <= j < rest.len() implies (#[trigger] rest[j]).1 < ORDER by {
                assert(rest[j] == all[j + 1]);
            }
            lemma_range_blocks_in(cur + pow2(c), end);
            assert(all.drop_first() =~= rest);
        }
    }
}

/// Pushing well-placed blocks of fresh memory keeps the lists well formed,
/// and the free bytes stay out of what is still fresh above the blocks.
pub proof fn lemma_push_blocks_wf(fl: Seq<Seq<usize>>, blocks: Seq<(int, int)>, lo: int, hi: int)
    requires
        lists_wf(fl),
        blocks_in(blocks, lo, hi),
        fresh_range(fl, lo, hi),
    ensures
        lists_wf(push_blocks(fl, blocks)),
        grows_within(fl, push_blocks(fl, blocks), lo, hi),
    decreases blocks.len(),
{
    if blocks.len() > 0 {
        let b = blocks[0];
        assert(block_ok(b.0, b.1));
        lemma_pow2_pos(b.1 as nat);
        let a = b.0 as usize;
        assert(a as int == b.0);
        assert(block_bytes(a as int, b.1).disjoint(free_bytes(fl))) by {
            assert forall|x: int| block_bytes(a as int, b.1).contains(x) implies !free_bytes(fl).contains(x) by {
                assert(in_block(x, a as int, b.1));
            }
        }
        lemma_push_block(fl, a, b.1);
        let nf = fl.update(b.1, fl[b.1].push(a));
        let lo2 = b.0 + block_size(b.1);
        assert(fresh_range(nf, lo2, hi)) by {
            assert forall|x: int| free_bytes(nf).contains(x) implies x < lo2 || x >= hi by {
                assert(free_bytes(nf) == free_bytes(fl).union(block_bytes(a as int, b.1)));
                if free_bytes(fl).contains(x) {
                } else {
                    assert(in_block(x, a as int, b.1));
                }
            }
        }
        lemma_push_blocks_wf(nf, blocks.drop_first(), lo2, hi);
        assert forall|x: int| free_bytes(push_blocks(fl, blocks)).contains(x) implies free_bytes(fl).contains(x) || (lo
            <= x && x < hi) by {
            assert(push_blocks(fl, blocks) == push_blocks(nf, blocks.drop_first()));
            if free_bytes(nf).contains(x) && !free_bytes(fl).contains(x) {
                assert(free_bytes(nf) == free_bytes(fl).union(block_bytes(a as int, b.1)));
                assert(in_block(x, a as int, b.1));
            }
        }
    }
}

} // verus!
