//! Splitting an ordered collection into a given number of nearly equal,
//! contiguous groups.

use vstd::prelude::*;

verus! {

/// Length of group `i` when `len` items are split into `n` groups: every
/// group gets `len / n` items and the first `len % n` groups get one more.
pub open spec fn group_len(len: int, n: int, i: int) -> int {
    len / n + if i < len % n {
        1int
    } else {
        0int
    }
}

/// Position in the input of the first item of group `i`; `group_start(len, n, n)`
/// is the end of the last group.
pub open spec fn group_start(len: int, n: int, i: int) -> int {
    i * (len / n) + if i < len % n {
        i
    } else {
        len % n
    }
}

/// The `n` groups into which `items` is split: contiguous slices in the
/// order of the input, each of the length that `group_len` gives.
pub open spec fn partition<T>(items: Seq<T>, n: int) -> Seq<Seq<T>> {
    Seq::new(
        n as nat,
        |i: int|
            items.subrange(
                group_start(items.len() as int, n, i),
                group_start(items.len() as int, n, i) + group_len(items.len() as int, n, i),
            ),
    )
}

/// The contents of each group of an executable partition.
pub open spec fn group_views<T>(parts: Seq<Vec<T>>) -> Seq<Seq<T>> {
    parts.map_values(|group: Vec<T>| group@)
}

/// The number of items in all groups together.
pub open spec fn total_len<T>(groups: Seq<Seq<T>>) -> nat
    decreases groups.len(),
{
    if groups.len() == 0 {
        0
    } else {
        total_len(groups.drop_last()) + groups.last().len()
    }
}

/// The groups lie side by side: each begins where the one before it ends,
/// the first at the start of the input and the last ending at its end.
pub proof fn lemma_group_bounds(len: int, n: int, i: int)
    requires
        0 <= len,
        0 < n,
        0 <= i < n,
    ensures
        group_start(len, n, 0) == 0,
        group_start(len, n, n) == len,
        0 <= group_len(len, n, i),
        0 <= group_start(len, n, i),
        group_start(len, n, i + 1) == group_start(len, n, i) + group_len(len, n, i),
        group_start(len, n, i + 1) <= len,
{
    let base = len / n;
    vstd::arithmetic::div_mod::lemma_fundamental_div_mod(len, n);
    vstd::arithmetic::div_mod::lemma_mod_bound(len, n);
    vstd::arithmetic::div_mod::lemma_div_pos_is_pos(len, n);
    assert((i + 1) * base == i * base + base) by (nonlinear_arith);
    assert(0 <= i * base) by (nonlinear_arith)
        requires
            0 <= i,
            0 <= base,
    ;
    assert((i + 1) * base <= n * base) by (nonlinear_arith)
        requires
            i + 1 <= n,
            0 <= base,
    ;
}

/// Any two groups of a partition differ in length by at most one.
pub proof fn lemma_partition_balanced<T>(items: Seq<T>, n: int, i: int, j: int)
    requires
        0 < n,
        0 <= i < n,
        0 <= j < n,
    ensures
        partition(items, n)[i].len() - partition(items, n)[j].len() <= 1,
{
    lemma_group_bounds(items.len() as int, n, i);
    lemma_group_bounds(items.len() as int, n, j);
}

/// The first `k` groups of a partition, joined in order, are the items
/// before the start of group `k`, and hold as many items.
proof fn lemma_partition_prefix<T>(items: Seq<T>, n: int, k: int)
    requires
        0 < n,
        0 <= k <= n,
    ensures
        0 <= group_start(items.len() as int, n, k) <= items.len(),
        partition(items, n).take(k).flatten() == items.subrange(
            0,
            group_start(items.len() as int, n, k),
        ),
        total_len(partition(items, n).take(k)) == group_start(items.len() as int, n, k),
    decreases k,
{
    let len = items.len() as int;
    let parts = partition(items, n);
    lemma_group_bounds(len, n, 0);
    if k > 0 {
        lemma_partition_prefix(items, n, k - 1);
        lemma_group_bounds(len, n, k - 1);
        let before = parts.take(k - 1);
        assert(parts.take(k) =~= before.push(parts[k - 1]));
        before.lemma_flatten_push(parts[k - 1]);
        assert(parts.take(k).drop_last() =~= before);
    }
}

/// Joining all groups of a partition in order gives back the input.
pub proof fn lemma_partition_concat<T>(items: Seq<T>, n: int)
    requires
        0 < n,
    ensures
        partition(items, n).flatten() == items,
{
    lemma_partition_prefix(items, n, n);
    lemma_group_bounds(items.len() as int, n, 0);
    assert(partition(items, n).take(n) =~= partition(items, n));
}

/// The groups of a partition hold as many items as the input.
pub proof fn lemma_partition_total_len<T>(items: Seq<T>, n: int)
    requires
        0 < n,
    ensures
        total_len(partition(items, n)) == items.len(),
{
    lemma_partition_prefix(items, n, n);
    lemma_group_bounds(items.len() as int, n, 0);
    assert(partition(items, n).take(n) =~= partition(items, n));
}

/// Splits `vec` into `n` contiguous groups of nearly equal length, in the
/// order of the input. Where the length is no multiple of `n`, the first groups
/// are the longer ones; where it is less than `n`, the last groups are empty.
pub fn split_into_n_parts<T>(vec: Vec<T>, n: usize) -> (parts: Vec<Vec<T>>)
    requires
        n > 0,
    ensures
        parts.len() == n,
        group_views(parts@) == partition(vec@, n as int),
        group_views(parts@).flatten() == vec@,
        total_len(group_views(parts@)) == vec.len(),
        forall|i: int, j: int|
            0 <= i < n && 0 <= j < n ==> (#[trigger] parts[i]).len() - (#[trigger] parts[j]).len()
                <= 1,
{
    let ghost items = vec@;
    let len = vec.len();
    let base = len / n;
    let remainder = len % n;

    let mut parts: Vec<Vec<T>> = Vec::with_capacity(n);
    let mut filled: usize = 0;
    while filled < n
        invariant
            filled <= n,
            parts.len() == filled,
        decreases n - filled,
    {
        parts.push(Vec::new());
        filled += 1;
    }

    // The groups are cut off the end of what is left, last group first, so
    // that every item is moved once.
    let mut rest = vec;
    let mut i = n;
    while i > 0
        invariant
            0 < n,
            i <= n,
            len == items.len(),
            base == len / n,
            remainder == len % n,
            parts.len() == n,
            rest@ == items.subrange(0, group_start(len as int, n as int, i as int)),
            0 <= group_start(len as int, n as int, i as int) <= len,
            forall|k: int| i <= k < n ==> (#[trigger] parts[k])@ == partition(items, n as int)[k],
        decreases i,
    {
        i -= 1;
        proof {
            lemma_group_bounds(len as int, n as int, i as int);
        }
        let extra = if i < remainder {
            i
        } else {
            remainder
        };
        let start = i * base + extra;
        let group = rest.split_off(start);
        parts.set(i, group);
    }

    proof {
        assert(group_views(parts@) =~= partition(items, n as int));
        lemma_partition_concat(items, n as int);
        lemma_partition_total_len(items, n as int);
        assert forall|i: int, j: int| 0 <= i < n && 0 <= j < n implies (#[trigger] parts[i]).len()
            - (#[trigger] parts[j]).len() <= 1 by {
            lemma_partition_balanced(items, n as int, i, j);
        }
    }
    parts
}

} // verus!
