use vstd::prelude::*;

verus! {

/// Whether every index picks one of `count` vertices.
pub open spec fn indices_in_bounds(indices: Seq<u32>, count: nat) -> bool {
    forall|k: int| 0 <= k < indices.len() ==> (#[trigger] indices[k]) < count
}

/// The vertex stream that drawing `values` through `indices` visits, one
/// value per index.
pub open spec fn gathered<T>(values: Seq<T>, indices: Seq<u32>) -> Seq<T> {
    Seq::new(indices.len(), |k: int| values[indices[k] as int])
}

/// The index list `0, 1, ..., n - 1`.
pub open spec fn identity_indices(n: nat) -> Seq<u32> {
    Seq::new(n, |i: int| i as u32)
}

/// Expands an indexed attribute into a flat one: the value at each index,
/// in index order. Gives nothing when an index is out of range.
pub fn gather<T: Copy>(values: &Vec<T>, indices: &Vec<u32>) -> (r: Option<Vec<T>>)
    ensures
        r is Some <==> indices_in_bounds(indices@, values@.len()),
        r matches Some(v) ==> v@ == gathered(values@, indices@),
{
    let mut out: Vec<T> = Vec::new();
    let mut k: usize = 0;
    while k < indices.len()
        invariant
            k <= indices@.len(),
            indices_in_bounds(indices@.take(k as int), values@.len()),
            out@ == gathered(values@, indices@.take(k as int)),
        decreases indices@.len() - k,
    {
        let idx = indices[k] as usize;
        if idx >= values.len() {
            assert(!indices_in_bounds(indices@, values@.len())) by {
                assert(indices@[k as int] >= values@.len());
            }
            return None;
        }
        out.push(values[idx]);
        proof {
            let next = indices@.take(k + 1);
            assert(indices@.take(k as int) =~= next.drop_last());
            assert forall|j: int| 0 <= j < next.len() implies (#[trigger] next[j]) < values@.len() by {
                if j < k {
                    assert(next[j] == indices@.take(k as int)[j]);
                }
            }
            assert(out@ =~= gathered(values@, next));
        }
        k = k + 1;
    }
    assert(indices@.take(k as int) =~= indices@);
    Some(out)
}

/// The index list `0, 1, ..., n - 1` for a flat stream of `count` vertices,
/// the count taken in 32 bits.
pub fn sequential_indices(count: usize) -> (r: Vec<u32>)
    ensures
        r@ == identity_indices((count as u32) as nat),
{
    let n: u32 = count as u32;
    let mut r: Vec<u32> = Vec::new();
    let mut i: u32 = 0;
    while i < n
        invariant
            i <= n,
            r@ == identity_indices(i as nat),
        decreases n - i,
    {
        r.push(i);
        i = i + 1;
        assert(r@ =~= identity_indices(i as nat));
    }
    r
}

/// An attribute as read, or, where the file has none, `count` copies of a
/// default value.
pub fn attribute_or_default<T: Copy>(read: Option<Vec<T>>, default: T, count: usize) -> (r: Vec<T>)
    ensures
        read matches Some(v) ==> r@ == v@,
        read is None ==> r@ == Seq::new(count as nat, |i: int| default),
{
    match read {
        Some(v) => v,
        None => {
            let mut r: Vec<T> = Vec::new();
            let mut i: usize = 0;
            while i < count
                invariant
                    i <= count,
                    r@ == Seq::new(i as nat, |j: int| default),
                decreases count - i,
            {
                r.push(default);
                i = i + 1;
                assert(r@ =~= Seq::new(i as nat, |j: int| default));
            }
            r
        },
    }
}

/// Puts first the model with more indices, the first one on a tie.
pub fn order_by_index_count<M>(first: M, second: M, first_count: usize, second_count: usize) -> (r:
    (M, M))
    ensures
        first_count >= second_count ==> r == (first, second),
        first_count < second_count ==> r == (second, first),
{
    if first_count >= second_count {
        (first, second)
    } else {
        (second, first)
    }
}

/// The flat stream has one value per index, and its `k`-th value is the
/// value that the `k`-th index picks.
pub proof fn gathered_picks_each_index<T>(values: Seq<T>, indices: Seq<u32>)
    ensures
        gathered(values, indices).len() == indices.len(),
        forall|k: int|
            0 <= k < indices.len() ==> #[trigger] gathered(values, indices)[k]
                == values[indices[k] as int],
{
}

/// The index list of `n` vertices has `n` entries, entry `i` being `i`.
pub proof fn identity_indices_count_up(n: nat)
    requires
        n <= u32::MAX + 1,
    ensures
        identity_indices(n).len() == n,
        forall|i: int| 0 <= i < n ==> #[trigger] identity_indices(n)[i] == i,
{
}

/// Drawing the flat stream through the index list `0, 1, ..., n - 1` visits
/// the same vertices, in the same order, as drawing the indexed attribute
/// through its own indices, whenever those are in range and fewer than 2^32.
pub proof fn flat_draw_matches_indexed_draw<T>(values: Seq<T>, indices: Seq<u32>)
    requires
        indices_in_bounds(indices, values.len()),
        indices.len() <= u32::MAX,
    ensures
        ({
            let flat = gathered(values, indices);
            let order = identity_indices(indices.len());
            &&& order.len() == indices.len()
            &&& indices_in_bounds(order, flat.len())
            &&& gathered(flat, order) == gathered(values, indices)
        }),
{
    let flat = gathered(values, indices);
    let order = identity_indices(indices.len());
    assert(gathered(flat, order) =~= gathered(values, indices));
}

} // verus!
