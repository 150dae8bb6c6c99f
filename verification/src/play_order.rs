//! The order in which a queue is played: a permutation of the queue's indices,
//! the identity unless shuffle is on, kept in step with the queue as tracks are
//! removed, moved and inserted.
use rand::seq::SliceRandom;
use vstd::prelude::*;
use vstd::seq_lib::*;

verus! {

/// Whether `order` holds each of the indices `0..n` exactly once.
pub open spec fn is_order(order: Seq<usize>, n: nat) -> bool {
    &&& order.len() == n
    &&& order.no_duplicates()
    &&& forall|i: int| 0 <= i < order.len() ==> #[trigger] order[i] < n
    &&& forall|v: usize| v < n ==> #[trigger] order.contains(v)
}

/// The indices `0..n` in rising order.
pub open spec fn identity(n: nat) -> Seq<usize> {
    Seq::new(n, |i: int| i as usize)
}

/// The identity is an order.
pub proof fn identity_is_order(n: usize)
    ensures
        is_order(identity(n as nat), n as nat),
{
    let id = identity(n as nat);
    assert forall|v: usize| v < n implies #[trigger] id.contains(v) by {
        assert(id[v as int] == v);
    }
}

/// A rearrangement of an order is an order.
pub proof fn rearranged_order_is_order(a: Seq<usize>, b: Seq<usize>, n: nat)
    requires
        is_order(a, n),
        a.to_multiset() == b.to_multiset(),
    ensures
        is_order(b, n),
{
    broadcast use group_seq_properties, group_to_multiset_ensures;

    a.lemma_multiset_has_no_duplicates();
    assert forall|x: usize| #[trigger] a.contains(x) <==> b.contains(x) by {
        assert(a.contains(x) <==> a.to_multiset().count(x) > 0);
        assert(b.contains(x) <==> b.to_multiset().count(x) > 0);
    }
    b.lemma_multiset_has_no_duplicates_conv();
    to_multiset_len(a);
    to_multiset_len(b);
    assert(b.len() == n);
    assert forall|v: usize| v < n implies #[trigger] b.contains(v) by {
        assert(a.contains(v));
    }
    assert forall|i: int| 0 <= i < b.len() implies #[trigger] b[i] < n by {
        assert(b.contains(b[i]));
        assert(a.contains(b[i]));
    }
}

/// `SliceRandom::shuffle` of the rand crate with its thread-local generator:
/// puts the items in an order that chance decides. No item is lost or added.
#[verifier::external_body]
fn shuffle_in_place(order: &mut Vec<usize>)
    ensures
        final(order)@.to_multiset() == old(order)@.to_multiset(),
{
    order.shuffle(&mut rand::thread_rng());
}

/// `anchor` first, then `rest` as it stands.
pub fn anchored_order(anchor: usize, rest: &Vec<usize>) -> (order: Vec<usize>)
    ensures
        order@ == seq![anchor] + rest@,
{
    let mut order: Vec<usize> = Vec::new();
    order.push(anchor);
    let mut i: usize = 0;
    while i < rest.len()
        invariant
            i <= rest.len(),
            order@ == seq![anchor] + rest@.take(i as int),
        decreases rest.len() - i,
    {
        order.push(rest[i]);
        i = i + 1;
    }
    assert(rest@.take(i as int) == rest@);
    order
}

/// The indices `0..len` in rising order.
pub fn identity_order(len: usize) -> (order: Vec<usize>)
    ensures
        order@ == identity(len as nat),
{
    let mut order: Vec<usize> = Vec::new();
    let mut i: usize = 0;
    while i < len
        invariant
            i <= len,
            order@ == identity(i as nat),
        decreases len - i,
    {
        order.push(i);
        i = i + 1;
    }
    order
}

/// What every order that [`shuffled_play_order`] can give satisfies: it is a
/// full order; it is the identity with shuffle off; with shuffle on, an anchor
/// that is an index of the queue comes first.
pub open spec fn fresh_order(order: Seq<usize>, len: nat, shuffle: bool, anchor: Option<usize>) -> bool {
    &&& is_order(order, len)
    &&& !shuffle ==> order == identity(len)
    &&& shuffle && anchor is Some && anchor->0 < len ==> order[0] == anchor->0
}

/// The order to play a queue of `len` tracks in. With shuffle off it is the
/// identity. With shuffle on, `anchor` (where it is a valid index) is kept at
/// the front and the rest is put in an order that chance decides.
pub fn shuffled_play_order(len: usize, shuffle: bool, anchor: Option<usize>) -> (order: Vec<usize>)
    ensures
        fresh_order(order@, len as nat, shuffle, anchor),
{
    proof {
        identity_is_order(len);
    }
    if !shuffle || len == 0 {
        return identity_order(len);
    }
    let pinned: Option<usize> = match anchor {
        Some(a) => if a < len {
            Some(a)
        } else {
            None
        },
        None => None,
    };
    let mut rest = identity_order(len);
    match pinned {
        Some(a) => {
            let ghost id = rest@;
            rest.remove(a);
            let ghost before = rest@;
            shuffle_in_place(&mut rest);
            let order = anchored_order(a, &rest);
            proof {
                broadcast use group_to_multiset_ensures;

                let listed = seq![a] + before;
                assert(id == before.insert(a as int, a));
                to_multiset_insert(before, a as int, a);
                lemma_multiset_commutative(seq![a], before);
                lemma_multiset_commutative(seq![a], rest@);
                assert(order@.to_multiset() == listed.to_multiset());
                assert(listed == before.insert(0, a));
                to_multiset_insert(before, 0, a);
                rearranged_order_is_order(id, order@, len as nat);
            }
            order
        },
        None => {
            let ghost id = rest@;
            shuffle_in_place(&mut rest);
            proof {
                rearranged_order_is_order(id, rest@, len as nat);
            }
            rest
        },
    }
}

/// The index at which `wanted` first stands in `order`, or the length of
/// `order` where it does not.
pub open spec fn place_in(order: Seq<usize>, wanted: usize) -> int
    decreases order.len(),
{
    if order.len() == 0 || order[0] == wanted {
        0
    } else {
        1 + place_in(order.skip(1), wanted)
    }
}

/// [`place_in`] is the first index that holds `wanted`.
pub proof fn place_in_is_first(order: Seq<usize>, wanted: usize)
    ensures
        0 <= place_in(order, wanted) <= order.len(),
        order.contains(wanted) <==> place_in(order, wanted) < order.len(),
        place_in(order, wanted) < order.len() ==> order[place_in(order, wanted)] == wanted,
        forall|i: int| 0 <= i < place_in(order, wanted) ==> #[trigger] order[i] != wanted,
    decreases order.len(),
{
    if order.len() > 0 && order[0] != wanted {
        let rest = order.skip(1);
        place_in_is_first(rest, wanted);
        assert forall|i: int| 0 <= i < place_in(order, wanted) implies #[trigger] order[i]
            != wanted by {
            if i > 0 {
                assert(rest[i - 1] != wanted);
            }
        }
    }
}

/// The index at which `wanted` first stands in `order`, if it does.
pub fn position_of(order: &Vec<usize>, wanted: usize) -> (r: Option<usize>)
    ensures
        r == (if place_in(order@, wanted) < order@.len() {
            Some(place_in(order@, wanted) as usize)
        } else {
            None
        }),
{
    let mut i: usize = 0;
    assert(order@.skip(0) == order@);
    while i < order.len()
        invariant
            i <= order.len(),
            place_in(order@, wanted) == i + place_in(order@.skip(i as int), wanted),
        decreases order.len() - i,
    {
        if order[i] == wanted {
            return Some(i);
        }
        assert(order@.skip(i as int).skip(1) == order@.skip(i + 1));
        i = i + 1;
    }
    None
}

/// Where a queue index lands once the track at `removed`, another index, is gone.
pub open spec fn index_after_remove(i: usize, removed: usize) -> usize {
    if i > removed {
        (i - 1) as usize
    } else {
        i
    }
}

/// Tells the indices other than `removed`.
pub open spec fn other_than(removed: usize) -> spec_fn(usize) -> bool {
    |i: usize| i != removed
}

/// `order` once the track at queue index `removed` is gone: that index is
/// dropped, every greater one is one less, and nothing else changes place.
pub open spec fn after_remove(order: Seq<usize>, removed: usize) -> Seq<usize> {
    order.filter(other_than(removed)).map_values(|i: usize| index_after_remove(i, removed))
}

/// The play order after the track at queue index `removed` has left the queue.
/// The order of the others survives: it is not shuffled anew.
pub fn play_order_after_remove(order: &[usize], removed: usize) -> (out: Vec<usize>)
    ensures
        out@ == after_remove(order@, removed),
{
    let mut out: Vec<usize> = Vec::new();
    let mut k: usize = 0;
    proof {
        reveal(Seq::filter);
        assert(after_remove(order@.take(0), removed) =~= Seq::<usize>::empty());
    }
    while k < order.len()
        invariant
            k <= order.len(),
            out@ == after_remove(order@.take(k as int), removed),
        decreases order.len() - k,
    {
        let i: usize = order[k];
        proof {
            reveal(Seq::filter);
            assert(order@.take(k + 1).drop_last() == order@.take(k as int));
        }
        if i != removed {
            out.push(
                if i > removed {
                    i - 1
                } else {
                    i
                },
            );
        }
        k = k + 1;
        assert(out@ =~= after_remove(order@.take(k as int), removed));
    }
    assert(order@.take(k as int) == order@);
    out
}

proof fn filter_keeps_all(order: Seq<usize>, removed: usize)
    requires
        !order.contains(removed),
    ensures
        order.filter(other_than(removed)) == order,
    decreases order.len(),
{
    reveal(Seq::filter);
    if order.len() > 0 {
        let init = order.drop_last();
        assert forall|x: usize| init.contains(x) implies order.contains(x) by {
            let k = choose|k: int| 0 <= k < init.len() && init[k] == x;
            assert(order[k] == x);
        }
        filter_keeps_all(init, removed);
        assert(order.contains(order.last()));
        assert(order =~= init.push(order.last()));
    } else {
        assert(order.filter(other_than(removed)) =~= order);
    }
}

proof fn filter_drops_one(order: Seq<usize>, p: int, gone: usize)
    requires
        order.no_duplicates(),
        0 <= p < order.len(),
        order[p] == gone,
    ensures
        order.filter(other_than(gone)) == order.remove(p),
    decreases order.len(),
{
    reveal(Seq::filter);
    let init = order.drop_last();
    if p == order.len() - 1 {
        assert(!init.contains(gone)) by {
            if init.contains(gone) {
                let k = choose|k: int| 0 <= k < init.len() && init[k] == gone;
                assert(order[k] == gone);
            }
        }
        filter_keeps_all(init, gone);
        assert(order.remove(p) =~= init);
    } else {
        filter_drops_one(init, p, gone);
        assert(order.last() != gone);
        assert(order.remove(p) =~= init.remove(p).push(order.last()));
    }
}

/// [`after_remove`] of an order takes the removed index out of its place and
/// renumbers the rest.
pub proof fn after_remove_takes_out_one(order: Seq<usize>, p: int, removed: usize)
    requires
        order.no_duplicates(),
        0 <= p < order.len(),
        order[p] == removed,
    ensures
        after_remove(order, removed) == order.remove(p).map_values(
            |i: usize| index_after_remove(i, removed),
        ),
{
    filter_drops_one(order, p, removed);
}

/// Removing a track from a queue of `n` leaves a full order of `n - 1`: no index
/// is lost or doubled.
pub proof fn remove_keeps_order(order: Seq<usize>, n: nat, removed: usize)
    requires
        is_order(order, n),
        removed < n <= usize::MAX,
    ensures
        is_order(after_remove(order, removed), (n - 1) as nat),
{
    assert(order.contains(removed));
    let p = choose|p: int| 0 <= p < order.len() && order[p] == removed;
    after_remove_takes_out_one(order, p, removed);
    let rest = order.remove(p);
    let out = after_remove(order, removed);
    assert forall|k: int| 0 <= k < rest.len() implies rest[k] != removed && rest[k] < n by {
        assert(rest[k] == order[if k < p { k } else { k + 1 }]);
    }
    assert forall|k: int| 0 <= k < out.len() implies #[trigger] out[k] < n - 1 by {
        assert(out[k] == index_after_remove(rest[k], removed));
    }
    assert forall|i: int, j: int| 0 <= i < out.len() && 0 <= j < out.len() && i != j implies out[i]
        != out[j] by {
        assert(rest[i] == order[if i < p { i } else { i + 1 }]);
        assert(rest[j] == order[if j < p { j } else { j + 1 }]);
        assert(rest[i] != rest[j]);
    }
    assert forall|v: usize| v < n - 1 implies #[trigger] out.contains(v) by {
        let w: usize = if v < removed {
            v
        } else {
            (v + 1) as usize
        };
        assert(order.contains(w));
        let q = choose|q: int| 0 <= q < order.len() && order[q] == w;
        let k = if q < p {
            q
        } else {
            q - 1
        };
        assert(rest[k] == w);
        assert(out[k] == v);
    }
}

/// Where a queue index lands when the track at `from` moves to `to`: the moved
/// track lands at `to`, and every index between shifts by one to close the gap.
pub open spec fn remapped(i: usize, from: usize, to: usize) -> usize {
    if i == from {
        to
    } else if from < i <= to {
        (i - 1) as usize
    } else if to <= i < from {
        (i + 1) as usize
    } else {
        i
    }
}

/// Where queue index `i` lands when the track at `from` moves to `to`.
pub fn remap_index_after_move(i: usize, from: usize, to: usize) -> (r: usize)
    ensures
        r == remapped(i, from, to),
{
    if i == from {
        to
    } else if from < to && i > from && i <= to {
        i - 1
    } else if to < from && i >= to && i < from {
        i + 1
    } else {
        i
    }
}

/// `order` when the track at `from` moves to `to`: the same tracks in the same
/// order of play, under their new indices.
pub open spec fn after_move(order: Seq<usize>, from: usize, to: usize) -> Seq<usize> {
    order.map_values(|i: usize| remapped(i, from, to))
}

/// The play order after the track at `from` has moved to `to`.
pub fn play_order_after_move(order: &[usize], from: usize, to: usize) -> (out: Vec<usize>)
    ensures
        out@ == after_move(order@, from, to),
{
    let mut out: Vec<usize> = Vec::new();
    let mut k: usize = 0;
    while k < order.len()
        invariant
            k <= order.len(),
            out@ == after_move(order@.take(k as int), from, to),
        decreases order.len() - k,
    {
        out.push(remap_index_after_move(order[k], from, to));
        k = k + 1;
        assert(out@ =~= after_move(order@.take(k as int), from, to));
    }
    assert(order@.take(k as int) == order@);
    out
}

/// A queue with the track at `from` moved to position `to`.
pub open spec fn moved<T>(queue: Seq<T>, from: int, to: int) -> Seq<T> {
    queue.remove(from).insert(to, queue[from])
}

/// A move takes each track to the index that [`remapped`] gives.
pub proof fn move_takes_tracks_along<T>(queue: Seq<T>, from: usize, to: usize, i: usize)
    requires
        from < queue.len(),
        to < queue.len(),
        i < queue.len(),
    ensures
        remapped(i, from, to) < queue.len(),
        moved(queue, from as int, to as int)[remapped(i, from, to) as int] == queue[i as int],
{
}

/// Moving a track back where it came from undoes the move, for the queue and
/// for every index into it.
pub proof fn move_back_undoes_move<T>(queue: Seq<T>, from: usize, to: usize)
    requires
        from < queue.len(),
        to < queue.len(),
    ensures
        moved(moved(queue, from as int, to as int), to as int, from as int) == queue,
        forall|i: usize| #![trigger remapped(i, from, to)]
            i < queue.len() ==> remapped(remapped(i, from, to), to, from) == i,
{
    assert(moved(moved(queue, from as int, to as int), to as int, from as int) =~= queue);
}

/// Moving a track leaves a full order: no index is lost or doubled.
pub proof fn move_keeps_order(order: Seq<usize>, n: nat, from: usize, to: usize)
    requires
        is_order(order, n),
        from < n,
        to < n,
    ensures
        is_order(after_move(order, from, to), n),
{
    let out = after_move(order, from, to);
    assert forall|v: usize| v < n implies #[trigger] out.contains(v) by {
        let w = remapped(v, to, from);
        assert(order.contains(w));
        let q = choose|q: int| 0 <= q < order.len() && order[q] == w;
        assert(out[q] == v);
    }
    assert forall|i: int, j: int| 0 <= i < out.len() && 0 <= j < out.len() && i != j implies out[i]
        != out[j] by {
        assert(order[i] != order[j]);
    }
}

/// `order` after `count` tracks were put into the queue at index `at`: every
/// index from `at` on moves up by `count`, and the new indices follow the first
/// `pos` entries.
pub open spec fn after_insert(order: Seq<usize>, at: usize, count: usize, pos: int) -> Seq<usize> {
    let shifted = order.map_values(
        |i: usize|
            if i >= at {
                (i + count) as usize
            } else {
                i
            },
    );
    shifted.take(pos) + Seq::new(count as nat, |k: int| (at + k) as usize) + shifted.skip(pos)
}

/// The play order after `count` tracks were put into the queue at `at`, to be
/// played after the first `pos` entries.
pub fn play_order_after_insert(order: &[usize], at: usize, count: usize, pos: usize) -> (out: Vec<
    usize,
>)
    requires
        pos <= order@.len(),
        at + count <= usize::MAX,
        forall|i: int| 0 <= i < order@.len() ==> #[trigger] order@[i] + count <= usize::MAX,
    ensures
        out@ == after_insert(order@, at, count, pos as int),
{
    let mut out: Vec<usize> = Vec::new();
    let ghost shifted = order@.map_values(
        |i: usize|
            if i >= at {
                (i + count) as usize
            } else {
                i
            },
    );
    let ghost fresh = Seq::new(count as nat, |k: int| (at + k) as usize);
    let mut k: usize = 0;
    while k < pos
        invariant
            k <= pos <= order.len(),
            shifted.len() == order@.len(),
            forall|i: int| 0 <= i < order@.len() ==> #[trigger] order@[i] + count <= usize::MAX,
            forall|i: int|
                0 <= i < order@.len() ==> #[trigger] shifted[i] == (if order@[i] >= at {
                    (order@[i] + count) as usize
                } else {
                    order@[i]
                }),
            out@ == shifted.take(k as int),
        decreases pos - k,
    {
        let i: usize = order[k];
        out.push(
            if i >= at {
                i + count
            } else {
                i
            },
        );
        k = k + 1;
        assert(out@ =~= shifted.take(k as int));
    }
    let mut f: usize = 0;
    while f < count
        invariant
            f <= count,
            at + count <= usize::MAX,
            fresh == Seq::new(count as nat, |k: int| (at + k) as usize),
            out@ == shifted.take(pos as int) + fresh.take(f as int),
        decreases count - f,
    {
        out.push(at + f);
        f = f + 1;
        assert(out@ =~= shifted.take(pos as int) + fresh.take(f as int));
    }
    assert(fresh.take(f as int) == fresh);
    assert(shifted.skip(pos as int).take(0) =~= Seq::<usize>::empty());
    while k < order.len()
        invariant
            pos <= k <= order.len(),
            shifted.len() == order@.len(),
            forall|i: int| 0 <= i < order@.len() ==> #[trigger] order@[i] + count <= usize::MAX,
            forall|i: int|
                0 <= i < order@.len() ==> #[trigger] shifted[i] == (if order@[i] >= at {
                    (order@[i] + count) as usize
                } else {
                    order@[i]
                }),
            out@ == shifted.take(pos as int) + fresh + shifted.skip(pos as int).take(k - pos),
        decreases order.len() - k,
    {
        let i: usize = order[k];
        out.push(
            if i >= at {
                i + count
            } else {
                i
            },
        );
        k = k + 1;
        assert(out@ =~= shifted.take(pos as int) + fresh + shifted.skip(pos as int).take(k - pos));
    }
    assert(shifted.skip(pos as int).take(k - pos) =~= shifted.skip(pos as int));
    out
}

/// Inserting `count` tracks into a queue of `n` leaves a full order of
/// `n + count`.
pub proof fn insert_keeps_order(order: Seq<usize>, n: nat, at: usize, count: usize, pos: int)
    requires
        is_order(order, n),
        at <= n,
        n + count <= usize::MAX,
        0 <= pos <= n,
    ensures
        is_order(after_insert(order, at, count, pos), (n + count) as nat),
{
    let shifted = order.map_values(
        |i: usize|
            if i >= at {
                (i + count) as usize
            } else {
                i
            },
    );
    let out = after_insert(order, at, count, pos);
    // The place of the `k`-th old entry in the new order.
    let place = |k: int|
        if k < pos {
            k
        } else {
            k + count
        };
    assert forall|k: int| 0 <= k < n implies #[trigger] out[place(k)] == shifted[k] by {}
    assert forall|k: int| 0 <= k < count implies #[trigger] out[pos + k] == at + k by {}
    // Every place of the new order comes from an old entry or is a new index.
    assert forall|m: int| 0 <= m < out.len() implies (if m < pos {
        out[m] == shifted[m]
    } else if m < pos + count {
        out[m] == at + (m - pos)
    } else {
        out[m] == shifted[m - count]
    }) by {}
    assert forall|i: int, j: int| 0 <= i < out.len() && 0 <= j < out.len() && i != j implies out[i]
        != out[j] by {
        let oi = if i < pos {
            i
        } else {
            i - count
        };
        let oj = if j < pos {
            j
        } else {
            j - count
        };
        let i_new = pos <= i < pos + count;
        let j_new = pos <= j < pos + count;
        if !i_new && !j_new {
            assert(order[oi] != order[oj]);
        }
    }
    assert forall|v: usize| v < n + count implies #[trigger] out.contains(v) by {
        if v < at {
            assert(order.contains(v));
            let q = choose|q: int| 0 <= q < order.len() && order[q] == v;
            assert(out[place(q)] == v);
        } else if v < at + count {
            assert(out[pos + (v - at)] == v);
        } else {
            let w = (v - count) as usize;
            assert(order.contains(w));
            let q = choose|q: int| 0 <= q < order.len() && order[q] == w;
            assert(out[place(q)] == v);
        }
    }
}

/// New indices at the end of an order make an order of the longer queue.
pub proof fn append_keeps_order(order: Seq<usize>, n: nat, count: nat)
    requires
        is_order(order, n),
        n + count <= usize::MAX,
    ensures
        is_order(order + Seq::new(count, |k: int| (n + k) as usize), n + count),
{
    let added = Seq::new(count, |k: int| (n + k) as usize);
    let out = order + added;
    assert forall|v: usize| v < n + count implies #[trigger] out.contains(v) by {
        if v < n {
            assert(order.contains(v));
            let i = choose|i: int| 0 <= i < order.len() && order[i] == v;
            assert(out[i] == v);
        } else {
            assert(out[v as int] == v);
        }
    }
}

} // verus!
