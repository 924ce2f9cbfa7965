//! Cutting an order of samples into minibatches.

use vstd::prelude::*;
use vstd::seq_lib::lemma_flatten_concat;

verus! {

/// `s` cut into consecutive pieces of `size` items; the last piece holds what
/// is left and may be shorter. No piece is empty.
pub open spec fn chunks<T>(s: Seq<T>, size: nat) -> Seq<Seq<T>>
    decreases s.len(),
{
    if size == 0 || s.len() == 0 {
        Seq::empty()
    } else if s.len() <= size {
        seq![s]
    } else {
        seq![s.subrange(0, size as int)] + chunks(s.subrange(size as int, s.len() as int), size)
    }
}

/// The pieces, put back one after the other, give the sequence that was cut:
/// no item is lost, repeated or moved.
pub proof fn lemma_chunks_cover<T>(s: Seq<T>, size: nat)
    requires
        size > 0,
    ensures
        chunks(s, size).flatten() == s,
    decreases s.len(),
{
    broadcast use Seq::lemma_flatten_singleton;

    if s.len() == 0 {
    } else if s.len() <= size {
    } else {
        let head = s.subrange(0, size as int);
        let tail = s.subrange(size as int, s.len() as int);
        lemma_chunks_cover(tail, size);
        lemma_flatten_concat(seq![head], chunks(tail, size));
        assert(head + tail =~= s);
    }
}

/// Every piece holds between one and `size` items, and every piece but the
/// last holds exactly `size`.
pub proof fn lemma_chunk_sizes<T>(s: Seq<T>, size: nat, i: int)
    requires
        size > 0,
        0 <= i < chunks(s, size).len(),
    ensures
        1 <= chunks(s, size)[i].len() <= size,
        i + 1 < chunks(s, size).len() ==> chunks(s, size)[i].len() == size,
    decreases s.len(),
{
    if s.len() > size {
        let tail = s.subrange(size as int, s.len() as int);
        lemma_chunk_count(tail, size);
        if i > 0 {
            lemma_chunk_sizes(tail, size, i - 1);
        }
    }
}

/// There are as many pieces as it takes: `ceil(len / size)`.
pub proof fn lemma_chunk_count<T>(s: Seq<T>, size: nat)
    requires
        size > 0,
    ensures
        chunks(s, size).len() == (s.len() + size - 1) / (size as int),
        s.len() > 0 ==> chunks(s, size).len() > 0,
    decreases s.len(),
{
    let len = s.len() as int;
    let d = size as int;
    if s.len() == 0 {
        assert((len + d - 1) / d == 0) by (nonlinear_arith)
            requires
                len == 0,
                d > 0,
        ;
    } else if s.len() <= size {
        assert((len + d - 1) / d == 1) by (nonlinear_arith)
            requires
                0 < len <= d,
        ;
    } else {
        let tail = s.subrange(size as int, s.len() as int);
        lemma_chunk_count(tail, size);
        assert((len + d - 1) / d == (len - d + d - 1) / d + 1) by (nonlinear_arith)
            requires
                len > d,
                d > 0,
        ;
    }
}

/// What a vector of minibatches holds: the samples of each, in order.
pub open spec fn batch_views(batches: Seq<Vec<usize>>) -> Seq<Seq<usize>> {
    Seq::new(batches.len(), |i: int| batches[i]@)
}

/// Cuts `order` into minibatches of `batch` samples; the last one holds what
/// is left.
pub fn split_batches(order: &Vec<usize>, batch: usize) -> (batches: Vec<Vec<usize>>)
    requires
        batch > 0,
    ensures
        batch_views(batches@) == chunks(order@, batch as nat),
{
    let len = order.len();
    let mut batches: Vec<Vec<usize>> = Vec::new();
    let mut start: usize = 0;
    assert(order@.subrange(0, len as int) =~= order@);
    assert(batch_views(batches@) + chunks(order@, batch as nat) =~= chunks(order@, batch as nat));
    while start < len
        invariant
            batch > 0,
            len == order@.len(),
            start <= len,
            batch_views(batches@) + chunks(order@.subrange(start as int, len as int), batch as nat)
                == chunks(order@, batch as nat),
        decreases len - start,
    {
        let end = if len - start <= batch {
            len
        } else {
            start + batch
        };
        let mut piece: Vec<usize> = Vec::new();
        let mut i: usize = start;
        while i < end
            invariant
                start <= i <= end <= len,
                len == order@.len(),
                piece@ == order@.subrange(start as int, i as int),
            decreases end - i,
        {
            piece.push(order[i]);
            i += 1;
            assert(piece@ =~= order@.subrange(start as int, i as int));
        }
        proof {
            let rest = order@.subrange(start as int, len as int);
            let before = batch_views(batches@);
            assert(rest.subrange(0, end - start) =~= piece@);
            assert(rest.subrange(end - start, rest.len() as int) =~= order@.subrange(
                end as int,
                len as int,
            ));
            assert(chunks(rest, batch as nat) =~= seq![piece@] + chunks(
                order@.subrange(end as int, len as int),
                batch as nat,
            ));
            assert(before.push(piece@) + chunks(
                order@.subrange(end as int, len as int),
                batch as nat,
            ) =~= before + chunks(rest, batch as nat));
        }
        let ghost before = batch_views(batches@);
        batches.push(piece);
        assert(batch_views(batches@) =~= before.push(piece@));
        start = end;
    }
    batches
}

} // verus!
