//! The merger: ordered concatenation of the finished chunk files into the
//! final destination artifact.
//!
//! The application reads each finished chunk file and writes the merged
//! bytes out; this module fixes what the merged bytes are — the chunk
//! contents concatenated in ascending chunk id order, nothing else — so
//! the result does not depend on the order in which chunks happened to
//! finish. The reconstruction law below ties the whole engine together:
//! merging range-exact chunk files of any disjoint contiguous cover
//! yields exactly the resource's first `size` bytes.

use vstd::prelude::*;

use crate::task::chunk::Chunk;
use crate::task::controller::chunks_cover;
use crate::task::download::range_bytes;

verus! {

/// All the byte sequences of `parts`, concatenated in order.
pub open spec fn concat_all(parts: Seq<Seq<u8>>) -> Seq<u8>
    decreases parts.len(),
{
    if parts.len() == 0 {
        Seq::empty()
    } else {
        concat_all(parts.drop_last()) + parts.last()
    }
}

/// The total number of bytes in `parts`.
pub open spec fn total_len(parts: Seq<Seq<u8>>) -> int
    decreases parts.len(),
{
    if parts.len() == 0 {
        0
    } else {
        total_len(parts.drop_last()) + parts.last().len()
    }
}

/// The merged artifact holds exactly as many bytes as the parts together.
pub proof fn lemma_concat_all_len(parts: Seq<Seq<u8>>)
    ensures
        concat_all(parts).len() == total_len(parts),
    decreases parts.len(),
{
    if parts.len() > 0 {
        lemma_concat_all_len(parts.drop_last());
    }
}

/// Merge chunk contents, in the order given (ascending chunk id: the
/// caller hands the contents in id order). The result is exactly the
/// concatenation of the parts, so it is the same whatever order the
/// chunks finished in.
pub fn merge_contents(parts: &Vec<Vec<u8>>) -> (out: Vec<u8>)
    ensures
        out@ == concat_all(parts@.map_values(|p: Vec<u8>| p@)),
{
    let ghost all = parts@.map_values(|p: Vec<u8>| p@);
    let mut out: Vec<u8> = Vec::new();
    let mut k: usize = 0;
    proof {
        assert(out@ =~= concat_all(all.take(0)));
    }
    while k < parts.len()
        invariant
            0 <= k <= parts@.len(),
            all == parts@.map_values(|p: Vec<u8>| p@),
            out@ == concat_all(all.take(k as int)),
        decreases parts@.len() - k,
    {
        out.extend_from_slice(parts[k].as_slice());
        proof {
            assert(all.take(k + 1).drop_last() =~= all.take(k as int));
            assert(all.take(k + 1).last() == all[k as int]);
        }
        k = k + 1;
    }
    proof {
        assert(all.take(parts@.len() as int) =~= all);
    }
    out
}

/// Within a disjoint contiguous cover, range ends never decrease with the
/// chunk id.
proof fn lemma_cover_ends_sorted(chunks: Seq<Chunk>, size: int, i: int, j: int)
    requires
        chunks_cover(chunks, size),
        0 <= i <= j < chunks.len(),
    ensures
        chunks[i].end <= chunks[j].end,
    decreases j - i,
{
    if i < j {
        lemma_cover_ends_sorted(chunks, size, i, j - 1);
        assert(chunks[j].start == chunks[j - 1].end + 1);
        assert(chunks[j].start <= chunks[j].end);
    }
}

/// Dropping the last chunk of a disjoint contiguous cover of `size` bytes
/// leaves a disjoint contiguous cover of the bytes before that chunk.
#[verifier::rlimit(100)]
proof fn lemma_cover_drop_last(chunks: Seq<Chunk>, size: int)
    requires
        chunks_cover(chunks, size),
        chunks.len() >= 2,
    ensures
        chunks_cover(chunks.drop_last(), chunks[chunks.len() - 1].start as int),
{
    let head = chunks.drop_last();
    let bound = chunks[chunks.len() - 1].start as int;
    assert forall|i: int| #![trigger head[i]] 0 <= i < head.len() implies head[i].id == i
        && head[i].start <= head[i].end && head[i].end < bound by {
        assert(chunks[i].id == i && chunks[i].start <= chunks[i].end);
        lemma_cover_ends_sorted(chunks, size, i, chunks.len() - 2);
        assert(chunks[chunks.len() - 1].start == chunks[chunks.len() - 2].end + 1);
    }
    assert(head[0].start == chunks[0].start);
    assert(head[head.len() - 1].end == chunks[chunks.len() - 2].end);
    assert(chunks[chunks.len() - 1].start == chunks[chunks.len() - 2].end + 1);
    assert forall|i: int| #![trigger head[i]] 0 < i < head.len() implies head[i].start == head[i
        - 1].end + 1 by {
        assert(chunks[i].start == chunks[i - 1].end + 1);
    }
}

/// The reconstruction law: merging the chunk files of any disjoint
/// contiguous cover of `[0, size-1]`, each file holding exactly the bytes
/// of its chunk's range, yields exactly the first `size` bytes of the
/// resource — in particular, the merged size equals the probed size.
#[verifier::rlimit(100)]
pub proof fn lemma_merge_reconstructs_resource(
    resource: Seq<u8>,
    chunks: Seq<Chunk>,
    files: Seq<Seq<u8>>,
    size: int,
)
    requires
        chunks_cover(chunks, size),
        size <= resource.len(),
        files.len() == chunks.len(),
        forall|i: int|
            0 <= i < chunks.len() ==> #[trigger] files[i] == range_bytes(
                resource,
                chunks[i].start as int,
                chunks[i].end as int,
            ),
    ensures
        concat_all(files) == resource.subrange(0, size),
        concat_all(files).len() == size,
    decreases chunks.len(),
{
    if chunks.len() == 1 {
        assert(files[0] == range_bytes(resource, chunks[0].start as int, chunks[0].end as int));
        assert(concat_all(files) == concat_all(files.drop_last()) + files.last());
        assert(concat_all(files.drop_last()) =~= Seq::<u8>::empty());
        assert(concat_all(files) =~= resource.subrange(0, size));
    } else {
        let last = chunks[chunks.len() - 1];
        let bound = last.start as int;
        lemma_cover_drop_last(chunks, size);
        assert forall|i: int|
            0 <= i < chunks.drop_last().len() implies #[trigger] files.drop_last()[i]
            == range_bytes(
            resource,
            chunks.drop_last()[i].start as int,
            chunks.drop_last()[i].end as int,
        ) by {
            assert(files[i] == range_bytes(resource, chunks[i].start as int, chunks[i].end as int));
        }
        lemma_merge_reconstructs_resource(resource, chunks.drop_last(), files.drop_last(), bound);
        assert(concat_all(files) == concat_all(files.drop_last()) + files.last());
        assert(files.last() == range_bytes(resource, last.start as int, last.end as int));
        assert(last.end == size - 1);
        assert(concat_all(files) =~= resource.subrange(0, size));
    }
}

} // verus!
