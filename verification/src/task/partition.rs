//! The partitioner: a pure function that turns a resource's content length,
//! the configured thread count and the server's range capability into an
//! ordered list of disjoint, contiguous inclusive byte ranges covering the
//! whole resource.

use vstd::prelude::*;
use vstd::arithmetic::div_mod::{lemma_fundamental_div_mod, lemma_mod_bound};
use vstd::arithmetic::mul::lemma_mul_inequality;

verus! {

/// Single-range mode applies when the server does not honour byte ranges,
/// when only one connection is requested, or in the degenerate case where
/// the resource holds fewer bytes than there are threads (naive division
/// would yield empty or overlapping ranges there).
pub open spec fn single_range_mode(length: int, nthread: int, use_range: bool) -> bool {
    !use_range || nthread == 1 || length < nthread
}

/// First byte offset of range `i` in multi-range mode.
pub open spec fn range_start(length: int, nthread: int, i: int) -> int {
    i * (length / nthread)
}

/// Last byte offset (inclusive) of range `i` in multi-range mode; the final
/// range's end is forced to `length - 1` so that it absorbs the remainder
/// truncated away by the integer division.
pub open spec fn range_end(length: int, nthread: int, i: int) -> int {
    if i == nthread - 1 {
        length - 1
    } else {
        (i + 1) * (length / nthread) - 1
    }
}

/// What the partitioner returns for `(length, nthread, use_range)`: one
/// range `[0, length-1]` in single-range mode, otherwise exactly `nthread`
/// ranges of `length / nthread` bytes each, the last widened to `length - 1`.
pub open spec fn is_partition(
    r: Seq<(usize, usize)>,
    length: int,
    nthread: int,
    use_range: bool,
) -> bool {
    if single_range_mode(length, nthread, use_range) {
        &&& r.len() == 1
        &&& r[0].0 == 0
        &&& r[0].1 == length - 1
    } else {
        &&& r.len() == nthread
        &&& forall|i: int|
            #![trigger r[i]]
            0 <= i < nthread ==> r[i].0 == range_start(length, nthread, i) && r[i].1 == range_end(
                length,
                nthread,
                i,
            )
    }
}

/// Split `[0, length-1]` into download ranges.
///
/// With range support and more than one thread (and a resource at least as
/// long as the thread count), the resource is cut into `nthread` ranges of
/// `length / nthread` bytes, the last one absorbing the division remainder;
/// otherwise the single range `[0, length-1]` is returned.
pub fn partition(length: usize, nthread: usize, use_range: bool) -> (r: Vec<(usize, usize)>)
    requires
        length >= 1,
        nthread >= 1,
    ensures
        is_partition(r@, length as int, nthread as int, use_range),
{
    if !use_range || nthread == 1 || length < nthread {
        let mut r: Vec<(usize, usize)> = Vec::new();
        r.push((0, length - 1));
        r
    } else {
        let cs = length / nthread;
        proof {
            lemma_fundamental_div_mod(length as int, nthread as int);
            lemma_mod_bound(length as int, nthread as int);
            assert(cs >= 1) by (nonlinear_arith)
                requires
                    length as int == nthread as int * (length as int / nthread as int) + (
                    length as int % nthread as int),
                    0 <= (length as int % nthread as int),
                    (length as int % nthread as int) < nthread as int,
                    length >= nthread,
                    cs == length as int / nthread as int,
            ;
        }
        let mut r: Vec<(usize, usize)> = Vec::new();
        let mut start: usize = 0;
        let mut i: usize = 0;
        while i < nthread
            invariant
                2 <= nthread <= length,
                use_range,
                cs == length as int / nthread as int,
                1 <= cs,
                length as int == nthread as int * cs + (length as int % nthread as int),
                0 <= length as int % nthread as int,
                i <= nthread,
                r@.len() == i,
                start == i * cs,
                forall|j: int|
                    0 <= j < i ==> r@[j].0 == range_start(length as int, nthread as int, j)
                        && r@[j].1 == range_end(length as int, nthread as int, j),
            decreases nthread - i,
        {
            proof {
                lemma_mul_inequality(i as int + 1, nthread as int, cs as int);
                assert((i as int + 1) * cs == i * cs + cs) by (nonlinear_arith);
            }
            let end: usize = if i == nthread - 1 {
                length - 1
            } else {
                start + cs - 1
            };
            r.push((start, end));
            start = start + cs;
            i = i + 1;
        }
        r
    }
}

/// Without range support, or with a single connection, the partitioner
/// always returns exactly one range, `[0, length-1]`, whatever the thread
/// count.
pub proof fn lemma_no_range_support_single_range(
    r: Seq<(usize, usize)>,
    length: int,
    nthread: int,
    use_range: bool,
)
    requires
        length >= 1,
        nthread >= 1,
        is_partition(r, length, nthread, use_range),
        !use_range || nthread == 1,
    ensures
        r.len() == 1,
        r[0].0 == 0,
        r[0].1 == length - 1,
{
}

/// Degenerate case: a resource shorter than the thread count falls back
/// to the single range `[0, length-1]` — no empty or inverted range is
/// ever emitted.
pub proof fn lemma_short_resource_falls_back(
    r: Seq<(usize, usize)>,
    length: int,
    nthread: int,
    use_range: bool,
)
    requires
        length >= 1,
        nthread >= 1,
        is_partition(r, length, nthread, use_range),
        length < nthread,
    ensures
        r.len() == 1,
        r[0].0 == 0,
        r[0].1 == length - 1,
{
}

/// Every partition over a positive length is a well-formed cover of
/// `[0, length-1]`: it is non-empty, begins at offset 0, ends at
/// `length - 1`, every range is non-empty, and each range starts exactly
/// one byte after its predecessor ends.
pub proof fn lemma_partition_contiguous(
    r: Seq<(usize, usize)>,
    length: int,
    nthread: int,
    use_range: bool,
)
    requires
        length >= 1,
        nthread >= 1,
        is_partition(r, length, nthread, use_range),
    ensures
        r.len() >= 1,
        r[0].0 == 0,
        r[r.len() - 1].1 == length - 1,
        forall|i: int| #![trigger r[i]] 0 <= i < r.len() ==> r[i].0 <= r[i].1,
        forall|i: int| #![trigger r[i]] 0 <= i < r.len() ==> r[i].1 <= length - 1,
        forall|i: int| #![trigger r[i]] 0 < i < r.len() ==> r[i].0 == r[i - 1].1 + 1,
{
    if !single_range_mode(length, nthread, use_range) {
        let cs = length / nthread;
        lemma_fundamental_div_mod(length, nthread);
        lemma_mod_bound(length, nthread);
        assert(cs >= 1) by (nonlinear_arith)
            requires
                length == nthread * (length / nthread) + (length % nthread),
                0 <= length % nthread < nthread,
                length >= nthread,
                cs == length / nthread,
        ;
        assert forall|i: int| #![trigger r[i]] 0 <= i < r.len() implies r[i].0 <= r[i].1 && r[i].1
            <= length - 1 by {
            assert(r[i].0 == range_start(length, nthread, i) && r[i].1 == range_end(length, nthread, i));
            if i < nthread - 1 {
                assert(i * cs + cs == (i + 1) * cs) by (nonlinear_arith);
                lemma_mul_inequality(i + 1, nthread, cs);
            } else {
                lemma_mul_inequality(i, nthread, cs);
                assert(nthread * cs <= length);
                assert(i * cs == nthread * cs - cs) by (nonlinear_arith)
                    requires
                        i == nthread - 1,
                ;
            }
        }
        assert forall|i: int| #![trigger r[i]] 0 < i < r.len() implies r[i].0 == r[i - 1].1 + 1 by {
            assert(r[i].0 == range_start(length, nthread, i));
            assert(r[i - 1].1 == range_end(length, nthread, i - 1));
            assert(r[i].0 == i * cs);
            assert(r[i - 1].1 == i * cs - 1);
        }
    }
}

/// Partition ranges are pairwise disjoint and strictly ordered by start:
/// a range with a smaller index ends strictly before any later range
/// begins.
pub proof fn lemma_partition_disjoint(
    r: Seq<(usize, usize)>,
    length: int,
    nthread: int,
    use_range: bool,
)
    requires
        length >= 1,
        nthread >= 1,
        is_partition(r, length, nthread, use_range),
    ensures
        forall|i: int, j: int| #![trigger r[i], r[j]] 0 <= i < j < r.len() ==> r[i].1 < r[j].0,
{
    if !single_range_mode(length, nthread, use_range) {
        let cs = length / nthread;
        lemma_fundamental_div_mod(length, nthread);
        lemma_mod_bound(length, nthread);
        assert(cs >= 1) by (nonlinear_arith)
            requires
                length == nthread * (length / nthread) + (length % nthread),
                0 <= length % nthread < nthread,
                length >= nthread,
                cs == length / nthread,
        ;
        assert forall|i: int, j: int| #![trigger r[i], r[j]] 0 <= i < j < r.len() implies r[i].1
            < r[j].0 by {
            assert(r[i].0 == range_start(length, nthread, i) && r[i].1 == range_end(length, nthread, i));
            assert(r[j].0 == range_start(length, nthread, j) && r[j].1 == range_end(length, nthread, j));
            lemma_mul_inequality(i + 1, j, cs);
            if j == nthread - 1 {
                lemma_mul_inequality(j, nthread, cs);
                assert(j * cs == nthread * cs - cs) by (nonlinear_arith)
                    requires
                        j == nthread - 1,
                ;
            }
        }
    }
}

/// Partition ranges cover the whole resource: every byte offset in
/// `[0, length-1]` lies inside some range of the partition.
pub proof fn lemma_partition_covers(
    r: Seq<(usize, usize)>,
    length: int,
    nthread: int,
    use_range: bool,
    b: int,
)
    requires
        length >= 1,
        nthread >= 1,
        is_partition(r, length, nthread, use_range),
        0 <= b < length,
    ensures
        exists|i: int| #![trigger r[i]] 0 <= i < r.len() && r[i].0 <= b <= r[i].1,
{
    if single_range_mode(length, nthread, use_range) {
        assert(0 <= 0 < r.len() && r[0].0 <= b <= r[0].1);
    } else {
        let cs = length / nthread;
        lemma_fundamental_div_mod(length, nthread);
        lemma_mod_bound(length, nthread);
        assert(cs >= 1) by (nonlinear_arith)
            requires
                length == nthread * (length / nthread) + (length % nthread),
                0 <= length % nthread < nthread,
                length >= nthread,
                cs == length / nthread,
        ;
        if b >= (nthread - 1) * cs {
            let w = nthread - 1;
            assert(r[w].0 == w * cs && r[w].1 == length - 1);
            assert(0 <= w < r.len() && r[w].0 <= b <= r[w].1);
        } else {
            let w = b / cs;
            lemma_fundamental_div_mod(b, cs);
            lemma_mod_bound(b, cs);
            assert(0 <= w && w * cs <= b && b < (w + 1) * cs) by (nonlinear_arith)
                requires
                    b == cs * (b / cs) + (b % cs),
                    0 <= b % cs < cs,
                    0 <= b,
                    cs >= 1,
                    w == b / cs,
            ;
            assert(w < nthread - 1) by (nonlinear_arith)
                requires
                    w * cs <= b,
                    b < (nthread - 1) * cs,
                    cs >= 1,
                    0 <= w,
            ;
            assert(r[w].0 == w * cs && r[w].1 == (w + 1) * cs - 1);
            assert(0 <= w < r.len() && r[w].0 <= b <= r[w].1);
        }
    }
}

} // verus!
