use fetchr::task::partition::partition;

fn ranges(length: usize, nthread: usize, use_range: bool) -> Vec<(usize, usize)> {
    partition(length, nthread, use_range)
}

#[test]
fn scenario_a_four_even_chunks() {
    let r = ranges(1000, 4, true);
    assert_eq!(r, vec![(0, 249), (250, 499), (500, 749), (750, 999)]);
}

#[test]
fn scenario_b_no_range_support_single_chunk() {
    for n in [1, 2, 4, 8, 1000, 5000] {
        let r = ranges(1000, n, false);
        assert_eq!(r, vec![(0, 999)]);
    }
}

#[test]
fn single_thread_single_chunk() {
    let r = ranges(1000, 1, true);
    assert_eq!(r, vec![(0, 999)]);
}

#[test]
fn degenerate_length_below_thread_count_falls_back() {
    let r = ranges(3, 8, true);
    assert_eq!(r, vec![(0, 2)]);
    let r = ranges(1, 2, true);
    assert_eq!(r, vec![(0, 0)]);
    let r = ranges(7, 8, true);
    assert_eq!(r, vec![(0, 6)]);
}

#[test]
fn last_chunk_absorbs_remainder() {
    let r = ranges(10, 3, true);
    assert_eq!(r, vec![(0, 2), (3, 5), (6, 9)]);
}

#[test]
fn ranges_disjoint_ordered_contiguous_cover() {
    for (length, nthread) in [(1000usize, 4usize), (10, 3), (999, 7), (8, 8), (100, 9)] {
        let r = ranges(length, nthread, true);
        assert!(!r.is_empty());
        assert_eq!(r[0].0, 0);
        assert_eq!(r[r.len() - 1].1, length - 1);
        for w in r.windows(2) {
            // strictly ordered by start, disjoint, contiguous
            assert!(w[0].1 < w[1].0);
            assert_eq!(w[1].0, w[0].1 + 1);
        }
        for &(s, e) in &r {
            assert!(s <= e);
        }
        let total: usize = r.iter().map(|&(s, e)| e - s + 1).sum();
        assert_eq!(total, length);
    }
}

#[test]
fn exact_division_leaves_equal_chunks() {
    let r = ranges(8, 4, true);
    assert_eq!(r, vec![(0, 1), (2, 3), (4, 5), (6, 7)]);
}
