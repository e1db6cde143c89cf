use shaders::raster::triangle_starts;

#[test]
fn no_triangle_from_fewer_than_three_vertices() {
    assert_eq!(triangle_starts(0), Vec::<usize>::new());
    assert_eq!(triangle_starts(1), Vec::<usize>::new());
    assert_eq!(triangle_starts(2), Vec::<usize>::new());
}

#[test]
fn complete_triples_only() {
    assert_eq!(triangle_starts(3), vec![0]);
    assert_eq!(triangle_starts(6), vec![0, 3]);
    assert_eq!(triangle_starts(9), vec![0, 3, 6]);
}

#[test]
fn leading_vertices_covered_exactly_once() {
    for n in [3usize, 6, 7, 8, 11] {
        let mut covered = vec![0usize; n];
        for s in triangle_starts(n) {
            for j in s..s + 3 {
                covered[j] += 1;
            }
        }
        let leading = n - n % 3;
        for (j, count) in covered.iter().enumerate() {
            assert_eq!(*count, if j < leading { 1 } else { 0 });
        }
    }
}

#[test]
fn dangling_remainder_is_skipped() {
    // lengths that are not a multiple of three still yield only the
    // leading complete triples
    assert_eq!(triangle_starts(4), vec![0]);
    assert_eq!(triangle_starts(5), vec![0]);
    assert_eq!(triangle_starts(7), vec![0, 3]);
    assert_eq!(triangle_starts(8), vec![0, 3]);
    // and no triple ever reaches into the remainder
    for n in [4usize, 5, 7, 8, 100, 101] {
        let remainder_start = n - n % 3;
        for s in triangle_starts(n) {
            assert!(s + 2 < remainder_start);
        }
    }
}
