//! Grouping a transformed vertex stream into complete triangles.
//!
//! The ring and moon renderers walk their vertex stream three vertices at a
//! time and rasterize each complete triple; a trailing partial triple is
//! skipped silently rather than treated as an error, so it contributes no
//! fragments and no framebuffer writes.

use vstd::prelude::*;
use vstd::arithmetic::div_mod::lemma_fundamental_div_mod;

verus! {

/// The number of complete triangles in a stream of `n` vertices: one per
/// full consecutive triple, none for a trailing partial triple.
pub open spec fn triangle_count(n: int) -> int {
    n / 3
}

/// Whether complete triangle number `k` reads the vertex at index `j`:
/// triangle `k` is assembled from the three consecutive indices
/// `3·k`, `3·k + 1`, `3·k + 2`.
pub open spec fn triangle_uses(k: int, j: int) -> bool {
    3 * k <= j <= 3 * k + 2
}

/// The starting indices `0, 3, 6, …` of the complete vertex triples in a
/// stream of `n` vertices. Exactly the leading `n / 3` triples appear, and
/// each start `s` satisfies `s + 2 < n`, so a triangle never reaches past
/// the end of the stream.
pub fn triangle_starts(n: usize) -> (starts: Vec<usize>)
    ensures
        starts@.len() == triangle_count(n as int),
        forall|k: int| 0 <= k < starts@.len() ==> #[trigger] starts@[k] == 3 * k,
        forall|k: int| 0 <= k < starts@.len() ==> #[trigger] starts@[k] + 2 < n,
{
    let count: usize = n / 3;
    let mut starts: Vec<usize> = Vec::new();
    let mut k: usize = 0;
    while k < count
        invariant
            count == n as int / 3,
            k <= count,
            starts@.len() == k as int,
            forall|j: int| 0 <= j < k ==> #[trigger] starts@[j] == 3 * j,
        decreases count - k,
    {
        proof {
            lemma_fundamental_div_mod(n as int, 3);
        }
        starts.push(3 * k);
        k = k + 1;
    }
    proof {
        lemma_fundamental_div_mod(n as int, 3);
    }
    starts
}

/// Every vertex of the leading complete triples is read, by exactly one of
/// the rasterized triangles: vertex `j` belongs to triangle `j / 3` and to
/// no other.
pub proof fn lemma_leading_vertices_covered(n: int, j: int)
    requires
        0 <= j < n - n % 3,
    ensures
        0 <= j / 3 < triangle_count(n),
        triangle_uses(j / 3, j),
        forall|k: int| #[trigger] triangle_uses(k, j) ==> k == j / 3,
{
    lemma_fundamental_div_mod(n, 3);
    lemma_fundamental_div_mod(j, 3);
    assert forall|k: int| #[trigger] triangle_uses(k, j) implies k == j / 3 by {
        lemma_fundamental_div_mod(j, 3);
    }
}

/// A vertex left over in a trailing partial triple belongs to no complete
/// triangle: every index a triangle reads lies strictly below
/// `n - n % 3`, so the dangling remainder of a stream whose length is not a
/// multiple of three is never rasterized and produces no framebuffer write.
pub proof fn lemma_trailing_vertices_untouched(n: int, j: int)
    requires
        n - n % 3 <= j < n,
    ensures
        forall|k: int| 0 <= k < triangle_count(n) ==> !#[trigger] triangle_uses(k, j),
{
    lemma_fundamental_div_mod(n, 3);
}

} // verus!
