//! How a row count is cut into chunks of bounded size.
use vstd::prelude::*;

verus! {

/// The number of rows in a full chunk unless another size is asked for.
pub const DEFAULT_CHUNK_SIZE: u32 = 65536;

/// `ceil(rows / size)`.
pub open spec fn chunk_count(rows: nat, size: nat) -> nat
    recommends
        size > 0,
{
    if rows % size == 0 {
        rows / size
    } else {
        rows / size + 1
    }
}

/// The rows held by the first `k` chunks: `min(k * size, rows)`.
pub open spec fn rows_before(rows: nat, size: nat, k: nat) -> nat {
    if k * size <= rows {
        k * size
    } else {
        rows
    }
}

/// The rows of chunk `k`.
pub open spec fn chunk_len(rows: nat, size: nat, k: nat) -> nat {
    (rows_before(rows, size, k + 1) - rows_before(rows, size, k)) as nat
}

/// The sum of the lengths of the first `n` chunks.
pub open spec fn rows_in_chunks(rows: nat, size: nat, n: nat) -> nat
    decreases n,
{
    if n == 0 {
        0
    } else {
        rows_in_chunks(rows, size, (n - 1) as nat) + chunk_len(rows, size, (n - 1) as nat)
    }
}

proof fn lemma_monotone(size: nat, k: nat)
    ensures
        k * size <= (k + 1) * size,
        (k + 1) * size == k * size + size,
{
    assert((k + 1) * size == k * size + size) by (nonlinear_arith);
}

/// Chunk `k` starts where the first `k` chunks end and ends where the first
/// `k + 1` end, within the rows.
pub proof fn lemma_chunk_extent(rows: nat, size: nat, k: nat)
    ensures
        rows_before(rows, size, k) + chunk_len(rows, size, k) == rows_before(rows, size, k + 1),
        rows_before(rows, size, k + 1) <= rows,
{
    lemma_monotone(size, k);
}

proof fn lemma_rows_in_chunks(rows: nat, size: nat, n: nat)
    ensures
        rows_in_chunks(rows, size, n) == rows_before(rows, size, n),
    decreases n,
{
    if n > 0 {
        let k = (n - 1) as nat;
        lemma_rows_in_chunks(rows, size, k);
        lemma_monotone(size, k);
        assert(k + 1 == n);
        assert(rows_before(rows, size, k) <= rows_before(rows, size, n));
    } else {
        assert(0 * size == 0) by (nonlinear_arith);
    }
}

/// Where the chunks end: every chunk but past the last starts below `rows`,
/// and the chunks together reach `rows`.
proof fn lemma_chunk_bounds(rows: nat, size: nat, k: nat)
    requires
        size > 0,
    ensures
        k < chunk_count(rows, size) ==> k * size < rows,
        chunk_count(rows, size) * size >= rows,
{
    let q = rows / size;
    let m = rows % size;
    assert(rows == q * size + m && m < size) by (nonlinear_arith)
        requires
            size > 0,
            q == rows / size,
            m == rows % size,
    ;
    if k < chunk_count(rows, size) {
        if m == 0 {
            assert(k * size <= (q - 1) * size) by (nonlinear_arith)
                requires
                    k <= q - 1,
                    size > 0,
            ;
            assert((q - 1) * size == q * size - size) by (nonlinear_arith);
        } else {
            assert(k * size <= q * size) by (nonlinear_arith)
                requires
                    k <= q,
                    size > 0,
            ;
        }
    }
    assert((q + 1) * size == q * size + size) by (nonlinear_arith);
}

/// The chunks cover the rows exactly: their lengths add up to `rows`; each
/// chunk holds at least one row and at most `size`; chunk `k` starts at row
/// `k * size`; every chunk but the last is full.
pub proof fn lemma_chunks_cover_rows(rows: nat, size: nat)
    requires
        size > 0,
    ensures
        rows_in_chunks(rows, size, chunk_count(rows, size)) == rows,
        forall|k: nat| k < chunk_count(rows, size) ==> 0 < #[trigger] chunk_len(rows, size, k) <= size,
        forall|k: nat| k < chunk_count(rows, size) ==> #[trigger] rows_before(rows, size, k) == k * size,
        forall|k: nat| k + 1 < chunk_count(rows, size) ==> #[trigger] chunk_len(rows, size, k) == size,
{
    lemma_rows_in_chunks(rows, size, chunk_count(rows, size));
    lemma_chunk_bounds(rows, size, 0);
    assert forall|k: nat| k < chunk_count(rows, size) implies 0 < #[trigger] chunk_len(rows, size, k) <= size by {
        lemma_chunk_bounds(rows, size, k);
        lemma_monotone(size, k);
    }
    assert forall|k: nat| k < chunk_count(rows, size) implies #[trigger] rows_before(rows, size, k) == k * size by {
        lemma_chunk_bounds(rows, size, k);
    }
    assert forall|k: nat| k + 1 < chunk_count(rows, size) implies #[trigger] chunk_len(rows, size, k) == size by {
        lemma_chunk_bounds(rows, size, k + 1);
        lemma_monotone(size, k);
    }
}

/// The number of chunks for `rows` rows of at most `size` each.
pub fn number_of_chunks(rows: u32, size: u32) -> (r: u32)
    requires
        size > 0,
    ensures
        r == chunk_count(rows as nat, size as nat),
{
    if rows % size == 0 {
        rows / size
    } else {
        proof {
            if size == 1 {
                assert(rows % size == 0) by (nonlinear_arith)
                    requires
                        size == 1,
                ;
            }
            assert(rows / size < u32::MAX) by (nonlinear_arith)
                requires
                    size >= 2,
                    rows <= u32::MAX,
            ;
        }
        rows / size + 1
    }
}

/// The rows of chunk `k`: `size`, but for the last chunk, which takes what is left.
pub fn rows_in_chunk(rows: u32, size: u32, k: u32) -> (r: u32)
    requires
        size > 0,
        k < chunk_count(rows as nat, size as nat),
    ensures
        r == chunk_len(rows as nat, size as nat, k as nat),
        r as nat + k as nat * size as nat <= rows,
{
    proof {
        lemma_chunk_bounds(rows as nat, size as nat, k as nat);
        lemma_monotone(size as nat, k as nat);
    }
    let count = number_of_chunks(rows, size);
    let start = k * size;
    if k < count - 1 {
        proof {
            lemma_chunk_bounds(rows as nat, size as nat, (k + 1) as nat);
        }
        size
    } else {
        proof {
            lemma_chunk_bounds(rows as nat, size as nat, (k + 1) as nat);
            assert(k + 1 == chunk_count(rows as nat, size as nat));
            assert((k + 1) * size >= rows);
        }
        rows - start
    }
}

} // verus!
