//! Batch generation: streams seeded from one seed, columns generated chunk by
//! chunk, and the steps that drive an output sink.
use vstd::prelude::*;
use crate::column::{
    column_cells, column_error, generate_column, lemma_column_cells_len,
    lemma_column_cells_split, ColumnSpec,
};
use crate::error::ConfigError;
use crate::plan::{
    chunk_count, chunk_len, lemma_chunk_extent, lemma_chunks_cover_rows, number_of_chunks,
    rows_before, rows_in_chunk, DEFAULT_CHUNK_SIZE,
};
use crate::stream::{u64_draw, RandomStream};
use crate::value::{cells_of, Cell, Value};

verus! {

/// The seeds of `n` column streams, drawn one after another from a generator
/// seeded with `seed`, and that generator's state after them.
pub open spec fn stream_seeds(seed: u64, n: nat) -> (Seq<u64>, u64)
    decreases n,
{
    if n == 0 {
        (Seq::empty(), seed)
    } else {
        let prev = stream_seeds(seed, (n - 1) as nat);
        let d = u64_draw(prev.1);
        (prev.0.push(d.0), d.1)
    }
}

/// All `rows` values of column `c` whose stream starts at `s`.
pub open spec fn table_column(c: ColumnSpec, rows: nat, s: u64) -> Seq<Cell> {
    column_cells(c, 0, rows, s).0
}

/// One column of a batch.
#[derive(Clone, Debug)]
pub struct BatchColumn {
    pub name: String,
    pub values: Vec<Value>,
}

/// Row-aligned columns, in the order of the schema.
#[derive(Clone, Debug)]
pub struct Batch {
    pub columns: Vec<BatchColumn>,
    pub num_rows: u32,
}

/// What a batch column stands for: its name and its values.
pub struct ColumnView {
    pub name: Seq<char>,
    pub cells: Seq<Cell>,
}

/// What a batch stands for: its columns, in order, and its row count.
pub struct BatchView {
    pub columns: Seq<ColumnView>,
    pub num_rows: nat,
}

impl View for BatchColumn {
    type V = ColumnView;

    open spec fn view(&self) -> ColumnView {
        ColumnView { name: self.name@, cells: cells_of(self.values@) }
    }
}

impl View for Batch {
    type V = BatchView;

    open spec fn view(&self) -> BatchView {
        BatchView {
            columns: self.columns@.map_values(|c: BatchColumn| c@),
            num_rows: self.num_rows as nat,
        }
    }
}

impl BatchColumn {
    /// A copy that stands for the same name and values.
    pub fn copy(&self) -> (r: BatchColumn)
        ensures
            r@ == self@,
    {
        let mut values: Vec<Value> = Vec::new();
        let mut i: usize = 0;
        while i < self.values.len()
            invariant
                i <= self.values@.len(),
                cells_of(values@) == cells_of(self.values@.subrange(0, i as int)),
            decreases self.values@.len() - i,
        {
            let ghost before = values@;
            values.push(self.values[i].copy());
            assert(self.values@.subrange(0, i + 1) =~= self.values@.subrange(0, i as int).push(self.values@[i as int]));
            assert(cells_of(values@) =~= cells_of(before).push(self.values@[i as int]@));
            assert(cells_of(self.values@.subrange(0, i + 1)) =~= cells_of(self.values@.subrange(0, i as int)).push(self.values@[i as int]@));
            i += 1;
        }
        assert(self.values@.subrange(0, self.values@.len() as int) =~= self.values@);
        BatchColumn { name: self.name.clone(), values }
    }
}

impl Batch {
    /// A copy that stands for the same columns and rows.
    pub fn copy(&self) -> (r: Batch)
        ensures
            r@ == self@,
    {
        let mut columns: Vec<BatchColumn> = Vec::new();
        let mut i: usize = 0;
        while i < self.columns.len()
            invariant
                i <= self.columns@.len(),
                columns@.len() == i,
                forall|j: int| 0 <= j < i ==> (#[trigger] columns@[j])@ == self.columns@[j]@,
            decreases self.columns@.len() - i,
        {
            columns.push(self.columns[i].copy());
            i += 1;
        }
        let r = Batch { columns, num_rows: self.num_rows };
        assert(r@.columns =~= self@.columns);
        r
    }
}

/// `b` is chunk `k` of the table that `columns` yield over `rows` rows with
/// column streams seeded by `seeds`, in chunks of `size`: one column per
/// declared column, in declaration order and under its name, holding that
/// column's values at rows `rows_before(k) .. rows_before(k + 1)`.
pub open spec fn is_chunk_of(
    b: BatchView,
    columns: Seq<ColumnSpec>,
    seeds: Seq<u64>,
    rows: nat,
    size: nat,
    k: nat,
) -> bool {
    &&& b.num_rows == chunk_len(rows, size, k)
    &&& b.columns.len() == columns.len()
    &&& forall|i: int|
        0 <= i < columns.len() ==> {
            &&& (#[trigger] b.columns[i]).name == columns[i].name@
            &&& b.columns[i].cells == table_column(columns[i], rows, seeds[i]).subrange(
                rows_before(rows, size, k) as int,
                rows_before(rows, size, k + 1) as int,
            )
        }
}

/// Draws the seeds of `n` column streams from one seed.
pub fn open_streams(seed: u64, n: usize) -> (r: Vec<RandomStream>)
    ensures
        r@.len() == n,
        forall|i: int| 0 <= i < n ==> (#[trigger] r@[i]).state == stream_seeds(seed, n as nat).0[i],
{
    let mut master = RandomStream::with_seed(seed);
    let mut out: Vec<RandomStream> = Vec::new();
    let mut i: usize = 0;
    while i < n
        invariant
            i <= n,
            out@.len() == i,
            stream_seeds(seed, i as nat).0.len() == i,
            master.state == stream_seeds(seed, i as nat).1,
            forall|j: int| 0 <= j < i ==> (#[trigger] out@[j]).state == stream_seeds(seed, i as nat).0[j],
        decreases n - i,
    {
        let s = master.next_u64();
        out.push(RandomStream::with_seed(s));
        i += 1;
        assert(stream_seeds(seed, i as nat).0 == stream_seeds(seed, (i - 1) as nat).0.push(s));
    }
    proof {
        lemma_stream_seeds_len(seed, n as nat);
    }
    out
}

proof fn lemma_stream_seeds_len(seed: u64, n: nat)
    ensures
        stream_seeds(seed, n).0.len() == n,
    decreases n,
{
    if n > 0 {
        lemma_stream_seeds_len(seed, (n - 1) as nat);
    }
}

/// Generates rows `first .. first + n` of every column, each from its own
/// stream, and assembles them in declaration order.
pub fn generate_chunk(
    columns: &Vec<ColumnSpec>,
    streams: &mut Vec<RandomStream>,
    first: u32,
    n: u32,
) -> (r: Batch)
    requires
        old(streams)@.len() == columns@.len(),
        forall|i: int| 0 <= i < columns@.len() ==> (#[trigger] columns@[i]).wf(),
        first + n <= u32::MAX,
    ensures
        final(streams)@.len() == columns@.len(),
        r.num_rows == n,
        r.columns@.len() == columns@.len(),
        forall|i: int|
            0 <= i < columns@.len() ==> {
                let g = column_cells(columns@[i], first as nat, n as nat, old(streams)@[i].state);
                &&& (#[trigger] r.columns@[i]).name@ == columns@[i].name@
                &&& cells_of(r.columns@[i].values@) == g.0
            },
        forall|i: int|
            0 <= i < columns@.len() ==> (#[trigger] final(streams)@[i]).state == column_cells(
                columns@[i],
                first as nat,
                n as nat,
                old(streams)@[i].state,
            ).1,
{
    let ghost start = streams@;
    let mut out: Vec<BatchColumn> = Vec::new();
    let mut i: usize = 0;
    while i < columns.len()
        invariant
            i <= columns@.len(),
            start.len() == columns@.len(),
            streams@.len() == columns@.len(),
            out@.len() == i,
            forall|j: int| 0 <= j < columns@.len() ==> (#[trigger] columns@[j]).wf(),
            first + n <= u32::MAX,
            forall|j: int| i <= j < columns@.len() ==> (#[trigger] streams@[j]) == start[j],
            forall|j: int|
                0 <= j < i ==> {
                    let g = column_cells(columns@[j], first as nat, n as nat, start[j].state);
                    &&& (#[trigger] out@[j]).name@ == columns@[j].name@
                    &&& cells_of(out@[j].values@) == g.0
                },
            forall|j: int|
                0 <= j < i ==> (#[trigger] streams@[j]).state == column_cells(
                    columns@[j],
                    first as nat,
                    n as nat,
                    start[j].state,
                ).1,
        decreases columns@.len() - i,
    {
        let mut s = streams[i];
        let values = generate_column(&columns[i], first, n, &mut s);
        streams.set(i, s);
        out.push(BatchColumn { name: columns[i].name.clone(), values });
        i += 1;
    }
    Batch { columns: out, num_rows: n }
}

/// The slice of a column's values that chunk `k` generates, from the state in
/// which the earlier chunks left its stream, is that chunk's slice of the
/// whole column; and the stream ends where the first `k + 1` chunks leave it.
proof fn lemma_chunk_slice(c: ColumnSpec, rows: nat, size: nat, k: nat, seed: u64)
    ensures
        ({
            let at = column_cells(c, 0, rows_before(rows, size, k), seed);
            let g = column_cells(c, rows_before(rows, size, k), chunk_len(rows, size, k), at.1);
            &&& g.0 == table_column(c, rows, seed).subrange(
                rows_before(rows, size, k) as int,
                rows_before(rows, size, k + 1) as int,
            )
            &&& g.1 == column_cells(c, 0, rows_before(rows, size, k + 1), seed).1
        }),
{
    let a = rows_before(rows, size, k);
    let b = chunk_len(rows, size, k);
    let e = rows_before(rows, size, k + 1);
    lemma_chunk_extent(rows, size, k);
    lemma_column_cells_split(c, 0, a, b, seed);
    let at = column_cells(c, 0, a, seed);
    let g = column_cells(c, a, b, at.1);
    let upto = column_cells(c, 0, e, seed);
    lemma_column_cells_split(c, 0, e, (rows - e) as nat, seed);
    lemma_column_cells_len(c, 0, a, seed);
    lemma_column_cells_len(c, a, b, at.1);
    lemma_column_cells_len(c, 0, e, seed);
    assert(a + b == e);
    assert(0 + a == a);
    assert(e + (rows - e) == rows);
    let whole = column_cells(c, 0, rows, seed).0;
    assert(whole.subrange(a as int, e as int) =~= g.0);
}

/// What a generation does next.
#[derive(Debug)]
pub enum Step {
    /// Hand this batch to the sink.
    Write(Batch),
    /// Finalise the sink: every batch has been written.
    Flush,
    /// Nothing is left to do.
    Done,
}

/// A generation in progress: `Idle` before the first step, then one `Write`
/// per chunk in order, one `Flush`, and `Done` from then on.
pub struct Generation {
    columns: Vec<ColumnSpec>,
    seeds: Ghost<Seq<u64>>,
    streams: Vec<RandomStream>,
    rows: u32,
    chunk_size: u32,
    next_chunk: u32,
    flushed: bool,
}

impl Generation {
    /// The declared columns.
    pub closed spec fn columns(&self) -> Seq<ColumnSpec> {
        self.columns@
    }

    /// The seed of each column's stream.
    pub closed spec fn seeds(&self) -> Seq<u64> {
        self.seeds@
    }

    /// The number of rows to generate.
    pub closed spec fn rows(&self) -> nat {
        self.rows as nat
    }

    /// The number of rows of a full chunk.
    pub closed spec fn chunk_size(&self) -> nat {
        self.chunk_size as nat
    }

    /// The number of chunks already handed out.
    pub closed spec fn chunks_written(&self) -> nat {
        self.next_chunk as nat
    }

    /// Whether the flush has been handed out.
    pub closed spec fn flushed(&self) -> bool {
        self.flushed
    }

    /// The state of a generation between steps.
    pub closed spec fn wf(&self) -> bool {
        &&& self.chunk_size > 0
        &&& self.columns@.len() > 0
        &&& self.streams@.len() == self.columns@.len()
        &&& self.seeds@.len() == self.columns@.len()
        &&& self.next_chunk <= chunk_count(self.rows as nat, self.chunk_size as nat)
        &&& self.flushed ==> self.next_chunk == chunk_count(self.rows as nat, self.chunk_size as nat)
        &&& forall|i: int| 0 <= i < self.columns@.len() ==> (#[trigger] self.columns@[i]).wf()
        &&& forall|i: int|
            0 <= i < self.columns@.len() ==> (#[trigger] self.streams@[i]).state == column_cells(
                self.columns@[i],
                0,
                rows_before(self.rows as nat, self.chunk_size as nat, self.next_chunk as nat),
                self.seeds@[i],
            ).1
    }

    /// A generation of `rows` rows in chunks of `DEFAULT_CHUNK_SIZE`.
    pub fn new(columns: Vec<ColumnSpec>, rows: u32, seed: u64) -> (r: Result<Generation, ConfigError>)
        ensures
            columns@.len() == 0 ==> r == Err::<Generation, ConfigError>(ConfigError::NoColumns),
            r is Ok <==> (columns@.len() > 0 && forall|i: int| 0 <= i < columns@.len() ==> (#[trigger] columns@[i]).wf()),
            r is Err && columns@.len() > 0 ==> exists|i: int|
                0 <= i < columns@.len() && !(#[trigger] columns@[i]).wf() && r->Err_0 == column_error(columns@[i])
                && forall|j: int| 0 <= j < i ==> (#[trigger] columns@[j]).wf(),
            r matches Ok(g) ==> {
                &&& g.wf()
                &&& g.columns() == columns@
                &&& g.seeds() == stream_seeds(seed, columns@.len() as nat).0
                &&& g.rows() == rows
                &&& g.chunk_size() == DEFAULT_CHUNK_SIZE
                &&& g.chunks_written() == 0
                &&& !g.flushed()
            },
    {
        Generation::with_chunk_size(columns, rows, seed, DEFAULT_CHUNK_SIZE)
    }

    /// A generation of `rows` rows in chunks of `chunk_size`.
    pub fn with_chunk_size(columns: Vec<ColumnSpec>, rows: u32, seed: u64, chunk_size: u32) -> (r: Result<Generation, ConfigError>)
        requires
            chunk_size > 0,
        ensures
            columns@.len() == 0 ==> r == Err::<Generation, ConfigError>(ConfigError::NoColumns),
            r is Ok <==> (columns@.len() > 0 && forall|i: int| 0 <= i < columns@.len() ==> (#[trigger] columns@[i]).wf()),
            r is Err && columns@.len() > 0 ==> exists|i: int|
                0 <= i < columns@.len() && !(#[trigger] columns@[i]).wf() && r->Err_0 == column_error(columns@[i])
                && forall|j: int| 0 <= j < i ==> (#[trigger] columns@[j]).wf(),
            r matches Ok(g) ==> {
                &&& g.wf()
                &&& g.columns() == columns@
                &&& g.seeds() == stream_seeds(seed, columns@.len() as nat).0
                &&& g.rows() == rows
                &&& g.chunk_size() == chunk_size
                &&& g.chunks_written() == 0
                &&& !g.flushed()
            },
    {
        if columns.len() == 0 {
            return Err(ConfigError::NoColumns);
        }
        let mut i: usize = 0;
        while i < columns.len()
            invariant
                i <= columns@.len(),
                forall|j: int| 0 <= j < i ==> (#[trigger] columns@[j]).wf(),
            decreases columns@.len() - i,
        {
            match columns[i].validate() {
                Ok(()) => {},
                Err(e) => {
                    assert(!columns@[i as int].wf() && e == column_error(columns@[i as int]));
                    return Err(e);
                },
            }
            i += 1;
        }
        let streams = open_streams(seed, columns.len());
        proof {
            lemma_stream_seeds_len(seed, columns@.len() as nat);
            assert(rows_before(rows as nat, chunk_size as nat, 0) == 0) by (nonlinear_arith);
        }
        Ok(Generation {
            columns,
            seeds: Ghost(stream_seeds(seed, columns@.len() as nat).0),
            streams,
            rows,
            chunk_size,
            next_chunk: 0,
            flushed: false,
        })
    }

    /// What every generation between steps satisfies.
    pub proof fn lemma_wf(&self)
        requires
            self.wf(),
        ensures
            self.chunk_size() > 0,
            self.chunks_written() <= chunk_count(self.rows(), self.chunk_size()),
            self.flushed() ==> self.chunks_written() == chunk_count(self.rows(), self.chunk_size()),
    {
    }

    /// The next step: chunk after chunk, then the flush, then nothing.
    pub fn next_step(&mut self) -> (r: Step)
        requires
            old(self).wf(),
        ensures
            final(self).wf(),
            final(self).chunks_written() <= chunk_count(final(self).rows(), final(self).chunk_size()),
            final(self).columns() == old(self).columns(),
            final(self).seeds() == old(self).seeds(),
            final(self).rows() == old(self).rows(),
            final(self).chunk_size() == old(self).chunk_size(),
            old(self).chunks_written() < chunk_count(old(self).rows(), old(self).chunk_size()) ==> {
                &&& r matches Step::Write(b) && is_chunk_of(
                    b@,
                    old(self).columns(),
                    old(self).seeds(),
                    old(self).rows(),
                    old(self).chunk_size(),
                    old(self).chunks_written(),
                )
                &&& final(self).chunks_written() == old(self).chunks_written() + 1
                &&& !final(self).flushed()
            },
            old(self).chunks_written() == chunk_count(old(self).rows(), old(self).chunk_size()) && !old(self).flushed() ==> {
                &&& r is Flush
                &&& final(self).chunks_written() == old(self).chunks_written()
                &&& final(self).flushed()
            },
            old(self).flushed() ==> r is Done && final(self).chunks_written() == old(self).chunks_written() && final(self).flushed(),
    {
        let count = number_of_chunks(self.rows, self.chunk_size);
        if self.next_chunk < count {
            let k = self.next_chunk;
            let n = rows_in_chunk(self.rows, self.chunk_size, k);
            proof {
                lemma_chunks_cover_rows(self.rows as nat, self.chunk_size as nat);
                assert(rows_before(self.rows as nat, self.chunk_size as nat, k as nat) == k * self.chunk_size);
            }
            let first = k * self.chunk_size;
            let ghost before = self.streams@;
            let batch = generate_chunk(&self.columns, &mut self.streams, first, n);
            self.next_chunk = k + 1;
            proof {
                assert forall|i: int| 0 <= i < self.columns@.len() implies {
                    &&& (#[trigger] batch.columns@[i]).name@ == self.columns@[i].name@
                    &&& cells_of(batch.columns@[i].values@) == table_column(self.columns@[i], self.rows as nat, self.seeds@[i]).subrange(
                        rows_before(self.rows as nat, self.chunk_size as nat, k as nat) as int,
                        rows_before(self.rows as nat, self.chunk_size as nat, (k + 1) as nat) as int,
                    )
                } by {
                    lemma_chunk_slice(self.columns@[i], self.rows as nat, self.chunk_size as nat, k as nat, self.seeds@[i]);
                }
                assert forall|i: int| 0 <= i < self.columns@.len() implies (#[trigger] self.streams@[i]).state == column_cells(
                        self.columns@[i],
                        0,
                        rows_before(self.rows as nat, self.chunk_size as nat, (k + 1) as nat),
                        self.seeds@[i],
                    ).1 by {
                    assert(before[i].state == column_cells(
                        self.columns@[i],
                        0,
                        rows_before(self.rows as nat, self.chunk_size as nat, k as nat),
                        self.seeds@[i],
                    ).1);
                    lemma_chunk_slice(self.columns@[i], self.rows as nat, self.chunk_size as nat, k as nat, self.seeds@[i]);
                }
            }
            Step::Write(batch)
        } else if !self.flushed {
            self.flushed = true;
            Step::Flush
        } else {
            Step::Done
        }
    }
}

/// Two batches that are chunk `k` of generations with the same columns, rows,
/// chunk size and seed are the same batch: the same column names in the same
/// order, and the same values row by row.
pub proof fn lemma_same_seed_same_batches(
    b1: BatchView,
    b2: BatchView,
    columns: Seq<ColumnSpec>,
    rows: nat,
    size: nat,
    seed: u64,
    k: nat,
)
    requires
        is_chunk_of(b1, columns, stream_seeds(seed, columns.len()).0, rows, size, k),
        is_chunk_of(b2, columns, stream_seeds(seed, columns.len()).0, rows, size, k),
    ensures
        b1 == b2,
{
    assert forall|i: int| 0 <= i < columns.len() implies #[trigger] b1.columns[i] == b2.columns[i] by {
        assert(b1.columns[i].name == columns[i].name@);
        assert(b2.columns[i].name == columns[i].name@);
    }
    assert(b1.columns =~= b2.columns);
}

} // verus!
