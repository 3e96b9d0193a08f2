//! Output formats and the sink that a generation drives.
use vstd::prelude::*;
use crate::column::ColumnSpec;
use crate::error::ConfigError;
use crate::generator::{is_chunk_of, stream_seeds, Batch, BatchView, Generation, Step};
use crate::plan::{chunk_count, DEFAULT_CHUNK_SIZE};

verus! {

/// The formats a table can be written in.
#[derive(Clone, Copy, Debug, PartialEq, Eq, Structural)]
pub enum OutputType {
    /// Delimited text with a header line, fields separated by the given byte.
    Csv(u8),
    /// One JSON object per row: one per line, or all in one array when the flag is set.
    Json(bool),
    /// Columnar binary.
    Parquet,
}

impl OutputType {
    /// The suffix of the output file's name.
    pub fn extension(&self) -> (r: &'static str)
        ensures
            *self is Csv ==> r@ == ".csv"@,
            *self is Json ==> r@ == ".json"@,
            *self is Parquet ==> r@ == ".parquet"@,
    {
        match self {
            OutputType::Csv(_) => ".csv",
            OutputType::Json(_) => ".json",
            OutputType::Parquet => ".parquet",
        }
    }
}

/// What a sink has been handed, in order.
pub enum SinkEvent {
    /// A batch was appended.
    Write(BatchView),
    /// The output was finalised.
    Flush,
}

/// The events that generating `rows` rows of `columns` from `seed` in chunks of
/// `size` hands to a sink: every chunk in order, then one flush.
pub open spec fn generation_events(columns: Seq<ColumnSpec>, rows: nat, seed: u64, size: nat, events: Seq<SinkEvent>) -> bool {
    let n = chunk_count(rows, size);
    &&& events.len() == n + 1
    &&& events[n as int] is Flush
    &&& forall|k: int| 0 <= k < n ==> match #[trigger] events[k] {
        SinkEvent::Write(b) => is_chunk_of(b, columns, stream_seeds(seed, columns.len()).0, rows, size, k as nat),
        SinkEvent::Flush => false,
    }
}

/// A destination for generated batches. `events` is what it has been handed so
/// far; the contracts of `write` and `flush` say how each call extends it.
pub trait OutputFormat {
    /// The writes and flushes handed to this sink, in order. A sink whose
    /// impl stands outside verified code keeps this default, which tracks
    /// nothing; what is proved of such a sink rests on its impl doing what
    /// `write` and `flush` promise.
    closed spec fn events(&self) -> Seq<SinkEvent> {
        Seq::empty()
    }

    /// Finalises the output; called once, after the last batch.
    fn flush(&mut self)
        ensures
            final(self).events() == old(self).events().push(SinkEvent::Flush),
    ;

    /// The suffix of the output file's name.
    fn get_extension(&self) -> &str;

    /// Appends a batch.
    fn write(&mut self, batch: &Batch)
        ensures
            final(self).events() == old(self).events().push(SinkEvent::Write(batch@)),
    ;

    /// Generates `rows` rows of `columns` from `seed` and hands them to the
    /// sink: every chunk in order, then one flush. A schema that cannot be
    /// generated is reported before anything reaches the sink.
    fn generate_from_config(&mut self, columns: Vec<ColumnSpec>, rows: u32, seed: u64) -> (r: Result<(), ConfigError>)
        ensures
            columns@.len() == 0 ==> r == Err::<(), ConfigError>(ConfigError::NoColumns),
            r is Ok <==> (columns@.len() > 0 && forall|i: int| 0 <= i < columns@.len() ==> (#[trigger] columns@[i]).wf()),
            r is Err ==> final(self).events() == old(self).events(),
            r is Ok ==> {
                let old_len = old(self).events().len();
                &&& final(self).events().subrange(0, old_len as int) == old(self).events()
                &&& generation_events(
                    columns@,
                    rows as nat,
                    seed,
                    DEFAULT_CHUNK_SIZE as nat,
                    final(self).events().subrange(old_len as int, final(self).events().len() as int),
                )
            },
    {
        let ghost cols = columns@;
        let ghost e0 = self.events();
        let mut generation = match Generation::new(columns, rows, seed) {
            Ok(g) => g,
            Err(e) => return Err(e),
        };
        proof {
            generation.lemma_wf();
        }
        let ghost n = chunk_count(rows as nat, DEFAULT_CHUNK_SIZE as nat);
        let ghost seeds = stream_seeds(seed, cols.len()).0;
        let mut done = false;
        while !done
            invariant
                generation.wf(),
                generation.chunk_size() == DEFAULT_CHUNK_SIZE,
                generation.rows() == rows,
                generation.columns() == cols,
                generation.seeds() == seeds,
                n == chunk_count(generation.rows(), generation.chunk_size()),
                generation.chunk_size() > 0,
                generation.chunks_written() <= n,
                done ==> generation.flushed(),
                generation.flushed() ==> generation.chunks_written() == n,
                self.events().len() == e0.len() + generation.chunks_written() + if generation.flushed() { 1int } else { 0int },
                self.events().subrange(0, e0.len() as int) == e0,
                forall|k: int| 0 <= k < generation.chunks_written() ==> match #[trigger] self.events()[e0.len() + k] {
                    SinkEvent::Write(b) => is_chunk_of(b, cols, seeds, rows as nat, DEFAULT_CHUNK_SIZE as nat, k as nat),
                    SinkEvent::Flush => false,
                },
                generation.flushed() ==> self.events()[(e0.len() + n) as int] is Flush,
            decreases
                2 * (n - generation.chunks_written()) + (if generation.flushed() { 0int } else { 1int })
                    + (if done { 0int } else { 1int }),
        {
            let ghost before = self.events();
            let ghost k = generation.chunks_written();
            match generation.next_step() {
                Step::Write(batch) => {
                    self.write(&batch);
                    proof {
                        assert forall|j: int| 0 <= j < generation.chunks_written() implies match #[trigger] self.events()[e0.len() + j] {
                            SinkEvent::Write(b) => is_chunk_of(b, cols, seeds, rows as nat, DEFAULT_CHUNK_SIZE as nat, j as nat),
                            SinkEvent::Flush => false,
                        } by {
                            if j < k {
                                assert(self.events()[e0.len() + j] == before[e0.len() + j]);
                            }
                        }
                        assert(self.events().subrange(0, e0.len() as int) =~= before.subrange(0, e0.len() as int));
                    }
                },
                Step::Flush => {
                    self.flush();
                    proof {
                        assert forall|j: int| 0 <= j < generation.chunks_written() implies match #[trigger] self.events()[e0.len() + j] {
                            SinkEvent::Write(b) => is_chunk_of(b, cols, seeds, rows as nat, DEFAULT_CHUNK_SIZE as nat, j as nat),
                            SinkEvent::Flush => false,
                        } by {
                            assert(self.events()[e0.len() + j] == before[e0.len() + j]);
                        }
                        assert(self.events().subrange(0, e0.len() as int) =~= before.subrange(0, e0.len() as int));
                    }
                },
                Step::Done => {
                    done = true;
                },
            }
        }
        proof {
            let tail = self.events().subrange(e0.len() as int, self.events().len() as int);
            assert forall|k: int| 0 <= k < n implies match #[trigger] tail[k] {
                SinkEvent::Write(b) => is_chunk_of(b, cols, seeds, rows as nat, DEFAULT_CHUNK_SIZE as nat, k as nat),
                SinkEvent::Flush => false,
            } by {
                assert(tail[k] == self.events()[e0.len() + k]);
            }
            assert(tail[n as int] == self.events()[(e0.len() + n) as int]);
        }
        Ok(())
    }
}

/// One thing handed to a `MemorySink`.
#[derive(Debug)]
pub enum SinkRecord {
    Write(Batch),
    Flush,
}

impl View for SinkRecord {
    type V = SinkEvent;

    open spec fn view(&self) -> SinkEvent {
        match self {
            SinkRecord::Write(b) => SinkEvent::Write(b@),
            SinkRecord::Flush => SinkEvent::Flush,
        }
    }
}

/// A sink that keeps, in memory and in order, what it is handed.
#[derive(Debug)]
pub struct MemorySink {
    pub records: Vec<SinkRecord>,
}

impl MemorySink {
    /// A sink that has been handed nothing.
    pub fn new() -> (r: MemorySink)
        ensures
            r.events() == Seq::<SinkEvent>::empty(),
    {
        let r = MemorySink { records: Vec::new() };
        assert(r.events() =~= Seq::<SinkEvent>::empty());
        r
    }
}

impl OutputFormat for MemorySink {
    open spec fn events(&self) -> Seq<SinkEvent> {
        self.records@.map_values(|r: SinkRecord| r@)
    }

    fn flush(&mut self) {
        self.records.push(SinkRecord::Flush);
        assert(self.events() =~= old(self).events().push(SinkEvent::Flush));
    }

    fn get_extension(&self) -> &str {
        ""
    }

    fn write(&mut self, batch: &Batch) {
        self.records.push(SinkRecord::Write(batch.copy()));
        assert(self.events() =~= old(self).events().push(SinkEvent::Write(batch@)));
    }
}

} // verus!
