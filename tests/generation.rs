use fakelake::column::{generate_column, ColumnSpec, PRESENCE_SCALE};
use fakelake::error::ConfigError;
use fakelake::generator::{generate_chunk, open_streams, Batch, Generation, Step};
use fakelake::output::{MemorySink, OutputFormat, OutputType, SinkRecord};
use fakelake::plan::{number_of_chunks, rows_in_chunk, DEFAULT_CHUNK_SIZE};
use fakelake::provider::Provider;
use fakelake::stream::RandomStream;
use fakelake::value::Value;

fn column(name: &str, provider: Provider, presence: u64) -> ColumnSpec {
    ColumnSpec::new(name.to_string(), provider, presence).unwrap()
}

fn id_column() -> ColumnSpec {
    column("id", Provider::Increment { start: 0, step: 1 }, PRESENCE_SCALE)
}

fn mixed_columns() -> Vec<ColumnSpec> {
    vec![
        id_column(),
        column("flag", Provider::Bool, PRESENCE_SCALE / 2),
        column("text", Provider::Alphanumeric { min_length: 1, max_length: 8 }, PRESENCE_SCALE),
        column("day", Provider::Date { after: 0, before: 10000 }, PRESENCE_SCALE),
    ]
}

fn run(mut g: Generation) -> Vec<Batch> {
    let mut out = Vec::new();
    let mut flushes = 0;
    loop {
        match g.next_step() {
            Step::Write(b) => {
                assert_eq!(flushes, 0);
                out.push(b)
            }
            Step::Flush => flushes += 1,
            Step::Done => break,
        }
    }
    assert_eq!(flushes, 1);
    out
}

fn written(sink: &MemorySink) -> Vec<&Batch> {
    sink.records
        .iter()
        .filter_map(|r| match r {
            SinkRecord::Write(b) => Some(b),
            SinkRecord::Flush => None,
        })
        .collect()
}

fn flushes(sink: &MemorySink) -> usize {
    sink.records.iter().filter(|r| matches!(r, SinkRecord::Flush)).count()
}

#[test]
fn given_config_without_columns_should_error() {
    let mut sink = MemorySink::new();
    match sink.generate_from_config(Vec::new(), 10, 1) {
        Err(ConfigError::NoColumns) => (),
        _ => panic!("Should fail"),
    }
    assert!(sink.records.is_empty());
    }

#[test]
fn given_config_should_write_file() {
    let mut sink = MemorySink::new();
    assert!(sink.generate_from_config(vec![id_column()], 1000, 1).is_ok());
    assert_eq!(flushes(&sink), 1);
    let total: u32 = written(&sink).iter().map(|b| b.num_rows).sum();
    assert_eq!(total, 1000);
}

#[test]
fn given_no_column_should_not_generate_file() {
    let mut sink = MemorySink::new();
    assert!(sink.generate_from_config(Vec::new(), 1000, 0).is_err());
    assert!(sink.records.is_empty());
    }

#[test]
fn zero_rows_still_flush_once() {
    let mut sink = MemorySink::new();
    assert!(sink.generate_from_config(vec![id_column()], 0, 0).is_ok());
    assert!(written(&sink).is_empty());
    assert_eq!(sink.records.len(), 1);
    assert_eq!(flushes(&sink), 1);
}

#[test]
fn empty_schema_is_rejected_before_generation() {
    assert_eq!(Generation::new(Vec::new(), 5, 0).err(), Some(ConfigError::NoColumns));
}

#[test]
fn invalid_column_is_reported() {
    let bad = ColumnSpec {
        name: "x".to_string(),
        provider: Provider::I32 { min: 3, max: 3 },
        presence: PRESENCE_SCALE,
    };
    assert_eq!(Generation::new(vec![id_column(), bad], 5, 0).err(), Some(ConfigError::EmptyRange));
}

#[test]
fn row_count_across_chunk_boundaries() {
    let size: u32 = 16;
    for rows in [0u32, 1, size - 1, size, size + 1, 2 * size + 7] {
        let g = Generation::with_chunk_size(vec![id_column()], rows, 3, size).unwrap();
        let batches = run(g);
        let total: u32 = batches.iter().map(|b| b.num_rows).sum();
        assert_eq!(total, rows);
        for b in &batches {
            assert!(b.num_rows >= 1 && b.num_rows <= size);
            assert_eq!(b.columns[0].values.len() as u32, b.num_rows);
        }
        assert_eq!(batches.len() as u32, number_of_chunks(rows, size));
    }
}

#[test]
fn row_count_with_default_chunk_size() {
    let c = DEFAULT_CHUNK_SIZE;
    for rows in [c - 1, c, c + 1, 2 * c + 7] {
        let batches = run(Generation::new(vec![id_column()], rows, 3).unwrap());
        let total: u32 = batches.iter().map(|b| b.num_rows).sum();
        assert_eq!(total, rows);
    }
}

#[test]
fn chunk_sizes() {
    assert_eq!(number_of_chunks(0, 10), 0);
    assert_eq!(number_of_chunks(1, 10), 1);
    assert_eq!(number_of_chunks(10, 10), 1);
    assert_eq!(number_of_chunks(11, 10), 2);
    assert_eq!(rows_in_chunk(27, 10, 0), 10);
    assert_eq!(rows_in_chunk(27, 10, 2), 7);
    assert_eq!(rows_in_chunk(20, 10, 1), 10);
    assert_eq!(number_of_chunks(u32::MAX, 1), u32::MAX);
    assert_eq!(number_of_chunks(u32::MAX, 2), 1 << 31);
}

#[test]
fn increment_continues_across_chunks() {
    let g = Generation::with_chunk_size(vec![id_column()], 10, 9, 3).unwrap();
    let values: Vec<Value> = run(g).into_iter().flat_map(|b| b.columns[0].values.clone()).collect();
    let expected: Vec<Value> = (0..10).map(Value::Int64).collect();
    assert_eq!(values, expected);
}

#[test]
fn increment_ignores_seed() {
    let a = run(Generation::with_chunk_size(vec![id_column()], 20, 1, 7).unwrap());
    let b = run(Generation::with_chunk_size(vec![id_column()], 20, 2, 5).unwrap());
    let va: Vec<Value> = a.into_iter().flat_map(|b| b.columns[0].values.clone()).collect();
    let vb: Vec<Value> = b.into_iter().flat_map(|b| b.columns[0].values.clone()).collect();
    assert_eq!(va, vb);
}

#[test]
fn column_order_follows_declaration() {
    let batches = run(Generation::with_chunk_size(mixed_columns(), 9, 4, 4).unwrap());
    for b in &batches {
        let names: Vec<&str> = b.columns.iter().map(|c| c.name.as_str()).collect();
        assert_eq!(names, vec!["id", "flag", "text", "day"]);
    }
}

#[test]
fn same_seed_same_output() {
    let a = run(Generation::with_chunk_size(mixed_columns(), 50, 1234, 16).unwrap());
    let b = run(Generation::with_chunk_size(mixed_columns(), 50, 1234, 16).unwrap());
    for (x, y) in a.iter().zip(b.iter()) {
        for (cx, cy) in x.columns.iter().zip(y.columns.iter()) {
            assert_eq!(cx.values, cy.values);
        }
    }
    let c = run(Generation::with_chunk_size(mixed_columns(), 50, 4321, 16).unwrap());
    assert_ne!(a[0].columns[2].values, c[0].columns[2].values);
}

#[test]
fn chunk_size_does_not_change_values() {
    let a = run(Generation::with_chunk_size(mixed_columns(), 40, 8, 3).unwrap());
    let b = run(Generation::with_chunk_size(mixed_columns(), 40, 8, 40).unwrap());
    for i in 0..4 {
        let va: Vec<Value> = a.iter().flat_map(|x| x.columns[i].values.clone()).collect();
        let vb: Vec<Value> = b.iter().flat_map(|x| x.columns[i].values.clone()).collect();
        assert_eq!(va, vb);
    }
}

#[test]
fn presence_decision() {
    let never = column("n", Provider::Bool, 0);
    let always = column("a", Provider::Bool, PRESENCE_SCALE);
    let half = column("h", Provider::Bool, PRESENCE_SCALE / 2);
    assert!(!never.is_present(0));
    assert!(always.is_present(u32::MAX));
    assert!(half.is_present((1 << 31) - 1));
    assert!(!half.is_present(1 << 31));
}

#[test]
fn presence_bounds() {
    let never = column("n", Provider::Bool, 0);
    let always = column("a", Provider::Bool, PRESENCE_SCALE);
    let half = column("h", Provider::Bool, PRESENCE_SCALE / 2);
    let mut s = RandomStream::with_seed(11);
    assert!(generate_column(&never, 0, 10_000, &mut s).iter().all(|v| v.is_null()));
    assert!(generate_column(&always, 0, 10_000, &mut s).iter().all(|v| !v.is_null()));
    let nulls = generate_column(&half, 0, 10_000, &mut s).iter().filter(|v| v.is_null()).count();
    assert!(nulls > 4_500 && nulls < 5_500, "nulls: {}", nulls);
}

#[test]
fn chunk_generation_matches_whole_columns() {
    let cols = mixed_columns();
    let mut streams = open_streams(77, cols.len());
    let first = generate_chunk(&cols, &mut streams, 0, 5);
    let second = generate_chunk(&cols, &mut streams, 5, 5);
    let mut fresh = open_streams(77, cols.len());
    let whole = generate_chunk(&cols, &mut fresh, 0, 10);
    for i in 0..cols.len() {
        let mut joined = first.columns[i].values.clone();
        joined.extend(second.columns[i].values.clone());
        assert_eq!(joined, whole.columns[i].values);
    }
    assert_eq!(streams, fresh);
}

#[test]
fn given_get_extension() {
    assert_eq!(OutputType::Csv(b',').extension(), ".csv");
    assert_eq!(OutputType::Json(true).extension(), ".json");
    assert_eq!(OutputType::Parquet.extension(), ".parquet");
}

#[test]
fn error_messages_name_the_condition() {
    assert_eq!(ConfigError::NoColumns.message(), "No columns to generate");
    assert_eq!(ConfigError::EmptyRange.message(), "Range is empty: min must be below max");
    assert_eq!(ConfigError::LengthBoundsOutOfOrder.message(), "min_length is above max_length");
    assert_eq!(ConfigError::PresenceOutOfRange.message(), "presence must lie between 0 and 1");
}

#[test]
fn sink_gets_every_chunk_then_one_flush() {
    let c = DEFAULT_CHUNK_SIZE;
    let mut sink = MemorySink::new();
    assert!(sink.generate_from_config(vec![id_column()], 2 * c + 7, 5).is_ok());
    assert_eq!(sink.records.len(), 4);
    assert!(matches!(sink.records[3], SinkRecord::Flush));
    let sizes: Vec<u32> = written(&sink).iter().map(|b| b.num_rows).collect();
    assert_eq!(sizes, vec![c, c, 7]);
    let ids: Vec<Value> = written(&sink).iter().flat_map(|b| b.columns[0].values.clone()).collect();
    let expected: Vec<Value> = (0..(2 * c as i64 + 7)).map(Value::Int64).collect();
    assert_eq!(ids, expected);
}

#[test]
fn sink_presence_extremes() {
    let cols = vec![
        column("never", Provider::I32 { min: 0, max: 9 }, 0),
        column("always", Provider::I32 { min: 0, max: 9 }, PRESENCE_SCALE),
    ];
    let mut sink = MemorySink::new();
    assert!(sink.generate_from_config(cols, 300, 8).is_ok());
    for b in written(&sink) {
        assert!(b.columns[0].values.iter().all(|v| v.is_null()));
        assert!(b.columns[1].values.iter().all(|v| !v.is_null()));
    }
}

#[test]
fn sink_runs_with_same_seed_are_equal() {
    let mut a = MemorySink::new();
    let mut b = MemorySink::new();
    assert!(a.generate_from_config(mixed_columns(), 100, 31).is_ok());
    assert!(b.generate_from_config(mixed_columns(), 100, 31).is_ok());
    let wa = written(&a);
    let wb = written(&b);
    assert_eq!(wa.len(), wb.len());
    for (x, y) in wa.iter().zip(wb.iter()) {
        assert_eq!(x.num_rows, y.num_rows);
        for (cx, cy) in x.columns.iter().zip(y.columns.iter()) {
            assert_eq!(cx.name, cy.name);
            assert_eq!(cx.values, cy.values);
        }
    }
}

#[test]
fn batch_copy_keeps_everything() {
    let g = Generation::with_chunk_size(mixed_columns(), 6, 2, 6).unwrap();
    let b = run(g).remove(0);
    let c = b.copy();
    assert_eq!(c.num_rows, b.num_rows);
    for (x, y) in b.columns.iter().zip(c.columns.iter()) {
        assert_eq!(x.name, y.name);
        assert_eq!(x.values, y.values);
    }
}
