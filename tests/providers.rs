use fakelake::column::{ColumnSpec, PRESENCE_SCALE};
use fakelake::error::ConfigError;
use fakelake::provider::{AlphanumericProvider, Provider};
use fakelake::stream::RandomStream;
use fakelake::value::{Value, ValueKind};

#[test]
fn given_nothing_should_return_parquet_type() {
    let provider: AlphanumericProvider = AlphanumericProvider;
    match provider.value(0) {
        Value::String(_) => (),
        _ => panic!(),
    };
}

#[test]
fn given_index_x_should_return_random_string_of_length_10() {
    let provider = AlphanumericProvider;

    let values_to_check = [0, 4, 50];
    for value in values_to_check {
        match provider.value(value) {
            Value::String(value) => assert_eq!(value.len(), 10),
            _ => panic!("Wrong type"),
        }
    }
}

#[test]
fn increment_is_start_plus_row_times_step() {
    let p = Provider::Increment { start: 3, step: -2 };
    let mut s1 = RandomStream::with_seed(1);
    let mut s2 = RandomStream::with_seed(2);
    assert_eq!(p.value(0, &mut s1), Value::Int64(3));
    assert_eq!(p.value(10, &mut s2), Value::Int64(-17));
    assert_eq!(s1.state, 1);
    assert_eq!(s2.state, 2);
}

#[test]
fn increment_extremes_do_not_overflow() {
    let p = Provider::Increment { start: i32::MIN, step: i32::MIN };
    let mut s = RandomStream::with_seed(0);
    assert_eq!(
        p.value(u32::MAX, &mut s),
        Value::Int64(i32::MIN as i64 + (u32::MAX as i64) * (i32::MIN as i64))
    );
}

#[test]
fn random_providers_stay_in_range() {
    let mut s = RandomStream::with_seed(5);
    for row in 0..500 {
        match (Provider::I32 { min: -3, max: 4 }).value(row, &mut s) {
            Value::Int32(v) => assert!((-3..4).contains(&v)),
            _ => panic!(),
        }
        match (Provider::I64 { min: 10, max: 11 }).value(row, &mut s) {
            Value::Int64(v) => assert_eq!(v, 10),
            _ => panic!(),
        }
        match (Provider::Alphanumeric { min_length: 2, max_length: 5 }).value(row, &mut s) {
            Value::String(t) => {
                assert!((2..=5).contains(&t.len()));
                assert!(t.chars().all(|c| c.is_ascii_alphanumeric()));
            }
            _ => panic!(),
        }
        match (Provider::Date { after: 0, before: 10000 }).value(row, &mut s) {
            Value::Date(v) => assert!((0..10000).contains(&v)),
            _ => panic!(),
        }
        match (Provider::Datetime { after: 10_000_000, before: 12_000_000 }).value(row, &mut s) {
            Value::Datetime(v) => assert!((10_000_000..12_000_000).contains(&v)),
            _ => panic!(),
        }
        assert!(matches!(Provider::Bool.value(row, &mut s), Value::Bool(_)));
    }
}

#[test]
fn same_state_same_value() {
    let p = Provider::Alphanumeric { min_length: 1, max_length: 20 };
    let mut a = RandomStream::with_seed(77);
    let mut b = RandomStream::with_seed(77);
    for row in 0..20 {
        assert_eq!(p.value(row, &mut a), p.value(row, &mut b));
        assert_eq!(a, b);
    }
}

#[test]
fn provider_validation_errors() {
    assert_eq!((Provider::I32 { min: 5, max: 5 }).validate(), Err(ConfigError::EmptyRange));
    assert_eq!((Provider::I64 { min: 6, max: 5 }).validate(), Err(ConfigError::EmptyRange));
    assert_eq!((Provider::Date { after: 1, before: 0 }).validate(), Err(ConfigError::EmptyRange));
    assert_eq!((Provider::Datetime { after: 1, before: 1 }).validate(), Err(ConfigError::EmptyRange));
    assert_eq!(
        (Provider::Alphanumeric { min_length: 3, max_length: 2 }).validate(),
        Err(ConfigError::LengthBoundsOutOfOrder)
    );
    assert_eq!((Provider::Alphanumeric { min_length: 2, max_length: 2 }).validate(), Ok(()));
    assert_eq!(Provider::Bool.validate(), Ok(()));
}

#[test]
fn column_validation_errors() {
    let bad_presence = ColumnSpec::new("a".to_string(), Provider::Bool, PRESENCE_SCALE + 1);
    assert_eq!(bad_presence.unwrap_err(), ConfigError::PresenceOutOfRange);
    let bad_provider = ColumnSpec::new("a".to_string(), Provider::I32 { min: 1, max: 0 }, 0);
    assert_eq!(bad_provider.unwrap_err(), ConfigError::EmptyRange);
    let ok = ColumnSpec::new("a".to_string(), Provider::Bool, PRESENCE_SCALE).unwrap();
    assert_eq!(ok.name, "a");
    assert!(!ok.can_be_null());
    let nullable = ColumnSpec::new("b".to_string(), Provider::Bool, PRESENCE_SCALE / 2).unwrap();
    assert!(nullable.can_be_null());
}

#[test]
fn provider_kinds() {
    assert_eq!((Provider::Increment { start: 0, step: 1 }).kind(), ValueKind::Int64);
    assert_eq!(Provider::Bool.kind(), ValueKind::Bool);
    assert_eq!((Provider::I32 { min: 0, max: 1 }).kind(), ValueKind::Int32);
    assert_eq!((Provider::Alphanumeric { min_length: 0, max_length: 1 }).kind(), ValueKind::String);
    assert_eq!((Provider::Date { after: 0, before: 1 }).kind(), ValueKind::Date);
    assert_eq!((Provider::Datetime { after: 0, before: 1 }).kind(), ValueKind::Datetime);
}

#[test]
fn stream_draws_advance_the_state() {
    let mut s = RandomStream::with_seed(3);
    let first = s.next_u64();
    assert_ne!(s.state, 3);
    let mut t = RandomStream::with_seed(3);
    assert_eq!(t.next_u64(), first);
}
