//! Value providers: the closed set of per-column generators.
use vstd::prelude::*;
use crate::error::ConfigError;
use crate::rng::{self, is_alphanumeric};
use crate::stream::{
    alphanumeric_draw, bool_draw, i32_draw, i64_draw, usize_draw, RandomStream,
};
use crate::value::{kind_of, Cell, Value, ValueKind};

verus! {

/// Relies on String::push: appends one character.
#[verifier::external_body]
fn push_char(s: &mut String, c: char)
    ensures
        final(s)@ == old(s)@.push(c),
{
    s.push(c)
}

/// A per-column generator of values.
#[derive(Clone, Copy, Debug, PartialEq, Eq)]
pub enum Provider {
    /// `start + row_index * step`, whatever the random state.
    Increment { start: i32, step: i32 },
    /// A random boolean.
    Bool,
    /// A random `i32` in `min..max`.
    I32 { min: i32, max: i32 },
    /// A random `i64` in `min..max`.
    I64 { min: i64, max: i64 },
    /// A random string of ASCII letters and digits whose length lies in `min_length..=max_length`.
    Alphanumeric { min_length: usize, max_length: usize },
    /// A random day in `after..before`, counted from 1970-01-01.
    Date { after: i32, before: i32 },
    /// A random second in `after..before`, counted from 1970-01-01 00:00:00.
    Datetime { after: i64, before: i64 },
}

/// The value of an increment provider at a row.
pub open spec fn increment_at(start: i32, step: i32, row: u32) -> int {
    start as int + (row as int) * (step as int)
}

/// `n` characters drawn one after another from state `s`, and the state after them.
pub open spec fn alphanumeric_chars(s: u64, n: nat) -> (Seq<char>, u64)
    decreases n,
{
    if n == 0 {
        (Seq::empty(), s)
    } else {
        let prev = alphanumeric_chars(s, (n - 1) as nat);
        let d = alphanumeric_draw(prev.1);
        (prev.0.push(d.0), d.1)
    }
}

/// What `value` yields at `row` from state `s`, and the state after it.
pub open spec fn provider_value(p: Provider, row: u32, s: u64) -> (Cell, u64) {
    match p {
        Provider::Increment { start, step } => (Cell::Int64(increment_at(start, step, row)), s),
        Provider::Bool => (Cell::Bool(bool_draw(s).0), bool_draw(s).1),
        Provider::I32 { min, max } => (Cell::Int32(i32_draw(s, min, max).0 as int), i32_draw(s, min, max).1),
        Provider::I64 { min, max } => (Cell::Int64(i64_draw(s, min, max).0 as int), i64_draw(s, min, max).1),
        Provider::Alphanumeric { min_length, max_length } => {
            let len = usize_draw(s, min_length, max_length);
            let text = alphanumeric_chars(len.1, len.0 as nat);
            (Cell::Text(text.0), text.1)
        },
        Provider::Date { after, before } => (Cell::Date(i32_draw(s, after, before).0 as int), i32_draw(s, after, before).1),
        Provider::Datetime { after, before } => (Cell::Datetime(i64_draw(s, after, before).0 as int), i64_draw(s, after, before).1),
    }
}

/// Every character of `cs` is an ASCII letter or digit.
pub open spec fn all_alphanumeric(cs: Seq<char>) -> bool {
    forall|i: int| 0 <= i < cs.len() ==> is_alphanumeric(#[trigger] cs[i])
}

impl Provider {
    /// Whether the parameters satisfy the provider's constraints: a non-empty
    /// range, and a length range whose bounds are in order.
    pub open spec fn wf(self) -> bool {
        match self {
            Provider::I32 { min, max } => min < max,
            Provider::I64 { min, max } => min < max,
            Provider::Alphanumeric { min_length, max_length } => min_length <= max_length,
            Provider::Date { after, before } => after < before,
            Provider::Datetime { after, before } => after < before,
            _ => true,
        }
    }
}

/// What a well-formed provider's value at `row` is sure to be, whatever was
/// drawn: the variant, and a value inside the configured range.
pub open spec fn fits(p: Provider, row: u32, c: Cell) -> bool {
    match p {
        Provider::Increment { start, step } => c == Cell::Int64(increment_at(start, step, row)),
        Provider::Bool => c is Bool,
        Provider::I32 { min, max } => match c {
            Cell::Int32(v) => min <= v < max,
            _ => false,
        },
        Provider::I64 { min, max } => match c {
            Cell::Int64(v) => min <= v < max,
            _ => false,
        },
        Provider::Alphanumeric { min_length, max_length } => match c {
            Cell::Text(t) => min_length <= t.len() <= max_length && all_alphanumeric(t),
            _ => false,
        },
        Provider::Date { after, before } => match c {
            Cell::Date(v) => after <= v < before,
            _ => false,
        },
        Provider::Datetime { after, before } => match c {
            Cell::Datetime(v) => after <= v < before,
            _ => false,
        },
    }
}

/// The type of the values of each provider.
pub open spec fn provider_kind(p: Provider) -> ValueKind {
    match p {
        Provider::Increment { .. } => ValueKind::Int64,
        Provider::Bool => ValueKind::Bool,
        Provider::I32 { .. } => ValueKind::Int32,
        Provider::I64 { .. } => ValueKind::Int64,
        Provider::Alphanumeric { .. } => ValueKind::String,
        Provider::Date { .. } => ValueKind::Date,
        Provider::Datetime { .. } => ValueKind::Datetime,
    }
}

/// The error that validation reports for a provider that is not well formed.
pub open spec fn provider_error(p: Provider) -> ConfigError {
    match p {
        Provider::Alphanumeric { .. } => ConfigError::LengthBoundsOutOfOrder,
        _ => ConfigError::EmptyRange,
    }
}

/// Draws `n` characters, one after another.
fn alphanumeric_string(stream: &mut RandomStream, n: usize) -> (r: String)
    ensures
        (r@, final(stream).state) == alphanumeric_chars(old(stream).state, n as nat),
        r@.len() == n,
        all_alphanumeric(r@),
{
    let ghost s0 = stream.state;
    let mut out = String::new();
    let mut i: usize = 0;
    while i < n
        invariant
            i <= n,
            (out@, stream.state) == alphanumeric_chars(s0, i as nat),
            out@.len() == i,
            all_alphanumeric(out@),
        decreases n - i,
    {
        let c = stream.next_alphanumeric();
        push_char(&mut out, c);
        i += 1;
    }
    out
}

impl Provider {
    /// Checks the provider's constraints.
    pub fn validate(&self) -> (r: Result<(), ConfigError>)
        ensures
            r is Ok <==> self.wf(),
            r is Err ==> r == Err::<(), ConfigError>(provider_error(*self)),
    {
        match self {
            Provider::I32 { min, max } => if *min < *max { Ok(()) } else { Err(ConfigError::EmptyRange) },
            Provider::I64 { min, max } => if *min < *max { Ok(()) } else { Err(ConfigError::EmptyRange) },
            Provider::Alphanumeric { min_length, max_length } => {
                if *min_length <= *max_length {
                    Ok(())
                } else {
                    Err(ConfigError::LengthBoundsOutOfOrder)
                }
            },
            Provider::Date { after, before } => if *after < *before { Ok(()) } else { Err(ConfigError::EmptyRange) },
            Provider::Datetime { after, before } => if *after < *before { Ok(()) } else { Err(ConfigError::EmptyRange) },
            _ => Ok(()),
        }
    }

    /// The type of every value this provider yields.
    pub fn kind(&self) -> (r: ValueKind)
        ensures
            r == provider_kind(*self),
            forall|row: u32, c: Cell| fits(*self, row, c) ==> kind_of(c) == Some(r),
    {
        match self {
            Provider::Increment { .. } => ValueKind::Int64,
            Provider::Bool => ValueKind::Bool,
            Provider::I32 { .. } => ValueKind::Int32,
            Provider::I64 { .. } => ValueKind::Int64,
            Provider::Alphanumeric { .. } => ValueKind::String,
            Provider::Date { .. } => ValueKind::Date,
            Provider::Datetime { .. } => ValueKind::Datetime,
        }
    }

    /// The value at global row `row`, drawing what it needs from `stream`.
    pub fn value(&self, row: u32, stream: &mut RandomStream) -> (r: Value)
        requires
            self.wf(),
        ensures
            (r@, final(stream).state) == provider_value(*self, row, old(stream).state),
            fits(*self, row, r@),
    {
        match self {
            Provider::Increment { start, step } => {
                let (r, st) = (row as i64, *step as i64);
                assert(-0x8000_0000_0000_0000 + 0x8000_0000 <= r * st <= 0x7fff_ffff_ffff_ffff - 0x8000_0000)
                    by (nonlinear_arith)
                    requires
                        0 <= r <= 0xffff_ffff,
                        -0x8000_0000 <= st <= 0x7fff_ffff,
                ;
                let product = r * st;
                let v = *start as i64 + product;
                assert(v as int == increment_at(*start, *step, row));
                Value::Int64(v)
            },
            Provider::Bool => Value::Bool(stream.next_bool()),
            Provider::I32 { min, max } => Value::Int32(stream.next_i32(*min, *max)),
            Provider::I64 { min, max } => Value::Int64(stream.next_i64(*min, *max)),
            Provider::Alphanumeric { min_length, max_length } => {
                let len = stream.next_usize_inclusive(*min_length, *max_length);
                Value::String(alphanumeric_string(stream, len))
            },
            Provider::Date { after, before } => Value::Date(stream.next_i32(*after, *before)),
            Provider::Datetime { after, before } => Value::Datetime(stream.next_i64(*after, *before)),
        }
    }
}

/// A provider of ten-character strings of ASCII letters and digits, drawn from
/// the thread's random service.
#[derive(Clone, Copy, Debug)]
pub struct AlphanumericProvider;

/// The length of the strings that `AlphanumericProvider` yields.
pub const ALPHANUMERIC_LENGTH: usize = 10;

impl AlphanumericProvider {
    /// A fresh string; the row index plays no part.
    pub fn value(&self, row: u32) -> (r: Value)
        ensures
            match r@ {
                Cell::Text(t) => t.len() == ALPHANUMERIC_LENGTH && all_alphanumeric(t),
                _ => false,
            },
    {
        let mut out = String::new();
        let mut i: usize = 0;
        while i < ALPHANUMERIC_LENGTH
            invariant
                i <= ALPHANUMERIC_LENGTH,
                out@.len() == i,
                all_alphanumeric(out@),
            decreases ALPHANUMERIC_LENGTH - i,
        {
            let c = rng::alphanumeric();
            push_char(&mut out, c);
            i += 1;
        }
        Value::String(out)
    }
}

} // verus!
