//! Column declarations, the presence policy, and generation of a column's values.
use vstd::prelude::*;
use crate::error::ConfigError;
use crate::provider::{fits, increment_at, provider_error, provider_value, Provider};
use crate::stream::{u32_draw, RandomStream};
use crate::value::{cells_of, Cell, Value};

verus! {

/// Presence probabilities are held as multiples of `1 / PRESENCE_SCALE`:
/// `PRESENCE_SCALE` stands for 1, always present, and 0 for never present.
pub const PRESENCE_SCALE: u64 = 0x1_0000_0000;

/// One declared column: its name, its provider, and how likely a value is present.
#[derive(Clone, Debug)]
pub struct ColumnSpec {
    pub name: String,
    pub provider: Provider,
    /// The presence probability, scaled by `PRESENCE_SCALE`.
    pub presence: u64,
}

/// The error that validation reports for a column that is not well formed.
pub open spec fn column_error(c: ColumnSpec) -> ConfigError {
    if c.presence > PRESENCE_SCALE {
        ConfigError::PresenceOutOfRange
    } else {
        provider_error(c.provider)
    }
}

/// The value of column `c` at `row` from state `s`, and the state after it:
/// one draw `u` below `PRESENCE_SCALE` is always made, and the value is null
/// when `u` is at least the presence, else the provider's value.
pub open spec fn cell_at(c: ColumnSpec, row: u32, s: u64) -> (Cell, u64) {
    let u = u32_draw(s);
    if u.0 as int >= c.presence as int {
        (Cell::Null, u.1)
    } else {
        provider_value(c.provider, row, u.1)
    }
}

/// The values of column `c` at rows `first .. first + n`, drawn one after
/// another from state `s`, and the state after them.
pub open spec fn column_cells(c: ColumnSpec, first: nat, n: nat, s: u64) -> (Seq<Cell>, u64)
    decreases n,
{
    if n == 0 {
        (Seq::empty(), s)
    } else {
        let prev = column_cells(c, first, (n - 1) as nat, s);
        let x = cell_at(c, (first + n - 1) as u32, prev.1);
        (prev.0.push(x.0), x.1)
    }
}

/// `n` rows give `n` values.
pub proof fn lemma_column_cells_len(c: ColumnSpec, first: nat, n: nat, s: u64)
    ensures
        column_cells(c, first, n, s).0.len() == n,
    decreases n,
{
    if n > 0 {
        lemma_column_cells_len(c, first, (n - 1) as nat, s);
    }
}

/// Generating `a` rows and then the `b` rows that follow, from where the first
/// part left the stream, gives the same values as generating `a + b` rows at once.
pub proof fn lemma_column_cells_split(c: ColumnSpec, first: nat, a: nat, b: nat, s: u64)
    ensures
        ({
            let left = column_cells(c, first, a, s);
            let right = column_cells(c, first + a, b, left.1);
            let whole = column_cells(c, first, a + b, s);
            whole.0 == left.0 + right.0 && whole.1 == right.1
        }),
    decreases b,
{
    let left = column_cells(c, first, a, s);
    if b == 0 {
        assert(left.0 + Seq::<Cell>::empty() =~= left.0);
    } else {
        lemma_column_cells_split(c, first, a, (b - 1) as nat, s);
        let right = column_cells(c, first + a, (b - 1) as nat, left.1);
        assert((left.0 + right.0).push(cell_at(c, (first + a + b - 1) as u32, right.1).0)
            =~= left.0 + right.0.push(cell_at(c, (first + a + b - 1) as u32, right.1).0));
        assert(first + (a + b) - 1 == (first + a) + b - 1);
    }
}

/// Presence bounds: a column whose presence is 0 yields only nulls, and one
/// whose presence is 1 (`PRESENCE_SCALE`) yields no null, whatever the stream.
pub proof fn lemma_presence_extremes(c: ColumnSpec, first: nat, n: nat, s: u64)
    ensures
        c.presence == 0 ==> forall|i: int| 0 <= i < n ==> #[trigger] column_cells(c, first, n, s).0[i] == Cell::Null,
        c.presence == PRESENCE_SCALE ==> forall|i: int| 0 <= i < n ==> #[trigger] column_cells(c, first, n, s).0[i] != Cell::Null,
    decreases n,
{
    lemma_column_cells_len(c, first, n, s);
    if n > 0 {
        lemma_presence_extremes(c, first, (n - 1) as nat, s);
        lemma_column_cells_len(c, first, (n - 1) as nat, s);
        let prev = column_cells(c, first, (n - 1) as nat, s);
        assert forall|i: int| 0 <= i < n - 1 implies #[trigger] column_cells(c, first, n, s).0[i] == prev.0[i] by {}
    }
}

/// Increment purity: an always-present increment column holds
/// `start + row * step` at every row, whatever the seed of its stream.
pub proof fn lemma_increment_ignores_stream(c: ColumnSpec, first: nat, n: nat, s: u64)
    requires
        c.provider is Increment,
        c.presence == PRESENCE_SCALE,
        first + n <= u32::MAX + 1,
    ensures
        forall|i: int| 0 <= i < n ==> #[trigger] column_cells(c, first, n, s).0[i] == Cell::Int64(
            increment_at(c.provider->start, c.provider->step, (first + i) as u32),
        ),
    decreases n,
{
    lemma_column_cells_len(c, first, n, s);
    if n > 0 {
        lemma_increment_ignores_stream(c, first, (n - 1) as nat, s);
        lemma_column_cells_len(c, first, (n - 1) as nat, s);
        let prev = column_cells(c, first, (n - 1) as nat, s);
        assert forall|i: int| 0 <= i < n - 1 implies #[trigger] column_cells(c, first, n, s).0[i] == prev.0[i] by {}
    }
}

impl ColumnSpec {
    /// A valid presence and a valid provider.
    pub open spec fn wf(&self) -> bool {
        self.presence <= PRESENCE_SCALE && self.provider.wf()
    }

    /// A column, once its presence and provider are checked.
    pub fn new(name: String, provider: Provider, presence: u64) -> (r: Result<ColumnSpec, ConfigError>)
        ensures
            r matches Ok(c) ==> c.name == name && c.provider == provider && c.presence == presence,
            r is Ok <==> (presence <= PRESENCE_SCALE && provider.wf()),
            r is Err ==> r == Err::<ColumnSpec, ConfigError>(
                column_error(ColumnSpec { name, provider, presence }),
            ),
    {
        let c = ColumnSpec { name, provider, presence };
        match c.validate() {
            Ok(()) => Ok(c),
            Err(e) => Err(e),
        }
    }

    /// Checks the presence and the provider.
    pub fn validate(&self) -> (r: Result<(), ConfigError>)
        ensures
            r is Ok <==> self.wf(),
            r is Err ==> r == Err::<(), ConfigError>(column_error(*self)),
    {
        if self.presence > PRESENCE_SCALE {
            Err(ConfigError::PresenceOutOfRange)
        } else {
            self.provider.validate()
        }
    }

    /// Whether a value of this column may be null.
    pub fn can_be_null(&self) -> (r: bool)
        ensures
            r == (self.presence < PRESENCE_SCALE),
    {
        self.presence < PRESENCE_SCALE
    }

    /// The presence decision for a uniform draw `u` over the `u32` range: a
    /// value is present when `u / PRESENCE_SCALE` is below the probability.
    pub fn is_present(&self, u: u32) -> (r: bool)
        ensures
            r == ((u as int) < self.presence as int),
    {
        (u as u64) < self.presence
    }

    /// The value at global row `row`, under the presence policy. The presence
    /// draw is made for every value, at presence 0 and 1 too, so that a
    /// stream's later draws do not depend on the presence that was declared.
    pub fn value(&self, row: u32, stream: &mut RandomStream) -> (r: Value)
        requires
            self.wf(),
        ensures
            (r@, final(stream).state) == cell_at(*self, row, old(stream).state),
            r@ == Cell::Null || fits(self.provider, row, r@),
    {
        let u = stream.next_u32();
        if self.is_present(u) {
            self.provider.value(row, stream)
        } else {
            Value::Null
        }
    }
}

/// The values of `col` at rows `first .. first + n`.
pub fn generate_column(col: &ColumnSpec, first: u32, n: u32, stream: &mut RandomStream) -> (r: Vec<Value>)
    requires
        col.wf(),
        first + n <= u32::MAX,
    ensures
        cells_of(r@) == column_cells(*col, first as nat, n as nat, old(stream).state).0,
        final(stream).state == column_cells(*col, first as nat, n as nat, old(stream).state).1,
        r@.len() == n,
        forall|i: int| 0 <= i < n ==> #[trigger] r@[i]@ == Cell::Null
            || fits(col.provider, (first + i) as u32, r@[i]@),
        col.presence == 0 ==> forall|i: int| 0 <= i < n ==> #[trigger] r@[i]@ == Cell::Null,
        col.presence == PRESENCE_SCALE ==> forall|i: int| 0 <= i < n ==> #[trigger] r@[i]@ != Cell::Null,
{
    let ghost s0 = stream.state;
    let mut out: Vec<Value> = Vec::new();
    let mut i: u32 = 0;
    while i < n
        invariant
            col.wf(),
            first + n <= u32::MAX,
            i <= n,
            out@.len() == i,
            cells_of(out@) == column_cells(*col, first as nat, i as nat, s0).0,
            stream.state == column_cells(*col, first as nat, i as nat, s0).1,
            forall|j: int| 0 <= j < i ==> #[trigger] out@[j]@ == Cell::Null
                || fits(col.provider, (first + j) as u32, out@[j]@),
            col.presence == 0 ==> forall|j: int| 0 <= j < i ==> #[trigger] out@[j]@ == Cell::Null,
            col.presence == PRESENCE_SCALE ==> forall|j: int| 0 <= j < i ==> #[trigger] out@[j]@ != Cell::Null,
        decreases n - i,
    {
        let ghost before = out@;
        let v = col.value(first + i, stream);
        out.push(v);
        assert(cells_of(out@) =~= cells_of(before).push(v@));
        i += 1;
    }
    out
}

} // verus!
