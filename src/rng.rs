//! The process-wide random service of the current thread, backed by
//! fastrand's thread-local generator.
use vstd::prelude::*;

verus! {

#[verifier::external_type_specification]
pub struct ExRangeTo<Idx>(std::ops::RangeTo<Idx>);

/// Whether `c` is an ASCII letter or an ASCII digit.
pub open spec fn is_alphanumeric(c: char) -> bool {
    ('a' <= c && c <= 'z') || ('A' <= c && c <= 'Z') || ('0' <= c && c <= '9')
}

/// Relies on fastrand::seed: replaces the state of the thread-local generator.
#[verifier::external_body]
fn seed_global(seed: u64) {
    fastrand::seed(seed)
}

/// Relies on std's RandomState::new: each new one is keyed afresh, with keys
/// that no seed of this library fixes.
#[verifier::external_body]
fn fresh_keys() -> std::collections::hash_map::RandomState {
    std::collections::hash_map::RandomState::new()
}

/// Relies on BuildHasher::hash_one: hashes the byte 0 under the keys of `keys`.
#[verifier::external_body]
fn hash_zero(keys: &std::collections::hash_map::RandomState) -> u64 {
    std::hash::BuildHasher::hash_one(keys, 0u8)
}

/// A seed that is not known in advance.
fn entropy() -> u64 {
    let keys = fresh_keys();
    hash_zero(&keys)
}

/// Relies on fastrand::bool: a draw from the thread-local generator.
#[verifier::external_body]
fn global_bool() -> bool {
    fastrand::bool()
}

/// Relies on fastrand::i32: a draw in `lo..hi`, which panics only on an empty range.
#[verifier::external_body]
fn global_i32(lo: i32, hi: i32) -> (r: i32)
    requires
        lo < hi,
    ensures
        lo <= r < hi,
{
    fastrand::i32(lo..hi)
}

/// Relies on fastrand::i64: a draw in `lo..hi`, which panics only on an empty range.
#[verifier::external_body]
fn global_i64(lo: i64, hi: i64) -> (r: i64)
    requires
        lo < hi,
    ensures
        lo <= r < hi,
{
    fastrand::i64(lo..hi)
}

/// Relies on fastrand::u32: a draw in `lo..hi`, which panics only on an empty range.
#[verifier::external_body]
fn global_u32(lo: u32, hi: u32) -> (r: u32)
    requires
        lo < hi,
    ensures
        lo <= r < hi,
{
    fastrand::u32(lo..hi)
}

/// Relies on fastrand::usize: a draw in `..hi`, which panics only when `hi` is zero.
#[verifier::external_body]
fn global_usize(hi: usize) -> (r: usize)
    requires
        0 < hi,
    ensures
        r < hi,
{
    fastrand::usize(..hi)
}

/// Relies on fastrand::alphanumeric: one of `A-Z`, `a-z`, `0-9`.
#[verifier::external_body]
fn global_alphanumeric() -> (r: char)
    ensures
        is_alphanumeric(r),
{
    fastrand::alphanumeric()
}

/// Resets the thread's generator: to `seed` where one is given, so that the
/// draws that follow repeat those after any earlier reset to the same seed;
/// otherwise to a seed that is not known in advance.
pub fn initialize_rng(seed: Option<u64>) {
    match seed {
        Some(s) => seed_global(s),
        None => {
            let s = entropy();
            seed_global(s);
        },
    }
}

/// The seed of a generation: `seed` where one is given, else one not known in advance.
pub fn seed_or_fresh(seed: Option<u64>) -> (r: u64)
    ensures
        seed matches Some(s) ==> r == s,
{
    match seed {
        Some(s) => s,
        None => entropy(),
    }
}

/// A random boolean from the thread's generator.
pub fn bool() -> bool {
    global_bool()
}

/// A random `i32` in `range`, which must not be empty.
pub fn i32(range: std::ops::Range<i32>) -> (r: i32)
    requires
        range.start < range.end,
    ensures
        range.start <= r < range.end,
{
    global_i32(range.start, range.end)
}

/// A random `i64` in `range`, which must not be empty.
pub fn i64(range: std::ops::Range<i64>) -> (r: i64)
    requires
        range.start < range.end,
    ensures
        range.start <= r < range.end,
{
    global_i64(range.start, range.end)
}

/// A random `u32` in `range`, which must not be empty.
pub fn u32(range: std::ops::Range<u32>) -> (r: u32)
    requires
        range.start < range.end,
    ensures
        range.start <= r < range.end,
{
    global_u32(range.start, range.end)
}

/// A random `usize` below `range.end`, which must be positive.
pub fn usize(range: std::ops::RangeTo<usize>) -> (r: usize)
    requires
        0 < range.end,
    ensures
        r < range.end,
{
    global_usize(range.end)
}

/// A random ASCII letter or digit.
pub fn alphanumeric() -> (r: char)
    ensures
        is_alphanumeric(r),
{
    global_alphanumeric()
}

} // verus!
