//! Explicit random streams. A stream is the state of a fastrand generator;
//! each draw is a function of that state alone, which is what makes every
//! generated value reproducible from its seed.
use vstd::prelude::*;
use crate::rng::is_alphanumeric;

verus! {

/// The boolean drawn from a generator in state `s`, and the state after it.
pub uninterp spec fn bool_draw(s: u64) -> (bool, u64);

/// The `i32` drawn in `lo..hi` from a generator in state `s`, and the state after it.
pub uninterp spec fn i32_draw(s: u64, lo: i32, hi: i32) -> (i32, u64);

/// The `i64` drawn in `lo..hi` from a generator in state `s`, and the state after it.
pub uninterp spec fn i64_draw(s: u64, lo: i64, hi: i64) -> (i64, u64);

/// The `u32` drawn over the whole range from a generator in state `s`, and the state after it.
pub uninterp spec fn u32_draw(s: u64) -> (u32, u64);

/// The `u64` drawn over the whole range from a generator in state `s`, and the state after it.
pub uninterp spec fn u64_draw(s: u64) -> (u64, u64);

/// The `usize` drawn in `lo..=hi` from a generator in state `s`, and the state after it.
pub uninterp spec fn usize_draw(s: u64, lo: usize, hi: usize) -> (usize, u64);

/// The character drawn by `alphanumeric` from a generator in state `s`, and the state after it.
pub uninterp spec fn alphanumeric_draw(s: u64) -> (char, u64);

/// Relies on fastrand's Rng::bool, on a generator built by Rng::with_seed and
/// read back by Rng::get_seed, which hold the state as it is.
#[verifier::external_body]
fn draw_bool(s: u64) -> (r: (bool, u64))
    ensures
        r == bool_draw(s),
{
    let mut g = fastrand::Rng::with_seed(s);
    let v = g.bool();
    (v, g.get_seed())
}

/// Relies on fastrand's Rng::i32 over `lo..hi`: a value in that range; it panics only when the range is empty.
#[verifier::external_body]
fn draw_i32(s: u64, lo: i32, hi: i32) -> (r: (i32, u64))
    requires
        lo < hi,
    ensures
        r == i32_draw(s, lo, hi),
        lo <= r.0 < hi,
{
    let mut g = fastrand::Rng::with_seed(s);
    let v = g.i32(lo..hi);
    (v, g.get_seed())
}

/// Relies on fastrand's Rng::i64 over `lo..hi`: a value in that range; it panics only when the range is empty.
#[verifier::external_body]
fn draw_i64(s: u64, lo: i64, hi: i64) -> (r: (i64, u64))
    requires
        lo < hi,
    ensures
        r == i64_draw(s, lo, hi),
        lo <= r.0 < hi,
{
    let mut g = fastrand::Rng::with_seed(s);
    let v = g.i64(lo..hi);
    (v, g.get_seed())
}

/// Relies on fastrand's Rng::u32 over the full range `..`.
#[verifier::external_body]
fn draw_u32(s: u64) -> (r: (u32, u64))
    ensures
        r == u32_draw(s),
{
    let mut g = fastrand::Rng::with_seed(s);
    let v = g.u32(..);
    (v, g.get_seed())
}

/// Relies on fastrand's Rng::u64 over the full range `..`.
#[verifier::external_body]
fn draw_u64(s: u64) -> (r: (u64, u64))
    ensures
        r == u64_draw(s),
{
    let mut g = fastrand::Rng::with_seed(s);
    let v = g.u64(..);
    (v, g.get_seed())
}

/// Relies on fastrand's Rng::usize over `lo..=hi`: a value in that range; it panics only when `lo > hi`.
#[verifier::external_body]
fn draw_usize(s: u64, lo: usize, hi: usize) -> (r: (usize, u64))
    requires
        lo <= hi,
    ensures
        r == usize_draw(s, lo, hi),
        lo <= r.0 <= hi,
{
    let mut g = fastrand::Rng::with_seed(s);
    let v = g.usize(lo..=hi);
    (v, g.get_seed())
}

/// Relies on fastrand's Rng::alphanumeric: one of `A-Z`, `a-z`, `0-9`.
#[verifier::external_body]
fn draw_alphanumeric(s: u64) -> (r: (char, u64))
    ensures
        r == alphanumeric_draw(s),
        is_alphanumeric(r.0),
{
    let mut g = fastrand::Rng::with_seed(s);
    let v = g.alphanumeric();
    (v, g.get_seed())
}

/// A deterministic random stream: everything drawn from it follows from `state`.
#[derive(Clone, Copy, Debug, PartialEq, Eq)]
pub struct RandomStream {
    pub state: u64,
}

impl RandomStream {
    /// The stream that a generator seeded with `seed` yields.
    pub fn with_seed(seed: u64) -> (r: RandomStream)
        ensures
            r.state == seed,
    {
        RandomStream { state: seed }
    }

    /// Draws a boolean.
    pub fn next_bool(&mut self) -> (r: bool)
        ensures
            (r, final(self).state) == bool_draw(old(self).state),
    {
        let (v, t) = draw_bool(self.state);
        self.state = t;
        v
    }

    /// Draws an `i32` in `lo..hi`.
    pub fn next_i32(&mut self, lo: i32, hi: i32) -> (r: i32)
        requires
            lo < hi,
        ensures
            (r, final(self).state) == i32_draw(old(self).state, lo, hi),
            lo <= r < hi,
    {
        let (v, t) = draw_i32(self.state, lo, hi);
        self.state = t;
        v
    }

    /// Draws an `i64` in `lo..hi`.
    pub fn next_i64(&mut self, lo: i64, hi: i64) -> (r: i64)
        requires
            lo < hi,
        ensures
            (r, final(self).state) == i64_draw(old(self).state, lo, hi),
            lo <= r < hi,
    {
        let (v, t) = draw_i64(self.state, lo, hi);
        self.state = t;
        v
    }

    /// Draws a `u32` over its whole range.
    pub fn next_u32(&mut self) -> (r: u32)
        ensures
            (r, final(self).state) == u32_draw(old(self).state),
    {
        let (v, t) = draw_u32(self.state);
        self.state = t;
        v
    }

    /// Draws a `u64` over its whole range.
    pub fn next_u64(&mut self) -> (r: u64)
        ensures
            (r, final(self).state) == u64_draw(old(self).state),
    {
        let (v, t) = draw_u64(self.state);
        self.state = t;
        v
    }

    /// Draws a `usize` in `lo..=hi`.
    pub fn next_usize_inclusive(&mut self, lo: usize, hi: usize) -> (r: usize)
        requires
            lo <= hi,
        ensures
            (r, final(self).state) == usize_draw(old(self).state, lo, hi),
            lo <= r <= hi,
    {
        let (v, t) = draw_usize(self.state, lo, hi);
        self.state = t;
        v
    }

    /// Draws an ASCII letter or digit.
    pub fn next_alphanumeric(&mut self) -> (r: char)
        ensures
            (r, final(self).state) == alphanumeric_draw(old(self).state),
            is_alphanumeric(r),
    {
        let (v, t) = draw_alphanumeric(self.state);
        self.state = t;
        v
    }
}

} // verus!
