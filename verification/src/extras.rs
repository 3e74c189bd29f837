//! Seeded randomness on top of `rand_pcg`, and a shuffle bag that hands out
//! items in random order while keeping each item's share fixed.

use vstd::prelude::*;
use rand::seq::SliceRandom;
use rand::Rng;
use rand::SeedableRng;

verus! {

broadcast use vstd::seq_lib::group_to_multiset_ensures;

/// The generator of `rand_pcg`, held opaque.
#[verifier::external_type_specification]
#[verifier::external_body]
pub struct ExLcg64Xsh32(rand_pcg::Lcg64Xsh32);

/// What a `rand_pcg::Lcg64Xsh32` holds: its `(state, increment)` fields,
/// which are all that its outputs depend on.
pub uninterp spec fn lcg_state(rng: rand_pcg::Lcg64Xsh32) -> (u64, u64);

/// The `(state, increment)` of the generator that
/// `SeedableRng::seed_from_u64` builds from `seed`.
pub uninterp spec fn pcg32_seeded_from_u64(seed: u64) -> (u64, u64);

/// What `SliceRandom::shuffle` does with a slice of `len` items and a
/// generator holding `state`: the order it leaves the items in (entry `i` is
/// the old position of the item that ends at position `i`) and the state the
/// generator is left in.
pub uninterp spec fn slice_shuffle(state: (u64, u64), len: nat) -> (Seq<int>, (u64, u64));

/// Calls `SeedableRng::seed_from_u64` of `rand_pcg::Pcg32`.  rand_core's
/// default `seed_from_u64` expands `seed` with a fixed PCG step into a seed
/// and builds the generator from it, so the generator depends on `seed`
/// alone; the claim is that it is the one named `pcg32_seeded_from_u64(seed)`.
/// `from_seed` sets the lowest bit of the increment, so it is odd.
#[verifier::external_body]
fn pcg32_seed_from_u64(seed: u64) -> (r: rand_pcg::Lcg64Xsh32)
    ensures
        lcg_state(r) == pcg32_seeded_from_u64(seed),
        lcg_state(r).1 % 2 == 1,
{
    rand_pcg::Pcg32::seed_from_u64(seed)
}

/// The error type of `rand`, held opaque.
#[verifier::external_type_specification]
#[verifier::external_body]
pub struct ExRandError(rand::Error);

/// Calls `SeedableRng::from_rng` of `rand_pcg::Pcg32` with
/// `rand::rngs::OsRng`: it fills a seed from the operating system's
/// randomness and builds the generator from it, or returns the error that
/// `OsRng` reports when the system cannot supply randomness.  The seed is
/// random and whether the call fails depends on the system; the one thing
/// that holds of every generator it builds is that `from_seed` set the lowest
/// bit of its increment, so the increment is odd.
#[verifier::external_body]
fn pcg32_from_os_rng() -> (r: Result<rand_pcg::Lcg64Xsh32, rand::Error>)
    ensures
        r matches Ok(g) ==> lcg_state(g).1 % 2 == 1,
{
    rand_pcg::Pcg32::from_rng(rand::rngs::OsRng)
}

/// Calls `SliceRandom::shuffle` on the slice.  That function swaps
/// elements pairwise (Fisher-Yates: for each position from the last down to
/// 1, a swap with an index drawn from the generator), so the result is a
/// permutation of the input: same length, same elements with the same
/// multiplicities.  The indices drawn depend only on the generator's state
/// and the length, never on the items, so the order the items end in and
/// the generator's new state are the ones named by `slice_shuffle`.
#[verifier::external_body]
fn shuffle_slice<T>(items: &mut [T], rng: &mut rand_pcg::Lcg64Xsh32)
    ensures
        final(items)@.len() == old(items)@.len(),
        final(items)@.to_multiset() == old(items)@.to_multiset(),
        final(items)@ == Seq::new(
            old(items)@.len(),
            |i: int| old(items)@[slice_shuffle(lcg_state(*old(rng)), old(items)@.len()).0[i]],
        ),
        lcg_state(*final(rng)) == slice_shuffle(lcg_state(*old(rng)), old(items)@.len()).1,
{
    items.shuffle(rng)
}

/// The value `Rng::gen::<u8>` draws from a `rand_pcg::Lcg64Xsh32` holding
/// `state`, and the state it leaves the generator in.
pub uninterp spec fn rand_gen_u8(state: (u64, u64)) -> (u8, (u64, u64));

/// Calls `Rng::gen::<u8>`: the standard distribution's draw, which depends
/// on the generator's state alone.
#[verifier::external_body]
fn lcg_gen_u8(rng: &mut rand_pcg::Lcg64Xsh32) -> (r: u8)
    ensures
        (r, lcg_state(*final(rng))) == rand_gen_u8(lcg_state(*old(rng))),
{
    rng.gen::<u8>()
}

/// The value `Rng::gen::<u16>` draws from a `rand_pcg::Lcg64Xsh32` holding
/// `state`, and the state it leaves the generator in.
pub uninterp spec fn rand_gen_u16(state: (u64, u64)) -> (u16, (u64, u64));

/// Calls `Rng::gen::<u16>`: the standard distribution's draw, which depends
/// on the generator's state alone.
#[verifier::external_body]
fn lcg_gen_u16(rng: &mut rand_pcg::Lcg64Xsh32) -> (r: u16)
    ensures
        (r, lcg_state(*final(rng))) == rand_gen_u16(lcg_state(*old(rng))),
{
    rng.gen::<u16>()
}

/// The value `Rng::gen::<u32>` draws from a `rand_pcg::Lcg64Xsh32` holding
/// `state`, and the state it leaves the generator in.
pub uninterp spec fn rand_gen_u32(state: (u64, u64)) -> (u32, (u64, u64));

/// Calls `Rng::gen::<u32>`: the standard distribution's draw, which depends
/// on the generator's state alone.
#[verifier::external_body]
fn lcg_gen_u32(rng: &mut rand_pcg::Lcg64Xsh32) -> (r: u32)
    ensures
        (r, lcg_state(*final(rng))) == rand_gen_u32(lcg_state(*old(rng))),
{
    rng.gen::<u32>()
}

/// The value `Rng::gen::<u64>` draws from a `rand_pcg::Lcg64Xsh32` holding
/// `state`, and the state it leaves the generator in.
pub uninterp spec fn rand_gen_u64(state: (u64, u64)) -> (u64, (u64, u64));

/// Calls `Rng::gen::<u64>`: the standard distribution's draw, which depends
/// on the generator's state alone.
#[verifier::external_body]
fn lcg_gen_u64(rng: &mut rand_pcg::Lcg64Xsh32) -> (r: u64)
    ensures
        (r, lcg_state(*final(rng))) == rand_gen_u64(lcg_state(*old(rng))),
{
    rng.gen::<u64>()
}

/// The value `Rng::gen::<usize>` draws from a `rand_pcg::Lcg64Xsh32` holding
/// `state`, and the state it leaves the generator in.
pub uninterp spec fn rand_gen_usize(state: (u64, u64)) -> (usize, (u64, u64));

/// Calls `Rng::gen::<usize>`: the standard distribution's draw, which depends
/// on the generator's state alone.
#[verifier::external_body]
fn lcg_gen_usize(rng: &mut rand_pcg::Lcg64Xsh32) -> (r: usize)
    ensures
        (r, lcg_state(*final(rng))) == rand_gen_usize(lcg_state(*old(rng))),
{
    rng.gen::<usize>()
}

/// The value `Rng::gen::<i8>` draws from a `rand_pcg::Lcg64Xsh32` holding
/// `state`, and the state it leaves the generator in.
pub uninterp spec fn rand_gen_i8(state: (u64, u64)) -> (i8, (u64, u64));

/// Calls `Rng::gen::<i8>`: the standard distribution's draw, which depends
/// on the generator's state alone.
#[verifier::external_body]
fn lcg_gen_i8(rng: &mut rand_pcg::Lcg64Xsh32) -> (r: i8)
    ensures
        (r, lcg_state(*final(rng))) == rand_gen_i8(lcg_state(*old(rng))),
{
    rng.gen::<i8>()
}

/// The value `Rng::gen::<i16>` draws from a `rand_pcg::Lcg64Xsh32` holding
/// `state`, and the state it leaves the generator in.
pub uninterp spec fn rand_gen_i16(state: (u64, u64)) -> (i16, (u64, u64));

/// Calls `Rng::gen::<i16>`: the standard distribution's draw, which depends
/// on the generator's state alone.
#[verifier::external_body]
fn lcg_gen_i16(rng: &mut rand_pcg::Lcg64Xsh32) -> (r: i16)
    ensures
        (r, lcg_state(*final(rng))) == rand_gen_i16(lcg_state(*old(rng))),
{
    rng.gen::<i16>()
}

/// The value `Rng::gen::<i32>` draws from a `rand_pcg::Lcg64Xsh32` holding
/// `state`, and the state it leaves the generator in.
pub uninterp spec fn rand_gen_i32(state: (u64, u64)) -> (i32, (u64, u64));

/// Calls `Rng::gen::<i32>`: the standard distribution's draw, which depends
/// on the generator's state alone.
#[verifier::external_body]
fn lcg_gen_i32(rng: &mut rand_pcg::Lcg64Xsh32) -> (r: i32)
    ensures
        (r, lcg_state(*final(rng))) == rand_gen_i32(lcg_state(*old(rng))),
{
    rng.gen::<i32>()
}

/// The value `Rng::gen::<i64>` draws from a `rand_pcg::Lcg64Xsh32` holding
/// `state`, and the state it leaves the generator in.
pub uninterp spec fn rand_gen_i64(state: (u64, u64)) -> (i64, (u64, u64));

/// Calls `Rng::gen::<i64>`: the standard distribution's draw, which depends
/// on the generator's state alone.
#[verifier::external_body]
fn lcg_gen_i64(rng: &mut rand_pcg::Lcg64Xsh32) -> (r: i64)
    ensures
        (r, lcg_state(*final(rng))) == rand_gen_i64(lcg_state(*old(rng))),
{
    rng.gen::<i64>()
}

/// The value `Rng::gen::<isize>` draws from a `rand_pcg::Lcg64Xsh32` holding
/// `state`, and the state it leaves the generator in.
pub uninterp spec fn rand_gen_isize(state: (u64, u64)) -> (isize, (u64, u64));

/// Calls `Rng::gen::<isize>`: the standard distribution's draw, which depends
/// on the generator's state alone.
#[verifier::external_body]
fn lcg_gen_isize(rng: &mut rand_pcg::Lcg64Xsh32) -> (r: isize)
    ensures
        (r, lcg_state(*final(rng))) == rand_gen_isize(lcg_state(*old(rng))),
{
    rng.gen::<isize>()
}

/// The value `Rng::gen::<bool>` draws from a `rand_pcg::Lcg64Xsh32` holding
/// `state`, and the state it leaves the generator in.
pub uninterp spec fn rand_gen_bool(state: (u64, u64)) -> (bool, (u64, u64));

/// Calls `Rng::gen::<bool>`: the standard distribution's draw, which depends
/// on the generator's state alone.
#[verifier::external_body]
fn lcg_gen_bool(rng: &mut rand_pcg::Lcg64Xsh32) -> (r: bool)
    ensures
        (r, lcg_state(*final(rng))) == rand_gen_bool(lcg_state(*old(rng))),
{
    rng.gen::<bool>()
}

/// The value `Rng::gen_range::<u8>` draws in `[low, high)` from a
/// `rand_pcg::Lcg64Xsh32` holding `state`, and the state it leaves the
/// generator in.
pub uninterp spec fn rand_gen_range_u8(state: (u64, u64), low: u8, high: u8) -> (u8, (u64, u64));

/// Calls `Rng::gen_range::<u8>`, which panics unless `low < high` and
/// returns a value in `[low, high)` drawn from the generator's state.
#[verifier::external_body]
fn lcg_gen_range_u8(rng: &mut rand_pcg::Lcg64Xsh32, low: u8, high: u8) -> (r: u8)
    requires
        low < high,
    ensures
        (r, lcg_state(*final(rng))) == rand_gen_range_u8(lcg_state(*old(rng)), low, high),
        low <= r < high,
{
    rng.gen_range(low, high)
}

/// The value `Rng::gen_range::<u16>` draws in `[low, high)` from a
/// `rand_pcg::Lcg64Xsh32` holding `state`, and the state it leaves the
/// generator in.
pub uninterp spec fn rand_gen_range_u16(state: (u64, u64), low: u16, high: u16) -> (u16, (u64, u64));

/// Calls `Rng::gen_range::<u16>`, which panics unless `low < high` and
/// returns a value in `[low, high)` drawn from the generator's state.
#[verifier::external_body]
fn lcg_gen_range_u16(rng: &mut rand_pcg::Lcg64Xsh32, low: u16, high: u16) -> (r: u16)
    requires
        low < high,
    ensures
        (r, lcg_state(*final(rng))) == rand_gen_range_u16(lcg_state(*old(rng)), low, high),
        low <= r < high,
{
    rng.gen_range(low, high)
}

/// The value `Rng::gen_range::<u32>` draws in `[low, high)` from a
/// `rand_pcg::Lcg64Xsh32` holding `state`, and the state it leaves the
/// generator in.
pub uninterp spec fn rand_gen_range_u32(state: (u64, u64), low: u32, high: u32) -> (u32, (u64, u64));

/// Calls `Rng::gen_range::<u32>`, which panics unless `low < high` and
/// returns a value in `[low, high)` drawn from the generator's state.
#[verifier::external_body]
fn lcg_gen_range_u32(rng: &mut rand_pcg::Lcg64Xsh32, low: u32, high: u32) -> (r: u32)
    requires
        low < high,
    ensures
        (r, lcg_state(*final(rng))) == rand_gen_range_u32(lcg_state(*old(rng)), low, high),
        low <= r < high,
{
    rng.gen_range(low, high)
}

/// The value `Rng::gen_range::<u64>` draws in `[low, high)` from a
/// `rand_pcg::Lcg64Xsh32` holding `state`, and the state it leaves the
/// generator in.
pub uninterp spec fn rand_gen_range_u64(state: (u64, u64), low: u64, high: u64) -> (u64, (u64, u64));

/// Calls `Rng::gen_range::<u64>`, which panics unless `low < high` and
/// returns a value in `[low, high)` drawn from the generator's state.
#[verifier::external_body]
fn lcg_gen_range_u64(rng: &mut rand_pcg::Lcg64Xsh32, low: u64, high: u64) -> (r: u64)
    requires
        low < high,
    ensures
        (r, lcg_state(*final(rng))) == rand_gen_range_u64(lcg_state(*old(rng)), low, high),
        low <= r < high,
{
    rng.gen_range(low, high)
}

/// The value `Rng::gen_range::<usize>` draws in `[low, high)` from a
/// `rand_pcg::Lcg64Xsh32` holding `state`, and the state it leaves the
/// generator in.
pub uninterp spec fn rand_gen_range_usize(state: (u64, u64), low: usize, high: usize) -> (usize, (u64, u64));

/// Calls `Rng::gen_range::<usize>`, which panics unless `low < high` and
/// returns a value in `[low, high)` drawn from the generator's state.
#[verifier::external_body]
fn lcg_gen_range_usize(rng: &mut rand_pcg::Lcg64Xsh32, low: usize, high: usize) -> (r: usize)
    requires
        low < high,
    ensures
        (r, lcg_state(*final(rng))) == rand_gen_range_usize(lcg_state(*old(rng)), low, high),
        low <= r < high,
{
    rng.gen_range(low, high)
}

/// The value `Rng::gen_range::<i8>` draws in `[low, high)` from a
/// `rand_pcg::Lcg64Xsh32` holding `state`, and the state it leaves the
/// generator in.
pub uninterp spec fn rand_gen_range_i8(state: (u64, u64), low: i8, high: i8) -> (i8, (u64, u64));

/// Calls `Rng::gen_range::<i8>`, which panics unless `low < high` and
/// returns a value in `[low, high)` drawn from the generator's state.
#[verifier::external_body]
fn lcg_gen_range_i8(rng: &mut rand_pcg::Lcg64Xsh32, low: i8, high: i8) -> (r: i8)
    requires
        low < high,
    ensures
        (r, lcg_state(*final(rng))) == rand_gen_range_i8(lcg_state(*old(rng)), low, high),
        low <= r < high,
{
    rng.gen_range(low, high)
}

/// The value `Rng::gen_range::<i16>` draws in `[low, high)` from a
/// `rand_pcg::Lcg64Xsh32` holding `state`, and the state it leaves the
/// generator in.
pub uninterp spec fn rand_gen_range_i16(state: (u64, u64), low: i16, high: i16) -> (i16, (u64, u64));

/// Calls `Rng::gen_range::<i16>`, which panics unless `low < high` and
/// returns a value in `[low, high)` drawn from the generator's state.
#[verifier::external_body]
fn lcg_gen_range_i16(rng: &mut rand_pcg::Lcg64Xsh32, low: i16, high: i16) -> (r: i16)
    requires
        low < high,
    ensures
        (r, lcg_state(*final(rng))) == rand_gen_range_i16(lcg_state(*old(rng)), low, high),
        low <= r < high,
{
    rng.gen_range(low, high)
}

/// The value `Rng::gen_range::<i32>` draws in `[low, high)` from a
/// `rand_pcg::Lcg64Xsh32` holding `state`, and the state it leaves the
/// generator in.
pub uninterp spec fn rand_gen_range_i32(state: (u64, u64), low: i32, high: i32) -> (i32, (u64, u64));

/// Calls `Rng::gen_range::<i32>`, which panics unless `low < high` and
/// returns a value in `[low, high)` drawn from the generator's state.
#[verifier::external_body]
fn lcg_gen_range_i32(rng: &mut rand_pcg::Lcg64Xsh32, low: i32, high: i32) -> (r: i32)
    requires
        low < high,
    ensures
        (r, lcg_state(*final(rng))) == rand_gen_range_i32(lcg_state(*old(rng)), low, high),
        low <= r < high,
{
    rng.gen_range(low, high)
}

/// The value `Rng::gen_range::<i64>` draws in `[low, high)` from a
/// `rand_pcg::Lcg64Xsh32` holding `state`, and the state it leaves the
/// generator in.
pub uninterp spec fn rand_gen_range_i64(state: (u64, u64), low: i64, high: i64) -> (i64, (u64, u64));

/// Calls `Rng::gen_range::<i64>`, which panics unless `low < high` and
/// returns a value in `[low, high)` drawn from the generator's state.
#[verifier::external_body]
fn lcg_gen_range_i64(rng: &mut rand_pcg::Lcg64Xsh32, low: i64, high: i64) -> (r: i64)
    requires
        low < high,
    ensures
        (r, lcg_state(*final(rng))) == rand_gen_range_i64(lcg_state(*old(rng)), low, high),
        low <= r < high,
{
    rng.gen_range(low, high)
}

/// The value `Rng::gen_range::<isize>` draws in `[low, high)` from a
/// `rand_pcg::Lcg64Xsh32` holding `state`, and the state it leaves the
/// generator in.
pub uninterp spec fn rand_gen_range_isize(state: (u64, u64), low: isize, high: isize) -> (isize, (u64, u64));

/// Calls `Rng::gen_range::<isize>`, which panics unless `low < high` and
/// returns a value in `[low, high)` drawn from the generator's state.
#[verifier::external_body]
fn lcg_gen_range_isize(rng: &mut rand_pcg::Lcg64Xsh32, low: isize, high: isize) -> (r: isize)
    requires
        low < high,
    ensures
        (r, lcg_state(*final(rng))) == rand_gen_range_isize(lcg_state(*old(rng)), low, high),
        low <= r < high,
{
    rng.gen_range(low, high)
}

/// A type whose values `Random::gen` draws.
pub trait RandGen: Sized {
    /// The value drawn from a generator holding `state`, and its next state.
    spec fn drawn(state: (u64, u64)) -> (Self, (u64, u64));

    /// Draws a value.
    fn gen_from(rng: &mut Random) -> (r: Self)
        ensures
            (r, final(rng)@) == Self::drawn(old(rng)@),
    ;
}

/// An integer type whose values `Random::gen_range` draws between bounds.
pub trait RandGenRange: RandGen {
    /// The value drawn in `[low, high)`, and the generator's next state.
    spec fn drawn_in_range(state: (u64, u64), low: Self, high: Self) -> (Self, (u64, u64));

    /// Whether `a < b`.
    spec fn below(a: Self, b: Self) -> bool;

    /// Draws a value from `low` (included) to `high` (excluded).
    fn gen_range_from(rng: &mut Random, low: Self, high: Self) -> (r: Self)
        requires
            Self::below(low, high),
        ensures
            (r, final(rng)@) == Self::drawn_in_range(old(rng)@, low, high),
            Self::below(low, r) || r == low,
            Self::below(r, high),
    ;
}

impl RandGen for u8 {
    open spec fn drawn(state: (u64, u64)) -> (u8, (u64, u64)) {
        rand_gen_u8(state)
    }

    fn gen_from(rng: &mut Random) -> (r: u8) {
        lcg_gen_u8(&mut rng.rng)
    }
}

impl RandGen for u16 {
    open spec fn drawn(state: (u64, u64)) -> (u16, (u64, u64)) {
        rand_gen_u16(state)
    }

    fn gen_from(rng: &mut Random) -> (r: u16) {
        lcg_gen_u16(&mut rng.rng)
    }
}

impl RandGen for u32 {
    open spec fn drawn(state: (u64, u64)) -> (u32, (u64, u64)) {
        rand_gen_u32(state)
    }

    fn gen_from(rng: &mut Random) -> (r: u32) {
        lcg_gen_u32(&mut rng.rng)
    }
}

impl RandGen for u64 {
    open spec fn drawn(state: (u64, u64)) -> (u64, (u64, u64)) {
        rand_gen_u64(state)
    }

    fn gen_from(rng: &mut Random) -> (r: u64) {
        lcg_gen_u64(&mut rng.rng)
    }
}

impl RandGen for usize {
    open spec fn drawn(state: (u64, u64)) -> (usize, (u64, u64)) {
        rand_gen_usize(state)
    }

    fn gen_from(rng: &mut Random) -> (r: usize) {
        lcg_gen_usize(&mut rng.rng)
    }
}

impl RandGen for i8 {
    open spec fn drawn(state: (u64, u64)) -> (i8, (u64, u64)) {
        rand_gen_i8(state)
    }

    fn gen_from(rng: &mut Random) -> (r: i8) {
        lcg_gen_i8(&mut rng.rng)
    }
}

impl RandGen for i16 {
    open spec fn drawn(state: (u64, u64)) -> (i16, (u64, u64)) {
        rand_gen_i16(state)
    }

    fn gen_from(rng: &mut Random) -> (r: i16) {
        lcg_gen_i16(&mut rng.rng)
    }
}

impl RandGen for i32 {
    open spec fn drawn(state: (u64, u64)) -> (i32, (u64, u64)) {
        rand_gen_i32(state)
    }

    fn gen_from(rng: &mut Random) -> (r: i32) {
        lcg_gen_i32(&mut rng.rng)
    }
}

impl RandGen for i64 {
    open spec fn drawn(state: (u64, u64)) -> (i64, (u64, u64)) {
        rand_gen_i64(state)
    }

    fn gen_from(rng: &mut Random) -> (r: i64) {
        lcg_gen_i64(&mut rng.rng)
    }
}

impl RandGen for isize {
    open spec fn drawn(state: (u64, u64)) -> (isize, (u64, u64)) {
        rand_gen_isize(state)
    }

    fn gen_from(rng: &mut Random) -> (r: isize) {
        lcg_gen_isize(&mut rng.rng)
    }
}

impl RandGen for bool {
    open spec fn drawn(state: (u64, u64)) -> (bool, (u64, u64)) {
        rand_gen_bool(state)
    }

    fn gen_from(rng: &mut Random) -> (r: bool) {
        lcg_gen_bool(&mut rng.rng)
    }
}

impl RandGenRange for u8 {
    open spec fn drawn_in_range(state: (u64, u64), low: u8, high: u8) -> (u8, (u64, u64)) {
        rand_gen_range_u8(state, low, high)
    }

    open spec fn below(a: u8, b: u8) -> bool {
        a < b
    }

    fn gen_range_from(rng: &mut Random, low: u8, high: u8) -> (r: u8) {
        lcg_gen_range_u8(&mut rng.rng, low, high)
    }
}

impl RandGenRange for u16 {
    open spec fn drawn_in_range(state: (u64, u64), low: u16, high: u16) -> (u16, (u64, u64)) {
        rand_gen_range_u16(state, low, high)
    }

    open spec fn below(a: u16, b: u16) -> bool {
        a < b
    }

    fn gen_range_from(rng: &mut Random, low: u16, high: u16) -> (r: u16) {
        lcg_gen_range_u16(&mut rng.rng, low, high)
    }
}

impl RandGenRange for u32 {
    open spec fn drawn_in_range(state: (u64, u64), low: u32, high: u32) -> (u32, (u64, u64)) {
        rand_gen_range_u32(state, low, high)
    }

    open spec fn below(a: u32, b: u32) -> bool {
        a < b
    }

    fn gen_range_from(rng: &mut Random, low: u32, high: u32) -> (r: u32) {
        lcg_gen_range_u32(&mut rng.rng, low, high)
    }
}

impl RandGenRange for u64 {
    open spec fn drawn_in_range(state: (u64, u64), low: u64, high: u64) -> (u64, (u64, u64)) {
        rand_gen_range_u64(state, low, high)
    }

    open spec fn below(a: u64, b: u64) -> bool {
        a < b
    }

    fn gen_range_from(rng: &mut Random, low: u64, high: u64) -> (r: u64) {
        lcg_gen_range_u64(&mut rng.rng, low, high)
    }
}

impl RandGenRange for usize {
    open spec fn drawn_in_range(state: (u64, u64), low: usize, high: usize) -> (usize, (u64, u64)) {
        rand_gen_range_usize(state, low, high)
    }

    open spec fn below(a: usize, b: usize) -> bool {
        a < b
    }

    fn gen_range_from(rng: &mut Random, low: usize, high: usize) -> (r: usize) {
        lcg_gen_range_usize(&mut rng.rng, low, high)
    }
}

impl RandGenRange for i8 {
    open spec fn drawn_in_range(state: (u64, u64), low: i8, high: i8) -> (i8, (u64, u64)) {
        rand_gen_range_i8(state, low, high)
    }

    open spec fn below(a: i8, b: i8) -> bool {
        a < b
    }

    fn gen_range_from(rng: &mut Random, low: i8, high: i8) -> (r: i8) {
        lcg_gen_range_i8(&mut rng.rng, low, high)
    }
}

impl RandGenRange for i16 {
    open spec fn drawn_in_range(state: (u64, u64), low: i16, high: i16) -> (i16, (u64, u64)) {
        rand_gen_range_i16(state, low, high)
    }

    open spec fn below(a: i16, b: i16) -> bool {
        a < b
    }

    fn gen_range_from(rng: &mut Random, low: i16, high: i16) -> (r: i16) {
        lcg_gen_range_i16(&mut rng.rng, low, high)
    }
}

impl RandGenRange for i32 {
    open spec fn drawn_in_range(state: (u64, u64), low: i32, high: i32) -> (i32, (u64, u64)) {
        rand_gen_range_i32(state, low, high)
    }

    open spec fn below(a: i32, b: i32) -> bool {
        a < b
    }

    fn gen_range_from(rng: &mut Random, low: i32, high: i32) -> (r: i32) {
        lcg_gen_range_i32(&mut rng.rng, low, high)
    }
}

impl RandGenRange for i64 {
    open spec fn drawn_in_range(state: (u64, u64), low: i64, high: i64) -> (i64, (u64, u64)) {
        rand_gen_range_i64(state, low, high)
    }

    open spec fn below(a: i64, b: i64) -> bool {
        a < b
    }

    fn gen_range_from(rng: &mut Random, low: i64, high: i64) -> (r: i64) {
        lcg_gen_range_i64(&mut rng.rng, low, high)
    }
}

impl RandGenRange for isize {
    open spec fn drawn_in_range(state: (u64, u64), low: isize, high: isize) -> (isize, (u64, u64)) {
        rand_gen_range_isize(state, low, high)
    }

    open spec fn below(a: isize, b: isize) -> bool {
        a < b
    }

    fn gen_range_from(rng: &mut Random, low: isize, high: isize) -> (r: isize) {
        lcg_gen_range_isize(&mut rng.rng, low, high)
    }
}

/// Generates random numbers with the PCG32 algorithm of `rand_pcg`.
pub struct Random {
    rng: rand_pcg::Lcg64Xsh32,
}

impl View for Random {
    /// The `(state, increment)` of the generator.
    type V = (u64, u64);

    closed spec fn view(&self) -> (u64, u64) {
        lcg_state(self.rng)
    }
}

impl Random {
    /// Creates a generator seeded with `seed`.
    pub fn new(seed: u64) -> (r: Self)
        ensures
            r@ == pcg32_seeded_from_u64(seed),
            r@.1 % 2 == 1,
    {
        Self { rng: pcg32_seed_from_u64(seed) }
    }

    /// Replaces the generator with one seeded with `seed`.
    pub fn reseed(&mut self, seed: u64)
        ensures
            final(self)@ == pcg32_seeded_from_u64(seed),
            final(self)@.1 % 2 == 1,
    {
        self.rng = pcg32_seed_from_u64(seed);
    }

    /// Draws a value of type `T`.
    pub fn gen<T: RandGen>(&mut self) -> (r: T)
        ensures
            (r, final(self)@) == T::drawn(old(self)@),
    {
        T::gen_from(self)
    }

    /// Draws a value of type `T` from `min` (included) to `max` (excluded);
    /// `min` must be below `max`.
    pub fn gen_range<T: RandGenRange>(&mut self, min: T, max: T) -> (r: T)
        requires
            T::below(min, max),
        ensures
            (r, final(self)@) == T::drawn_in_range(old(self)@, min, max),
            T::below(min, r) || r == min,
            T::below(r, max),
    {
        T::gen_range_from(self, min, max)
    }

    /// Shuffles `slice` in place: the result is a permutation of it, in the
    /// order the generator's state picks, and the generator advances.
    pub fn shuffle<T>(&mut self, slice: &mut [T])
        ensures
            final(slice)@.len() == old(slice)@.len(),
            final(slice)@.to_multiset() == old(slice)@.to_multiset(),
            final(slice)@ == Seq::new(
                old(slice)@.len(),
                |i: int| old(slice)@[slice_shuffle(old(self)@, old(slice)@.len()).0[i]],
            ),
            final(self)@ == slice_shuffle(old(self)@, old(slice)@.len()).1,
    {
        shuffle_slice(slice, &mut self.rng);
    }
}

/// The operating system could not supply randomness.
#[derive(Debug, Clone, Copy, Eq, PartialEq, Structural)]
pub struct EntropyUnavailable;

/// The seed `Random::default` falls back to when the operating system
/// cannot supply randomness.
pub const FALLBACK_SEED: u64 = 0;

impl Random {
    /// A generator seeded from the operating system's randomness, or
    /// `EntropyUnavailable` when the system cannot supply it.  Which of the
    /// two, and which generator, depends on the system; every generator it
    /// gives has an odd increment.
    pub fn from_entropy() -> (r: Result<Self, EntropyUnavailable>)
        ensures
            r matches Ok(g) ==> g@.1 % 2 == 1,
    {
        match pcg32_from_os_rng() {
            Ok(rng) => Ok(Self { rng }),
            Err(_) => Err(EntropyUnavailable),
        }
    }
}

impl Default for Random {
    /// A generator seeded from the operating system's randomness; when the
    /// system cannot supply it, the generator seeded with `FALLBACK_SEED`.
    fn default() -> (r: Self)
        ensures
            r@.1 % 2 == 1,
    {
        match Self::from_entropy() {
            Ok(r) => r,
            Err(_) => Self::new(FALLBACK_SEED),
        }
    }
}

/// `bag` in the order a shuffle by a generator holding `state` leaves it.
pub open spec fn shuffled(bag: Seq<usize>, state: (u64, u64)) -> Seq<usize> {
    Seq::new(bag.len(), |i: int| bag[slice_shuffle(state, bag.len()).0[i]])
}

/// One `ShuffleBag::item` call on a bag with `bag`, `drawn` entries of the
/// round handed out and a generator holding `rng`, when some item was added:
/// the entry handed out, then the new bag, count and generator state.  At the
/// end of a round the bag is shuffled first and the round restarts.
pub open spec fn item_next(bag: Seq<usize>, drawn: nat, rng: (u64, u64)) -> (
    usize,
    Seq<usize>,
    nat,
    (u64, u64),
) {
    if drawn < bag.len() {
        (bag[drawn as int], bag, drawn + 1, rng)
    } else {
        let b = shuffled(bag, rng);
        (b[0], b, 1, state_after_shuffle(rng, bag.len()))
    }
}

/// The entries `k` consecutive `item` calls hand out, from a bag with `bag`,
/// `drawn` and `rng`.
pub open spec fn entries_handed(bag: Seq<usize>, drawn: nat, rng: (u64, u64), k: nat) -> Seq<usize>
    decreases k,
{
    if k == 0 {
        Seq::empty()
    } else {
        let (e, b, d, r) = item_next(bag, drawn, rng);
        seq![e] + entries_handed(b, d, r, (k - 1) as nat)
    }
}

/// The bag, count and generator state after `k` consecutive `item` calls.
pub open spec fn after_items(bag: Seq<usize>, drawn: nat, rng: (u64, u64), k: nat) -> (
    Seq<usize>,
    nat,
    (u64, u64),
)
    decreases k,
{
    if k == 0 {
        (bag, drawn, rng)
    } else {
        let (e, b, d, r) = item_next(bag, drawn, rng);
        after_items(b, d, r, (k - 1) as nat)
    }
}

/// The state a generator holding `state` is left in after shuffling a bag of
/// `len` entries.
pub open spec fn state_after_shuffle(state: (u64, u64), len: nat) -> (u64, u64) {
    slice_shuffle(state, len).1
}

/// `amount` copies of `index`.
pub open spec fn copies(index: usize, amount: nat) -> Seq<usize> {
    Seq::new(amount, |_i: int| index)
}

/// A bag of items that hands them out in random order.  Each item is in the
/// bag as many times as it was added; once every entry has been handed out
/// the bag is shuffled again and the round restarts.
pub struct ShuffleBag<T> where T: Sized + Clone {
    rng: Random,
    index: usize,
    items: Vec<T>,
    bag: Vec<usize>,
}

impl<T> ShuffleBag<T> where T: Sized + Clone {
    /// The distinct items, in the order they were added.
    pub closed spec fn items(&self) -> Seq<T> {
        self.items@
    }

    /// The bag: indices into `items()`, one per entry, in drawing order.
    pub closed spec fn bag(&self) -> Seq<usize> {
        self.bag@
    }

    /// The state of the generator that shuffles the bag.
    pub closed spec fn rng_state(&self) -> (u64, u64) {
        self.rng@
    }

    /// How many entries of the current round have been handed out.
    pub closed spec fn drawn(&self) -> nat {
        self.index as nat
    }

    /// Every bag entry names an item, and the round has not run past the bag.
    pub closed spec fn wf(&self) -> bool {
        &&& self.index <= self.bag@.len()
        &&& forall|i: int| 0 <= i < self.bag@.len() ==> #[trigger] self.bag@[i] < self.items@.len()
    }

    /// An empty bag whose shuffles are seeded with `seed`.
    pub fn new(seed: u64, capacity: usize) -> (r: Self)
        ensures
            r.wf(),
            r.items() == Seq::<T>::empty(),
            r.bag() == Seq::<usize>::empty(),
            r.drawn() == 0,
            r.rng_state() == pcg32_seeded_from_u64(seed),
    {
        Self { rng: Random::new(seed), index: 0, items: Vec::new(), bag: Vec::with_capacity(capacity) }
    }

    /// Adds `item` to the bag `amount` times, then shuffles the whole bag and
    /// restarts the round.
    pub fn add(&mut self, item: T, amount: usize)
        requires
            old(self).wf(),
        ensures
            final(self).wf(),
            final(self).items() == old(self).items().push(item),
            final(self).bag().len() == old(self).bag().len() + amount,
            final(self).bag().to_multiset() == (old(self).bag() + copies(
                old(self).items().len() as usize,
                amount as nat,
            )).to_multiset(),
            final(self).bag() == shuffled(
                old(self).bag() + copies(old(self).items().len() as usize, amount as nat),
                old(self).rng_state(),
            ),
            final(self).rng_state() == state_after_shuffle(
                old(self).rng_state(),
                old(self).bag().len() + amount as nat,
            ),
            final(self).drawn() == 0,
    {
        let mut items: Vec<T> = Vec::new();
        std::mem::swap(&mut items, &mut self.items);
        let mut bag: Vec<usize> = Vec::new();
        std::mem::swap(&mut bag, &mut self.bag);
        self.index = 0;
        let ghost old_items = items@;
        let ghost old_bag = bag@;
        items.push(item);
        let index = items.len() - 1;
        let mut k: usize = 0;
        while k < amount
            invariant
                k <= amount,
                index == old_items.len(),
                items@.len() == old_items.len() + 1,
                bag@ == old_bag + copies(index, k as nat),
                forall|i: int| 0 <= i < old_bag.len() ==> #[trigger] old_bag[i] < old_items.len(),
            decreases amount - k,
        {
            bag.push(index);
            k = k + 1;
            assert(bag@ =~= old_bag + copies(index, k as nat));
        }
        let ghost added = bag@;
        self.rng.shuffle(bag.as_mut_slice());
        proof {
            assert forall|i: int| 0 <= i < bag@.len() implies #[trigger] bag@[i] < items@.len() by {
                assert(bag@.to_multiset().count(bag@[i]) > 0);
                assert(added.contains(bag@[i]));
                let j = choose|j: int| 0 <= j < added.len() && added[j] == bag@[i];
                if j < old_bag.len() {
                    assert(added[j] == old_bag[j]);
                } else {
                    assert(added[j] == copies(index, amount as nat)[j - old_bag.len()]);
                }
            }
        }
        self.items = items;
        self.bag = bag;
    }

    /// Hands out the next item of the round, shuffling the bag and restarting
    /// the round first when every entry has been handed out.  Returns `None`
    /// when no item was ever added.
    pub fn item(&mut self) -> (r: Option<&T>)
        requires
            old(self).wf(),
            old(self).items().len() == 0 || old(self).bag().len() > 0,
        ensures
            final(self).wf(),
            old(self).items().len() == 0 ==> r.is_none() && final(self).bag() == old(self).bag()
                && final(self).drawn() == old(self).drawn(),
            old(self).items().len() > 0 ==> {
                &&& r == Some(&final(self).items()[final(self).bag()[final(self).drawn() - 1] as int])
                &&& old(self).drawn() < old(self).bag().len() ==> final(self).bag() == old(self).bag()
                    && final(self).drawn() == old(self).drawn() + 1
                    && final(self).rng_state() == old(self).rng_state()
                &&& old(self).drawn() >= old(self).bag().len() ==> final(self).drawn() == 1
                    && final(self).bag() == shuffled(old(self).bag(), old(self).rng_state())
                    && final(self).rng_state() == state_after_shuffle(
                    old(self).rng_state(),
                    old(self).bag().len(),
                )
                &&& item_next(old(self).bag(), old(self).drawn(), old(self).rng_state()) == (
                    final(self).bag()[final(self).drawn() - 1],
                    final(self).bag(),
                    final(self).drawn(),
                    final(self).rng_state(),
                )
            },
            old(self).items().len() == 0 ==> final(self).rng_state() == old(self).rng_state(),
            final(self).items() == old(self).items(),
            final(self).bag().to_multiset() == old(self).bag().to_multiset(),
            final(self).bag().len() == old(self).bag().len(),
    {
        if self.items.len() == 0 {
            return None;
        }
        if self.index >= self.bag.len() {
            self.reset();
        }
        let position = self.index;
        self.index = position + 1;
        let chosen = self.bag[position];
        Some(&self.items[chosen])
    }

    /// Shuffles the whole bag and restarts the round.
    pub fn reset(&mut self)
        requires
            old(self).wf(),
        ensures
            final(self).wf(),
            final(self).items() == old(self).items(),
            final(self).bag().len() == old(self).bag().len(),
            final(self).bag().to_multiset() == old(self).bag().to_multiset(),
            final(self).bag() == shuffled(old(self).bag(), old(self).rng_state()),
            final(self).rng_state() == state_after_shuffle(old(self).rng_state(), old(self).bag().len()),
            final(self).drawn() == 0,
    {
        let mut bag: Vec<usize> = Vec::new();
        std::mem::swap(&mut bag, &mut self.bag);
        self.index = 0;
        let ghost before = bag@;
        self.rng.shuffle(bag.as_mut_slice());
        proof {
            assert forall|i: int| 0 <= i < bag@.len() implies #[trigger] bag@[i] < self.items@.len() by {
                assert(bag@.to_multiset().count(bag@[i]) > 0);
                assert(before.contains(bag@[i]));
            }
        }
        self.bag = bag;
    }
}


/// The entries of a bag to which items `0, 1, ...` were added with the given
/// amounts, in that order, before any shuffle: `amounts[0]` copies of `0`,
/// then `amounts[1]` copies of `1`, and so on.
pub open spec fn added_entries(amounts: Seq<nat>) -> Seq<usize>
    decreases amounts.len(),
{
    if amounts.len() == 0 {
        Seq::empty()
    } else {
        added_entries(amounts.drop_last()) + copies((amounts.len() - 1) as usize, amounts.last())
    }
}

/// The sum of the amounts.
pub open spec fn total(amounts: Seq<nat>) -> nat
    decreases amounts.len(),
{
    if amounts.len() == 0 {
        0
    } else {
        total(amounts.drop_last()) + amounts.last()
    }
}

proof fn lemma_copies_count(index: usize, amount: nat, j: usize)
    ensures
        copies(index, amount).to_multiset().count(j) == (if j == index { amount } else { 0 }),
    decreases amount,
{
    broadcast use vstd::multiset::group_multiset_axioms;
    if amount == 0 {
        assert(copies(index, 0) =~= Seq::<usize>::empty());
    } else {
        lemma_copies_count(index, (amount - 1) as nat, j);
        assert(copies(index, amount) =~= copies(index, (amount - 1) as nat).push(index));
    }
}

/// Adding an item with `amount` copies to a bag holding the entries of
/// earlier adds gives the entries of all the adds: each `add` keeps a bag
/// built by adds a bag built by adds, whatever the shuffles did to its order.
pub proof fn law_add_extends_entries(bag: Seq<usize>, amounts: Seq<nat>, amount: nat)
    requires
        amounts.len() < usize::MAX,
        bag.to_multiset() == added_entries(amounts).to_multiset(),
    ensures
        (bag + copies(amounts.len() as usize, amount)).to_multiset() == added_entries(
            amounts.push(amount),
        ).to_multiset(),
{
    broadcast use vstd::seq_lib::lemma_multiset_commutative;
    assert(amounts.push(amount).drop_last() =~= amounts);
}

proof fn lemma_entries(amounts: Seq<nat>, j: usize)
    requires
        amounts.len() <= usize::MAX,
    ensures
        added_entries(amounts).len() == total(amounts),
        added_entries(amounts).to_multiset().count(j) == (if j < amounts.len() {
            amounts[j as int]
        } else {
            0
        }),
    decreases amounts.len(),
{
    broadcast use vstd::seq_lib::lemma_multiset_commutative;
    broadcast use vstd::multiset::group_multiset_axioms;
    if amounts.len() == 0 {
        assert(added_entries(amounts) =~= Seq::<usize>::empty());
        vstd::seq_lib::to_multiset_contains(added_entries(amounts), j);
    } else {
        let prev = amounts.drop_last();
        let last = (amounts.len() - 1) as usize;
        lemma_entries(prev, j);
        lemma_copies_count(last, amounts.last(), j);
        let rest = added_entries(prev);
        let more = copies(last, amounts.last());
        assert(added_entries(amounts) == rest + more);
        assert((rest + more).to_multiset() =~= rest.to_multiset().add(more.to_multiset()));
        assert(added_entries(amounts).to_multiset().count(j) == rest.to_multiset().count(j)
            + more.to_multiset().count(j));
        if j < prev.len() {
            assert(amounts[j as int] == prev[j as int]);
        } else if j == last {
            assert(amounts[j as int] == amounts.last());
        }
    }
}

/// A bag holding the entries of adds with the given amounts has `total`
/// entries, and item `j` stands in it exactly `amounts[j]` times (no times
/// for an index that was never added).  A round hands the entries out in bag
/// order (`ShuffleBag::item`), so over every round each item comes out
/// exactly as many times as it was added.
pub proof fn law_round_counts(bag: Seq<usize>, amounts: Seq<nat>, j: usize)
    requires
        amounts.len() <= usize::MAX,
        bag.to_multiset() == added_entries(amounts).to_multiset(),
    ensures
        bag.len() == total(amounts),
        bag.to_multiset().count(j) == (if j < amounts.len() { amounts[j as int] } else { 0 }),
{
    lemma_entries(amounts, j);
    vstd::seq_lib::to_multiset_len(bag);
    vstd::seq_lib::to_multiset_len(added_entries(amounts));
}

proof fn lemma_block_within_round(bag: Seq<usize>, drawn: nat, rng: (u64, u64), k: nat)
    requires
        drawn + k <= bag.len(),
    ensures
        entries_handed(bag, drawn, rng, k) == bag.subrange(drawn as int, (drawn + k) as int),
        after_items(bag, drawn, rng, k) == (bag, drawn + k, rng),
    decreases k,
{
    if k > 0 {
        lemma_block_within_round(bag, drawn + 1, rng, (k - 1) as nat);
        assert(seq![bag[drawn as int]] + bag.subrange((drawn + 1) as int, (drawn + k) as int) =~= bag.subrange(
            drawn as int,
            (drawn + k) as int,
        ));
    }
}

/// Every round of a shuffle bag hands its entries out once each, in bag
/// order: starting a round (right after `add` or `reset`), `n` consecutive
/// `item` calls on a bag of `n` entries hand out exactly the bag, and leave
/// the bag and generator as they were with the round complete; the next call
/// shuffles the bag and starts the next round with its first entry.  With
/// `law_round_counts`, each block of `n` calls hands out item `j` exactly as
/// many times as it was added.
pub proof fn law_round_hands_out_bag(bag: Seq<usize>, rng: (u64, u64))
    requires
        bag.len() > 0,
    ensures
        entries_handed(bag, 0, rng, bag.len()) == bag,
        after_items(bag, 0, rng, bag.len()) == (bag, bag.len(), rng),
        item_next(bag, bag.len(), rng) == (
            shuffled(bag, rng)[0],
            shuffled(bag, rng),
            1nat,
            state_after_shuffle(rng, bag.len()),
        ),
{
    lemma_block_within_round(bag, 0, rng, bag.len());
    assert(bag.subrange(0, bag.len() as int) =~= bag);
}

/// Over a round started on a bag holding the entries of adds with the given
/// amounts, the `item` calls hand out item `j` exactly `amounts[j]` times.
pub proof fn law_round_hands_out_amounts(bag: Seq<usize>, rng: (u64, u64), amounts: Seq<nat>, j: usize)
    requires
        bag.len() > 0,
        amounts.len() <= usize::MAX,
        bag.to_multiset() == added_entries(amounts).to_multiset(),
    ensures
        entries_handed(bag, 0, rng, bag.len()).to_multiset().count(j) == (if j < amounts.len() {
            amounts[j as int]
        } else {
            0
        }),
{
    law_round_hands_out_bag(bag, rng);
    law_round_counts(bag, amounts, j);
}

} // verus!
