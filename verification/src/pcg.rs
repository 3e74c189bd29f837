//! A PCG32 pseudo random generator and a small `Random` front end built on it.
//!
//! The generator follows pcg-c-basic with one difference kept on purpose: the
//! left half of the output rotation shifts by `(!rot) & 31` rather than
//! `(-rot) & 31`.  Extra helpers produce `u64` values from two 32-bit draws and
//! seed the generator from a single `u64`.

use vstd::prelude::*;
use vstd::wrapping::u64_specs;

verus! {

/// Multiplier of the linear congruential step.
pub const PCG_MULTIPLIER: u64 = 6364136223846793005;

/// State used by `PCG32::default`.
pub const DEFAULT_STATE: u64 = 0x853c49e6748fea9b;

/// Sequence used by `PCG32::default`.
pub const DEFAULT_SEQ: u64 = 0xda3e39cb94b95bdb;

/// One step of the linear congruential generator.
#[verifier::opaque]
pub open spec fn pcg_step(state: u64, inc: u64) -> u64 {
    u64_specs::wrapping_add(u64_specs::wrapping_mul(state, PCG_MULTIPLIER), inc)
}

/// The 32-bit value produced from the state before a step.
#[verifier::opaque]
pub open spec fn pcg_output(state: u64) -> u32 {
    let xorshifted = (((state >> 18u64) ^ state) >> 27u64) as u32;
    let rot = (state >> 59u64) as u32;
    (xorshifted >> rot) | (xorshifted << ((!rot) & 31u32))
}

/// The state after `n` steps.
pub open spec fn pcg_state_after(state: u64, inc: u64, n: nat) -> u64
    decreases n,
{
    if n == 0 {
        state
    } else {
        pcg_step(pcg_state_after(state, inc, (n - 1) as nat), inc)
    }
}

/// The first `n` values produced from `state`.
pub open spec fn pcg_outputs(state: u64, inc: u64, n: nat) -> Seq<u32>
    decreases n,
{
    if n == 0 {
        Seq::empty()
    } else {
        pcg_outputs(state, inc, (n - 1) as nat).push(
            pcg_output(pcg_state_after(state, inc, (n - 1) as nat)),
        )
    }
}

/// The stream increment chosen by a sequence number: always odd.
pub open spec fn pcg_increment(init_seq: u64) -> u64 {
    (init_seq << 1u64) | 1u64
}

/// The state after seeding with `init_state` and `init_seq`.
pub open spec fn pcg_seeded_state(init_state: u64, init_seq: u64) -> u64 {
    let inc = pcg_increment(init_seq);
    pcg_step(u64_specs::wrapping_add(pcg_step(0, inc), init_state), inc)
}

/// A `u64` made of two 32-bit draws: the first is the low word.
pub open spec fn u64_from_draws(low: u32, high: u32) -> u64 {
    ((high as u64) << 32u64) | (low as u64)
}

/// The `(state, sequence)` pair derived from a single `u64` seed.
pub open spec fn state_seq_from_seed(seed: u64) -> (u64, u64) {
    (u64_specs::wrapping_add(seed, DEFAULT_STATE), u64_specs::wrapping_add(seed, DEFAULT_SEQ))
}

/// A PCG32 generator: a 64-bit state and an odd 64-bit stream increment.
pub struct PCG32 {
    state: u64,
    inc: u64,
}

impl View for PCG32 {
    /// `(state, increment)`
    type V = (u64, u64);

    closed spec fn view(&self) -> (u64, u64) {
        (self.state, self.inc)
    }
}

impl PCG32 {
    /// The generator right after seeding with `init_state` and `init_seq`.
    pub open spec fn seeded(init_state: u64, init_seq: u64) -> (u64, u64) {
        (pcg_seeded_state(init_state, init_seq), pcg_increment(init_seq))
    }

    /// Creates a generator seeded with `state` and the stream `inc`.
    pub fn new(state: u64, inc: u64) -> (rnd: Self)
        ensures
            rnd@ == Self::seeded(state, inc),
    {
        let mut rnd = PCG32 { state: 0, inc: 0 };
        rnd.reseed(state, inc);
        rnd
    }

    /// Restarts the generator from `init_state` and the stream `init_seq`,
    /// whatever it held before.
    pub fn reseed(&mut self, init_state: u64, init_seq: u64)
        ensures
            final(self)@ == Self::seeded(init_state, init_seq),
    {
        proof {
            reveal(pcg_step);
        }
        self.state = 0;
        self.inc = (init_seq << 1) | 1;
        self.next_u32();
        self.state = self.state.wrapping_add(init_state);
        self.next_u32();
    }

    /// Returns the next 32-bit value and advances the state one step.
    pub fn next_u32(&mut self) -> (r: u32)
        ensures
            r == pcg_output(old(self)@.0),
            final(self)@ == (pcg_step(old(self)@.0, old(self)@.1), old(self)@.1),
    {
        proof {
            reveal(pcg_step);
            reveal(pcg_output);
        }
        let old_state = self.state;
        self.state = old_state.wrapping_mul(PCG_MULTIPLIER).wrapping_add(self.inc);
        let xorshifted = (((old_state >> 18) ^ old_state) >> 27) as u32;
        let rot = (old_state >> 59) as u32;
        assert(rot < 32u32 && (!rot) & 31u32 < 32u32) by (bit_vector)
            requires
                rot == (old_state >> 59u64) as u32,
        ;
        (xorshifted >> rot) | (xorshifted << ((!rot) & 31))
    }

    /// Returns a `u64` made of the next two 32-bit values, the first one as
    /// the low word.
    pub fn next_u64(&mut self) -> (r: u64)
        ensures
            r == u64_from_draws(
                pcg_output(old(self)@.0),
                pcg_output(pcg_step(old(self)@.0, old(self)@.1)),
            ),
            final(self)@ == (pcg_state_after(old(self)@.0, old(self)@.1, 2), old(self)@.1),
    {
        let ghost s0 = self.state;
        let ghost inc = self.inc;
        let lo = self.next_u32();
        let hi = self.next_u32();
        assert(pcg_state_after(s0, inc, 2) == pcg_step(pcg_step(s0, inc), inc)) by {
            reveal_with_fuel(pcg_state_after, 3);
        }
        let x = lo as u64;
        let y = hi as u64;
        (y << 32) | x
    }

    /// Creates a generator from a single `u64` seed.
    pub fn from_u64_seed(seed: u64) -> (rnd: Self)
        ensures
            rnd@ == Self::seeded(state_seq_from_seed(seed).0, state_seq_from_seed(seed).1),
    {
        let (state, seq) = get_state_seq_from_seed(seed);
        Self::new(state, seq)
    }

    /// Restarts the generator from a single `u64` seed.
    pub fn reseed_u64(&mut self, seed: u64)
        ensures
            final(self)@ == Self::seeded(state_seq_from_seed(seed).0, state_seq_from_seed(seed).1),
    {
        let (state, seq) = get_state_seq_from_seed(seed);
        self.reseed(state, seq);
    }
}

impl Default for PCG32 {
    fn default() -> (rnd: Self)
        ensures
            rnd@ == Self::seeded(DEFAULT_STATE, DEFAULT_SEQ),
    {
        Self::new(DEFAULT_STATE, DEFAULT_SEQ)
    }
}

/// Splits a single `u64` seed into a state and a sequence number by adding
/// it, wrapping, to the default state and sequence.
pub fn get_state_seq_from_seed(seed: u64) -> (r: (u64, u64))
    ensures
        r == state_seq_from_seed(seed),
{
    let state: u64 = seed.wrapping_add(DEFAULT_STATE);
    let seq: u64 = seed.wrapping_add(DEFAULT_SEQ);
    (state, seq)
}


/// `i64::MAX` as an unsigned value: the modulus of signed 64-bit draws.
pub const MAX_I64_AS_U64: u64 = 0x7fff_ffff_ffff_ffff;

/// `i32::MAX` as an unsigned value: the modulus of signed 32-bit draws.
pub const MAX_I32_AS_U32: u32 = 0x7fff_ffff;

/// Value drawn in `[min, max]` from a raw unsigned draw, for unsigned types.
pub open spec fn unsigned_in_range(raw: int, min: int, max: int) -> int {
    raw % (max + 1 - min) + min
}

/// Value drawn from a non-negative raw signed draw: Rust's `%` on a
/// non-negative left operand is the remainder by the divisor's magnitude.
pub open spec fn signed_in_range(raw: int, min: int, max: int) -> int {
    let d = max + 1 - min;
    let magnitude = if d < 0 { -d } else { d };
    raw % magnitude + min
}

/// Inputs on which a signed range draw computes without overflow whatever the
/// raw draw in `[0, raw_max]` is.
pub open spec fn signed_range_accepted(min: int, max: int, lo: int, hi: int, raw_max: int) -> bool {
    let d = max + 1 - min;
    let magnitude = if d < 0 { -d } else { d };
    let worst = if magnitude - 1 < raw_max { magnitude - 1 } else { raw_max };
    &&& max + 1 <= hi
    &&& lo <= d <= hi
    &&& d != 0
    &&& min + worst <= hi
}

/// A type whose values can be drawn from a `PCG32`.
pub trait RngType: Sized {
    /// How many 32-bit values one draw consumes.
    spec fn draws_used() -> nat;

    /// The value a draw makes of the 32-bit values it consumed, in order.
    spec fn from_draws(draws: Seq<u32>) -> Self;

    /// Draws a value, consuming `draws_used()` outputs of the generator.
    fn random_pcg(rnd: &mut PCG32) -> (r: Self)
        ensures
            final(rnd)@ == (
                pcg_state_after(old(rnd)@.0, old(rnd)@.1, Self::draws_used()),
                old(rnd)@.1,
            ),
            r == Self::from_draws(pcg_outputs(old(rnd)@.0, old(rnd)@.1, Self::draws_used())),
    ;
}

/// A type whose values can be drawn from a `PCG32` between two bounds.
pub trait RngRandomType: RngType {
    /// Bounds on which a draw computes without overflow or division by zero.
    spec fn range_accepted(min: Self, max: Self) -> bool;

    /// The value a ranged draw makes of the 32-bit values it consumed.
    spec fn from_draws_in_range(draws: Seq<u32>, min: Self, max: Self) -> Self;

    /// Draws a value from `min` to `max`, both included when `min <= max`.
    fn random_range_pcg(rnd: &mut PCG32, min: Self, max: Self) -> (r: Self)
        requires
            Self::range_accepted(min, max),
        ensures
            final(rnd)@ == (
                pcg_state_after(old(rnd)@.0, old(rnd)@.1, Self::draws_used()),
                old(rnd)@.1,
            ),
            r == Self::from_draws_in_range(
                pcg_outputs(old(rnd)@.0, old(rnd)@.1, Self::draws_used()),
                min,
                max,
            ),
    ;
}

proof fn lemma_one_draw(state: u64, inc: u64)
    ensures
        pcg_state_after(state, inc, 1) == pcg_step(state, inc),
        pcg_outputs(state, inc, 1) == seq![pcg_output(state)],
{
    reveal_with_fuel(pcg_state_after, 2);
    reveal_with_fuel(pcg_outputs, 2);
    assert(pcg_outputs(state, inc, 1) =~= seq![pcg_output(state)]);
}

proof fn lemma_two_draws(state: u64, inc: u64)
    ensures
        pcg_state_after(state, inc, 2) == pcg_step(pcg_step(state, inc), inc),
        pcg_outputs(state, inc, 2) == seq![pcg_output(state), pcg_output(pcg_step(state, inc))],
{
    reveal_with_fuel(pcg_state_after, 3);
    reveal_with_fuel(pcg_outputs, 3);
    assert(pcg_outputs(state, inc, 2) =~= seq![pcg_output(state), pcg_output(pcg_step(state, inc))]);
}

impl RngType for u32 {
    open spec fn draws_used() -> nat {
        1
    }

    open spec fn from_draws(draws: Seq<u32>) -> u32 {
        draws[0]
    }

    fn random_pcg(rnd: &mut PCG32) -> (r: u32) {
        proof {
            lemma_one_draw(rnd@.0, rnd@.1);
        }
        rnd.next_u32()
    }
}

impl RngType for u64 {
    open spec fn draws_used() -> nat {
        2
    }

    open spec fn from_draws(draws: Seq<u32>) -> u64 {
        u64_from_draws(draws[0], draws[1])
    }

    fn random_pcg(rnd: &mut PCG32) -> (r: u64) {
        proof {
            lemma_two_draws(rnd@.0, rnd@.1);
        }
        rnd.next_u64()
    }
}

impl RngType for i32 {
    open spec fn draws_used() -> nat {
        1
    }

    open spec fn from_draws(draws: Seq<u32>) -> i32 {
        (draws[0] % MAX_I32_AS_U32) as i32
    }

    fn random_pcg(rnd: &mut PCG32) -> (r: i32) {
        proof {
            lemma_one_draw(rnd@.0, rnd@.1);
        }
        (rnd.next_u32() % MAX_I32_AS_U32) as i32
    }
}

impl RngType for i64 {
    open spec fn draws_used() -> nat {
        2
    }

    open spec fn from_draws(draws: Seq<u32>) -> i64 {
        (u64_from_draws(draws[0], draws[1]) % MAX_I64_AS_U64) as i64
    }

    fn random_pcg(rnd: &mut PCG32) -> (r: i64) {
        proof {
            lemma_two_draws(rnd@.0, rnd@.1);
        }
        (rnd.next_u64() % MAX_I64_AS_U64) as i64
    }
}

impl RngRandomType for u32 {
    open spec fn range_accepted(min: u32, max: u32) -> bool {
        min <= max < u32::MAX
    }

    open spec fn from_draws_in_range(draws: Seq<u32>, min: u32, max: u32) -> u32 {
        unsigned_in_range(Self::from_draws(draws) as int, min as int, max as int) as u32
    }

    fn random_range_pcg(rnd: &mut PCG32, min: u32, max: u32) -> (r: u32) {
        let raw = u32::random_pcg(rnd);
        let d = max + 1 - min;
        raw % d + min
    }
}

impl RngRandomType for u64 {
    open spec fn range_accepted(min: u64, max: u64) -> bool {
        min <= max < u64::MAX
    }

    open spec fn from_draws_in_range(draws: Seq<u32>, min: u64, max: u64) -> u64 {
        unsigned_in_range(Self::from_draws(draws) as int, min as int, max as int) as u64
    }

    fn random_range_pcg(rnd: &mut PCG32, min: u64, max: u64) -> (r: u64) {
        let raw = u64::random_pcg(rnd);
        let d = max + 1 - min;
        raw % d + min
    }
}

impl RngRandomType for i32 {
    open spec fn range_accepted(min: i32, max: i32) -> bool {
        signed_range_accepted(min as int, max as int, i32::MIN as int, i32::MAX as int, i32::MAX - 1)
    }

    open spec fn from_draws_in_range(draws: Seq<u32>, min: i32, max: i32) -> i32 {
        signed_in_range(Self::from_draws(draws) as int, min as int, max as int) as i32
    }

    fn random_range_pcg(rnd: &mut PCG32, min: i32, max: i32) -> (r: i32) {
        let raw = i32::random_pcg(rnd);
        let d = max + 1 - min;
        let magnitude: u32 = if d < 0 { (-(d as i64)) as u32 } else { d as u32 };
        let m = (raw as u32) % magnitude;
        assert(m < magnitude && m <= raw as u32) by (nonlinear_arith)
            requires
                magnitude > 0,
                m == (raw as u32) % magnitude,
        ;
        m as i32 + min
    }
}

impl RngRandomType for i64 {
    open spec fn range_accepted(min: i64, max: i64) -> bool {
        signed_range_accepted(min as int, max as int, i64::MIN as int, i64::MAX as int, i64::MAX - 1)
    }

    open spec fn from_draws_in_range(draws: Seq<u32>, min: i64, max: i64) -> i64 {
        signed_in_range(Self::from_draws(draws) as int, min as int, max as int) as i64
    }

    fn random_range_pcg(rnd: &mut PCG32, min: i64, max: i64) -> (r: i64) {
        let raw = i64::random_pcg(rnd);
        let d = max + 1 - min;
        let magnitude: u64 = if d < 0 { (-(d as i128)) as u64 } else { d as u64 };
        let m = (raw as u64) % magnitude;
        assert(m < magnitude && m <= raw as u64) by (nonlinear_arith)
            requires
                magnitude > 0,
                m == (raw as u64) % magnitude,
        ;
        m as i64 + min
    }
}

/// A random number generator for games, backed by `PCG32`.
pub struct Random {
    rnd: PCG32,
}

impl View for Random {
    /// The state of the underlying generator.
    type V = (u64, u64);

    closed spec fn view(&self) -> (u64, u64) {
        self.rnd@
    }
}

impl Random {
    /// Creates a generator from a single `u64` seed.
    pub fn new(seed: u64) -> (r: Self)
        ensures
            r@ == PCG32::seeded(state_seq_from_seed(seed).0, state_seq_from_seed(seed).1),
    {
        Self { rnd: PCG32::from_u64_seed(seed) }
    }

    /// Restarts the generator from a single `u64` seed.
    pub fn reseed(&mut self, seed: u64)
        ensures
            final(self)@ == PCG32::seeded(state_seq_from_seed(seed).0, state_seq_from_seed(seed).1),
    {
        self.rnd.reseed_u64(seed);
    }

    /// Draws a value of type `T`.
    pub fn next<T: RngType>(&mut self) -> (r: T)
        ensures
            final(self)@ == (
                pcg_state_after(old(self)@.0, old(self)@.1, T::draws_used()),
                old(self)@.1,
            ),
            r == T::from_draws(pcg_outputs(old(self)@.0, old(self)@.1, T::draws_used())),
    {
        T::random_pcg(&mut self.rnd)
    }

    /// Draws a value of type `T` from `min` to `max`.
    pub fn next_range<T: RngRandomType>(&mut self, min: T, max: T) -> (r: T)
        requires
            T::range_accepted(min, max),
        ensures
            final(self)@ == (
                pcg_state_after(old(self)@.0, old(self)@.1, T::draws_used()),
                old(self)@.1,
            ),
            r == T::from_draws_in_range(
                pcg_outputs(old(self)@.0, old(self)@.1, T::draws_used()),
                min,
                max,
            ),
    {
        T::random_range_pcg(&mut self.rnd, min, max)
    }
}

impl Default for Random {
    fn default() -> (r: Self)
        ensures
            r@ == PCG32::seeded(DEFAULT_STATE, DEFAULT_SEQ),
    {
        Self { rnd: PCG32::default() }
    }
}


/// Seeding from `0` gives the same generator as the default one.
pub proof fn law_zero_seed_is_default()
    ensures
        PCG32::seeded(state_seq_from_seed(0).0, state_seq_from_seed(0).1)
            == PCG32::seeded(DEFAULT_STATE, DEFAULT_SEQ),
{
}

/// Every stream increment is odd, so the generator has full period.
pub proof fn law_increment_is_odd(init_seq: u64)
    ensures
        pcg_increment(init_seq) % 2 == 1,
{
    assert(((init_seq << 1u64) | 1u64) % 2 == 1) by (bit_vector);
}

/// Draws continue one stream: `n` draws followed by `m` more give the same
/// values, and the same final state, as `n + m` draws at once.
pub proof fn law_draws_concatenate(state: u64, inc: u64, n: nat, m: nat)
    ensures
        pcg_state_after(pcg_state_after(state, inc, n), inc, m) == pcg_state_after(state, inc, n + m),
        pcg_outputs(state, inc, n) + pcg_outputs(pcg_state_after(state, inc, n), inc, m)
            == pcg_outputs(state, inc, n + m),
    decreases m,
{
    if m == 0 {
        assert(pcg_outputs(state, inc, n) + pcg_outputs(pcg_state_after(state, inc, n), inc, 0)
            =~= pcg_outputs(state, inc, n));
    } else {
        law_draws_concatenate(state, inc, n, (m - 1) as nat);
        let mid = pcg_state_after(state, inc, n);
        assert((n + m - 1) as nat == n + (m - 1) as nat);
        assert(pcg_outputs(state, inc, n) + pcg_outputs(mid, inc, m) =~= pcg_outputs(
            state,
            inc,
            n + m,
        ));
    }
}

/// A `u64` draw is two consecutive `u32` draws, the first one as the low word.
pub proof fn law_u64_is_two_u32_draws(state: u64, inc: u64)
    ensures
        <u64 as RngType>::from_draws(pcg_outputs(state, inc, 2)) == u64_from_draws(
            <u32 as RngType>::from_draws(pcg_outputs(state, inc, 1)),
            <u32 as RngType>::from_draws(pcg_outputs(pcg_state_after(state, inc, 1), inc, 1)),
        ),
        u64_from_draws(low_word_of(state), high_word_of(state, inc)) as int
            == high_word_of(state, inc) as int * 0x1_0000_0000 + low_word_of(state) as int,
{
    lemma_two_draws(state, inc);
    lemma_one_draw(state, inc);
    lemma_one_draw(pcg_step(state, inc), inc);
    let lo = low_word_of(state);
    let hi = high_word_of(state, inc);
    assert(((hi as u64) << 32u64) | (lo as u64) == (hi as u64) * 0x1_0000_0000u64 + lo as u64)
        by (bit_vector);
}

/// The first 32-bit value drawn from `state`.
pub open spec fn low_word_of(state: u64) -> u32 {
    pcg_output(state)
}

/// The second 32-bit value drawn from `state`.
pub open spec fn high_word_of(state: u64, inc: u64) -> u32 {
    pcg_output(pcg_step(state, inc))
}

/// An unsigned ranged draw lands in `[min, max]`.
pub proof fn law_unsigned_range_within(raw: int, min: int, max: int)
    requires
        0 <= raw,
        min <= max,
    ensures
        min <= unsigned_in_range(raw, min, max) <= max,
{
    assert(0 <= raw % (max + 1 - min) < max + 1 - min) by (nonlinear_arith)
        requires
            max + 1 - min > 0,
    ;
}

/// A signed ranged draw with `min <= max` lands in `[min, max]`.
pub proof fn law_signed_range_within(raw: int, min: int, max: int)
    requires
        0 <= raw,
        min <= max,
    ensures
        min <= signed_in_range(raw, min, max) <= max,
{
    assert(0 <= raw % (max + 1 - min) < max + 1 - min) by (nonlinear_arith)
        requires
            max + 1 - min > 0,
    ;
}

/// Every ranged `u32` draw with `min <= max < u32::MAX` lands in `[min, max]`.
pub proof fn law_u32_range_within(draws: Seq<u32>, min: u32, max: u32)
    requires
        draws.len() >= 1,
        <u32 as RngRandomType>::range_accepted(min, max),
    ensures
        min <= <u32 as RngRandomType>::from_draws_in_range(draws, min, max) <= max,
{
    law_unsigned_range_within(draws[0] as int, min as int, max as int);
}

/// Every ranged `u64` draw with `min <= max < u64::MAX` lands in `[min, max]`.
pub proof fn law_u64_range_within(draws: Seq<u32>, min: u64, max: u64)
    requires
        draws.len() >= 2,
        <u64 as RngRandomType>::range_accepted(min, max),
    ensures
        min <= <u64 as RngRandomType>::from_draws_in_range(draws, min, max) <= max,
{
    law_unsigned_range_within(u64_from_draws(draws[0], draws[1]) as int, min as int, max as int);
}

/// Every accepted ranged `i32` draw with `min <= max` lands in `[min, max]`.
pub proof fn law_i32_range_within(draws: Seq<u32>, min: i32, max: i32)
    requires
        draws.len() >= 1,
        <i32 as RngRandomType>::range_accepted(min, max),
        min <= max,
    ensures
        min <= <i32 as RngRandomType>::from_draws_in_range(draws, min, max) <= max,
{
    law_signed_range_within(<i32 as RngType>::from_draws(draws) as int, min as int, max as int);
}

/// Every accepted ranged `i64` draw with `min <= max` lands in `[min, max]`.
pub proof fn law_i64_range_within(draws: Seq<u32>, min: i64, max: i64)
    requires
        draws.len() >= 2,
        <i64 as RngRandomType>::range_accepted(min, max),
        min <= max,
    ensures
        min <= <i64 as RngRandomType>::from_draws_in_range(draws, min, max) <= max,
{
    law_signed_range_within(<i64 as RngType>::from_draws(draws) as int, min as int, max as int);
}

proof fn lemma_u64_from_draws_value(lo: u32, hi: u32)
    ensures
        u64_from_draws(lo, hi) as int == hi as int * 0x1_0000_0000 + lo as int,
{
    assert(((hi as u64) << 32u64) | (lo as u64) == (hi as u64) * 0x1_0000_0000u64 + lo as u64)
        by (bit_vector);
}

proof fn lemma_u64_split(raw: u64)
    ensures
        u64_from_draws((raw & 0xffff_ffffu64) as u32, (raw >> 32u64) as u32) == raw,
{
    assert((((((raw >> 32u64) as u32) as u64) << 32u64) | (((raw & 0xffff_ffffu64) as u32) as u64))
        == raw) by (bit_vector);
}

/// A ranged `u32` draw with `min <= max < u32::MAX` is the raw 32-bit draw
/// reduced modulo the number of values in `[min, max]`, plus `min`; and
/// every value of `[min, max]`, `max` included, is the result of some draw.
pub proof fn law_u32_range_draw(draws: Seq<u32>, min: u32, max: u32, v: u32)
    requires
        draws.len() >= 1,
        min <= max < u32::MAX,
    ensures
        <u32 as RngRandomType>::from_draws_in_range(draws, min, max) as int == draws[0] as int % (
        max - min + 1) + min,
        min <= v <= max ==> <u32 as RngRandomType>::from_draws_in_range(
            seq![(v - min) as u32],
            min,
            max,
        ) == v,
{
    law_unsigned_range_within(draws[0] as int, min as int, max as int);
    if min <= v <= max {
        let raw = (v - min) as u32;
        assert(raw as int % (max - min + 1) == raw as int) by (nonlinear_arith)
            requires
                0 <= raw < max - min + 1,
        ;
    }
}

/// A ranged `u64` draw with `min <= max < u64::MAX` is the raw draw of two
/// words, the first the low one, reduced modulo the number of values in
/// `[min, max]`, plus `min`; and every value of `[min, max]`, `max` included,
/// is the result of some pair of draws: the low and high words of `v - min`.
pub proof fn law_u64_range_draw(draws: Seq<u32>, min: u64, max: u64, v: u64)
    requires
        draws.len() >= 2,
        min <= max < u64::MAX,
    ensures
        <u64 as RngRandomType>::from_draws_in_range(draws, min, max) as int == (draws[1] as int
            * 0x1_0000_0000 + draws[0] as int) % (max - min + 1) + min,
        min <= v <= max ==> <u64 as RngRandomType>::from_draws_in_range(
            seq![((v - min) as u64 & 0xffff_ffffu64) as u32, (((v - min) as u64) >> 32u64) as u32],
            min,
            max,
        ) == v,
{
    lemma_u64_from_draws_value(draws[0], draws[1]);
    law_unsigned_range_within(u64_from_draws(draws[0], draws[1]) as int, min as int, max as int);
    if min <= v <= max {
        let raw = (v - min) as u64;
        lemma_u64_split(raw);
        let d = seq![(raw & 0xffff_ffffu64) as u32, (raw >> 32u64) as u32];
        assert(u64_from_draws(d[0], d[1]) == raw);
        assert(raw as int % (max - min + 1) == raw as int) by (nonlinear_arith)
            requires
                0 <= raw < max - min + 1,
        ;
    }
}

/// A ranged `i32` draw with `min <= max` (and bounds the draw accepts) is
/// the non-negative raw draw, the 32-bit word reduced modulo `i32::MAX`,
/// reduced again modulo the number of values in `[min, max]`, plus `min`;
/// and every value of `[min, max]` is the result of some draw.
pub proof fn law_i32_range_draw(draws: Seq<u32>, min: i32, max: i32, v: i32)
    requires
        draws.len() >= 1,
        <i32 as RngRandomType>::range_accepted(min, max),
        min <= max,
    ensures
        <i32 as RngRandomType>::from_draws_in_range(draws, min, max) as int == (draws[0] as int
            % 0x7fff_ffff) % (max - min + 1) + min,
        min <= v <= max ==> <i32 as RngRandomType>::from_draws_in_range(
            seq![(v - min) as u32],
            min,
            max,
        ) == v,
{
    law_i32_range_within(draws, min, max);
    assert(0 <= draws[0] as int % 0x7fff_ffff < 0x7fff_ffff);
    if min <= v <= max {
        let raw = (v - min) as u32;
        assert(raw as int % 0x7fff_ffff == raw as int);
        assert(raw as int % (max - min + 1) == raw as int) by (nonlinear_arith)
            requires
                0 <= raw < max - min + 1,
        ;
        law_i32_range_within(seq![raw], min, max);
    }
}

/// A ranged `i64` draw with `min <= max` (and bounds the draw accepts) is
/// the non-negative raw draw, the two-word value reduced modulo `i64::MAX`,
/// reduced again modulo the number of values in `[min, max]`, plus `min`;
/// and every value of `[min, max]` is the result of some pair of draws.
pub proof fn law_i64_range_draw(draws: Seq<u32>, min: i64, max: i64, v: i64)
    requires
        draws.len() >= 2,
        <i64 as RngRandomType>::range_accepted(min, max),
        min <= max,
    ensures
        <i64 as RngRandomType>::from_draws_in_range(draws, min, max) as int == ((draws[1] as int
            * 0x1_0000_0000 + draws[0] as int) % 0x7fff_ffff_ffff_ffff) % (max - min + 1) + min,
        min <= v <= max ==> <i64 as RngRandomType>::from_draws_in_range(
            seq![((v - min) as u64 & 0xffff_ffffu64) as u32, (((v - min) as u64) >> 32u64) as u32],
            min,
            max,
        ) == v,
{
    lemma_u64_from_draws_value(draws[0], draws[1]);
    law_i64_range_within(draws, min, max);
    if min <= v <= max {
        let raw = (v - min) as u64;
        lemma_u64_split(raw);
        let d = seq![(raw & 0xffff_ffffu64) as u32, (raw >> 32u64) as u32];
        assert(u64_from_draws(d[0], d[1]) == raw);
        assert(raw as int % 0x7fff_ffff_ffff_ffff == raw as int);
        assert(raw as int % (max - min + 1) == raw as int) by (nonlinear_arith)
            requires
                0 <= raw < max - min + 1,
        ;
        law_i64_range_within(d, min, max);
    }
}

} // verus!
