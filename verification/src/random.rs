//! The generator behind `getrandom`: a seeded multiplicative congruential
//! generator. It is reproducible from its seed and is not cryptographically
//! secure.

use vstd::arithmetic::div_mod::{
    lemma_div_denominator, lemma_fundamental_div_mod, lemma_mod_multiples_basic,
};
use vstd::prelude::*;

use crate::error::IoError;

verus! {

/// Multiplier of the recurrence.
pub const MULTIPLIER: u64 = 48271;

/// Modulus of the recurrence, the prime 2^31 - 1.
pub const RAND_MAX: u64 = 2_147_483_647;

/// Rounds of the recurrence that make up one 128-bit output.
pub const ROUNDS: usize = 4;

/// Bytes that one output supplies.
pub const CHUNK: usize = 16;

/// 2^32, the weight of one round in an output.
pub const WORD: u128 = 0x1_0000_0000;

/// One round of the recurrence: `seed * 48271 mod 2147483647`.
pub open spec fn lehmer_next(seed: u32) -> u32 {
    ((seed * MULTIPLIER) % (RAND_MAX as int)) as u32
}

/// The seed after `rounds` rounds.
pub open spec fn lehmer_nth(seed: u32, rounds: nat) -> u32
    decreases rounds,
{
    if rounds == 0 {
        seed
    } else {
        lehmer_next(lehmer_nth(seed, (rounds - 1) as nat))
    }
}

/// The results of the first `rounds` rounds from `seed` as the digits of a
/// number in base 2^32, the first round most significant.
pub open spec fn packed_rounds(seed: u32, rounds: nat) -> nat
    decreases rounds,
{
    if rounds == 0 {
        0
    } else {
        packed_rounds(seed, (rounds - 1) as nat) * (WORD as nat) + lehmer_nth(seed, rounds) as nat
    }
}

/// The 128-bit output drawn from a generator whose seed is `seed`.
pub open spec fn spec_random(seed: u32) -> u128 {
    packed_rounds(seed, ROUNDS as nat) as u128
}

/// The seed that a draw starts from: a generator that is still unseeded,
/// which is seed 0, takes the low 32 bits of the tick counter.
pub open spec fn seeded(seed: u32, ticks: u64) -> u32 {
    if seed == 0 {
        (ticks % 0x1_0000_0000) as u32
    } else {
        seed
    }
}

/// The seed after `draws` outputs were drawn, each with the tick counter at
/// `ticks`.
pub open spec fn seed_after(seed: u32, ticks: u64, draws: nat) -> u32
    decreases draws,
{
    if draws == 0 {
        seed
    } else {
        lehmer_nth(seeded(seed_after(seed, ticks, (draws - 1) as nat), ticks), ROUNDS as nat)
    }
}

/// Output number `k`, counted from 0, of a generator that starts at `seed`.
pub open spec fn nth_random(seed: u32, ticks: u64, k: nat) -> u128 {
    spec_random(seeded(seed_after(seed, ticks, k), ticks))
}

/// 256 to the power `i`.
pub open spec fn pow256(i: nat) -> nat
    decreases i,
{
    if i == 0 {
        1
    } else {
        256 * pow256((i - 1) as nat)
    }
}

/// Byte `i` of the little-endian representation of `value`.
pub open spec fn le_byte(value: u128, i: nat) -> u8 {
    ((value as nat / pow256(i)) % 256) as u8
}

/// The first `len` bytes of the stream that a generator starting at `seed`
/// supplies: the little-endian bytes of its outputs, 16 from each, one
/// output after the other.
pub open spec fn random_bytes(seed: u32, ticks: u64, len: nat) -> Seq<u8> {
    Seq::new(
        len,
        |i: int| le_byte(nth_random(seed, ticks, (i / 16) as nat), (i % 16) as nat),
    )
}

/// The number of outputs that `len` bytes take.
pub open spec fn draws_for(len: nat) -> nat {
    (len + 15) / 16
}

/// The generator's state: its seed, 0 while it is unseeded.
pub struct PrngState {
    seed: u32,
}

impl View for PrngState {
    type V = u32;

    closed spec fn view(&self) -> u32 {
        self.seed
    }
}

impl PrngState {
    /// An unseeded generator. Its first draw seeds it from the tick counter.
    pub fn new() -> (state: PrngState)
        ensures
            state@ == 0,
    {
        PrngState { seed: 0 }
    }

    /// A generator with the given seed.
    pub fn with_seed(seed: u32) -> (state: PrngState)
        ensures
            state@ == seed,
    {
        PrngState { seed }
    }

    /// The current seed.
    pub fn seed(&self) -> (seed: u32)
        ensures
            seed == self@,
    {
        self.seed
    }

    /// Whether the next draw will take its seed from the tick counter.
    pub fn is_unseeded(&self) -> (b: bool)
        ensures
            b == (self@ == 0),
    {
        self.seed == 0
    }
}

/// Bound of a number of `rounds` digits in base 2^32.
spec fn word_limit(rounds: nat) -> nat
    decreases rounds,
{
    if rounds == 0 {
        1
    } else {
        word_limit((rounds - 1) as nat) * (WORD as nat)
    }
}

proof fn lemma_packed_rounds_bound(seed: u32, rounds: nat)
    ensures
        packed_rounds(seed, rounds) < word_limit(rounds),
    decreases rounds,
{
    if rounds > 0 {
        lemma_packed_rounds_bound(seed, (rounds - 1) as nat);
        let high = packed_rounds(seed, (rounds - 1) as nat);
        let limit = word_limit((rounds - 1) as nat);
        assert(high * (WORD as nat) + (WORD as nat) <= limit * (WORD as nat)) by (nonlinear_arith)
            requires
                high + 1 <= limit,
        ;
    }
}

/// Draws one 128-bit output: seeds the generator from `ticks`, the current
/// value of the tick counter, if it is unseeded, runs four rounds of the
/// recurrence and packs their results, the first round most significant.
pub fn random(state: &mut PrngState, ticks: u64) -> (value: u128)
    ensures
        value == spec_random(seeded(old(state)@, ticks)),
        final(state)@ == lehmer_nth(seeded(old(state)@, ticks), ROUNDS as nat),
{
    if state.seed == 0 {
        state.seed = (ticks % 0x1_0000_0000) as u32;
    }
    let ghost start = state.seed;
    let mut value: u128 = 0;
    let mut round: usize = 0;
    while round < ROUNDS
        invariant
            round <= ROUNDS,
            state.seed == lehmer_nth(start, round as nat),
            value == packed_rounds(start, round as nat),
        decreases ROUNDS - round,
    {
        proof {
            lemma_packed_rounds_bound(start, round as nat);
            reveal_with_fuel(word_limit, 5);
        }
        state.seed = ((state.seed as u64 * MULTIPLIER) % RAND_MAX) as u32;
        value = value * WORD + state.seed as u128;
        round += 1;
    }
    proof {
        lemma_packed_rounds_bound(start, ROUNDS as nat);
        reveal_with_fuel(word_limit, 5);
    }
    value
}

/// Fills `buf` with random bytes and returns the number of bytes written,
/// which is always the length of `buf`. Each run of 16 bytes is the
/// little-endian representation of one output of the generator; the last
/// run is cut off where the buffer ends. An empty buffer draws nothing.
/// `ticks` is the current value of the tick counter, which seeds every draw
/// that finds the generator unseeded. `flags` is accepted and has no effect.
pub fn sys_getrandom(state: &mut PrngState, ticks: u64, buf: &mut [u8], flags: u32) -> (r: Result<
    isize,
    IoError,
>)
    requires
        old(buf)@.len() <= isize::MAX,
    ensures
        r == Ok::<isize, IoError>(old(buf)@.len() as isize),
        final(buf)@ == random_bytes(old(state)@, ticks, old(buf)@.len()),
        final(state)@ == seed_after(old(state)@, ticks, draws_for(old(buf)@.len())),
{
    let len = buf.len();
    let ghost seed = state@;
    let mut filled: usize = 0;
    let ghost mut draws: nat = 0;
    while filled < len
        invariant
            len == buf@.len(),
            filled <= len,
            filled < len ==> filled == 16 * draws,
            filled == len ==> draws == draws_for(len as nat),
            state@ == seed_after(seed, ticks, draws),
            forall|i: int| 0 <= i < filled ==> buf@[i] == random_bytes(seed, ticks, len as nat)[i],
        decreases len - filled,
    {
        let value = random(state, ticks);
        let chunk_len = if len - filled < CHUNK {
            len - filled
        } else {
            CHUNK
        };
        let mut rest = value;
        let mut j: usize = 0;
        assert(pow256(0) == 1);
        while j < chunk_len
            invariant
                len == buf@.len(),
                filled + chunk_len <= len,
                chunk_len <= CHUNK,
                j <= chunk_len,
                filled == 16 * draws,
                value == nth_random(seed, ticks, draws),
                rest == value as nat / pow256(j as nat),
                forall|i: int|
                    0 <= i < filled + j ==> buf@[i] == random_bytes(seed, ticks, len as nat)[i],
            decreases chunk_len - j,
        {
            proof {
                lemma_pow256_positive(j as nat);
                lemma_div_denominator(value as int, pow256(j as nat) as int, 256);
                assert(pow256((j + 1) as nat) == 256 * pow256(j as nat));
                assert(pow256(j as nat) * 256 == 256 * pow256(j as nat));
            }
            buf[filled + j] = (rest % 256) as u8;
            rest = rest / 256;
            j += 1;
        }
        filled += chunk_len;
        proof {
            draws = draws + 1;
        }
    }
    assert(buf@ =~= random_bytes(seed, ticks, len as nat));
    Ok(len as isize)
}

proof fn lemma_pow256_positive(i: nat)
    ensures
        pow256(i) > 0,
    decreases i,
{
    if i > 0 {
        lemma_pow256_positive((i - 1) as nat);
    }
}

/// Whether the recurrence never sends `seed` to 0: the seed is no multiple
/// of the modulus. A generator on such a seed never reads the tick counter.
pub open spec fn is_live(seed: u32) -> bool {
    seed as int % (RAND_MAX as int) != 0
}

/// One output is the four round results side by side, 32 bits each, the
/// first round in the top bits.
pub proof fn lemma_random_is_four_rounds(seed: u32)
    ensures
        spec_random(seed) == lehmer_nth(seed, 1) * 0x1_0000_0000_0000_0000_0000_0000 + lehmer_nth(
            seed,
            2,
        ) * 0x1_0000_0000_0000_0000 + lehmer_nth(seed, 3) * 0x1_0000_0000 + lehmer_nth(seed, 4),
        lehmer_nth(seed, 1) == lehmer_next(seed),
        lehmer_nth(seed, 2) == lehmer_next(lehmer_nth(seed, 1)),
        lehmer_nth(seed, 3) == lehmer_next(lehmer_nth(seed, 2)),
        lehmer_nth(seed, 4) == lehmer_next(lehmer_nth(seed, 3)),
{
    reveal_with_fuel(packed_rounds, 5);
    reveal_with_fuel(lehmer_nth, 5);
    reveal_with_fuel(word_limit, 5);
    lemma_packed_rounds_bound(seed, 4);
}

/// A round maps a live seed to a live seed below the modulus.
pub proof fn lemma_round_keeps_live(seed: u32)
    requires
        is_live(seed),
    ensures
        is_live(lehmer_next(seed)),
        0 < lehmer_next(seed) < RAND_MAX,
{
    let m = RAND_MAX as int;
    let x = seed as int * 48271;
    let k = x / m;
    lemma_fundamental_div_mod(x, m);
    if x % m == 0 {
        // 48271 * 1899818559 == 42704 * m + 1, so `seed` itself is a multiple of m.
        assert(seed as int == (k * 1899818559 - seed as int * 42704) * m);
        lemma_mod_multiples_basic(k * 1899818559 - seed as int * 42704, m);
    }
}

/// Rounds map a live seed to a live seed.
pub proof fn lemma_rounds_keep_live(seed: u32, rounds: nat)
    requires
        is_live(seed),
    ensures
        is_live(lehmer_nth(seed, rounds)),
    decreases rounds,
{
    if rounds > 0 {
        lemma_rounds_keep_live(seed, (rounds - 1) as nat);
        lemma_round_keeps_live(lehmer_nth(seed, (rounds - 1) as nat));
    }
}

/// A generator on a live seed stays on live seeds, which do not depend on
/// the tick counter.
pub proof fn lemma_live_seed_ignores_ticks(seed: u32, ticks_a: u64, ticks_b: u64, draws: nat)
    requires
        is_live(seed),
    ensures
        is_live(seed_after(seed, ticks_a, draws)),
        seed_after(seed, ticks_a, draws) == seed_after(seed, ticks_b, draws),
        nth_random(seed, ticks_a, draws) == nth_random(seed, ticks_b, draws),
    decreases draws,
{
    if draws > 0 {
        lemma_live_seed_ignores_ticks(seed, ticks_a, ticks_b, (draws - 1) as nat);
        lemma_rounds_keep_live(seed_after(seed, ticks_a, (draws - 1) as nat), ROUNDS as nat);
    }
}

/// The stream is reproducible from its seed: two generators on the same
/// live seed supply the same bytes, to any length, whenever and wherever
/// they run.
pub proof fn lemma_stream_is_reproducible(seed: u32, ticks_a: u64, ticks_b: u64, len: nat)
    requires
        is_live(seed),
    ensures
        random_bytes(seed, ticks_a, len) == random_bytes(seed, ticks_b, len),
        seed_after(seed, ticks_a, draws_for(len)) == seed_after(seed, ticks_b, draws_for(len)),
{
    assert forall|i: int| 0 <= i < len implies random_bytes(seed, ticks_a, len)[i] == random_bytes(
        seed,
        ticks_b,
        len,
    )[i] by {
        lemma_live_seed_ignores_ticks(seed, ticks_a, ticks_b, (i / 16) as nat);
    }
    assert(random_bytes(seed, ticks_a, len) =~= random_bytes(seed, ticks_b, len));
    lemma_live_seed_ignores_ticks(seed, ticks_a, ticks_b, draws_for(len));
}

/// A request for no bytes writes nothing and leaves the generator as it
/// was; a request for `len` bytes gets the first `len` bytes of what any
/// longer request would get.
pub proof fn lemma_request_is_stream_prefix(seed: u32, ticks: u64, len: nat, longer: nat)
    requires
        len <= longer,
    ensures
        random_bytes(seed, ticks, 0) == Seq::<u8>::empty(),
        seed_after(seed, ticks, draws_for(0)) == seed,
        random_bytes(seed, ticks, len).len() == len,
        random_bytes(seed, ticks, len) == random_bytes(seed, ticks, longer).take(len as int),
{
    assert(random_bytes(seed, ticks, 0) =~= Seq::<u8>::empty());
    assert(random_bytes(seed, ticks, len) =~= random_bytes(seed, ticks, longer).take(len as int));
}

} // verus!
