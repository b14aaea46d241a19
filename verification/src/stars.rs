use vstd::prelude::*;

verus! {

/// Number of stars in the sky of every terrain.
pub const STAR_COUNT: usize = 350;

/// Added to the terrain seed to start the star stream.
pub const STAR_SEED_OFFSET: u64 = 0x9E37_79B9_7F4A_7C15;

/// The first state of the star stream for a seed (wrapping addition).
pub open spec fn spec_initial_state(seed: u64) -> u64 {
    ((seed as int + STAR_SEED_OFFSET as int) % 0x1_0000_0000_0000_0000) as u64
}

/// One xorshift step (shifts 13, 7, 17) of the stream state.
pub open spec fn spec_xorshift(state: u64) -> u64 {
    let a = state ^ (state << 13u64);
    let b = a ^ (a >> 7u64);
    b ^ (b << 17u64)
}

/// The state after `n` steps from the first state of `seed`.
pub open spec fn spec_state_after(seed: u64, n: nat) -> u64
    decreases n,
{
    if n == 0 {
        spec_initial_state(seed)
    } else {
        spec_xorshift(spec_state_after(seed, (n - 1) as nat))
    }
}

/// The `k`-th draw (counting from 1) of the stream: the low 32 bits of the
/// state after `k` steps.
pub open spec fn spec_draw(seed: u64, k: nat) -> u32 {
    #[verifier::truncate]
    (spec_state_after(seed, k) as u32)
}

/// The stream of a seed starts at the wrapping sum of the seed and
/// `0x9E37_79B9_7F4A_7C15`, and each state follows from the one before by
/// the xorshift step `s ^= s << 13; s ^= s >> 7; s ^= s << 17`, so draw `k`
/// is the low half of the `k`-th state of one unbroken stream.
pub proof fn lemma_stream_steps(seed: u64, n: nat)
    ensures
        spec_state_after(seed, 0) as int == (seed as int + 0x9E37_79B9_7F4A_7C15)
            % 0x1_0000_0000_0000_0000,
        spec_state_after(seed, n + 1) == ({
            let s = spec_state_after(seed, n);
            let a = s ^ (s << 13u64);
            let b = a ^ (a >> 7u64);
            b ^ (b << 17u64)
        }),
        spec_draw(seed, n) == #[verifier::truncate] (spec_state_after(seed, n) as u32),
{
}

/// Star `i` is made of draws `3i + 1`, `3i + 2` and `3i + 3` of the stream:
/// consecutive stars take consecutive triples, with no draw skipped or reused.
pub proof fn lemma_star_draws(seed: u64, i: nat)
    ensures
        spec_star_bits(seed, i).nx == spec_draw(seed, 3 * i + 1),
        spec_star_bits(seed, i).ny == spec_draw(seed, 3 * i + 2),
        spec_star_bits(seed, i).brightness == spec_draw(seed, 3 * i + 3),
        spec_star_bits(seed, i + 1).nx == spec_draw(seed, 3 * i + 4),
{
}

/// Deterministic random stream that places the stars.
pub struct StarRng {
    state: u64,
}

impl View for StarRng {
    type V = u64;

    closed spec fn view(&self) -> u64 {
        self.state
    }
}

/// The raw draws of one star: horizontal and vertical position and
/// brightness, each as a fraction `bits / u32::MAX` of its range.
#[derive(Clone, Copy, PartialEq, Eq, Debug, Structural)]
pub struct StarBits {
    pub nx: u32,
    pub ny: u32,
    pub brightness: u32,
}

/// The raw draws of star `i` of a seed's sky: three consecutive draws.
pub open spec fn spec_star_bits(seed: u64, i: nat) -> StarBits {
    StarBits {
        nx: spec_draw(seed, 3 * i + 1),
        ny: spec_draw(seed, 3 * i + 2),
        brightness: spec_draw(seed, 3 * i + 3),
    }
}

impl StarRng {
    /// Starts the stream of a seed.
    pub fn new(seed: u64) -> (rng: StarRng)
        ensures
            rng@ == spec_initial_state(seed),
            rng@ as int == (seed as int + 0x9E37_79B9_7F4A_7C15) % 0x1_0000_0000_0000_0000,
    {
        StarRng { state: seed.wrapping_add(STAR_SEED_OFFSET) }
    }

    /// Advances the stream by one xorshift step and returns the low 32 bits
    /// of the new state.
    pub fn next_bits(&mut self) -> (bits: u32)
        ensures
            final(self)@ == spec_xorshift(old(self)@),
            final(self)@ == ({
                let a = old(self)@ ^ (old(self)@ << 13u64);
                let b = a ^ (a >> 7u64);
                b ^ (b << 17u64)
            }),
            bits == #[verifier::truncate] (final(self)@ as u32),
    {
        let mut s = self.state;
        s = s ^ (s << 13u64);
        s = s ^ (s >> 7u64);
        s = s ^ (s << 17u64);
        self.state = s;
        #[verifier::truncate]
        (s as u32)
    }
}

/// The raw draws of all stars of a seed's sky, in the order they are drawn.
pub fn star_bits(seed: u64) -> (stars: Vec<StarBits>)
    ensures
        stars.len() == STAR_COUNT,
        forall|i: int| 0 <= i < STAR_COUNT ==> #[trigger] stars@[i] == spec_star_bits(seed, i as nat),
        forall|i: int|
            0 <= i < STAR_COUNT ==> {
                &&& (#[trigger] stars@[i]).nx == #[verifier::truncate] (spec_state_after(
                    seed,
                    (3 * i + 1) as nat,
                ) as u32)
                &&& stars@[i].ny == #[verifier::truncate] (spec_state_after(seed, (3 * i + 2) as nat) as u32)
                &&& stars@[i].brightness == #[verifier::truncate] (spec_state_after(
                    seed,
                    (3 * i + 3) as nat,
                ) as u32)
            },
{
    let mut rng = StarRng::new(seed);
    let mut stars: Vec<StarBits> = Vec::with_capacity(STAR_COUNT);
    let mut i: usize = 0;
    while i < STAR_COUNT
        invariant
            i <= STAR_COUNT,
            stars.len() == i,
            rng@ == spec_state_after(seed, 3 * i as nat),
            forall|j: int| 0 <= j < i ==> #[trigger] stars@[j] == spec_star_bits(seed, j as nat),
        decreases STAR_COUNT - i,
    {
        let nx = rng.next_bits();
        let ny = rng.next_bits();
        let brightness = rng.next_bits();
        proof {
            assert(spec_state_after(seed, (3 * i + 1) as nat) == spec_xorshift(
                spec_state_after(seed, (3 * i) as nat),
            ));
            assert(spec_state_after(seed, (3 * i + 2) as nat) == spec_xorshift(
                spec_state_after(seed, (3 * i + 1) as nat),
            ));
            assert(spec_state_after(seed, (3 * i + 3) as nat) == spec_xorshift(
                spec_state_after(seed, (3 * i + 2) as nat),
            ));
        }
        stars.push(StarBits { nx, ny, brightness });
        i = i + 1;
    }
    stars
}

} // verus!
