//! The amplitude extractor: per-block policy.
//!
//! Each incoming sample block is partitioned into sub-chunks of
//! `channel count x FRAMES_PER_CHUNK` interleaved samples. For each sub-chunk
//! that holds at least one frame of two channels, the first frame's left and
//! right samples are taken as representatives, scaled by the fixed gain, and
//! published to the shared amplitude state, one pair per sub-chunk. No
//! clamping or smoothing happens here; amplitudes may exceed the drawable
//! area and the render side clips them.

use vstd::math::abs;
use vstd::prelude::*;

use crate::state::AmpState;
use crate::state::Channel;

verus! {

/// Fixed gain applied to a raw sample's magnitude to obtain an amplitude.
/// A tunable of the extraction policy.
pub const GAIN: u64 = 10000;

/// Frames per sub-chunk: one amplitude pair is published for each sub-chunk
/// of `channel count x FRAMES_PER_CHUNK` samples. A tunable of the
/// extraction policy.
pub const FRAMES_PER_CHUNK: usize = 800;

/// The amplitude a raw sample yields: its magnitude times the gain.
/// The sample is in thousandths of full scale and the amplitude in
/// thousandths of a pixel, so the scale factors cancel and the product
/// is exact.
pub open spec fn amp_of(sample_milli: i32) -> u64 {
    (abs(sample_milli as int) * (GAIN as int)) as u64
}

/// Amplitude of one raw sample: magnitude times gain, exact and free of
/// overflow for every sample value.
pub fn amplitude_of_sample(sample_milli: i32) -> (amp: u64)
    ensures
        amp == amp_of(sample_milli),
{
    let wide: i64 = sample_milli as i64;
    let mag: i64 = if wide < 0 {
        -wide
    } else {
        wide
    };
    (mag as u64) * GAIN
}

/// Where the last published sub-chunk of a block of `n` samples begins,
/// with sub-chunks of `chunk` samples: the start of the last sub-chunk that
/// still holds at least two samples.
pub open spec fn last_chunk_start(n: int, chunk: int) -> int {
    ((n - 2) / chunk) * chunk
}

/// Consume one sample block: publish one amplitude pair per sub-chunk, left
/// from the sub-chunk's first sample, right from its second. Only the first
/// two channels of each frame are consumed; further channels are ignored.
/// A block too short to hold one two-channel frame publishes nothing, and
/// the state afterwards holds the pair of the block's last sub-chunk,
/// overwriting whatever was held before.
pub fn extract_block(samples: &Vec<i32>, channels: usize, state: &mut AmpState)
    requires
        channels >= 2,
        channels * FRAMES_PER_CHUNK <= usize::MAX,
    ensures
        samples@.len() < 2 ==> *final(state) == *old(state),
        samples@.len() >= 2 ==> {
            let start = last_chunk_start(
                samples@.len() as int,
                (channels * FRAMES_PER_CHUNK) as int,
            );
            &&& final(state).left_milli == amp_of(samples@[start])
            &&& final(state).right_milli == amp_of(samples@[start + 1])
        },
{
    let n: usize = samples.len();
    if n < 2 {
        return ;
    }
    let chunk: usize = channels * FRAMES_PER_CHUNK;
    let mut i: usize = 0;
    loop
        invariant_except_break
            2 <= chunk,
            chunk == channels * FRAMES_PER_CHUNK,
            n == samples@.len(),
            2 <= n,
            i + 2 <= n,
            i % chunk == 0,
        ensures
            i == last_chunk_start(n as int, chunk as int),
            state.left_milli == amp_of(samples@[i as int]),
            state.right_milli == amp_of(samples@[i as int + 1]),
        decreases n - i,
    {
        let left = amplitude_of_sample(samples[i]);
        let right = amplitude_of_sample(samples[i + 1]);
        state.publish(Channel::Left, left);
        state.publish(Channel::Right, right);
        if chunk <= (n - 2) - i {
            proof {
                vstd::arithmetic::div_mod::lemma_mod_multiples_vanish(1, i as int, chunk as int);
            }
            i = i + chunk;
        } else {
            proof {
                lemma_at_last_chunk(n as int, chunk as int, i as int);
            }
            break ;
        }
    }
}

/// A sub-chunk start that still holds two samples, but whose successor does
/// not, is the last sub-chunk start.
proof fn lemma_at_last_chunk(n: int, chunk: int, i: int)
    requires
        chunk >= 2,
        0 <= i,
        i + 2 <= n,
        i % chunk == 0,
        n - 2 - i < chunk,
    ensures
        i == last_chunk_start(n, chunk),
{
    let q = (n - 2) / chunk;
    assert(i == (i / chunk) * chunk) by {
        vstd::arithmetic::div_mod::lemma_fundamental_div_mod(i, chunk);
    }
    assert(i / chunk == q) by {
        vstd::arithmetic::div_mod::lemma_fundamental_div_mod(n - 2, chunk);
        vstd::arithmetic::div_mod::lemma_fundamental_div_mod(i, chunk);
        assert(i <= n - 2 < i + chunk);
        vstd::arithmetic::div_mod::lemma_div_is_ordered(i, n - 2, chunk);
        if q >= i / chunk + 1 {
            assert(q * chunk >= (i / chunk + 1) * chunk) by (nonlinear_arith)
                requires
                    chunk > 0,
                    q >= i / chunk + 1,
            ;
            assert((i / chunk + 1) * chunk == (i / chunk) * chunk + chunk) by (nonlinear_arith);
            assert(q * chunk <= n - 2) by {
                vstd::arithmetic::div_mod::lemma_fundamental_div_mod(n - 2, chunk);
            }
        }
    }
}

} // verus!
