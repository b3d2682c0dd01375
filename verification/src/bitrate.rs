//! The bitrate allocator: a pure mapping from byte budgets to encoder
//! bitrates.
//!
//! The audio budget is not a remainder computation: it scales mildly with
//! the source file's size, by a fixed linear interpolation clamped at both
//! ends. The video budget is the remainder — the bytes left of the target
//! once the audio artifact is paid for, expressed as bits over the source's
//! duration. A budget that leaves no positive video bitrate is rejected
//! explicitly rather than handed to an encoder.

use vstd::arithmetic::div_mod::{
    lemma_div_by_self, lemma_div_is_ordered, lemma_div_pos_is_pos, lemma_multiply_divide_lt,
};
use vstd::arithmetic::mul::{lemma_mul_inequality, lemma_mul_strict_inequality};
use vstd::prelude::*;

use crate::error::TranscodeError;

verus! {

/// Source sizes at or below this get the smallest audio bitrate.
pub const AUDIO_SOURCE_FLOOR_BYTES: u64 = 8 * 1024 * 1024;

/// Source sizes at or above this get the largest audio bitrate.
pub const AUDIO_SOURCE_CEIL_BYTES: u64 = 500 * 1024 * 1024;

/// The smallest audio bitrate ever allocated, in bits per second.
pub const AUDIO_BITRATE_FLOOR: u64 = 32 * 1024;

/// The largest audio bitrate ever allocated, in bits per second.
pub const AUDIO_BITRATE_CEIL: u64 = 128 * 1024;

/// The audio bitrate for a source of the given byte size: a linear
/// interpolation between the floor and ceiling bitrates over the range of
/// source sizes, clamped at both boundaries.
pub open spec fn audio_bitrate_spec(source_size_bytes: int) -> int {
    if source_size_bytes <= AUDIO_SOURCE_FLOOR_BYTES {
        AUDIO_BITRATE_FLOOR as int
    } else if source_size_bytes >= AUDIO_SOURCE_CEIL_BYTES {
        AUDIO_BITRATE_CEIL as int
    } else {
        AUDIO_BITRATE_FLOOR + (source_size_bytes - AUDIO_SOURCE_FLOOR_BYTES) * (
        AUDIO_BITRATE_CEIL - AUDIO_BITRATE_FLOOR) / (AUDIO_SOURCE_CEIL_BYTES
            - AUDIO_SOURCE_FLOOR_BYTES)
    }
}

/// The audio track's bitrate budget in bits per second, a function of the
/// source file's size alone.
pub fn audio_bitrate(source_size_bytes: u64) -> (r: u64)
    ensures
        r == audio_bitrate_spec(source_size_bytes as int),
        AUDIO_BITRATE_FLOOR <= r <= AUDIO_BITRATE_CEIL,
{
    if source_size_bytes <= AUDIO_SOURCE_FLOOR_BYTES {
        AUDIO_BITRATE_FLOOR
    } else if source_size_bytes >= AUDIO_SOURCE_CEIL_BYTES {
        AUDIO_BITRATE_CEIL
    } else {
        let span: u64 = source_size_bytes - AUDIO_SOURCE_FLOOR_BYTES;
        let rise: u64 = AUDIO_BITRATE_CEIL - AUDIO_BITRATE_FLOOR;
        let run: u64 = AUDIO_SOURCE_CEIL_BYTES - AUDIO_SOURCE_FLOOR_BYTES;
        let scaled: u64 = span * rise / run;
        proof {
            lemma_div_pos_is_pos((span * rise) as int, run as int);
            lemma_mul_strict_inequality(span as int, run as int, rise as int);
            lemma_multiply_divide_lt((span * rise) as int, run as int, rise as int);
        }
        AUDIO_BITRATE_FLOOR + scaled
    }
}

/// The audio allocation never decreases when the source grows: clamped to
/// the floor bitrate below the smallest source size, to the ceiling bitrate
/// above the largest, and monotonically non-decreasing in between.
pub proof fn lemma_audio_bitrate_monotone(size_a: int, size_b: int)
    requires
        size_a <= size_b,
    ensures
        audio_bitrate_spec(size_a) <= audio_bitrate_spec(size_b),
{
    let floor_b = AUDIO_SOURCE_FLOOR_BYTES as int;
    let ceil_b = AUDIO_SOURCE_CEIL_BYTES as int;
    let rise = (AUDIO_BITRATE_CEIL - AUDIO_BITRATE_FLOOR) as int;
    let run = ceil_b - floor_b;
    if floor_b < size_a < ceil_b {
        // the interpolated value never falls below the floor bitrate
        lemma_div_pos_is_pos((size_a - floor_b) * rise, run);
        // ... nor reaches the ceiling bitrate
        lemma_mul_strict_inequality(size_a - floor_b, run, rise);
        lemma_multiply_divide_lt((size_a - floor_b) * rise, run, rise);
    }
    if floor_b < size_b < ceil_b {
        lemma_div_pos_is_pos((size_b - floor_b) * rise, run);
        lemma_mul_strict_inequality(size_b - floor_b, run, rise);
        lemma_multiply_divide_lt((size_b - floor_b) * rise, run, rise);
    }
    if floor_b < size_a < ceil_b && floor_b < size_b < ceil_b {
        lemma_mul_inequality(size_a - floor_b, size_b - floor_b, rise);
        lemma_div_is_ordered((size_a - floor_b) * rise, (size_b - floor_b) * rise, run);
    }
}

/// The video bitrate for a pass: the target bytes left once the companion
/// track is paid for, as bits per second of the source's duration. Sizes
/// are in bytes and the duration in milliseconds, so the byte difference
/// becomes `* 8 * 1000` bits per millisecond-count.
pub open spec fn video_bitrate_spec(
    target_bytes: int,
    other_track_bytes: int,
    duration_ms: int,
) -> int
    recommends
        duration_ms >= 1,
{
    (target_bytes - other_track_bytes) * 8000 / duration_ms
}

/// The video track's bitrate budget in bits per second.
///
/// The companion track's measured size is subtracted from the target; a
/// split that leaves no positive bitrate is rejected as infeasible rather
/// than handed to an encoder, and a bitrate beyond the signed 64-bit range
/// is capped there.
pub fn video_bitrate(target_bytes: u64, other_track_bytes: u64, duration_ms: u64) -> (r: Result<
    u64,
    TranscodeError,
>)
    requires
        duration_ms >= 1,
    ensures
        ({
            let q = video_bitrate_spec(target_bytes as int, other_track_bytes as int,
                duration_ms as int);
            &&& r is Ok <==> (other_track_bytes < target_bytes && q >= 1)
            &&& (r matches Ok(b) ==> b == if q > i64::MAX as int {
                i64::MAX as u64
            } else {
                q as u64
            })
            &&& (r matches Ok(b) ==> 1 <= b <= i64::MAX as u64)
            &&& r is Err ==> r == Err::<u64, TranscodeError>(TranscodeError::BudgetInfeasible)
        }),
{
    if other_track_bytes >= target_bytes {
        return Err(TranscodeError::BudgetInfeasible);
    }
    let spare: u64 = target_bytes - other_track_bytes;
    let bits: u128 = (spare as u128) * 8000;
    let rate: u128 = bits / (duration_ms as u128);
    proof {
        lemma_div_pos_is_pos(bits as int, duration_ms as int);
    }
    if rate == 0 {
        Err(TranscodeError::BudgetInfeasible)
    } else if rate > i64::MAX as u128 {
        Ok(i64::MAX as u64)
    } else {
        Ok(rate as u64)
    }
}

/// Whenever the companion track leaves room under the target and the spare
/// bits cover at least one bit per second, the video budget is exactly the
/// spare bytes times eight over the duration, and strictly positive.
pub proof fn lemma_video_bitrate_exact(target_bytes: int, other_track_bytes: int, duration_ms: int)
    requires
        0 <= other_track_bytes < target_bytes,
        duration_ms >= 1,
        (target_bytes - other_track_bytes) * 8000 >= duration_ms,
    ensures
        video_bitrate_spec(target_bytes, other_track_bytes, duration_ms) == (target_bytes
            - other_track_bytes) * 8000 / duration_ms,
        video_bitrate_spec(target_bytes, other_track_bytes, duration_ms) >= 1,
{
    lemma_div_by_self(duration_ms);
    lemma_div_is_ordered(duration_ms, (target_bytes - other_track_bytes) * 8000, duration_ms);
}

} // verus!
