//! The per-pass transcode plan and the encoder-options grammar.
//!
//! A plan is created fresh for each attempt from the source's facts, the
//! attempt's effective target and the measured size of the companion audio
//! artifact; it is never mutated — the next attempt builds a new one. The
//! encoder options travel as `key=value` pairs separated by commas, the
//! grammar this module parses.

use vstd::prelude::*;

use crate::bitrate::{audio_bitrate, audio_bitrate_spec, video_bitrate, video_bitrate_spec};
use crate::error::TranscodeError;
use crate::track::SourceAsset;

verus! {

/// Sources at least this large get the slow encoder preset.
pub const PRESET_SLOW_FLOOR_BYTES: u64 = 1024 * 1024;

/// Sources up to this size get the slow encoder preset.
pub const PRESET_SLOW_CEIL_BYTES: u64 = 200 * 1024 * 1024;

/// Sources above the slow range and up to this size get the medium
/// preset; anything else gets the fast one.
pub const PRESET_MEDIUM_CEIL_BYTES: u64 = 500 * 1024 * 1024;

/// The encoder effort knob, chosen from the source's size: small and
/// mid-sized sources can afford a slow, better-compressing encode, huge
/// ones get a fast pass.
#[derive(Clone, Copy, Debug, PartialEq, Eq, Structural)]
pub enum Preset {
    /// Best compression, slowest encode.
    Slow,
    /// The middle ground.
    Medium,
    /// Fastest encode.
    Fast,
}

/// The preset for a source of the given byte size.
pub open spec fn preset_spec(source_size_bytes: int) -> Preset {
    if PRESET_SLOW_FLOOR_BYTES <= source_size_bytes <= PRESET_SLOW_CEIL_BYTES {
        Preset::Slow
    } else if PRESET_SLOW_CEIL_BYTES < source_size_bytes <= PRESET_MEDIUM_CEIL_BYTES {
        Preset::Medium
    } else {
        Preset::Fast
    }
}

/// Chooses the encoder preset from the source's size.
pub fn preset_for_source(source_size_bytes: u64) -> (r: Preset)
    ensures
        r == preset_spec(source_size_bytes as int),
{
    if PRESET_SLOW_FLOOR_BYTES <= source_size_bytes && source_size_bytes
        <= PRESET_SLOW_CEIL_BYTES {
        Preset::Slow
    } else if source_size_bytes <= PRESET_MEDIUM_CEIL_BYTES && source_size_bytes
        > PRESET_SLOW_CEIL_BYTES {
        Preset::Medium
    } else {
        Preset::Fast
    }
}

impl Preset {
    /// The options string handed to the encoder for this preset.
    pub open spec fn options_text_spec(self) -> Seq<char> {
        match self {
            Preset::Slow => "preset=slow"@,
            Preset::Medium => "preset=medium"@,
            Preset::Fast => "preset=fast"@,
        }
    }

    /// The options string handed to the encoder for this preset.
    pub fn options_text(&self) -> (r: &'static str)
        ensures
            r@ == self.options_text_spec(),
    {
        match self {
            Preset::Slow => "preset=slow",
            Preset::Medium => "preset=medium",
            Preset::Fast => "preset=fast",
        }
    }
}

/// Splits `s` at every occurrence of `sep`, the accumulator `cur` holding
/// the piece being read. Every separator separates: `n` separators yield
/// `n + 1` pieces, empty ones included.
pub open spec fn split_accum(s: Seq<char>, sep: char, cur: Seq<char>) -> Seq<Seq<char>>
    decreases s.len(),
{
    if s.len() == 0 {
        seq![cur]
    } else if s[0] == sep {
        seq![cur] + split_accum(s.drop_first(), sep, Seq::empty())
    } else {
        split_accum(s.drop_first(), sep, cur.push(s[0]))
    }
}

/// The pieces of `s` between occurrences of `sep`.
pub open spec fn split_on(s: Seq<char>, sep: char) -> Seq<Seq<char>> {
    split_accum(s, sep, Seq::empty())
}

/// The pieces of `s` between occurrences of `sep`, a trailing separator
/// terminating the last piece rather than opening an empty one; the empty
/// string holds no pieces.
pub open spec fn split_terminator_on(s: Seq<char>, sep: char) -> Seq<Seq<char>> {
    let raw = split_on(s, sep);
    if raw.last().len() == 0 {
        raw.drop_last()
    } else {
        raw
    }
}

/// Splitting yields at least one piece, whatever the accumulator.
pub proof fn lemma_split_accum_nonempty(s: Seq<char>, sep: char, cur: Seq<char>)
    ensures
        split_accum(s, sep, cur).len() >= 1,
    decreases s.len(),
{
    if s.len() != 0 && s[0] != sep {
        lemma_split_accum_nonempty(s.drop_first(), sep, cur.push(s[0]));
    }
}

/// Splits a string at every occurrence of `sep`.
pub fn split_chars(s: &str, sep: char) -> (r: Vec<String>)
    ensures
        r@.len() == split_on(s@, sep).len(),
        forall|j: int| 0 <= j < r@.len() ==> (#[trigger] r@[j])@ == split_on(s@, sep)[j],
{
    let n: usize = s.unicode_len();
    let mut acc: Vec<String> = Vec::new();
    let ghost mut done: Seq<Seq<char>> = Seq::empty();
    let mut start: usize = 0;
    let mut i: usize = 0;
    proof {
        assert(s@.subrange(0, n as int) =~= s@);
        assert(s@.subrange(0, 0) =~= Seq::<char>::empty());
        assert(Seq::<Seq<char>>::empty() + split_accum(s@, sep, Seq::empty()) =~= split_accum(
            s@,
            sep,
            Seq::empty(),
        ));
    }
    while i < n
        invariant
            n == s@.len(),
            0 <= start <= i <= n,
            split_on(s@, sep) == done + split_accum(
                s@.subrange(i as int, n as int),
                sep,
                s@.subrange(start as int, i as int),
            ),
            acc@.len() == done.len(),
            forall|j: int| 0 <= j < done.len() ==> (#[trigger] acc@[j])@ == done[j],
        decreases n - i,
    {
        let c = s.get_char(i);
        let ghost rest = s@.subrange(i as int, n as int);
        let ghost cur = s@.subrange(start as int, i as int);
        proof {
            assert(rest[0] == s@[i as int]);
            assert(rest.drop_first() =~= s@.subrange(i + 1, n as int));
        }
        if c == sep {
            let piece = s.substring_char(start, i);
            acc.push(piece.to_owned());
            proof {
                done = done.push(cur);
                assert(done + split_accum(s@.subrange(i + 1, n as int), sep, Seq::empty())
                    =~= (done.drop_last() + (seq![cur] + split_accum(
                    s@.subrange(i + 1, n as int),
                    sep,
                    Seq::empty(),
                ))));
                assert(s@.subrange(i + 1, i + 1) =~= Seq::<char>::empty());
            }
            start = i + 1;
            i = i + 1;
        } else {
            proof {
                assert(cur.push(s@[i as int]) =~= s@.subrange(start as int, i + 1));
            }
            i = i + 1;
        }
    }
    let piece = s.substring_char(start, n);
    acc.push(piece.to_owned());
    proof {
        assert(s@.subrange(n as int, n as int).len() == 0);
        assert(split_on(s@, sep) =~= done.push(s@.subrange(start as int, n as int)));
    }
    acc
}

/// An options piece is well-formed when it is exactly one `key=value`
/// binding: splitting it at `=` yields exactly a key and a value.
pub open spec fn piece_ok(piece: Seq<char>) -> bool {
    split_on(piece, '=').len() == 2
}

/// The key and value of a well-formed options piece.
pub open spec fn piece_pair(piece: Seq<char>) -> (Seq<char>, Seq<char>)
    recommends
        piece_ok(piece),
{
    (split_on(piece, '=')[0], split_on(piece, '=')[1])
}

/// An options string is well-formed when every comma-separated piece of
/// it is a single `key=value` binding.
pub open spec fn opts_ok(s: Seq<char>) -> bool {
    forall|i: int|
        0 <= i < split_terminator_on(s, ',').len() ==> piece_ok(
            #[trigger] split_terminator_on(s, ',')[i],
        )
}

/// Parses an encoder options string: comma-separated `key=value`
/// bindings, a trailing comma allowed, the empty string meaning no
/// options. `None` when any piece is not a single binding.
pub fn parse_opts(s: &str) -> (r: Option<Vec<(String, String)>>)
    ensures
        r is Some <==> opts_ok(s@),
        r matches Some(v) ==> {
            &&& v@.len() == split_terminator_on(s@, ',').len()
            &&& forall|i: int|
                0 <= i < v@.len() ==> (#[trigger] v@[i]).0@ == piece_pair(
                    split_terminator_on(s@, ',')[i],
                ).0 && v@[i].1@ == piece_pair(split_terminator_on(s@, ',')[i]).1
        },
{
    let mut pieces = split_chars(s, ',');
    proof {
        lemma_split_accum_nonempty(s@, ',', Seq::empty());
    }
    if pieces[pieces.len() - 1].as_str().is_empty() {
        // a trailing separator terminates the last piece
        pieces.pop();
    }
    let ghost wanted = split_terminator_on(s@, ',');
    proof {
        assert(pieces@.len() == wanted.len());
        assert(forall|j: int| 0 <= j < wanted.len() ==> (#[trigger] pieces@[j])@ == wanted[j]);
    }
    let mut out: Vec<(String, String)> = Vec::new();
    let mut idx: usize = 0;
    while idx < pieces.len()
        invariant
            pieces@.len() == wanted.len(),
            forall|j: int| 0 <= j < wanted.len() ==> (#[trigger] pieces@[j])@ == wanted[j],
            wanted == split_terminator_on(s@, ','),
            0 <= idx <= pieces@.len(),
            out@.len() == idx,
            forall|j: int| 0 <= j < idx ==> piece_ok(#[trigger] wanted[j]),
            forall|j: int|
                0 <= j < idx ==> (#[trigger] out@[j]).0@ == piece_pair(wanted[j]).0
                    && out@[j].1@ == piece_pair(wanted[j]).1,
        decreases pieces@.len() - idx,
    {
        let mut tokens = split_chars(pieces[idx].as_str(), '=');
        if tokens.len() != 2 {
            proof {
                assert(!piece_ok(wanted[idx as int]));
            }
            return None;
        }
        let value = match tokens.pop() {
            Some(t) => t,
            None => {
                return None;
            },
        };
        let key = match tokens.pop() {
            Some(t) => t,
            None => {
                return None;
            },
        };
        out.push((key, value));
        idx = idx + 1;
    }
    Some(out)
}

/// One attempt's parameters, derived once per pass from the source's
/// facts, the attempt's effective target, and the measured size of the
/// already-produced audio artifact; never mutated after construction.
#[derive(Clone, Copy, Debug, PartialEq, Eq, Structural)]
pub struct TranscodePlan {
    /// The byte budget this attempt runs against.
    pub effective_target_bytes: u64,
    /// The source's duration in milliseconds, carried here so no stage
    /// re-opens the source to learn it.
    pub duration_ms: u64,
    /// The audio track's bitrate budget in bits per second.
    pub audio_bitrate: u64,
    /// The video track's bitrate budget in bits per second.
    pub video_bitrate: u64,
    /// The encoder effort preset.
    pub preset: Preset,
}

/// Builds the plan of one attempt. Fails — before any encoder is touched
/// — when the audio artifact already spends the whole target, leaving no
/// positive video bitrate.
pub fn build_plan(
    source_size_bytes: u64,
    duration_ms: u64,
    effective_target_bytes: u64,
    audio_artifact_bytes: u64,
) -> (r: Result<TranscodePlan, TranscodeError>)
    requires
        duration_ms >= 1,
    ensures
        ({
            let q = video_bitrate_spec(effective_target_bytes as int, audio_artifact_bytes as int,
                duration_ms as int);
            &&& r is Ok <==> (audio_artifact_bytes < effective_target_bytes && q >= 1)
            &&& (r matches Ok(plan) ==> plan == (TranscodePlan {
                effective_target_bytes,
                duration_ms,
                audio_bitrate: audio_bitrate_spec(source_size_bytes as int) as u64,
                video_bitrate: if q > i64::MAX as int {
                    i64::MAX as u64
                } else {
                    q as u64
                },
                preset: preset_spec(source_size_bytes as int),
            }))
            &&& r is Err ==> r == Err::<TranscodePlan, TranscodeError>(
                TranscodeError::BudgetInfeasible,
            )
        }),
{
    let video = match video_bitrate(effective_target_bytes, audio_artifact_bytes, duration_ms) {
        Ok(v) => v,
        Err(e) => {
            return Err(e);
        },
    };
    Ok(
        TranscodePlan {
            effective_target_bytes,
            duration_ms,
            audio_bitrate: audio_bitrate(source_size_bytes),
            video_bitrate: video,
            preset: preset_for_source(source_size_bytes),
        },
    )
}

/// Builds the plan of one attempt from an opened source's facts; the
/// duration travels inside the plan so no later stage re-opens the source
/// to learn it.
pub fn plan_for(source: &SourceAsset, effective_target_bytes: u64, audio_artifact_bytes: u64) -> (r:
    Result<TranscodePlan, TranscodeError>)
    requires
        source.valid(),
    ensures
        ({
            let q = video_bitrate_spec(effective_target_bytes as int, audio_artifact_bytes as int,
                source.duration_ms as int);
            &&& r is Ok <==> (audio_artifact_bytes < effective_target_bytes && q >= 1)
            &&& (r matches Ok(plan) ==> plan == (TranscodePlan {
                effective_target_bytes,
                duration_ms: source.duration_ms,
                audio_bitrate: audio_bitrate_spec(source.size_bytes as int) as u64,
                video_bitrate: if q > i64::MAX as int {
                    i64::MAX as u64
                } else {
                    q as u64
                },
                preset: preset_spec(source.size_bytes as int),
            }))
            &&& r is Err ==> r == Err::<TranscodePlan, TranscodeError>(
                TranscodeError::BudgetInfeasible,
            )
        }),
{
    build_plan(source.size_bytes, source.duration_ms, effective_target_bytes, audio_artifact_bytes)
}

} // verus!
