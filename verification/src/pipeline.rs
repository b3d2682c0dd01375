//! The per-track decode → filter → encode conveyor.
//!
//! One pipeline exists per re-encoded track per pass. The blocking codec
//! calls happen outside the library; the pipeline is the state machine that
//! tells the caller what to do next and holds the pass's bookkeeping: which
//! phase the track is in, whether new input is still accepted, how many
//! frames went by, and that the packets handed to the container carry
//! monotonically non-decreasing output timestamps.
//!
//! The protocol is strict. While `Feeding`, the caller pushes each input
//! packet to the decoder, pulls every frame the decoder will yield, routes
//! each frame as directed (audio through the filter graph, video straight
//! to the encoder), and pulls every packet the encoder will yield before
//! reading more input. When the source is exhausted the caller begins the
//! drain: an end-of-stream signal to the decoder, then — once the decoder
//! yields nothing more — to the filter (audio only), then to the encoder,
//! pulling each stage empty before advancing. `Finished` is terminal.

use vstd::prelude::*;

use crate::error::TranscodeError;
use crate::timebase::{rescale_spec, rescale_ts, TimeBase};
use crate::track::Medium;

verus! {

/// The codec stage a draining pipeline is currently pulling empty.
#[derive(Clone, Copy, Debug, PartialEq, Eq, Structural)]
pub enum DrainStage {
    /// The decoder was sent end-of-stream; its remaining frames are being
    /// pulled.
    Decoder,
    /// The filter graph was flushed; its remaining frames are being
    /// pulled.
    Filter,
    /// The encoder was sent end-of-stream; its remaining packets are being
    /// pulled.
    Encoder,
}

/// Where a track's conveyor stands.
#[derive(Clone, Copy, Debug, PartialEq, Eq, Structural)]
pub enum Phase {
    /// Input packets are still being pushed.
    Feeding,
    /// End of input was reached; the stages are being emptied in order.
    Draining(DrainStage),
    /// The drain is complete; no further calls are permitted.
    Finished,
}

/// Which stage a decoded frame is submitted to next.
#[derive(Clone, Copy, Debug, PartialEq, Eq, Structural)]
pub enum FrameRoute {
    /// Through the filter graph first (audio: format conversion).
    ToFilter,
    /// Straight to the encoder (video: pass-through).
    ToEncoder,
}

/// The end-of-stream signal the caller must deliver next while draining.
#[derive(Clone, Copy, Debug, PartialEq, Eq, Structural)]
pub enum DrainSignal {
    /// Send end-of-stream to the decoder.
    DecoderEof,
    /// Flush the filter graph.
    FilterEof,
    /// Send end-of-stream to the encoder.
    EncoderEof,
}

/// What to do with one decoded frame.
#[derive(Clone, Copy, Debug, PartialEq, Eq, Structural)]
pub struct FrameDirective {
    /// The stage the frame goes to next.
    pub route: FrameRoute,
    /// The presentation timestamp to stamp on the frame: the decoder's,
    /// unchanged.
    pub pts: Option<i64>,
    /// Whether to clear the frame's picture kind so the encoder chooses
    /// its own frame types (video only).
    pub clear_picture_kind: bool,
}

/// One packet to hand to the output container.
#[derive(Clone, Copy, Debug, PartialEq, Eq, Structural)]
pub struct WriteCommand {
    /// The output stream the packet belongs to.
    pub stream_index: usize,
    /// The packet's timestamp, rescaled to the output time base.
    pub ts: i64,
}

/// The state machine of one re-encoded track within one pass.
pub struct TrackPipeline {
    /// What the track carries; only audio and video are re-encoded.
    pub medium: Medium,
    /// Where the conveyor stands.
    pub phase: Phase,
    /// Whether new input packets are still accepted; cleared when the
    /// size monitor aborts the pass's feeding or the drain begins.
    pub accepting: bool,
    /// The input track's time base.
    pub in_time_base: TimeBase,
    /// The output track's time base.
    pub out_time_base: TimeBase,
    /// The output stream encoded packets are addressed to.
    pub out_stream_index: usize,
    /// How many frames the decoder has yielded so far.
    pub frame_count: u64,
    /// How many packets were handed to the output container so far.
    pub packets_written: u64,
    /// The last output timestamp handed to the container; zero before the
    /// first write, never decreasing afterwards.
    pub last_write_ts: i64,
}

impl TrackPipeline {
    /// Whether the conveyor runs frames through a filter graph: audio
    /// does, video passes through.
    pub open spec fn has_filter(self) -> bool {
        self.medium is Audio
    }

    /// The pipeline's internal invariant.
    pub open spec fn well_formed(self) -> bool {
        &&& self.medium is Audio || self.medium is Video
        &&& self.in_time_base.valid()
        &&& self.out_time_base.valid()
        &&& self.phase !is Feeding ==> !self.accepting
        &&& self.phase == Phase::Draining(DrainStage::Filter) ==> self.has_filter()
        &&& self.last_write_ts >= 0
    }

    /// A fresh conveyor for one re-encoded track: feeding, accepting,
    /// nothing counted yet.
    pub fn new(medium: Medium, in_time_base: TimeBase, out_time_base: TimeBase,
        out_stream_index: usize) -> (r: TrackPipeline)
        requires
            medium is Audio || medium is Video,
            in_time_base.valid(),
            out_time_base.valid(),
        ensures
            r == (TrackPipeline {
                medium,
                phase: Phase::Feeding,
                accepting: true,
                in_time_base,
                out_time_base,
                out_stream_index,
                frame_count: 0,
                packets_written: 0,
                last_write_ts: 0,
            }),
            r.well_formed(),
    {
        TrackPipeline {
            medium,
            phase: Phase::Feeding,
            accepting: true,
            in_time_base,
            out_time_base,
            out_stream_index,
            frame_count: 0,
            packets_written: 0,
            last_write_ts: 0,
        }
    }

    /// Whether an input packet for this track should still be pushed to
    /// the decoder; when false, remaining input packets for the track are
    /// discarded for this pass.
    pub fn accepts_input(&self) -> (r: bool)
        requires
            self.phase is Feeding,
        ensures
            r == self.accepting,
    {
        self.accepting
    }

    /// Stops accepting new input for this track — the size monitor found
    /// the pass over budget — while leaving the normal drain available so
    /// the container still gets a valid trailer.
    pub fn halt_feeding(&mut self)
        requires
            old(self).well_formed(),
            old(self).phase is Feeding,
        ensures
            *final(self) == (TrackPipeline { accepting: false, ..*old(self) }),
            final(self).well_formed(),
    {
        self.accepting = false;
    }

    /// Books one frame the decoder yielded and says where it goes next:
    /// through the filter graph for audio, straight to the encoder for
    /// video. The frame keeps the decoder's timestamp; video frames have
    /// their picture kind cleared.
    pub fn on_decoded_frame(&mut self, pts: Option<i64>) -> (d: FrameDirective)
        requires
            old(self).well_formed(),
            old(self).phase is Feeding || old(self).phase == Phase::Draining(DrainStage::Decoder),
            old(self).frame_count < u64::MAX,
        ensures
            *final(self) == (TrackPipeline {
                frame_count: (old(self).frame_count + 1) as u64,
                ..*old(self)
            }),
            final(self).well_formed(),
            d == (FrameDirective {
                route: if old(self).has_filter() {
                    FrameRoute::ToFilter
                } else {
                    FrameRoute::ToEncoder
                },
                pts,
                clear_picture_kind: !old(self).has_filter(),
            }),
    {
        self.frame_count = self.frame_count + 1;
        let route = match self.medium {
            Medium::Audio => FrameRoute::ToFilter,
            _ => FrameRoute::ToEncoder,
        };
        FrameDirective { route, pts, clear_picture_kind: !matches!(self.medium, Medium::Audio) }
    }

    /// Books one packet the encoder yielded: rescales its timestamp from
    /// the input time base to the output one and addresses it to the
    /// track's output stream. Fails — fatally for the pass — when the
    /// rescaled timestamp does not fit or would run backwards within the
    /// track.
    pub fn on_encoded_packet(&mut self, ts: i64) -> (r: Result<WriteCommand, TranscodeError>)
        requires
            old(self).well_formed(),
            old(self).phase !is Finished,
            ts >= 0,
            old(self).packets_written < u64::MAX,
        ensures
            ({
                let q = rescale_spec(ts as int, old(self).in_time_base, old(self).out_time_base);
                &&& r is Ok <==> (q <= i64::MAX && q >= old(self).last_write_ts)
                &&& (r matches Ok(w) ==> {
                    &&& w.ts == q
                    &&& w.stream_index == old(self).out_stream_index
                    &&& w.ts >= old(self).last_write_ts
                    &&& *final(self) == (TrackPipeline {
                        packets_written: (old(self).packets_written + 1) as u64,
                        last_write_ts: w.ts,
                        ..*old(self)
                    })
                })
                &&& (r is Err ==> r == Err::<WriteCommand, TranscodeError>(
                    TranscodeError::BadTimestamp,
                ) && *final(self) == *old(self))
            }),
            final(self).well_formed(),
    {
        let rescaled = match rescale_ts(ts, self.in_time_base, self.out_time_base) {
            Some(v) => v,
            None => {
                return Err(TranscodeError::BadTimestamp);
            },
        };
        if rescaled < self.last_write_ts {
            return Err(TranscodeError::BadTimestamp);
        }
        self.packets_written = self.packets_written + 1;
        self.last_write_ts = rescaled;
        Ok(WriteCommand { stream_index: self.out_stream_index, ts: rescaled })
    }

    /// Ends the feeding phase: the source is exhausted (or feeding was
    /// halted), so the drain begins with an end-of-stream signal to the
    /// decoder.
    pub fn begin_drain(&mut self) -> (signal: DrainSignal)
        requires
            old(self).well_formed(),
            old(self).phase is Feeding,
        ensures
            *final(self) == (TrackPipeline {
                phase: Phase::Draining(DrainStage::Decoder),
                accepting: false,
                ..*old(self)
            }),
            final(self).well_formed(),
            signal == DrainSignal::DecoderEof,
    {
        self.phase = Phase::Draining(DrainStage::Decoder);
        self.accepting = false;
        DrainSignal::DecoderEof
    }

    /// The state after the stage being drained reports no more output:
    /// the drain advances to the next stage — the filter only exists for
    /// audio — and past the encoder it is finished.
    pub open spec fn spec_stage_exhausted(self) -> TrackPipeline {
        match self.phase {
            Phase::Draining(DrainStage::Decoder) => TrackPipeline {
                phase: if self.has_filter() {
                    Phase::Draining(DrainStage::Filter)
                } else {
                    Phase::Draining(DrainStage::Encoder)
                },
                ..self
            },
            Phase::Draining(DrainStage::Filter) => TrackPipeline {
                phase: Phase::Draining(DrainStage::Encoder),
                ..self
            },
            Phase::Draining(DrainStage::Encoder) => TrackPipeline { phase: Phase::Finished, ..self },
            _ => self,
        }
    }

    /// The end-of-stream signal owed to the stage the drain advances to,
    /// if any.
    pub open spec fn spec_exhausted_signal(self) -> Option<DrainSignal> {
        match self.phase {
            Phase::Draining(DrainStage::Decoder) => if self.has_filter() {
                Some(DrainSignal::FilterEof)
            } else {
                Some(DrainSignal::EncoderEof)
            },
            Phase::Draining(DrainStage::Filter) => Some(DrainSignal::EncoderEof),
            _ => None,
        }
    }

    /// Advances the drain after the current stage reported no more
    /// output. The answer is the end-of-stream signal to deliver next;
    /// `None` once the encoder too is empty and the track is finished.
    pub fn stage_exhausted(&mut self) -> (signal: Option<DrainSignal>)
        requires
            old(self).well_formed(),
            old(self).phase is Draining,
        ensures
            *final(self) == old(self).spec_stage_exhausted(),
            final(self).well_formed(),
            signal == old(self).spec_exhausted_signal(),
    {
        match self.phase {
            Phase::Draining(DrainStage::Decoder) => {
                if matches!(self.medium, Medium::Audio) {
                    self.phase = Phase::Draining(DrainStage::Filter);
                    Some(DrainSignal::FilterEof)
                } else {
                    self.phase = Phase::Draining(DrainStage::Encoder);
                    Some(DrainSignal::EncoderEof)
                }
            },
            Phase::Draining(DrainStage::Filter) => {
                self.phase = Phase::Draining(DrainStage::Encoder);
                Some(DrainSignal::EncoderEof)
            },
            _ => {
                self.phase = Phase::Finished;
                None
            },
        }
    }

    /// Whether the track's conveyor has finished its drain.
    pub fn is_finished(&self) -> (r: bool)
        ensures
            r == (self.phase is Finished),
    {
        matches!(self.phase, Phase::Finished)
    }
}

/// An idempotent flush: a pipeline that enters the drain with every codec
/// stage already empty — each stage reports no more output as soon as it
/// is asked — walks straight through the stages to `Finished`, emitting no
/// packet and seeing no frame.
pub proof fn lemma_empty_drain_one_pass(p: TrackPipeline)
    requires
        p.well_formed(),
        p.phase == Phase::Draining(DrainStage::Decoder),
    ensures
        ({
            let after_decoder = p.spec_stage_exhausted();
            let after_filter = if p.has_filter() {
                after_decoder.spec_stage_exhausted()
            } else {
                after_decoder
            };
            let done = after_filter.spec_stage_exhausted();
            &&& done.phase is Finished
            &&& done.packets_written == p.packets_written
            &&& done.frame_count == p.frame_count
        }),
{
}

} // verus!
