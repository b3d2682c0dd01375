//! Tracks, packets, and the stream-copy path.
//!
//! A source container is a read-only, ordered set of tracks plus a few
//! container-level facts; its packets are payload bytes with a timestamp in
//! the owning track's time base. Audio and video tracks are re-encoded by a
//! pass; every other track bypasses the conveyor and is copied packet by
//! packet, byte-identical, with only its timestamps rescaled to the output
//! time base.

use vstd::prelude::*;

use crate::error::TranscodeError;
use crate::timebase::{rescale_spec, rescale_ts, TimeBase};

verus! {

/// What an elementary stream carries.
#[derive(Clone, Copy, Debug, PartialEq, Eq, Structural)]
pub enum Medium {
    /// An audio stream.
    Audio,
    /// A video stream.
    Video,
    /// A subtitle stream.
    Subtitle,
    /// Any other stream (data, attachments).
    Other,
}

/// What a pass does with a track.
#[derive(Clone, Copy, Debug, PartialEq, Eq, Structural)]
pub enum Disposition {
    /// Decode, filter and re-encode the track's packets.
    Transcode,
    /// Copy the packets verbatim, rescaling only their timestamps.
    StreamCopy,
}

/// Audio and video are re-encoded; everything else is passed through as
/// opaque packet copies.
pub open spec fn disposition_spec(medium: Medium) -> Disposition {
    match medium {
        Medium::Audio => Disposition::Transcode,
        Medium::Video => Disposition::Transcode,
        Medium::Subtitle => Disposition::StreamCopy,
        Medium::Other => Disposition::StreamCopy,
    }
}

/// Decides what a pass does with a track of the given medium.
pub fn disposition(medium: Medium) -> (r: Disposition)
    ensures
        r == disposition_spec(medium),
{
    match medium {
        Medium::Audio => Disposition::Transcode,
        Medium::Video => Disposition::Transcode,
        Medium::Subtitle => Disposition::StreamCopy,
        Medium::Other => Disposition::StreamCopy,
    }
}

/// One elementary stream of a source container; read-only for the lifetime
/// of a pass.
#[derive(Clone, Copy, Debug, PartialEq, Eq, Structural)]
pub struct Track {
    /// The stream's index within its container.
    pub index: usize,
    /// What the stream carries.
    pub medium: Medium,
    /// The unit of the stream's timestamps.
    pub time_base: TimeBase,
}

impl Track {
    /// A usable track has a usable time base.
    pub open spec fn valid(self) -> bool {
        self.time_base.valid()
    }
}

/// The facts of an opened input container that a pass needs: its tracks,
/// its duration, its size on disk, and its container-level metadata.
pub struct SourceAsset {
    /// The container's tracks, in stream order.
    pub tracks: Vec<Track>,
    /// Total duration in milliseconds.
    pub duration_ms: u64,
    /// Byte size of the container on disk.
    pub size_bytes: u64,
    /// Container-level key/value metadata, order irrelevant.
    pub metadata: Vec<(String, String)>,
}

impl SourceAsset {
    /// A usable source runs for at least a millisecond and every track of
    /// it has a usable time base.
    pub open spec fn valid(self) -> bool {
        &&& self.duration_ms >= 1
        &&& forall|i: int| 0 <= i < self.tracks@.len() ==> (#[trigger] self.tracks@[i]).valid()
    }
}

/// One demuxed packet: a payload with a timestamp and the index of the
/// stream it belongs to.
#[derive(Debug, PartialEq, Eq)]
pub struct Packet {
    /// Index of the stream this packet belongs to.
    pub stream_index: usize,
    /// Timestamp in ticks of the owning track's time base.
    pub ts: i64,
    /// The encoded payload, left untouched by a stream copy.
    pub data: Vec<u8>,
}

/// Copies a packet for a track that bypasses the conveyor: the payload is
/// byte-identical, the timestamp is rescaled from the input track's time
/// base to the output track's, and the packet is re-addressed to its output
/// stream.
pub fn copy_packet(packet: &Packet, out_stream_index: usize, from: TimeBase, to: TimeBase) -> (r:
    Result<Packet, TranscodeError>)
    requires
        packet.ts >= 0,
        from.valid(),
        to.valid(),
    ensures
        ({
            let q = rescale_spec(packet.ts as int, from, to);
            &&& r is Ok <==> q <= i64::MAX
            &&& (r matches Ok(copied) ==> {
                &&& copied.data@ == packet.data@
                &&& copied.ts == q
                &&& copied.stream_index == out_stream_index
            })
            &&& r is Err ==> r == Err::<Packet, TranscodeError>(TranscodeError::BadTimestamp)
        }),
{
    let ts = match rescale_ts(packet.ts, from, to) {
        Some(v) => v,
        None => {
            return Err(TranscodeError::BadTimestamp);
        },
    };
    let mut data: Vec<u8> = Vec::new();
    let mut i: usize = 0;
    while i < packet.data.len()
        invariant
            i <= packet.data@.len(),
            data@ == packet.data@.subrange(0, i as int),
        decreases packet.data@.len() - i,
    {
        data.push(packet.data[i]);
        i = i + 1;
        proof {
            assert(data@ =~= packet.data@.subrange(0, i as int));
        }
    }
    proof {
        assert(data@ =~= packet.data@);
    }
    Ok(Packet { stream_index: out_stream_index, ts, data })
}

} // verus!
