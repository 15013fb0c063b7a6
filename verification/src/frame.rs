use vstd::prelude::*;
use crate::rational::Rational;

verus! {

/// The decoded-media record: one video raster or one block of audio
/// samples, reduced to the fields this layer reads. The engine owns the
/// pixel and sample planes themselves; they never cross into this model.
#[derive(Clone, Copy, Debug, PartialEq, Eq, Structural)]
pub struct AvFrame {
    /// Presentation timestamp, in the producing stream's timebase.
    pub pts: i64,
    /// Duration of the frame, in the producing stream's timebase.
    pub duration: i64,
    /// Video width in pixels; 0 for audio.
    pub width: u32,
    /// Video height in pixels; 0 for audio.
    pub height: u32,
    /// Pixel format (video) or sample format (audio) identifier.
    pub format: i64,
    /// Audio sample rate; 0 for video.
    pub sample_rate: u32,
    /// Number of audio samples per channel; 0 for video.
    pub nb_samples: u32,
    /// Number of audio channels; 0 for video.
    pub channels: u16,
    /// Picture type a decoder assigned; 0 when none is set.
    pub pict_type: i32,
    /// Whether the planes still live in a hardware device's memory.
    pub hw_frames: bool,
}

/// Exclusive-ownership handle to one decoded-media record.
///
/// The engine allocates and releases the underlying record; this handle
/// guarantees exactly-once release by owning it, and a clone is a deep
/// duplicate of the record.
#[derive(Clone, Debug, PartialEq, Eq, Structural)]
pub struct AvFrameRef {
    frame: AvFrame,
}

impl AvFrameRef {
    /// The record this handle views.
    pub closed spec fn record(self) -> AvFrame {
        self.frame
    }

    /// Take ownership of a record.
    pub fn new(frame: AvFrame) -> (r: AvFrameRef)
        ensures
            r.record() == frame,
    {
        AvFrameRef { frame }
    }

    /// Borrow the underlying record.
    pub fn ptr(&self) -> (r: &AvFrame)
        ensures
            *r == self.record(),
    {
        &self.frame
    }

}

/// The encoded-unit record: one compressed bitstream chunk belonging to
/// one stream, together with its timing and its payload bytes.
#[derive(Clone, Debug, PartialEq, Eq)]
pub struct AvPacket {
    /// Index of the stream this unit belongs to.
    pub stream_index: i32,
    /// Presentation timestamp, in `time_base` ticks.
    pub pts: i64,
    /// Decode timestamp, in `time_base` ticks.
    pub dts: i64,
    /// Duration, in `time_base` ticks.
    pub duration: i64,
    /// Timebase the three timestamps are counted in.
    pub time_base: Rational,
    /// The compressed payload.
    pub data: Vec<u8>,
}

/// Exclusive-ownership handle to one encoded-unit record, with the same
/// exactly-once release and deep-clone contract as [`AvFrameRef`].
#[derive(Clone, Debug, PartialEq, Eq)]
pub struct AvPacketRef {
    packet: AvPacket,
}

impl AvPacketRef {
    /// The record this handle views.
    pub closed spec fn record(self) -> AvPacket {
        self.packet
    }

    /// Take ownership of a record.
    pub fn new(packet: AvPacket) -> (r: AvPacketRef)
        ensures
            r.record() == packet,
    {
        AvPacketRef { packet }
    }

    /// Borrow the underlying record.
    pub fn ptr(&self) -> (r: &AvPacket)
        ensures
            *r == self.record(),
    {
        &self.packet
    }

}

} // verus!
