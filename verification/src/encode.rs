use vstd::prelude::*;
use crate::{AVERROR_EAGAIN, AVERROR_EOF, PipelineError};
use crate::frame::{AvFrame, AvFrameRef, AvPacket};
use crate::rational::Rational;

verus! {

/// How one receive step of the engine's send/receive codec loop came
/// out.
#[derive(Clone, Copy, Debug, PartialEq, Eq, Structural)]
pub enum CodecSignal {
    /// The engine produced one output unit; keep receiving.
    Produced,
    /// The engine needs more input or reached end of stream; the loop
    /// is done, and this is no error.
    Exhausted,
    /// A hard failure; the whole call fails.
    Failed,
}

/// Sort one receive return code into the loop-control taxonomy: any
/// non-negative code produced output, the two transient codes end the
/// loop, every other negative code is fatal.
pub fn classify_receive(ret: i32) -> (r: CodecSignal)
    ensures
        ret >= 0 ==> r == CodecSignal::Produced,
        ret < 0 && (ret == AVERROR_EOF || ret == AVERROR_EAGAIN) ==> r == CodecSignal::Exhausted,
        ret < 0 && ret != AVERROR_EOF && ret != AVERROR_EAGAIN ==> r == CodecSignal::Failed,
{
    if ret >= 0 {
        CodecSignal::Produced
    } else if ret == AVERROR_EOF || ret == AVERROR_EAGAIN {
        CodecSignal::Exhausted
    } else {
        CodecSignal::Failed
    }
}

/// Whether a send-frame return code lets the encode loop go on: the
/// engine asking to drain output first is not an error.
pub fn send_frame_accepted(ret: i32) -> (r: bool)
    ensures
        r == (ret >= 0 || ret == AVERROR_EAGAIN),
{
    ret >= 0 || ret == AVERROR_EAGAIN
}

/// The encode state machine's configuration and output tagging. The
/// engine runs the codec itself; this state fixes what is handed to it
/// at open time and how every produced unit is stamped.
#[derive(Clone, Copy, Debug, PartialEq, Eq, Structural)]
pub struct Encoder {
    /// The codec this encoder drives.
    pub codec_id: i64,
    /// The stream index stamped onto produced units, if one is set.
    pub dst_stream_index: Option<i32>,
    /// The configured bitrate.
    pub bitrate: i64,
    /// The configured output width in pixels.
    pub width: i32,
    /// The configured output height in pixels.
    pub height: i32,
    /// The configured codec level.
    pub level: i32,
    /// The configured codec profile.
    pub profile: i32,
    /// The configured output pixel format.
    pub pix_fmt: i64,
    /// The configured output sample format.
    pub sample_fmt: i64,
    /// The configured output sample rate.
    pub sample_rate: i32,
    /// The configured output channel count.
    pub channels: i32,
    /// The configured output frame rate.
    pub framerate: Rational,
    /// The timebase produced units are counted in.
    pub time_base: Rational,
    /// Whether the codec has been opened.
    pub opened: bool,
}

impl Encoder {
    /// Whether the timebase still has its initial value, before either
    /// a sample rate or a frame rate claimed it.
    pub open spec fn time_base_unset(self) -> bool {
        self.time_base == Rational { num: 1, den: 1 }
    }

    /// A fresh encoder for one codec, with the engine's default
    /// timebase of 1/1 and nothing else configured.
    pub fn new(codec: i64) -> (r: Result<Encoder, PipelineError>)
        ensures
            r matches Ok(e) && e == (Encoder {
                codec_id: codec,
                dst_stream_index: None,
                bitrate: 0,
                width: 0,
                height: 0,
                level: 0,
                profile: 0,
                pix_fmt: 0,
                sample_fmt: 0,
                sample_rate: 0,
                channels: 0,
                framerate: Rational { num: 0, den: 1 },
                time_base: Rational { num: 1, den: 1 },
                opened: false,
            }),
    {
        Ok(
            Encoder {
                codec_id: codec,
                dst_stream_index: None,
                bitrate: 0,
                width: 0,
                height: 0,
                level: 0,
                profile: 0,
                pix_fmt: 0,
                sample_fmt: 0,
                sample_rate: 0,
                channels: 0,
                framerate: Rational { num: 0, den: 1 },
                time_base: Rational { num: 1, den: 1 },
                opened: false,
            },
        )
    }

    /// Stamp every produced unit with this destination stream index.
    pub fn with_stream_index(self, index: i32) -> (r: Encoder)
        ensures
            r == (Encoder { dst_stream_index: Some(index), ..self }),
    {
        Encoder { dst_stream_index: Some(index), ..self }
    }

    /// Set the bitrate.
    pub fn with_bitrate(self, bitrate: i64) -> (r: Encoder)
        ensures
            r == (Encoder { bitrate, ..self }),
    {
        Encoder { bitrate, ..self }
    }

    /// Set the sample rate, claiming the timebase as 1/rate. Errs,
    /// changing nothing, exactly when the timebase is already claimed —
    /// that is, on an encoder configured for video.
    pub fn with_sample_rate(self, rate: i32) -> (r: Result<Encoder, PipelineError>)
        requires
            rate >= 1,
        ensures
            !self.time_base_unset() ==> r == Result::<Encoder, PipelineError>::Err(
                PipelineError::WrongEncoderKind,
            ),
            self.time_base_unset() ==> r == Result::<Encoder, PipelineError>::Ok(
                Encoder {
                    sample_rate: rate,
                    time_base: Rational { num: 1, den: rate },
                    ..self
                },
            ),
    {
        if self.time_base.num != 1 || self.time_base.den != 1 {
            Err(PipelineError::WrongEncoderKind)
        } else {
            Ok(Encoder { sample_rate: rate, time_base: Rational { num: 1, den: rate }, ..self })
        }
    }

    /// Set the output width in pixels.
    pub fn with_width(self, width: i32) -> (r: Encoder)
        ensures
            r == (Encoder { width, ..self }),
    {
        Encoder { width, ..self }
    }

    /// Set the output height in pixels.
    pub fn with_height(self, height: i32) -> (r: Encoder)
        ensures
            r == (Encoder { height, ..self }),
    {
        Encoder { height, ..self }
    }

    /// Set the codec level.
    pub fn with_level(self, level: i32) -> (r: Encoder)
        ensures
            r == (Encoder { level, ..self }),
    {
        Encoder { level, ..self }
    }

    /// Set the codec profile.
    pub fn with_profile(self, profile: i32) -> (r: Encoder)
        ensures
            r == (Encoder { profile, ..self }),
    {
        Encoder { profile, ..self }
    }

    /// Set the frame rate, claiming the timebase as its reciprocal.
    /// Errs, changing nothing, exactly when the timebase is already
    /// claimed — that is, on an encoder configured for audio.
    pub fn with_framerate(self, fps: Rational) -> (r: Result<Encoder, PipelineError>)
        requires
            fps.valid(),
        ensures
            !self.time_base_unset() ==> r == Result::<Encoder, PipelineError>::Err(
                PipelineError::WrongEncoderKind,
            ),
            self.time_base_unset() ==> r == Result::<Encoder, PipelineError>::Ok(
                Encoder {
                    framerate: fps,
                    time_base: Rational { num: fps.den, den: fps.num },
                    ..self
                },
            ),
    {
        if self.time_base.num != 1 || self.time_base.den != 1 {
            Err(PipelineError::WrongEncoderKind)
        } else {
            Ok(Encoder { framerate: fps, time_base: fps.inverse(), ..self })
        }
    }

    /// Set the output pixel format.
    pub fn with_pix_fmt(self, fmt: i64) -> (r: Encoder)
        ensures
            r == (Encoder { pix_fmt: fmt, ..self }),
    {
        Encoder { pix_fmt: fmt, ..self }
    }

    /// Set the output sample format.
    pub fn with_sample_format(self, fmt: i64) -> (r: Encoder)
        ensures
            r == (Encoder { sample_fmt: fmt, ..self }),
    {
        Encoder { sample_fmt: fmt, ..self }
    }

    /// Set the channel count, for the engine's default layout of that
    /// many channels.
    pub fn with_default_channel_layout(self, channels: i32) -> (r: Encoder)
        ensures
            r == (Encoder { channels, ..self }),
    {
        Encoder { channels, ..self }
    }

    /// Mark the codec opened; encoding may start. The engine's own open
    /// call runs where the engine is driven, before this state is
    /// trusted.
    pub fn open(self) -> (r: Result<Encoder, PipelineError>)
        ensures
            r == Result::<Encoder, PipelineError>::Ok(Encoder { opened: true, ..self }),
    {
        Ok(Encoder { opened: true, ..self })
    }

    /// The frame as it is handed to the engine: a decoder-assigned
    /// picture type is cleared, since it confuses the encoder; every
    /// other field is kept.
    pub fn prepare_frame(&self, frame: &AvFrameRef) -> (r: AvFrameRef)
        ensures
            r.record() == (AvFrame { pict_type: 0, ..frame.record() }),
    {
        let rec = *frame.ptr();
        AvFrameRef::new(AvFrame { pict_type: 0, ..rec })
    }

    /// A produced unit as it leaves the encoder: counted in the
    /// encoder's timebase, a missing duration raised to one tick, and
    /// the destination stream index stamped on when one is set.
    pub fn finalize_packet(&self, pkt: AvPacket) -> (r: AvPacket)
        ensures
            r.time_base == self.time_base,
            r.duration == if pkt.duration == 0 {
                1int
            } else {
                pkt.duration as int
            },
            r.stream_index == match self.dst_stream_index {
                Some(i) => i,
                None => pkt.stream_index,
            },
            r.pts == pkt.pts,
            r.dts == pkt.dts,
            r.data == pkt.data,
    {
        let mut out = pkt;
        out.time_base = self.time_base;
        if out.duration == 0 {
            out.duration = 1;
        }
        match self.dst_stream_index {
            Some(i) => {
                out.stream_index = i;
            },
            None => {},
        }
        out
    }
}

} // verus!
