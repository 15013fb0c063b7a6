use vstd::prelude::*;
use crate::{AV_NOPTS_VALUE, PipelineError};
use crate::frame::{AvFrame, AvFrameRef};

verus! {

/// Fixed-size reframing buffer for audio samples.
///
/// Decoders and resamplers emit frames whose sample counts the source
/// bitstream dictates, while many encoders require a fixed block size;
/// this buffer absorbs the mismatch and carries the presentation
/// timestamp forward. The engine holds the sample bytes themselves; this
/// state tracks the buffered sample count and the running timestamp,
/// which is what every caller-visible guarantee is about.
#[derive(Debug)]
pub struct AudioFifo {
    format: i64,
    channels: u16,
    buffered: usize,
    pts: i64,
}

impl AudioFifo {
    /// The sample format every buffered and emitted frame has.
    pub closed spec fn spec_format(self) -> i64 {
        self.format
    }

    /// The channel count every buffered and emitted frame has.
    pub closed spec fn spec_channels(self) -> u16 {
        self.channels
    }

    /// How many samples are buffered.
    pub closed spec fn spec_buffered(self) -> usize {
        self.buffered
    }

    /// The running output timestamp; the unset marker until the first
    /// frame seeds it.
    pub closed spec fn spec_pts(self) -> i64 {
        self.pts
    }

    /// The buffered count stays within the engine's signed 32-bit size.
    pub open spec fn wf(self) -> bool {
        self.spec_buffered() <= 0x7fff_ffff
    }

    /// An empty buffer with the given output format and channel count
    /// and an unset timestamp.
    pub fn new(format: i64, channels: u16) -> (r: Result<AudioFifo, PipelineError>)
        ensures
            r matches Ok(f) && f.spec_format() == format && f.spec_channels() == channels
                && f.spec_buffered() == 0 && f.spec_pts() == AV_NOPTS_VALUE && f.wf(),
    {
        Ok(AudioFifo { format, channels, buffered: 0, pts: AV_NOPTS_VALUE })
    }

    /// Append a frame's samples. The first buffered frame seeds the
    /// running timestamp; afterward buffering never moves it.
    pub fn buffer_frame(&mut self, frame: &AvFrameRef) -> (r: Result<(), PipelineError>)
        requires
            old(self).spec_buffered() + frame.record().nb_samples <= 0x7fff_ffff,
        ensures
            r is Ok,
            final(self).spec_buffered() == old(self).spec_buffered()
                + frame.record().nb_samples,
            final(self).spec_pts() == if old(self).spec_pts() == AV_NOPTS_VALUE {
                frame.record().pts
            } else {
                old(self).spec_pts()
            },
            final(self).spec_format() == old(self).spec_format(),
            final(self).spec_channels() == old(self).spec_channels(),
            final(self).wf(),
    {
        self.buffered = self.buffered + frame.ptr().nb_samples as usize;
        if self.pts == AV_NOPTS_VALUE {
            self.pts = frame.ptr().pts;
        }
        Ok(())
    }

    /// Drain exactly `samples_out` samples as one frame, stamped with
    /// the running timestamp, and advance the timestamp by exactly the
    /// emitted count. With fewer samples buffered nothing changes and
    /// `None` says "not enough data yet".
    pub fn get_frame(&mut self, samples_out: usize) -> (r: Result<
        Option<AvFrameRef>,
        PipelineError,
    >)
        requires
            old(self).wf(),
            1 <= samples_out <= 0x7fff_ffff,
            old(self).spec_pts() + samples_out <= i64::MAX,
        ensures
            final(self).wf(),
            final(self).spec_format() == old(self).spec_format(),
            final(self).spec_channels() == old(self).spec_channels(),
            old(self).spec_buffered() >= samples_out ==> {
                &&& r matches Ok(Some(f)) && f.record() == (AvFrame {
                    pts: old(self).spec_pts(),
                    duration: 0,
                    width: 0,
                    height: 0,
                    format: old(self).spec_format(),
                    sample_rate: 0,
                    nb_samples: samples_out as u32,
                    channels: old(self).spec_channels(),
                    pict_type: 0,
                    hw_frames: false,
                })
                &&& final(self).spec_buffered() == old(self).spec_buffered() - samples_out
                &&& final(self).spec_pts() == old(self).spec_pts() + samples_out
            },
            old(self).spec_buffered() < samples_out ==> {
                &&& r matches Ok(opt) && opt is None
                &&& *final(self) == *old(self)
            },
    {
        if self.buffered >= samples_out {
            let out = AvFrame {
                pts: self.pts,
                duration: 0,
                width: 0,
                height: 0,
                format: self.format,
                sample_rate: 0,
                nb_samples: samples_out as u32,
                channels: self.channels,
                pict_type: 0,
                hw_frames: false,
            };
            self.buffered = self.buffered - samples_out;
            self.pts = self.pts + samples_out as i64;
            Ok(Some(AvFrameRef::new(out)))
        } else {
            Ok(None)
        }
    }
}

/// The sample count a sequence of input frames carries in total.
pub open spec fn total_samples(sizes: Seq<int>) -> int
    decreases sizes.len(),
{
    if sizes.len() == 0 {
        0
    } else {
        total_samples(sizes.drop_last()) + sizes.last()
    }
}

/// Buffering is additive: feeding one run of frames after another
/// buffers the sum of both runs' samples, so the buffered total depends
/// only on the samples fed, never on how they were cut into frames.
pub proof fn lemma_total_samples_concat(a: Seq<int>, b: Seq<int>)
    ensures
        total_samples(a + b) == total_samples(a) + total_samples(b),
    decreases b.len(),
{
    if b.len() == 0 {
        assert(a + b =~= a);
    } else {
        lemma_total_samples_concat(a, b.drop_last());
        assert((a + b).drop_last() =~= a + b.drop_last());
        assert((a + b).last() == b.last());
    }
}

/// Flush completeness for the reframing buffer: from a buffered total
/// `S`, a drain of a fixed block `n` still succeeds after `k` earlier
/// drains exactly while `k < S / n`, so repeated drains yield `S / n`
/// full frames and leave `S % n` samples behind. Two inputs with equal
/// totals therefore yield the same output-frame count however they were
/// cut into frames.
pub proof fn lemma_flush_completeness(total: int, n: int, k: int)
    requires
        0 <= total,
        1 <= n,
        0 <= k,
    ensures
        k < total / n ==> total - k * n >= n,
        k == total / n ==> 0 <= total - k * n < n,
        total - (total / n) * n == total % n,
{
    assert(k < total / n ==> total - k * n >= n) by (nonlinear_arith)
        requires
            0 <= total,
            1 <= n,
            0 <= k,
    ;
    assert(k == total / n ==> 0 <= total - k * n < n) by (nonlinear_arith)
        requires
            0 <= total,
            1 <= n,
            0 <= k,
    ;
    assert(total - (total / n) * n == total % n) by (nonlinear_arith)
        requires
            0 <= total,
            1 <= n,
    ;
}

} // verus!
