use vstd::prelude::*;
use crate::PipelineError;
use crate::frame::AvFrameRef;
use crate::rational::{rescale_rnd, rescale_rnd_spec};

verus! {

/// The sample-format, rate and layout converter. The engine's
/// resampler does the signal work; this state holds the fixed output
/// layout and decides the lazy one-time setup.
#[derive(Clone, Copy, Debug)]
pub struct Resample {
    format: i64,
    sample_rate: u32,
    channels: u16,
    initialized: bool,
}

impl Resample {
    /// The output sample format.
    pub closed spec fn spec_format(self) -> i64 {
        self.format
    }

    /// The output sample rate.
    pub closed spec fn spec_sample_rate(self) -> u32 {
        self.sample_rate
    }

    /// The output channel count.
    pub closed spec fn spec_channels(self) -> u16 {
        self.channels
    }

    /// Whether the engine context was set up; it is created once, from
    /// the first frame's layout.
    pub closed spec fn spec_initialized(self) -> bool {
        self.initialized
    }

    /// A resampler for a fixed output layout, not yet set up.
    pub fn new(format: i64, rate: u32, channels: u16) -> (r: Resample)
        ensures
            r.spec_format() == format,
            r.spec_sample_rate() == rate,
            r.spec_channels() == channels,
            !r.spec_initialized(),
    {
        Resample { format, sample_rate: rate, channels, initialized: false }
    }

    /// Convert one frame to the output layout. A frame still in
    /// hardware memory is refused, changing nothing: this is the
    /// software path. The produced frame keeps the source's timing and
    /// carries the output format, rate and channel count; how many
    /// samples it holds is the engine's to decide from its conversion
    /// state.
    pub fn process_frame(&mut self, frame: &AvFrameRef) -> (r: Result<AvFrameRef, PipelineError>)
        requires
            1 <= old(self).spec_sample_rate() <= 0x7fff_ffff,
            1 <= frame.record().sample_rate <= 0x7fff_ffff,
            frame.record().nb_samples <= 0x7fff_ffff,
        ensures
            frame.record().hw_frames ==> r == Result::<AvFrameRef, PipelineError>::Err(
                PipelineError::HardwareFramesUnsupported,
            ) && *final(self) == *old(self),
            !frame.record().hw_frames ==> {
                &&& r matches Ok(f)
                &&& f.record().format == old(self).spec_format()
                &&& f.record().sample_rate == old(self).spec_sample_rate()
                &&& f.record().channels == old(self).spec_channels()
                &&& f.record().pts == frame.record().pts
                &&& f.record().duration == frame.record().duration
                &&& !f.record().hw_frames
                &&& final(self).spec_initialized()
                &&& final(self).spec_format() == old(self).spec_format()
                &&& final(self).spec_sample_rate() == old(self).spec_sample_rate()
                &&& final(self).spec_channels() == old(self).spec_channels()
            },
    {
        if frame.ptr().hw_frames {
            return Err(PipelineError::HardwareFramesUnsupported);
        }
        self.initialized = true;
        let rec = *frame.ptr();
        proof {
            assert(rescale_rnd_spec(
                rec.nb_samples as int,
                self.sample_rate as int,
                rec.sample_rate as int,
            ) >= 0) by (nonlinear_arith)
                requires
                    rec.nb_samples >= 0,
                    self.sample_rate >= 1,
                    rec.sample_rate >= 1,
            ;
            assert(rescale_rnd_spec(
                rec.nb_samples as int,
                self.sample_rate as int,
                rec.sample_rate as int,
            ) <= 0x4000_0000_0000_0000int) by (nonlinear_arith)
                requires
                    0 <= rec.nb_samples <= 0x7fff_ffff,
                    1 <= self.sample_rate <= 0x7fff_ffff,
                    1 <= rec.sample_rate <= 0x7fff_ffff,
            ;
        }
        let nominal = rescale_rnd(
            rec.nb_samples as i64,
            self.sample_rate as i64,
            rec.sample_rate as i64,
        );
        let mut out = rec;
        out.format = self.format;
        out.sample_rate = self.sample_rate;
        out.channels = self.channels;
        #[verifier::truncate]
        let n = nominal as u32;
        out.nb_samples = n;
        Ok(AvFrameRef::new(out))
    }
}

} // verus!
