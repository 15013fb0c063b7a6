use vstd::prelude::*;
use crate::PipelineError;
use crate::frame::{AvFrame, AvFrameRef};

verus! {

/// The pixel-format and geometry converter. The engine's kernel does
/// the pixel work; this state decides when the conversion context must
/// be rebuilt and what the produced frame looks like.
#[derive(Clone, Copy, Debug)]
pub struct Scaler {
    width: u16,
    height: u16,
    format: i64,
    configured: bool,
}

impl Scaler {
    /// The target width the current context converts to.
    pub closed spec fn spec_width(self) -> u16 {
        self.width
    }

    /// The target height the current context converts to.
    pub closed spec fn spec_height(self) -> u16 {
        self.height
    }

    /// The target pixel format the current context converts to.
    pub closed spec fn spec_format(self) -> i64 {
        self.format
    }

    /// Whether a conversion context exists.
    pub closed spec fn spec_configured(self) -> bool {
        self.configured
    }

    /// A scaler with no conversion context yet.
    pub fn new() -> (r: Scaler)
        ensures
            !r.spec_configured(),
            r.spec_width() == 0,
            r.spec_height() == 0,
            r.spec_format() == 0,
    {
        Scaler { width: 0, height: 0, format: 0, configured: false }
    }

    /// Point the conversion context at a target size and format.
    /// Returns whether the engine context must be (re)built: only a
    /// missing context or a changed target costs a rebuild.
    pub fn setup_scaler(&mut self, width: u16, height: u16, format: i64) -> (rebuilt: bool)
        ensures
            rebuilt == !(old(self).spec_configured() && old(self).spec_width() == width && old(
                self,
            ).spec_height() == height && old(self).spec_format() == format),
            final(self).spec_configured(),
            final(self).spec_width() == width,
            final(self).spec_height() == height,
            final(self).spec_format() == format,
    {
        if self.configured && self.width == width && self.height == height && self.format
            == format {
            return false;
        }
        self.width = width;
        self.height = height;
        self.format = format;
        self.configured = true;
        true
    }

    /// Convert one frame to the given size and format. A frame still in
    /// hardware memory is refused, changing nothing: this is the
    /// software path. The produced frame keeps the source's timing and
    /// carries the target geometry and format.
    pub fn process_frame(&mut self, frame: &AvFrameRef, width: u16, height: u16, format: i64) -> (r:
        Result<AvFrameRef, PipelineError>)
        ensures
            frame.record().hw_frames ==> r == Result::<AvFrameRef, PipelineError>::Err(
                PipelineError::HardwareFramesUnsupported,
            ) && *final(self) == *old(self),
            !frame.record().hw_frames ==> {
                &&& r matches Ok(f) && f.record() == (AvFrame {
                    width: width as u32,
                    height: height as u32,
                    format,
                    hw_frames: false,
                    ..frame.record()
                })
                &&& final(self).spec_configured()
                &&& final(self).spec_width() == width
                &&& final(self).spec_height() == height
                &&& final(self).spec_format() == format
            },
    {
        if frame.ptr().hw_frames {
            return Err(PipelineError::HardwareFramesUnsupported);
        }
        self.setup_scaler(width, height, format);
        let rec = *frame.ptr();
        Ok(
            AvFrameRef::new(
                AvFrame {
                    width: width as u32,
                    height: height as u32,
                    format,
                    hw_frames: false,
                    ..rec
                },
            ),
        )
    }
}

} // verus!
