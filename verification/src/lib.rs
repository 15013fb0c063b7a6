use vstd::prelude::*;

pub mod audio_fifo;
pub mod decode;
pub mod demux;
pub mod encode;
pub mod frame;
pub mod io_bridge;
pub mod mux;
pub mod rational;
pub mod resample;
pub mod scale;
pub mod stream_info;
pub mod transcode;

use crate::frame::{AvFrame, AvFrameRef};

verus! {

/// Marker value the engine uses for an unset timestamp.
pub const AV_NOPTS_VALUE: i64 = i64::MIN;

/// Default backing-buffer size for callback-driven container I/O.
pub const AVIO_BUFFER_SIZE: usize = 4096;

/// The engine's end-of-stream return code.
pub const AVERROR_EOF: i32 = -541478725;

/// The engine's "try again" return code: the negated `EAGAIN` of this
/// platform's C library.
pub const AVERROR_EAGAIN: i32 = -11;

/// The failures this layer itself decides on.
#[derive(Clone, Copy, Debug, PartialEq, Eq, Structural)]
pub enum PipelineError {
    /// A decoder is already registered for this stream index.
    DecoderAlreadySetup,
    /// The context was already opened or initialized.
    ContextAlreadyOpen,
    /// The context is not initialized.
    ContextNotInitialized,
    /// A sample-rate was assigned to a video encoder, or a frame rate to
    /// an audio encoder.
    WrongEncoderKind,
    /// A software-only transform was handed a frame still resident in
    /// hardware memory.
    HardwareFramesUnsupported,
    /// The operation needs a state the component is not in.
    InvalidState,
}

/// The frame's duration field.
pub fn get_frame_duration(frame: &AvFrameRef) -> (d: i64)
    ensures
        d == frame.record().duration,
{
    frame.ptr().duration
}

/// Bring a frame into host memory. A frame whose planes already live on
/// the host passes through unchanged; for one held by a hardware device
/// the engine copies the planes across and the record keeps every field
/// but the hardware residence mark.
pub fn get_frame_from_hw(frame: AvFrameRef) -> (r: Result<AvFrameRef, PipelineError>)
    ensures
        r is Ok,
        !frame.record().hw_frames ==> r->Ok_0.record() == frame.record(),
        frame.record().hw_frames ==> r->Ok_0.record() == (AvFrame {
            hw_frames: false,
            ..frame.record()
        }),
{
    if !frame.ptr().hw_frames {
        Ok(frame)
    } else {
        let rec = *frame.ptr();
        Ok(AvFrameRef::new(AvFrame { hw_frames: false, ..rec }))
    }
}

} // verus!
