use vstd::prelude::*;
use crate::{AV_NOPTS_VALUE, PipelineError};
use crate::encode::Encoder;
use crate::frame::AvPacket;
use crate::rational::{rescale_q, rescale_q_fits, rescale_q_spec, Rational};
use crate::stream_info::StreamInfo;

verus! {

/// One output stream: what the writer needs to rebase timestamps onto
/// it.
#[derive(Clone, Copy, Debug, PartialEq, Eq, Structural)]
pub struct MuxStream {
    /// The timebase packets of this stream are written in.
    pub time_base: Rational,
}

/// Where the written container bytes go. The writer object itself
/// stays with the caller-side bridge.
#[derive(Clone, Copy, Debug, PartialEq, Eq, Structural)]
pub enum MuxerOutput {
    /// A path or URL the engine opens itself.
    Url,
    /// An application byte sink without seeking.
    Writer,
    /// An application byte sink with seeking.
    WriterSeeker,
}

/// A packet's timestamps recounted into a stream's timebase, with the
/// engine's rules: an unset timestamp passes through, a duration is
/// rescaled only when positive, and the payload is untouched.
pub open spec fn rescale_packet_spec(pkt: AvPacket, tb: Rational) -> AvPacket {
    AvPacket {
        pts: if pkt.pts == AV_NOPTS_VALUE {
            pkt.pts
        } else {
            rescale_q_spec(pkt.pts as int, pkt.time_base, tb) as i64
        },
        dts: if pkt.dts == AV_NOPTS_VALUE {
            pkt.dts
        } else {
            rescale_q_spec(pkt.dts as int, pkt.time_base, tb) as i64
        },
        duration: if pkt.duration > 0 {
            rescale_q_spec(pkt.duration as int, pkt.time_base, tb) as i64
        } else {
            pkt.duration
        },
        time_base: tb,
        ..pkt
    }
}

/// Whether every timestamp of `pkt` that would be rescaled onto `tb`
/// stays within the signed 64-bit range.
pub open spec fn packet_rescalable(pkt: AvPacket, tb: Rational) -> bool {
    &&& pkt.pts != AV_NOPTS_VALUE ==> rescale_q_fits(pkt.pts as int, pkt.time_base, tb)
    &&& pkt.dts != AV_NOPTS_VALUE ==> rescale_q_fits(pkt.dts as int, pkt.time_base, tb)
    &&& pkt.duration > 0 ==> rescale_q_fits(pkt.duration as int, pkt.time_base, tb)
}

/// Recount a packet's timestamps into `tb`, leaving stream index and
/// payload as they are.
pub fn rescale_packet(pkt: AvPacket, tb: Rational) -> (r: AvPacket)
    requires
        pkt.time_base.valid(),
        tb.valid(),
        packet_rescalable(pkt, tb),
    ensures
        r == rescale_packet_spec(pkt, tb),
{
    let mut out = pkt;
    if out.pts != AV_NOPTS_VALUE {
        out.pts = rescale_q(out.pts, out.time_base, tb);
    }
    if out.dts != AV_NOPTS_VALUE {
        out.dts = rescale_q(out.dts, out.time_base, tb);
    }
    if out.duration > 0 {
        out.duration = rescale_q(out.duration, out.time_base, tb);
    }
    out.time_base = tb;
    out
}

/// The container writer: output streams, the open/closed state of the
/// underlying context, and the packets handed to the engine's
/// interleaved writer, in order.
#[derive(Debug)]
pub struct Muxer {
    initialized: bool,
    opened: bool,
    streams: Vec<MuxStream>,
    url: Option<String>,
    format: Option<String>,
    output: MuxerOutput,
    written: Vec<AvPacket>,
}

impl Muxer {
    /// Whether the underlying context exists.
    pub closed spec fn spec_initialized(self) -> bool {
        self.initialized
    }

    /// Whether the header was written and packets may follow.
    pub closed spec fn spec_opened(self) -> bool {
        self.opened
    }

    /// The output streams, in creation order.
    pub closed spec fn spec_streams(self) -> Seq<MuxStream> {
        self.streams@
    }

    /// The destination path, if one was set.
    pub closed spec fn spec_url(self) -> Option<String> {
        self.url
    }

    /// The container-format name, if one was set.
    pub closed spec fn spec_format(self) -> Option<String> {
        self.format
    }

    /// Which kind of output the writer drives.
    pub closed spec fn spec_output(self) -> MuxerOutput {
        self.output
    }

    /// Every packet handed to the engine's writer, in order.
    pub closed spec fn spec_written(self) -> Seq<AvPacket> {
        self.written@
    }

    /// Whether the underlying context exists.
    pub fn is_initialized(&self) -> (r: bool)
        ensures
            r == self.spec_initialized(),
    {
        self.initialized
    }

    /// Every packet handed to the engine's writer so far, in order.
    pub fn written_view(&self) -> (r: &Vec<AvPacket>)
        ensures
            r@ == self.spec_written(),
    {
        &self.written
    }

    /// A builder for a new writer.
    pub fn builder() -> (r: MuxerBuilder)
        ensures
            !r.spec_muxer().spec_initialized(),
            !r.spec_muxer().spec_opened(),
            r.spec_muxer().spec_streams().len() == 0,
            r.spec_muxer().spec_written().len() == 0,
    {
        MuxerBuilder {
            muxer: Muxer {
                initialized: false,
                opened: false,
                streams: Vec::new(),
                url: None,
                format: None,
                output: MuxerOutput::Url,
                written: Vec::new(),
            },
        }
    }

    /// Add an output stream that will carry units from `encoder`,
    /// counted in the encoder's timebase. Returns the new stream's
    /// index; errs, changing nothing, exactly when no context exists.
    pub fn add_stream_encoder(&mut self, encoder: &Encoder) -> (r: Result<usize, PipelineError>)
        ensures
            !old(self).spec_initialized() ==> r == Result::<usize, PipelineError>::Err(
                PipelineError::ContextNotInitialized,
            ) && *final(self) == *old(self),
            old(self).spec_initialized() ==> {
                &&& r == Result::<usize, PipelineError>::Ok(old(self).spec_streams().len() as usize)
                &&& final(self).spec_streams() == old(self).spec_streams().push(
                    MuxStream { time_base: encoder.time_base },
                )
                &&& unchanged_but_streams(*old(self), *final(self))
            },
    {
        if !self.initialized {
            return Err(PipelineError::ContextNotInitialized);
        }
        let idx = self.streams.len();
        self.streams.push(MuxStream { time_base: encoder.time_base });
        Ok(idx)
    }

    /// Add an output stream that copies an input stream's parameters,
    /// counted in the input stream's timebase. Returns the new stream's
    /// index; errs, changing nothing, exactly when no context exists.
    pub fn add_copy_stream(&mut self, in_stream: &StreamInfo) -> (r: Result<usize, PipelineError>)
        ensures
            !old(self).spec_initialized() ==> r == Result::<usize, PipelineError>::Err(
                PipelineError::ContextNotInitialized,
            ) && *final(self) == *old(self),
            old(self).spec_initialized() ==> {
                &&& r == Result::<usize, PipelineError>::Ok(old(self).spec_streams().len() as usize)
                &&& final(self).spec_streams() == old(self).spec_streams().push(
                    MuxStream { time_base: in_stream.timebase },
                )
                &&& unchanged_but_streams(*old(self), *final(self))
            },
    {
        if !self.initialized {
            return Err(PipelineError::ContextNotInitialized);
        }
        let idx = self.streams.len();
        self.streams.push(MuxStream { time_base: in_stream.timebase });
        Ok(idx)
    }

    /// Recreate the context after [`Muxer::reset`], so the writer can
    /// be pointed at a new output without rebuilding encoders. Errs,
    /// changing nothing, exactly when a context already exists; the new
    /// context starts with no streams.
    pub fn init(&mut self) -> (r: Result<(), PipelineError>)
        ensures
            old(self).spec_initialized() ==> r == Result::<(), PipelineError>::Err(
                PipelineError::ContextAlreadyOpen,
            ) && *final(self) == *old(self),
            !old(self).spec_initialized() ==> {
                &&& r is Ok
                &&& final(self).spec_initialized()
                &&& !final(self).spec_opened()
                &&& final(self).spec_streams().len() == 0
                &&& final(self).spec_url() == old(self).spec_url()
                &&& final(self).spec_format() == old(self).spec_format()
                &&& final(self).spec_output() == old(self).spec_output()
                &&& final(self).spec_written() == old(self).spec_written()
            },
    {
        if self.initialized {
            return Err(PipelineError::ContextAlreadyOpen);
        }
        self.initialized = true;
        self.opened = false;
        self.streams = Vec::new();
        Ok(())
    }

    /// Change the destination path. Errs, changing nothing, exactly
    /// while a context exists: reset first.
    pub fn set_url(&mut self, url: Option<String>) -> (r: Result<(), PipelineError>)
        ensures
            old(self).spec_initialized() ==> r == Result::<(), PipelineError>::Err(
                PipelineError::ContextAlreadyOpen,
            ) && *final(self) == *old(self),
            !old(self).spec_initialized() ==> {
                &&& r is Ok
                &&& final(self).spec_url() == url
                &&& final(self).spec_initialized() == old(self).spec_initialized()
                &&& final(self).spec_opened() == old(self).spec_opened()
                &&& final(self).spec_streams() == old(self).spec_streams()
                &&& final(self).spec_format() == old(self).spec_format()
                &&& final(self).spec_output() == old(self).spec_output()
                &&& final(self).spec_written() == old(self).spec_written()
            },
    {
        if self.initialized {
            return Err(PipelineError::ContextAlreadyOpen);
        }
        self.url = url;
        Ok(())
    }

    /// Change the container format. Errs, changing nothing, exactly
    /// while a context exists: reset first.
    pub fn set_format(&mut self, format: Option<String>) -> (r: Result<(), PipelineError>)
        ensures
            old(self).spec_initialized() ==> r == Result::<(), PipelineError>::Err(
                PipelineError::ContextAlreadyOpen,
            ) && *final(self) == *old(self),
            !old(self).spec_initialized() ==> {
                &&& r is Ok
                &&& final(self).spec_format() == format
                &&& final(self).spec_initialized() == old(self).spec_initialized()
                &&& final(self).spec_opened() == old(self).spec_opened()
                &&& final(self).spec_streams() == old(self).spec_streams()
                &&& final(self).spec_url() == old(self).spec_url()
                &&& final(self).spec_output() == old(self).spec_output()
                &&& final(self).spec_written() == old(self).spec_written()
            },
    {
        if self.initialized {
            return Err(PipelineError::ContextAlreadyOpen);
        }
        self.format = format;
        Ok(())
    }

    /// Write the header and start accepting packets. Errs, changing
    /// nothing, when no context exists or the header was already
    /// written.
    pub fn open(&mut self) -> (r: Result<(), PipelineError>)
        ensures
            !old(self).spec_initialized() ==> r == Result::<(), PipelineError>::Err(
                PipelineError::ContextNotInitialized,
            ) && *final(self) == *old(self),
            old(self).spec_initialized() && old(self).spec_opened() ==> r == Result::<
                (),
                PipelineError,
            >::Err(PipelineError::ContextAlreadyOpen) && *final(self) == *old(self),
            old(self).spec_initialized() && !old(self).spec_opened() ==> {
                &&& r is Ok
                &&& final(self).spec_opened()
                &&& final(self).spec_initialized()
                &&& final(self).spec_streams() == old(self).spec_streams()
                &&& final(self).spec_url() == old(self).spec_url()
                &&& final(self).spec_format() == old(self).spec_format()
                &&& final(self).spec_output() == old(self).spec_output()
                &&& final(self).spec_written() == old(self).spec_written()
            },
    {
        if !self.initialized {
            return Err(PipelineError::ContextNotInitialized);
        }
        if self.opened {
            return Err(PipelineError::ContextAlreadyOpen);
        }
        self.opened = true;
        Ok(())
    }

    /// Hand one packet to the engine's interleaved writer: its
    /// timestamps are recounted into the destination stream's timebase
    /// and its payload bytes go through untouched.
    pub fn write_packet(&mut self, pkt: AvPacket) -> (r: Result<(), PipelineError>)
        requires
            old(self).spec_opened(),
            0 <= pkt.stream_index < old(self).spec_streams().len(),
            pkt.time_base.valid(),
            old(self).spec_streams()[pkt.stream_index as int].time_base.valid(),
            packet_rescalable(pkt, old(self).spec_streams()[pkt.stream_index as int].time_base),
        ensures
            r is Ok,
            final(self).spec_written() == old(self).spec_written().push(
                rescale_packet_spec(
                    pkt,
                    old(self).spec_streams()[pkt.stream_index as int].time_base,
                ),
            ),
            final(self).spec_streams() == old(self).spec_streams(),
            final(self).spec_opened(),
            final(self).spec_initialized() == old(self).spec_initialized(),
            final(self).spec_url() == old(self).spec_url(),
            final(self).spec_format() == old(self).spec_format(),
            final(self).spec_output() == old(self).spec_output(),
    {
        let tb = self.streams[pkt.stream_index as usize].time_base;
        let out = rescale_packet(pkt, tb);
        self.written.push(out);
        Ok(())
    }

    /// Write the trailer and drop the context. [`Muxer::init`] can
    /// recreate it. Errs, changing nothing, exactly when no context
    /// exists.
    pub fn reset(&mut self) -> (r: Result<(), PipelineError>)
        ensures
            !old(self).spec_initialized() ==> r == Result::<(), PipelineError>::Err(
                PipelineError::ContextNotInitialized,
            ) && *final(self) == *old(self),
            old(self).spec_initialized() ==> {
                &&& r is Ok
                &&& !final(self).spec_initialized()
                &&& !final(self).spec_opened()
                &&& final(self).spec_streams().len() == 0
                &&& final(self).spec_url() == old(self).spec_url()
                &&& final(self).spec_format() == old(self).spec_format()
                &&& final(self).spec_output() == old(self).spec_output()
                &&& final(self).spec_written() == old(self).spec_written()
            },
    {
        if !self.initialized {
            return Err(PipelineError::ContextNotInitialized);
        }
        self.initialized = false;
        self.opened = false;
        self.streams = Vec::new();
        Ok(())
    }
}

/// Everything but the stream list is the same in both states.
pub open spec fn unchanged_but_streams(a: Muxer, b: Muxer) -> bool {
    &&& b.spec_initialized() == a.spec_initialized()
    &&& b.spec_opened() == a.spec_opened()
    &&& b.spec_url() == a.spec_url()
    &&& b.spec_format() == a.spec_format()
    &&& b.spec_output() == a.spec_output()
    &&& b.spec_written() == a.spec_written()
}

/// Step-by-step construction of a [`Muxer`].
#[derive(Debug)]
pub struct MuxerBuilder {
    muxer: Muxer,
}

impl MuxerBuilder {
    /// The writer as configured so far.
    pub closed spec fn spec_muxer(self) -> Muxer {
        self.muxer
    }

    /// A builder with nothing configured.
    pub fn new() -> (r: MuxerBuilder)
        ensures
            !r.spec_muxer().spec_initialized(),
            !r.spec_muxer().spec_opened(),
            r.spec_muxer().spec_streams().len() == 0,
            r.spec_muxer().spec_written().len() == 0,
    {
        Muxer::builder()
    }

    /// Aim the writer at a destination path, with an optional format
    /// name. Errs exactly when a context already exists.
    pub fn with_output_path(self, dst: &str, format: Option<&str>) -> (r: Result<
        MuxerBuilder,
        PipelineError,
    >)
        ensures
            self.spec_muxer().spec_initialized() ==> r is Err && r->Err_0
                == PipelineError::ContextAlreadyOpen,
            !self.spec_muxer().spec_initialized() ==> {
                &&& r matches Ok(b)
                &&& b.spec_muxer().spec_initialized()
                &&& b.spec_muxer().spec_opened() == self.spec_muxer().spec_opened()
                &&& b.spec_muxer().spec_output() == MuxerOutput::Url
                &&& b.spec_muxer().spec_url() matches Some(u) && u@ == dst@
                &&& (b.spec_muxer().spec_format() is Some <==> format is Some)
                &&& b.spec_muxer().spec_streams() == self.spec_muxer().spec_streams()
                &&& b.spec_muxer().spec_written() == self.spec_muxer().spec_written()
            },
    {
        let mut b = self;
        if b.muxer.initialized {
            return Err(PipelineError::ContextAlreadyOpen);
        }
        b.muxer.initialized = true;
        b.muxer.url = Some(dst.to_string());
        b.muxer.output = MuxerOutput::Url;
        b.muxer.format = match format {
            Some(f) => Some(f.to_string()),
            None => None,
        };
        Ok(b)
    }

    /// Aim the writer at an application byte sink that can seek, with
    /// an optional format name. The sink object stays with the
    /// caller-side bridge. Errs exactly when a context already exists.
    pub fn with_output_write_seek(self, format: Option<&str>) -> (r: Result<
        MuxerBuilder,
        PipelineError,
    >)
        ensures
            self.spec_muxer().spec_initialized() ==> r is Err && r->Err_0
                == PipelineError::ContextAlreadyOpen,
            !self.spec_muxer().spec_initialized() ==> {
                &&& r matches Ok(b)
                &&& b.spec_muxer().spec_initialized()
                &&& b.spec_muxer().spec_opened() == self.spec_muxer().spec_opened()
                &&& b.spec_muxer().spec_output() == MuxerOutput::WriterSeeker
                &&& (b.spec_muxer().spec_format() is Some <==> format is Some)
                &&& b.spec_muxer().spec_streams() == self.spec_muxer().spec_streams()
                &&& b.spec_muxer().spec_written() == self.spec_muxer().spec_written()
            },
    {
        let mut b = self;
        if b.muxer.initialized {
            return Err(PipelineError::ContextAlreadyOpen);
        }
        b.muxer.initialized = true;
        b.muxer.output = MuxerOutput::WriterSeeker;
        b.muxer.format = match format {
            Some(f) => Some(f.to_string()),
            None => None,
        };
        Ok(b)
    }

    /// Aim the writer at an application byte sink without seeking, with
    /// an optional format name. Errs exactly when a context already
    /// exists.
    pub fn with_output_write(self, format: Option<&str>) -> (r: Result<
        MuxerBuilder,
        PipelineError,
    >)
        ensures
            self.spec_muxer().spec_initialized() ==> r is Err && r->Err_0
                == PipelineError::ContextAlreadyOpen,
            !self.spec_muxer().spec_initialized() ==> {
                &&& r matches Ok(b)
                &&& b.spec_muxer().spec_initialized()
                &&& b.spec_muxer().spec_opened() == self.spec_muxer().spec_opened()
                &&& b.spec_muxer().spec_output() == MuxerOutput::Writer
                &&& (b.spec_muxer().spec_format() is Some <==> format is Some)
                &&& b.spec_muxer().spec_streams() == self.spec_muxer().spec_streams()
                &&& b.spec_muxer().spec_written() == self.spec_muxer().spec_written()
            },
    {
        let mut b = self;
        if b.muxer.initialized {
            return Err(PipelineError::ContextAlreadyOpen);
        }
        b.muxer.initialized = true;
        b.muxer.output = MuxerOutput::Writer;
        b.muxer.format = match format {
            Some(f) => Some(f.to_string()),
            None => None,
        };
        Ok(b)
    }

    /// Add an output stream carrying units from `encoder`. Errs exactly
    /// when no context exists yet.
    pub fn with_stream_encoder(self, encoder: &Encoder) -> (r: Result<MuxerBuilder, PipelineError>)
        ensures
            !self.spec_muxer().spec_initialized() ==> r is Err && r->Err_0
                == PipelineError::ContextNotInitialized,
            self.spec_muxer().spec_initialized() ==> {
                &&& r matches Ok(b)
                &&& b.spec_muxer().spec_streams() == self.spec_muxer().spec_streams().push(
                    MuxStream { time_base: encoder.time_base },
                )
                &&& unchanged_but_streams(self.spec_muxer(), b.spec_muxer())
            },
    {
        let mut b = self;
        match b.muxer.add_stream_encoder(encoder) {
            Ok(_) => Ok(b),
            Err(e) => Err(e),
        }
    }

    /// Add an output stream copying `in_stream`'s parameters. Errs
    /// exactly when no context exists yet.
    pub fn with_copy_stream(self, in_stream: &StreamInfo) -> (r: Result<
        MuxerBuilder,
        PipelineError,
    >)
        ensures
            !self.spec_muxer().spec_initialized() ==> r is Err && r->Err_0
                == PipelineError::ContextNotInitialized,
            self.spec_muxer().spec_initialized() ==> {
                &&& r matches Ok(b)
                &&& b.spec_muxer().spec_streams() == self.spec_muxer().spec_streams().push(
                    MuxStream { time_base: in_stream.timebase },
                )
                &&& unchanged_but_streams(self.spec_muxer(), b.spec_muxer())
            },
    {
        let mut b = self;
        match b.muxer.add_copy_stream(in_stream) {
            Ok(_) => Ok(b),
            Err(e) => Err(e),
        }
    }

    /// The finished writer. Errs exactly when no context exists.
    pub fn build(self) -> (r: Result<Muxer, PipelineError>)
        ensures
            !self.spec_muxer().spec_initialized() ==> r is Err && r->Err_0
                == PipelineError::ContextNotInitialized,
            self.spec_muxer().spec_initialized() ==> r == Result::<Muxer, PipelineError>::Ok(
                self.spec_muxer(),
            ),
    {
        if !self.muxer.initialized {
            return Err(PipelineError::ContextNotInitialized);
        }
        Ok(self.muxer)
    }
}

} // verus!
