use vstd::prelude::*;
use crate::PipelineError;
use crate::decode::Decoder;
use crate::demux::{Demuxer, RawContainerInfo, RawStreamParams};
use crate::encode::Encoder;
use crate::frame::{AvFrame, AvFrameRef, AvPacket};
use crate::mux::{packet_rescalable, rescale_packet_spec, Muxer, MuxStream, MuxerBuilder};
use crate::resample::Resample;
use crate::scale::Scaler;
use crate::stream_info::{DemuxerInfo, StreamInfo, StreamType};

verus! {

/// Where the orchestrator stands in its life cycle.
#[derive(Clone, Copy, Debug, PartialEq, Eq, Structural)]
pub enum TranscoderState {
    /// Nothing probed yet.
    Idle,
    /// The input is probed; routes may be chosen.
    Prepared,
    /// The output is open; packets flow.
    Running,
    /// End of input was seen; encoders drain.
    Flushing,
    /// The trailer is written; the run is over.
    Closed,
}

/// The route table entry found for a stream index: the latest entry
/// wins, as a later registration for the same index replaces the
/// earlier one.
pub open spec fn find_route<T>(s: Seq<(i32, T)>, idx: i32) -> Option<T>
    decreases s.len(),
{
    if s.len() == 0 {
        None
    } else if s.last().0 == idx {
        Some(s.last().1)
    } else {
        find_route(s.drop_last(), idx)
    }
}

/// An entry whose suffix holds no later entry for the same index is
/// what `find_route` yields.
proof fn lemma_find_route_at<T>(s: Seq<(i32, T)>, idx: i32, p: int)
    requires
        0 <= p < s.len(),
        s[p].0 == idx,
        forall|k: int| p < k < s.len() ==> (#[trigger] s[k]).0 != idx,
    ensures
        find_route(s, idx) == Some(s[p].1),
    decreases s.len(),
{
    if p == s.len() - 1 {
    } else {
        lemma_find_route_at(s.drop_last(), idx, p);
    }
}

/// With no entry for the index there is no route.
proof fn lemma_find_route_none<T>(s: Seq<(i32, T)>, idx: i32)
    requires
        forall|k: int| 0 <= k < s.len() ==> (#[trigger] s[k]).0 != idx,
    ensures
        find_route(s, idx) is None,
    decreases s.len(),
{
    if s.len() > 0 {
        lemma_find_route_none(s.drop_last(), idx);
    }
}

/// The position of the entry `find_route` yields, scanning from the
/// end.
fn find_pos<T>(v: &Vec<(i32, T)>, idx: i32) -> (r: Option<usize>)
    ensures
        match r {
            None => find_route(v@, idx) is None,
            Some(p) => {
                &&& 0 <= p < v@.len()
                &&& v@[p as int].0 == idx
                &&& find_route(v@, idx) == Some(v@[p as int].1)
            },
        },
{
    let n = v.len();
    let mut i: usize = n;
    while i > 0
        invariant
            0 <= i <= n,
            n == v@.len(),
            forall|k: int| i <= k < n ==> (#[trigger] v@[k]).0 != idx,
        decreases i,
    {
        i = i - 1;
        if v[i].0 == idx {
            proof {
                lemma_find_route_at(v@, idx, i as int);
            }
            return Some(i);
        }
    }
    proof {
        lemma_find_route_none(v@, idx);
    }
    None
}

/// Whether a transcode route from `in_stream` to `enc` needs a scaling
/// stage: the stream is video and its geometry or pixel format differs
/// from what the encoder is configured for.
pub open spec fn needs_scaler(in_stream: StreamInfo, enc: Encoder) -> bool {
    in_stream.stream_type == StreamType::Video && (in_stream.width as int != enc.width as int
        || in_stream.height as int != enc.height as int || in_stream.format != enc.pix_fmt)
}

/// Whether a transcode route from `in_stream` to `enc` needs a
/// resampling stage: the stream is audio and its sample format or rate
/// differs from what the encoder is configured for.
pub open spec fn needs_resampler(in_stream: StreamInfo, enc: Encoder) -> bool {
    in_stream.stream_type == StreamType::Audio && (in_stream.format != enc.sample_fmt
        || in_stream.sample_rate as int != enc.sample_rate as int)
}

/// What the orchestrator asks of its driver for one step.
#[derive(Clone, Debug, PartialEq, Eq)]
pub enum NextStep {
    /// End of input: feed each listed transcode route's encoder "no
    /// more input", in this order, and write every drained unit.
    Flush(Vec<i32>),
    /// The packet went through a copy route and is written.
    Copied,
    /// The packet belongs to the transcode route for this source
    /// stream: decode it, run each decoded frame through
    /// [`Transcoder::process_decoded_frame`], encode, and write the
    /// units through [`Transcoder::write_encoded`].
    Transcode(i32),
    /// The packet's stream has no route and is dropped.
    Discarded,
}


/// Every copy destination lies below the output stream count.
pub open spec fn copy_targets_ok(copies: Seq<(i32, i32)>, n_streams: int) -> bool {
    forall|i: int| 0 <= i < copies.len() ==> 0 <= (#[trigger] copies[i]).1 < n_streams
}

/// Every route encoder's geometry fits the scaler's 16-bit fields.
pub open spec fn encoder_routes_ok(encs: Seq<(i32, Encoder)>) -> bool {
    forall|i: int|
        0 <= i < encs.len() ==> {
            &&& 0 <= (#[trigger] encs[i]).1.width <= 0xffff
            &&& 0 <= encs[i].1.height <= 0xffff
        }
}

/// Every resampling stage carries a positive 32-bit sample rate.
pub open spec fn resampler_routes_ok(rs: Seq<(i32, Resample)>) -> bool {
    forall|i: int|
        0 <= i < rs.len() ==> 1 <= (#[trigger] rs[i]).1.spec_sample_rate() <= 0x7fff_ffff
}

/// The transcode orchestrator: per-stream routes over one container
/// reader and one writer. The engine decodes and encodes; every routing
/// decision, timestamp rebase and state transition is made here.
#[derive(Debug)]
pub struct Transcoder {
    state: TranscoderState,
    demuxer: Demuxer,
    decoder: Decoder,
    scalers: Vec<(i32, Scaler)>,
    resamplers: Vec<(i32, Resample)>,
    encoders: Vec<(i32, Encoder)>,
    copy_streams: Vec<(i32, i32)>,
    muxer: Muxer,
}

impl Transcoder {
    /// Where the orchestrator stands.
    pub closed spec fn spec_state(self) -> TranscoderState {
        self.state
    }

    /// The container reader.
    pub closed spec fn spec_demuxer(self) -> Demuxer {
        self.demuxer
    }

    /// The decoder registry.
    pub closed spec fn spec_decoder(self) -> Decoder {
        self.decoder
    }

    /// The scaling stages, keyed by source stream index.
    pub closed spec fn spec_scalers(self) -> Seq<(i32, Scaler)> {
        self.scalers@
    }

    /// The resampling stages, keyed by source stream index.
    pub closed spec fn spec_resamplers(self) -> Seq<(i32, Resample)> {
        self.resamplers@
    }

    /// The transcode routes' encoders, keyed by source stream index.
    pub closed spec fn spec_encoders(self) -> Seq<(i32, Encoder)> {
        self.encoders@
    }

    /// The copy routes: source stream index to destination stream
    /// index.
    pub closed spec fn spec_copy_streams(self) -> Seq<(i32, i32)> {
        self.copy_streams@
    }

    /// The container writer.
    pub closed spec fn spec_muxer(self) -> Muxer {
        self.muxer
    }

    /// What every operation preserves: while packets flow the writer is
    /// open; every copy destination names an existing output stream
    /// until the run is over; every route encoder's geometry fits the
    /// scaler; every resampler has a positive rate; and the decoder
    /// registry binds each stream index at most once.
    pub open spec fn wf(self) -> bool {
        &&& (self.spec_state() == TranscoderState::Running || self.spec_state()
            == TranscoderState::Flushing) ==> (self.spec_muxer().spec_opened()
            && self.spec_muxer().spec_initialized())
        &&& self.spec_state() != TranscoderState::Closed ==> copy_targets_ok(
            self.spec_copy_streams(),
            self.spec_muxer().spec_streams().len() as int,
        )
        &&& encoder_routes_ok(self.spec_encoders())
        &&& resampler_routes_ok(self.spec_resamplers())
        &&& self.spec_decoder().wf()
        &&& self.spec_muxer().spec_streams().len() <= 0x7fff_ffff
    }

    /// An orchestrator reading from a path or URL and writing to a
    /// destination path.
    pub fn new(input: &str, output: &str) -> (r: Result<Transcoder, PipelineError>)
        ensures
            r matches Ok(t) && {
                &&& t.spec_state() == TranscoderState::Idle
                &&& !t.spec_demuxer().spec_opened()
                &&& t.spec_decoder().spec_codecs().len() == 0
                &&& t.spec_decoder().wf()
                &&& t.spec_scalers().len() == 0
                &&& t.spec_resamplers().len() == 0
                &&& t.spec_encoders().len() == 0
                &&& t.spec_copy_streams().len() == 0
                &&& t.spec_muxer().spec_initialized()
                &&& !t.spec_muxer().spec_opened()
                &&& t.spec_muxer().spec_streams().len() == 0
                &&& t.spec_muxer().spec_written().len() == 0
                &&& t.wf()
            },
    {
        let builder = MuxerBuilder::new();
        let builder = match builder.with_output_path(output, None) {
            Ok(b) => b,
            Err(e) => {
                return Err(e);
            },
        };
        let muxer = match builder.build() {
            Ok(m) => m,
            Err(e) => {
                return Err(e);
            },
        };
        Ok(
            Transcoder {
                state: TranscoderState::Idle,
                demuxer: Demuxer::new(input),
                decoder: Decoder::new(),
                scalers: Vec::new(),
                resamplers: Vec::new(),
                encoders: Vec::new(),
                copy_streams: Vec::new(),
                muxer,
            },
        )
    }

    /// An orchestrator over a caller-built reader and writer, for
    /// callback-driven I/O on both sides.
    pub fn new_custom_io(demuxer: Demuxer, muxer: Muxer) -> (r: Transcoder)
        requires
            !muxer.spec_opened(),
            muxer.spec_streams().len() <= 0x7fff_ffff,
        ensures
            r.spec_state() == TranscoderState::Idle,
            r.spec_demuxer() == demuxer,
            r.spec_muxer() == muxer,
            r.spec_decoder().spec_codecs().len() == 0,
            r.spec_decoder().wf(),
            r.spec_scalers().len() == 0,
            r.spec_resamplers().len() == 0,
            r.spec_encoders().len() == 0,
            r.spec_copy_streams().len() == 0,
            r.wf(),
    {
        Transcoder {
            state: TranscoderState::Idle,
            demuxer,
            decoder: Decoder::new(),
            scalers: Vec::new(),
            resamplers: Vec::new(),
            encoders: Vec::new(),
            copy_streams: Vec::new(),
            muxer,
        }
    }

    /// Build the manifest from the engine's stream analysis and become
    /// prepared. Errs, staying idle, exactly when the reader was
    /// already open.
    pub fn prepare(&mut self, container: RawContainerInfo, raws: Vec<RawStreamParams>) -> (r:
        Result<DemuxerInfo, PipelineError>)
        requires
            old(self).spec_state() == TranscoderState::Idle,
            old(self).wf(),
            forall|i: int| 0 <= i < raws@.len() ==> raws@[i].wf(),
        ensures
            old(self).spec_demuxer().spec_opened() ==> {
                &&& r == Result::<DemuxerInfo, PipelineError>::Err(
                    PipelineError::ContextAlreadyOpen,
                )
                &&& *final(self) == *old(self)
            },
            !old(self).spec_demuxer().spec_opened() ==> {
                &&& r matches Ok(info)
                &&& info.streams@ == crate::demux::manifest_streams(raws@)
                &&& info.wf()
                &&& final(self).spec_state() == TranscoderState::Prepared
                &&& final(self).spec_demuxer().spec_opened()
                &&& final(self).spec_decoder() == old(self).spec_decoder()
                &&& final(self).spec_scalers() == old(self).spec_scalers()
                &&& final(self).spec_resamplers() == old(self).spec_resamplers()
                &&& final(self).spec_encoders() == old(self).spec_encoders()
                &&& final(self).spec_copy_streams() == old(self).spec_copy_streams()
                &&& final(self).spec_muxer() == old(self).spec_muxer()
                &&& final(self).wf()
            },
    {
        let r = self.demuxer.probe_input(container, raws);
        match r {
            Ok(info) => {
                self.state = TranscoderState::Prepared;
                Ok(info)
            },
            Err(e) => Err(e),
        }
    }

    /// Route one input stream to a preconfigured encoder. A scaling
    /// stage is added exactly when the video geometry or pixel format
    /// differs from the encoder's, a resampling stage exactly when the
    /// audio layout differs; the output gains one stream, the encoder
    /// is bound to it, and the stream is registered for decode. Errs,
    /// changing nothing, when the stream is already registered for
    /// decode or the writer has no context.
    pub fn transcode_stream(&mut self, in_stream: &StreamInfo, encoder_out: Encoder) -> (r: Result<
        (),
        PipelineError,
    >)
        requires
            old(self).spec_state() == TranscoderState::Prepared,
            old(self).wf(),
            old(self).spec_muxer().spec_streams().len() < 0x7fff_ffff,
            in_stream.index <= 0x7fff_ffff,
            0 <= encoder_out.width <= 0xffff,
            0 <= encoder_out.height <= 0xffff,
            needs_resampler(*in_stream, encoder_out) ==> 1 <= encoder_out.sample_rate,
        ensures
            crate::decode::has_index(
                old(self).spec_decoder().spec_codecs(),
                in_stream.index as i32,
            ) ==> {
                &&& r == Result::<(), PipelineError>::Err(PipelineError::DecoderAlreadySetup)
                &&& *final(self) == *old(self)
            },
            !crate::decode::has_index(
                old(self).spec_decoder().spec_codecs(),
                in_stream.index as i32,
            ) && !old(self).spec_muxer().spec_initialized() ==> {
                &&& r == Result::<(), PipelineError>::Err(PipelineError::ContextNotInitialized)
                &&& *final(self) == *old(self)
            },
            !crate::decode::has_index(
                old(self).spec_decoder().spec_codecs(),
                in_stream.index as i32,
            ) && old(self).spec_muxer().spec_initialized() ==> {
                &&& r is Ok
                &&& final(self).spec_muxer().spec_streams() == old(
                    self,
                ).spec_muxer().spec_streams().push(MuxStream { time_base: encoder_out.time_base })
                &&& final(self).spec_muxer().spec_written() == old(
                    self,
                ).spec_muxer().spec_written()
                &&& final(self).spec_encoders() == old(self).spec_encoders().push(
                    (
                        in_stream.index as i32,
                        Encoder {
                            dst_stream_index: Some(
                                old(self).spec_muxer().spec_streams().len() as i32,
                            ),
                            ..encoder_out
                        },
                    ),
                )
                &&& final(self).spec_scalers().len() == if needs_scaler(*in_stream, encoder_out) {
                    old(self).spec_scalers().len() as int + 1
                } else {
                    old(self).spec_scalers().len() as int
                }
                &&& needs_scaler(*in_stream, encoder_out) ==> find_route(
                    final(self).spec_scalers(),
                    in_stream.index as i32,
                ) is Some
                &&& !needs_scaler(*in_stream, encoder_out) ==> final(self).spec_scalers() == old(
                    self,
                ).spec_scalers()
                &&& final(self).spec_resamplers().len() == if needs_resampler(
                    *in_stream,
                    encoder_out,
                ) {
                    old(self).spec_resamplers().len() as int + 1
                } else {
                    old(self).spec_resamplers().len() as int
                }
                &&& needs_resampler(*in_stream, encoder_out) ==> (match find_route(
                    final(self).spec_resamplers(),
                    in_stream.index as i32,
                ) {
                    Some(rs) => rs.spec_format() == encoder_out.sample_fmt
                        && rs.spec_sample_rate() == encoder_out.sample_rate as u32
                        && rs.spec_channels() == encoder_out.channels as u16,
                    None => false,
                })
                &&& !needs_resampler(*in_stream, encoder_out) ==> final(self).spec_resamplers()
                    == old(self).spec_resamplers()
                &&& (final(self).spec_decoder().spec_codecs(), true) == crate::decode::register_outcome(
                    old(self).spec_decoder().spec_codecs(),
                    crate::decode::DecoderCodecContext {
                        codec_id: in_stream.codec,
                        stream_index: in_stream.index as i32,
                        hw_device_type: None,
                    },
                )
                &&& final(self).spec_copy_streams() == old(self).spec_copy_streams()
                &&& final(self).spec_state() == old(self).spec_state()
                &&& final(self).wf()
            },
    {
        let src_index = in_stream.index as i32;

        match self.decoder.get_decoder(src_index) {
            Some(_) => {
                return Err(PipelineError::DecoderAlreadySetup);
            },
            None => {},
        }
        if !self.muxer_initialized() {
            return Err(PipelineError::ContextNotInitialized);
        }

        let dst_index = match self.muxer.add_stream_encoder(&encoder_out) {
            Ok(i) => i,
            Err(e) => {
                return Err(e);
            },
        };

        let is_video = matches!(in_stream.stream_type, StreamType::Video);
        let is_audio = matches!(in_stream.stream_type, StreamType::Audio);
        if is_video && (in_stream.width as i64 != encoder_out.width as i64 || in_stream.height
            as i64 != encoder_out.height as i64 || in_stream.format != encoder_out.pix_fmt) {
            self.scalers.push((src_index, Scaler::new()));
        }
        if is_audio && (in_stream.format != encoder_out.sample_fmt || in_stream.sample_rate as i64
            != encoder_out.sample_rate as i64) {
            let rs = Resample::new(
                encoder_out.sample_fmt,
                encoder_out.sample_rate as u32,
                encoder_out.channels as u16,
            );
            self.resamplers.push((src_index, rs));
        }

        self.encoders.push((src_index, encoder_out.with_stream_index(dst_index as i32)));

        match self.decoder.setup_decoder(in_stream, None) {
            Ok(_) => {},
            Err(_) => {
                proof {
                    assert(false);
                }
            },
        }
        proof {
            let oldc = old(self).spec_copy_streams();
            let n0 = old(self).spec_muxer().spec_streams().len() as int;
            assert forall|i: int| 0 <= i < self.spec_copy_streams().len() implies 0 <= (
            #[trigger] self.spec_copy_streams()[i]).1 < self.spec_muxer().spec_streams().len() by {
                assert(oldc[i] == self.spec_copy_streams()[i]);
                assert(0 <= oldc[i].1 < n0);
            }
            let olde = old(self).spec_encoders();
            let newe = self.spec_encoders();
            assert forall|i: int| 0 <= i < newe.len() implies {
                &&& 0 <= (#[trigger] newe[i]).1.width <= 0xffff
                &&& 0 <= newe[i].1.height <= 0xffff
            } by {
                if i < olde.len() {
                    assert(newe[i] == olde[i]);
                }
            }
            let oldr = old(self).spec_resamplers();
            let newr = self.spec_resamplers();
            assert forall|i: int| 0 <= i < newr.len() implies 1 <= (
            #[trigger] newr[i]).1.spec_sample_rate() <= 0x7fff_ffff by {
                if i < oldr.len() {
                    assert(newr[i] == oldr[i]);
                }
            }
        }
        Ok(())
    }

    /// Route one input stream straight to the output: the output gains
    /// one stream copying its parameters and the index mapping is
    /// recorded. Errs, changing nothing, exactly when the writer has no
    /// context.
    pub fn copy_stream(&mut self, in_stream: &StreamInfo) -> (r: Result<(), PipelineError>)
        requires
            old(self).spec_state() == TranscoderState::Prepared,
            old(self).wf(),
            old(self).spec_muxer().spec_streams().len() < 0x7fff_ffff,
            in_stream.index <= 0x7fff_ffff,
        ensures
            !old(self).spec_muxer().spec_initialized() ==> {
                &&& r == Result::<(), PipelineError>::Err(PipelineError::ContextNotInitialized)
                &&& *final(self) == *old(self)
            },
            old(self).spec_muxer().spec_initialized() ==> {
                &&& r is Ok
                &&& final(self).spec_muxer().spec_streams() == old(
                    self,
                ).spec_muxer().spec_streams().push(MuxStream { time_base: in_stream.timebase })
                &&& final(self).spec_muxer().spec_written() == old(
                    self,
                ).spec_muxer().spec_written()
                &&& final(self).spec_copy_streams() == old(self).spec_copy_streams().push(
                    (
                        in_stream.index as i32,
                        old(self).spec_muxer().spec_streams().len() as i32,
                    ),
                )
                &&& final(self).spec_encoders() == old(self).spec_encoders()
                &&& final(self).spec_scalers() == old(self).spec_scalers()
                &&& final(self).spec_resamplers() == old(self).spec_resamplers()
                &&& final(self).spec_decoder() == old(self).spec_decoder()
                &&& final(self).spec_state() == old(self).spec_state()
                &&& final(self).wf()
            },
    {
        let dst_index = match self.muxer.add_copy_stream(in_stream) {
            Ok(i) => i,
            Err(e) => {
                return Err(e);
            },
        };
        self.copy_streams.push((in_stream.index as i32, dst_index as i32));
        proof {
            let oldc = old(self).spec_copy_streams();
            let newc = self.spec_copy_streams();
            assert forall|i: int| 0 <= i < newc.len() implies 0 <= (#[trigger] newc[i]).1
                < self.spec_muxer().spec_streams().len() by {
                if i < oldc.len() {
                    assert(newc[i] == oldc[i]);
                    assert(0 <= oldc[i].1 < old(self).spec_muxer().spec_streams().len());
                }
            }
        }
        Ok(())
    }

    /// Open the output writer and start the run: the header is written
    /// and packets may flow.
    pub fn open_output(&mut self) -> (r: Result<(), PipelineError>)
        requires
            old(self).spec_state() == TranscoderState::Prepared,
            old(self).wf(),
        ensures
            !old(self).spec_muxer().spec_initialized() ==> {
                &&& r == Result::<(), PipelineError>::Err(PipelineError::ContextNotInitialized)
                &&& *final(self) == *old(self)
            },
            old(self).spec_muxer().spec_initialized() && old(self).spec_muxer().spec_opened()
                ==> {
                &&& r == Result::<(), PipelineError>::Err(PipelineError::ContextAlreadyOpen)
                &&& *final(self) == *old(self)
            },
            old(self).spec_muxer().spec_initialized() && !old(self).spec_muxer().spec_opened()
                ==> {
                &&& r is Ok
                &&& final(self).spec_state() == TranscoderState::Running
                &&& final(self).spec_muxer().spec_opened()
                &&& final(self).spec_muxer().spec_streams() == old(
                    self,
                ).spec_muxer().spec_streams()
                &&& final(self).spec_muxer().spec_written() == old(
                    self,
                ).spec_muxer().spec_written()
                &&& final(self).spec_encoders() == old(self).spec_encoders()
                &&& final(self).spec_scalers() == old(self).spec_scalers()
                &&& final(self).spec_resamplers() == old(self).spec_resamplers()
                &&& final(self).spec_copy_streams() == old(self).spec_copy_streams()
                &&& final(self).spec_decoder() == old(self).spec_decoder()
                &&& final(self).wf()
            },
    {
        match self.muxer.open() {
            Ok(_) => {
                self.state = TranscoderState::Running;
                Ok(())
            },
            Err(e) => Err(e),
        }
    }

    /// Whether this packet's copy route, if it has one and no transcode
    /// route shadows it, can be rebased onto its destination stream.
    pub open spec fn copy_packet_ok(self, p: AvPacket) -> bool {
        find_route(self.spec_encoders(), p.stream_index) is None ==> match find_route(
            self.spec_copy_streams(),
            p.stream_index,
        ) {
            None => true,
            Some(dst) => {
                &&& p.time_base.valid()
                &&& self.spec_muxer().spec_streams()[dst as int].time_base.valid()
                &&& packet_rescalable(
                    AvPacket { stream_index: dst, ..p },
                    self.spec_muxer().spec_streams()[dst as int].time_base,
                )
            },
        }
    }

    /// Process one step of the run loop. End of input turns into the
    /// flush plan and the drain begins. A packet on a transcode route
    /// is handed back for decoding; on a copy route it is forwarded
    /// unmodified but for the destination stream index and the rebased
    /// timestamps; with no route it is dropped.
    pub fn next(&mut self, pkt: Option<AvPacket>) -> (r: Result<NextStep, PipelineError>)
        requires
            old(self).spec_state() == TranscoderState::Running,
            old(self).wf(),
            pkt matches Some(p) ==> old(self).copy_packet_ok(p),
        ensures
            r is Ok,
            final(self).wf(),
            final(self).spec_encoders() == old(self).spec_encoders(),
            final(self).spec_scalers() == old(self).spec_scalers(),
            final(self).spec_resamplers() == old(self).spec_resamplers(),
            final(self).spec_copy_streams() == old(self).spec_copy_streams(),
            final(self).spec_decoder() == old(self).spec_decoder(),
            final(self).spec_muxer().spec_streams() == old(self).spec_muxer().spec_streams(),
            match pkt {
                None => {
                    &&& final(self).spec_state() == TranscoderState::Flushing
                    &&& final(self).spec_muxer().spec_written() == old(
                        self,
                    ).spec_muxer().spec_written()
                    &&& r matches Ok(NextStep::Flush(v)) && v@.len() == old(
                        self,
                    ).spec_encoders().len() && forall|i: int|
                        0 <= i < v@.len() ==> v@[i] == old(self).spec_encoders()[i].0
                },
                Some(p) => {
                    &&& final(self).spec_state() == TranscoderState::Running
                    &&& if find_route(old(self).spec_encoders(), p.stream_index) is Some {
                        &&& r == Result::<NextStep, PipelineError>::Ok(
                            NextStep::Transcode(p.stream_index),
                        )
                        &&& final(self).spec_muxer().spec_written() == old(
                            self,
                        ).spec_muxer().spec_written()
                    } else {
                        match find_route(old(self).spec_copy_streams(), p.stream_index) {
                            Some(dst) => {
                                &&& r == Result::<NextStep, PipelineError>::Ok(NextStep::Copied)
                                &&& final(self).spec_muxer().spec_written() == old(
                                    self,
                                ).spec_muxer().spec_written().push(
                                    rescale_packet_spec(
                                        AvPacket { stream_index: dst, ..p },
                                        old(self).spec_muxer().spec_streams()[dst as int].time_base,
                                    ),
                                )
                            },
                            None => {
                                &&& r == Result::<NextStep, PipelineError>::Ok(NextStep::Discarded)
                                &&& final(self).spec_muxer().spec_written() == old(
                                    self,
                                ).spec_muxer().spec_written()
                            },
                        }
                    }
                },
            },
    {
        match pkt {
            None => {
                let mut v: Vec<i32> = Vec::new();
                let n = self.encoders.len();
                let mut i: usize = 0;
                while i < n
                    invariant
                        0 <= i <= n,
                        n == self.encoders@.len(),
                        v@.len() == i,
                        forall|k: int| 0 <= k < i ==> v@[k] == self.encoders@[k].0,
                    decreases n - i,
                {
                    v.push(self.encoders[i].0);
                    i = i + 1;
                }
                self.state = TranscoderState::Flushing;
                Ok(NextStep::Flush(v))
            },
            Some(p) => {
                match find_pos(&self.encoders, p.stream_index) {
                    Some(_) => Ok(NextStep::Transcode(p.stream_index)),
                    None => {
                        match find_pos(&self.copy_streams, p.stream_index) {
                            Some(pos) => {
                                let dst = self.copy_streams[pos].1;
                                let mut q = p;
                                q.stream_index = dst;
                                match self.muxer.write_packet(q) {
                                    Ok(_) => Ok(NextStep::Copied),
                                    Err(e) => Err(e),
                                }
                            },
                            None => Ok(NextStep::Discarded),
                        }
                    },
                }
            },
        }
    }

    /// Run one decoded frame through the route's conversion stages:
    /// scaling to the encoder's geometry when a scaler is configured,
    /// then resampling to the encoder's layout when a resampler is. A
    /// frame still in hardware memory is refused by either stage.
    pub fn process_decoded_frame(&mut self, src: i32, frame: &AvFrameRef) -> (r: Result<
        AvFrameRef,
        PipelineError,
    >)
        requires
            old(self).spec_state() == TranscoderState::Running,
            old(self).wf(),
            find_route(old(self).spec_encoders(), src) is Some,
            find_route(old(self).spec_resamplers(), src) is Some ==> 1 <= frame.record().sample_rate
                <= 0x7fff_ffff && frame.record().nb_samples <= 0x7fff_ffff,
        ensures
            final(self).wf(),
            final(self).spec_state() == old(self).spec_state(),
            final(self).spec_encoders() == old(self).spec_encoders(),
            final(self).spec_copy_streams() == old(self).spec_copy_streams(),
            final(self).spec_decoder() == old(self).spec_decoder(),
            final(self).spec_muxer() == old(self).spec_muxer(),
            final(self).spec_scalers().len() == old(self).spec_scalers().len(),
            final(self).spec_resamplers().len() == old(self).spec_resamplers().len(),
            frame.record().hw_frames && (find_route(old(self).spec_scalers(), src) is Some
                || find_route(old(self).spec_resamplers(), src) is Some) ==> r == Result::<
                AvFrameRef,
                PipelineError,
            >::Err(PipelineError::HardwareFramesUnsupported),
            !frame.record().hw_frames ==> {
                let enc = find_route(old(self).spec_encoders(), src)->Some_0;
                let scaled = if find_route(old(self).spec_scalers(), src) is Some {
                    AvFrame {
                        width: enc.width as u32,
                        height: enc.height as u32,
                        format: enc.pix_fmt,
                        hw_frames: false,
                        ..frame.record()
                    }
                } else {
                    frame.record()
                };
                &&& r matches Ok(f)
                &&& match find_route(old(self).spec_resamplers(), src) {
                    Some(rs) => {
                        &&& f.record().format == rs.spec_format()
                        &&& f.record().sample_rate == rs.spec_sample_rate()
                        &&& f.record().channels == rs.spec_channels()
                        &&& f.record().pts == scaled.pts
                        &&& f.record().duration == scaled.duration
                        &&& !f.record().hw_frames
                    },
                    None => f.record() == scaled,
                }
            },
    {
        let mut current: AvFrameRef = AvFrameRef::new(*frame.ptr());

        match find_pos(&self.scalers, src) {
            Some(pos) => {
                let enc = match find_pos(&self.encoders, src) {
                    Some(ep) => self.encoders[ep].1,
                    None => {
                        proof {
                            assert(false);
                        }
                        return Err(PipelineError::InvalidState);
                    },
                };
                let mut sc = self.scalers[pos].1;
                let scaled = match sc.process_frame(
                    &current,
                    enc.width as u16,
                    enc.height as u16,
                    enc.pix_fmt,
                ) {
                    Ok(f) => f,
                    Err(e) => {
                        return Err(e);
                    },
                };
                let key = self.scalers[pos].0;
                self.scalers.set(pos, (key, sc));
                current = scaled;
            },
            None => {},
        }

        match find_pos(&self.resamplers, src) {
            Some(pos) => {
                let mut rs = self.resamplers[pos].1;
                let resampled = match rs.process_frame(&current) {
                    Ok(f) => f,
                    Err(e) => {
                        return Err(e);
                    },
                };
                let key = self.resamplers[pos].0;
                self.resamplers.set(pos, (key, rs));
                current = resampled;
            },
            None => {},
        }

        Ok(current)
    }

    /// Hand one encoded unit to the writer, rebased onto its output
    /// stream: the path every unit takes during the run and the drain.
    pub fn write_encoded(&mut self, pkt: AvPacket) -> (r: Result<(), PipelineError>)
        requires
            old(self).spec_state() == TranscoderState::Running || old(self).spec_state()
                == TranscoderState::Flushing,
            old(self).wf(),
            0 <= pkt.stream_index < old(self).spec_muxer().spec_streams().len(),
            pkt.time_base.valid(),
            old(self).spec_muxer().spec_streams()[pkt.stream_index as int].time_base.valid(),
            packet_rescalable(
                pkt,
                old(self).spec_muxer().spec_streams()[pkt.stream_index as int].time_base,
            ),
        ensures
            r is Ok,
            final(self).wf(),
            final(self).spec_state() == old(self).spec_state(),
            final(self).spec_encoders() == old(self).spec_encoders(),
            final(self).spec_scalers() == old(self).spec_scalers(),
            final(self).spec_resamplers() == old(self).spec_resamplers(),
            final(self).spec_copy_streams() == old(self).spec_copy_streams(),
            final(self).spec_decoder() == old(self).spec_decoder(),
            final(self).spec_muxer().spec_streams() == old(self).spec_muxer().spec_streams(),
            final(self).spec_muxer().spec_written() == old(self).spec_muxer().spec_written().push(
                rescale_packet_spec(
                    pkt,
                    old(self).spec_muxer().spec_streams()[pkt.stream_index as int].time_base,
                ),
            ),
    {
        self.muxer.write_packet(pkt)
    }

    /// Write the trailer and close the run.
    pub fn finish(&mut self) -> (r: Result<(), PipelineError>)
        requires
            old(self).spec_state() == TranscoderState::Flushing,
            old(self).wf(),
        ensures
            r is Ok,
            final(self).spec_state() == TranscoderState::Closed,
            !final(self).spec_muxer().spec_initialized(),
            final(self).spec_muxer().spec_written() == old(self).spec_muxer().spec_written(),
            final(self).wf(),
    {
        match self.muxer.reset() {
            Ok(_) => {},
            Err(_) => {
                proof {
                    assert(false);
                }
            },
        }
        self.state = TranscoderState::Closed;
        Ok(())
    }

    /// Every packet handed to the writer so far, in order.
    pub fn written_packets(&self) -> (r: &Vec<AvPacket>)
        ensures
            r@ == self.spec_muxer().spec_written(),
    {
        self.muxer.written_view()
    }

    /// Whether the writer currently has a context.
    fn muxer_initialized(&self) -> (r: bool)
        ensures
            r == self.spec_muxer().spec_initialized(),
    {
        self.muxer.is_initialized()
    }
}

} // verus!
