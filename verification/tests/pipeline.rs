use ffmpeg_rs_raw::demux::{
    Demuxer, RawContainerInfo, RawStreamParams, MEDIA_TYPE_AUDIO, MEDIA_TYPE_SUBTITLE,
    MEDIA_TYPE_VIDEO,
};
use ffmpeg_rs_raw::encode::Encoder;
use ffmpeg_rs_raw::frame::{AvFrame, AvFrameRef, AvPacket};
use ffmpeg_rs_raw::mux::{Muxer, MuxerBuilder};
use ffmpeg_rs_raw::rational::Rational;
use ffmpeg_rs_raw::stream_info::{StreamInfo, StreamType};
use ffmpeg_rs_raw::transcode::{NextStep, Transcoder};
use ffmpeg_rs_raw::{PipelineError, AV_NOPTS_VALUE};

fn raw_stream(index: usize, codec_type: i32) -> RawStreamParams {
    RawStreamParams {
        index,
        codec_type,
        codec_id: 27,
        format: 0,
        bit_rate: 1_000_000,
        width: 0,
        height: 0,
        avg_frame_rate: Rational { num: 0, den: 1 },
        sample_rate: 0,
        channels: 0,
        start_time: 0,
        language: String::new(),
        time_base: Rational { num: 1, den: 1000 },
        level: 0,
        profile: 0,
        color_space: 0,
        color_range: 0,
    }
}

fn container() -> RawContainerInfo {
    RawContainerInfo {
        bit_rate: 2_000_000,
        duration: 10_000_000,
        format: String::from("matroska,webm"),
        mime_types: String::new(),
    }
}

fn video_stream(index: usize, width: u32, height: u32, fps: i32) -> StreamInfo {
    StreamInfo {
        index,
        stream_type: StreamType::Video,
        codec: 27,
        format: 0,
        bitrate: 1_000_000,
        width,
        height,
        fps: Rational { num: fps, den: 1 },
        start_time: 0,
        profile: 0,
        level: 0,
        color_space: 0,
        color_range: 0,
        sample_rate: 0,
        language: String::new(),
        channels: 0,
        timebase: Rational { num: 1, den: 1000 },
    }
}

fn audio_stream(index: usize, sample_rate: u32) -> StreamInfo {
    StreamInfo {
        index,
        stream_type: StreamType::Audio,
        codec: 86018,
        format: 8,
        bitrate: 128_000,
        width: 0,
        height: 0,
        fps: Rational { num: 0, den: 1 },
        start_time: 0,
        profile: 0,
        level: 0,
        color_space: 0,
        color_range: 0,
        sample_rate,
        language: String::from("eng"),
        channels: 2,
        timebase: Rational { num: 1, den: 48_000 },
    }
}

fn subtitle_stream(index: usize) -> StreamInfo {
    StreamInfo {
        index,
        stream_type: StreamType::Subtitle,
        codec: 94208,
        format: 0,
        bitrate: 0,
        width: 0,
        height: 0,
        fps: Rational { num: 0, den: 1 },
        start_time: 0,
        profile: 0,
        level: 0,
        color_space: 0,
        color_range: 0,
        sample_rate: 0,
        language: String::from("eng"),
        channels: 0,
        timebase: Rational { num: 1, den: 1000 },
    }
}

/// Probing a container with three elementary streams and one attachment
/// yields a manifest of exactly the three, with matching kinds, in
/// order.
#[test]
fn probe_round_trip() {
    let mut demux = Demuxer::new_custom_io(None);
    let mut video = raw_stream(0, MEDIA_TYPE_VIDEO);
    video.width = 1920;
    video.height = 1080;
    video.avg_frame_rate = Rational { num: 30, den: 1 };
    let mut audio = raw_stream(1, MEDIA_TYPE_AUDIO);
    audio.sample_rate = 48_000;
    audio.channels = 2;
    let attachment = raw_stream(2, 4);
    let sub = raw_stream(3, MEDIA_TYPE_SUBTITLE);

    let info = demux
        .probe_input(container(), vec![video, audio, attachment, sub])
        .unwrap();
    assert_eq!(info.streams.len(), 3);
    assert_eq!(info.streams[0].stream_type, StreamType::Video);
    assert_eq!(info.streams[0].index, 0);
    assert_eq!(info.streams[0].width, 1920);
    assert_eq!(info.streams[1].stream_type, StreamType::Audio);
    assert_eq!(info.streams[1].sample_rate, 48_000);
    assert_eq!(info.streams[2].stream_type, StreamType::Subtitle);
    assert_eq!(info.streams[2].index, 3);
    assert_eq!(info.format, "matroska,webm");
    assert_eq!(info.bitrate, 2_000_000);
    assert_eq!(info.duration, 10_000_000);

    let again = demux.probe_input(container(), vec![]);
    assert_eq!(again.unwrap_err(), PipelineError::ContextAlreadyOpen);
}

/// The higher-resolution video and the higher-rate audio win; subtitle
/// selection keeps the lowest index.
#[test]
fn best_stream_selection() {
    let info = ffmpeg_rs_raw::stream_info::DemuxerInfo {
        bitrate: 0,
        duration: 0,
        format: String::new(),
        mime_types: String::new(),
        streams: vec![
            video_stream(0, 640, 480, 30),
            video_stream(1, 1920, 1080, 30),
            audio_stream(2, 44_100),
            audio_stream(3, 48_000),
            subtitle_stream(4),
            subtitle_stream(5),
        ],
        groups: vec![],
    };
    assert_eq!(info.best_video().unwrap().index, 1);
    assert_eq!(info.best_audio().unwrap().index, 3);
    assert_eq!(info.best_subtitle().unwrap().index, 4);
    assert!(info.is_best_stream(&info.streams[1]));
    assert!(!info.is_best_stream(&info.streams[0]));

    let empty = ffmpeg_rs_raw::stream_info::DemuxerInfo {
        bitrate: 0,
        duration: 0,
        format: String::new(),
        mime_types: String::new(),
        streams: vec![audio_stream(0, 44_100)],
        groups: vec![],
    };
    assert!(empty.best_video().is_none());
    assert_eq!(empty.best_audio().unwrap().index, 0);
}

/// Equal metrics keep the earliest stream.
#[test]
fn best_stream_tie_keeps_first() {
    let info = ffmpeg_rs_raw::stream_info::DemuxerInfo {
        bitrate: 0,
        duration: 0,
        format: String::new(),
        mime_types: String::new(),
        streams: vec![audio_stream(0, 48_000), audio_stream(1, 48_000)],
        groups: vec![],
    };
    assert_eq!(info.best_audio().unwrap().index, 0);
}

/// The writer accepts streams only once a context exists, writes the
/// header once, and rebases every packet onto its stream's timebase.
#[test]
fn muxer_state_machine() {
    let builder = MuxerBuilder::new();
    assert_eq!(builder.build().unwrap_err(), PipelineError::ContextNotInitialized);

    let mut muxer: Muxer = MuxerBuilder::new()
        .with_output_path("out.mp4", Some("mp4"))
        .unwrap()
        .build()
        .unwrap();
    assert_eq!(
        muxer.set_url(Some(String::from("other.mp4"))).unwrap_err(),
        PipelineError::ContextAlreadyOpen
    );

    let enc = Encoder::new(27)
        .unwrap()
        .with_framerate(Rational { num: 30, den: 1 })
        .unwrap();
    let idx = muxer.add_stream_encoder(&enc).unwrap();
    assert_eq!(idx, 0);
    muxer.open().unwrap();
    assert_eq!(muxer.open().unwrap_err(), PipelineError::ContextAlreadyOpen);

    let pkt = AvPacket {
        stream_index: 0,
        pts: 60,
        dts: 60,
        duration: 2,
        time_base: Rational { num: 1, den: 60 },
        data: vec![9, 9, 9],
    };
    muxer.write_packet(pkt).unwrap();
    let written = muxer.written_view();
    assert_eq!(written.len(), 1);
    assert_eq!(written[0].pts, 30);
    assert_eq!(written[0].duration, 1);
    assert_eq!(written[0].time_base, Rational { num: 1, den: 30 });
    assert_eq!(written[0].data, vec![9, 9, 9]);

    muxer.reset().unwrap();
    assert_eq!(muxer.reset().unwrap_err(), PipelineError::ContextNotInitialized);
    muxer.set_url(Some(String::from("second.mp4"))).unwrap();
    muxer.init().unwrap();
    assert_eq!(muxer.init().unwrap_err(), PipelineError::ContextAlreadyOpen);
    let idx = muxer.add_stream_encoder(&enc).unwrap();
    assert_eq!(idx, 0);
}

/// An unset timestamp passes through the rebase untouched.
#[test]
fn muxer_keeps_unset_timestamps() {
    let enc = Encoder::new(27)
        .unwrap()
        .with_framerate(Rational { num: 30, den: 1 })
        .unwrap();
    let mut muxer = MuxerBuilder::new()
        .with_output_path("out.mp4", None)
        .unwrap()
        .with_stream_encoder(&enc)
        .unwrap()
        .build()
        .unwrap();
    muxer.open().unwrap();
    let pkt = AvPacket {
        stream_index: 0,
        pts: AV_NOPTS_VALUE,
        dts: AV_NOPTS_VALUE,
        duration: 0,
        time_base: Rational { num: 1, den: 60 },
        data: vec![],
    };
    muxer.write_packet(pkt).unwrap();
    let written = muxer.written_view();
    assert_eq!(written[0].pts, AV_NOPTS_VALUE);
    assert_eq!(written[0].dts, AV_NOPTS_VALUE);
    assert_eq!(written[0].duration, 0);
}

fn prepared_transcoder() -> Transcoder {
    let mut t = Transcoder::new("in.mp4", "out.mkv").unwrap();
    let raws = vec![
        {
            let mut v = raw_stream(0, MEDIA_TYPE_VIDEO);
            v.width = 1280;
            v.height = 720;
            v.avg_frame_rate = Rational { num: 30, den: 1 };
            v
        },
        {
            let mut a = raw_stream(1, MEDIA_TYPE_AUDIO);
            a.sample_rate = 48_000;
            a.channels = 2;
            a.time_base = Rational { num: 1, den: 48_000 };
            a
        },
    ];
    t.prepare(container(), raws).unwrap();
    t
}

/// A copy-routed stream's packets come out byte-identical, with only
/// the stream index and the rescaled timestamps changed.
#[test]
fn copy_route_passthrough() {
    let mut t = prepared_transcoder();
    let in_stream = video_stream(0, 1280, 720, 30);
    t.copy_stream(&in_stream).unwrap();
    t.open_output().unwrap();

    let payload = vec![0x47u8, 0x11, 0x22, 0x33, 0x44];
    let pkt = AvPacket {
        stream_index: 0,
        pts: 500,
        dts: 480,
        duration: 20,
        time_base: Rational { num: 1, den: 500 },
        data: payload.clone(),
    };
    let step = t.next(Some(pkt)).unwrap();
    assert_eq!(step, NextStep::Copied);

    let written = t.written_packets();
    assert_eq!(written.len(), 1);
    assert_eq!(written[0].data, payload);
    assert_eq!(written[0].stream_index, 0);
    assert_eq!(written[0].pts, 1000);
    assert_eq!(written[0].dts, 960);
    assert_eq!(written[0].duration, 40);
    assert_eq!(written[0].time_base, Rational { num: 1, den: 1000 });
}

/// A packet with no route is dropped; one on a transcode route is
/// handed back for decoding; end of input yields the flush plan over
/// exactly the transcode routes, then the trailer closes the run.
#[test]
fn orchestrator_routing_and_flush() {
    let mut t = prepared_transcoder();
    let video = video_stream(0, 1280, 720, 30);
    let enc = Encoder::new(27)
        .unwrap()
        .with_width(640)
        .with_height(360)
        .with_pix_fmt(0)
        .with_framerate(Rational { num: 30, den: 1 })
        .unwrap();
    t.transcode_stream(&video, enc).unwrap();
    // a second registration for the same stream is refused
    assert_eq!(
        t.transcode_stream(&video, enc).unwrap_err(),
        PipelineError::DecoderAlreadySetup
    );
    t.open_output().unwrap();

    let mk_pkt = |idx: i32| AvPacket {
        stream_index: idx,
        pts: 0,
        dts: 0,
        duration: 1,
        time_base: Rational { num: 1, den: 1000 },
        data: vec![1],
    };
    assert_eq!(t.next(Some(mk_pkt(0))).unwrap(), NextStep::Transcode(0));
    assert_eq!(t.next(Some(mk_pkt(9))).unwrap(), NextStep::Discarded);
    assert!(t.written_packets().is_empty());

    match t.next(None).unwrap() {
        NextStep::Flush(v) => assert_eq!(v, vec![0]),
        other => panic!("expected the flush plan, got {:?}", other),
    }
    t.finish().unwrap();
}

/// A decoded frame on a route whose geometry differs is scaled to the
/// encoder's geometry; on a matching route it passes through.
#[test]
fn orchestrator_frame_conversion() {
    let mut t = prepared_transcoder();
    let video = video_stream(0, 1280, 720, 30);
    let enc = Encoder::new(27)
        .unwrap()
        .with_width(640)
        .with_height(360)
        .with_pix_fmt(0)
        .with_framerate(Rational { num: 30, den: 1 })
        .unwrap();
    t.transcode_stream(&video, enc).unwrap();

    let audio = audio_stream(1, 48_000);
    let aenc = Encoder::new(86018)
        .unwrap()
        .with_sample_format(8)
        .with_default_channel_layout(2)
        .with_sample_rate(44_100)
        .unwrap();
    t.transcode_stream(&audio, aenc).unwrap();
    t.open_output().unwrap();

    let decoded = AvFrameRef::new(AvFrame {
        pts: 100,
        duration: 1,
        width: 1280,
        height: 720,
        format: 0,
        sample_rate: 0,
        nb_samples: 0,
        channels: 0,
        pict_type: 1,
        hw_frames: false,
    });
    let converted = t.process_decoded_frame(0, &decoded).unwrap();
    assert_eq!(converted.ptr().width, 640);
    assert_eq!(converted.ptr().height, 360);
    assert_eq!(converted.ptr().pts, 100);

    let decoded_audio = AvFrameRef::new(AvFrame {
        pts: 4800,
        duration: 0,
        width: 0,
        height: 0,
        format: 8,
        sample_rate: 48_000,
        nb_samples: 1024,
        channels: 2,
        pict_type: 0,
        hw_frames: false,
    });
    let converted = t.process_decoded_frame(1, &decoded_audio).unwrap();
    assert_eq!(converted.ptr().sample_rate, 44_100);
    assert_eq!(converted.ptr().pts, 4800);

    // encoded units flow to the writer rebased onto their stream
    let unit = AvPacket {
        stream_index: 0,
        pts: 30,
        dts: 30,
        duration: 1,
        time_base: Rational { num: 1, den: 30 },
        data: vec![7, 7],
    };
    t.write_encoded(unit).unwrap();
    let written = t.written_packets();
    assert_eq!(written.len(), 1);
    assert_eq!(written[0].data, vec![7, 7]);
    assert_eq!(written[0].pts, 30);
}

/// Routing a stream for copy needs a writer context; a reader cannot be
/// probed twice through the orchestrator either.
#[test]
fn orchestrator_setup_guards() {
    let demux = Demuxer::new_custom_io(None);
    let muxer_builder = MuxerBuilder::new();
    // a muxer without any output configured has no context yet
    let muxer_err = muxer_builder.build();
    assert_eq!(muxer_err.unwrap_err(), PipelineError::ContextNotInitialized);

    let muxer = MuxerBuilder::new()
        .with_output_write(Some("mpegts"))
        .unwrap()
        .build()
        .unwrap();
    let mut t = Transcoder::new_custom_io(demux, muxer);
    let info = t.prepare(container(), vec![raw_stream(0, MEDIA_TYPE_VIDEO)]).unwrap();
    assert_eq!(info.streams.len(), 1);
}

/// Subtitle ranking by reverse index stays correct past index 999,
/// where the metric goes negative.
#[test]
fn best_subtitle_large_indexes() {
    let info = ffmpeg_rs_raw::stream_info::DemuxerInfo {
        bitrate: 0,
        duration: 0,
        format: String::new(),
        mime_types: String::new(),
        streams: vec![subtitle_stream(1200), subtitle_stream(1000), subtitle_stream(1100)],
        groups: vec![],
    };
    assert_eq!(info.best_subtitle().unwrap().index, 1000);
}

/// A container with no streams probes to an empty manifest.
#[test]
fn probe_empty_container() {
    let mut demux = Demuxer::new("nothing.mkv");
    let info = demux.probe_input(container(), vec![]).unwrap();
    assert!(info.streams.is_empty());
    assert!(info.groups.is_empty());
}
