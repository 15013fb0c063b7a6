use ffmpeg_rs_raw::audio_fifo::AudioFifo;
use ffmpeg_rs_raw::decode::{Decoder, DecoderCodecContext, HwConfig};
use ffmpeg_rs_raw::encode::{classify_receive, send_frame_accepted, CodecSignal, Encoder};
use ffmpeg_rs_raw::frame::{AvFrame, AvFrameRef, AvPacket};
use ffmpeg_rs_raw::io_bridge::{
    map_read_outcome, map_write_outcome, oversized_read_request, seek_target, AdapterSlot,
    SeekTarget, SEEK_WHENCE_CUR, SEEK_WHENCE_END, SEEK_WHENCE_SET,
};
use ffmpeg_rs_raw::rational::{rescale_q, rescale_rnd, Rational};
use ffmpeg_rs_raw::resample::Resample;
use ffmpeg_rs_raw::scale::Scaler;
use ffmpeg_rs_raw::{
    get_frame_duration, get_frame_from_hw, PipelineError, AVERROR_EAGAIN, AVERROR_EOF,
    AV_NOPTS_VALUE,
};

fn audio_frame(nb_samples: u32, pts: i64) -> AvFrameRef {
    AvFrameRef::new(AvFrame {
        pts,
        duration: 0,
        width: 0,
        height: 0,
        format: 8,
        sample_rate: 48_000,
        nb_samples,
        channels: 2,
        pict_type: 0,
        hw_frames: false,
    })
}

/// Buffer one oversized frame and drain one encoder-sized block, as the
/// aac encoder's fixed frame size requires.
#[test]
fn test_buffer() {
    let mut buf = AudioFifo::new(8, 2).unwrap();
    let demo_frame = audio_frame(2048, 0);
    buf.buffer_frame(&demo_frame).unwrap();
    let out_frame = buf.get_frame(1024).unwrap().unwrap();
    assert_eq!(out_frame.ptr().nb_samples, 1024);
    assert_eq!(out_frame.ptr().channels, 2);
    assert_eq!(out_frame.ptr().format, 8);
}

/// Buffering 5000 samples and draining blocks of 1024 yields exactly 4
/// frames stamped seed + 1024 * k; the 5th drain reports not enough
/// data.
#[test]
fn fifo_exactness() {
    let seed = 7_700;
    let mut fifo = AudioFifo::new(8, 2).unwrap();
    fifo.buffer_frame(&audio_frame(2048, seed)).unwrap();
    fifo.buffer_frame(&audio_frame(2048, 123_456)).unwrap();
    fifo.buffer_frame(&audio_frame(904, 999_999)).unwrap();
    for k in 0..4 {
        let frame = fifo.get_frame(1024).unwrap().expect("a full block is buffered");
        assert_eq!(frame.ptr().pts, seed + 1024 * k);
        assert_eq!(frame.ptr().nb_samples, 1024);
    }
    assert!(fifo.get_frame(1024).unwrap().is_none());
}

/// The drained-frame count depends only on the total sample count, not
/// on how the input was cut into frames.
#[test]
fn fifo_chunking_independence() {
    let drained = |sizes: &[u32]| -> usize {
        let mut fifo = AudioFifo::new(8, 2).unwrap();
        for (i, s) in sizes.iter().enumerate() {
            fifo.buffer_frame(&audio_frame(*s, i as i64)).unwrap();
        }
        let mut count = 0;
        while fifo.get_frame(1024).unwrap().is_some() {
            count += 1;
        }
        count
    };
    assert_eq!(drained(&[5000]), 4);
    assert_eq!(drained(&[1000, 1500, 2500]), 4);
    assert_eq!(drained(&[1; 5000]), 4);
}

/// The first frame seeds the running timestamp; later frames never move
/// it.
#[test]
fn fifo_pts_seeding() {
    let mut fifo = AudioFifo::new(8, 2).unwrap();
    fifo.buffer_frame(&audio_frame(100, 55)).unwrap();
    fifo.buffer_frame(&audio_frame(2000, 777)).unwrap();
    let frame = fifo.get_frame(1024).unwrap().unwrap();
    assert_eq!(frame.ptr().pts, 55);
}

/// Registering the same stream index twice errs on the second call and
/// leaves the first registration intact.
#[test]
fn decoder_idempotence_guard() {
    let mut dec = Decoder::new();
    let first = DecoderCodecContext { codec_id: 27, stream_index: 0, hw_device_type: None };
    let second = DecoderCodecContext { codec_id: 86, stream_index: 0, hw_device_type: Some(2) };
    assert!(dec.add_decoder(first).is_ok());
    assert_eq!(dec.add_decoder(second), Err(PipelineError::DecoderAlreadySetup));
    let kept = dec.get_decoder(0).expect("the first registration stays");
    assert_eq!(kept.codec_id, 27);
    assert_eq!(kept.hw_device_type, None);
}

/// Candidate filtering keeps, in order, only configurations of an
/// enabled device type that support device-context attachment.
#[test]
fn decoder_hw_candidates() {
    let mut dec = Decoder::new();
    let configs = vec![
        HwConfig { device_type: 2, methods: 1 },
        HwConfig { device_type: 4, methods: 1 },
        HwConfig { device_type: 2, methods: 2 },
        HwConfig { device_type: 7, methods: 3 },
    ];
    assert!(dec.hw_candidates(&configs).is_empty());
    dec.enable_hw_decoder(2);
    dec.enable_hw_decoder(7);
    dec.enable_hw_decoder(2);
    let picked = dec.hw_candidates(&configs);
    assert_eq!(picked.len(), 2);
    assert_eq!(picked[0].device_type, 2);
    assert_eq!(picked[0].methods, 1);
    assert_eq!(picked[1].device_type, 7);
    dec.enable_hw_decoder_any(vec![4]);
    let picked = dec.hw_candidates(&configs);
    assert_eq!(picked.len(), 1);
    assert_eq!(picked[0].device_type, 4);
}

/// A full flush drains every registered stream, in registration order.
#[test]
fn decoder_flush_order() {
    let mut dec = Decoder::new();
    for idx in [3, 1, 2] {
        dec.add_decoder(DecoderCodecContext {
            codec_id: 27,
            stream_index: idx,
            hw_device_type: None,
        })
        .unwrap();
    }
    assert_eq!(dec.flush_order(), vec![3, 1, 2]);
    assert!(dec.get_decoder(1).is_some());
    assert!(dec.get_decoder(9).is_none());
}

/// A sample rate claims the timebase; a frame rate on the same encoder
/// is then refused, and the other way round.
#[test]
fn encoder_kind_guard() {
    let audio = Encoder::new(86).unwrap().with_sample_rate(48_000).unwrap();
    assert_eq!(audio.time_base, Rational { num: 1, den: 48_000 });
    assert_eq!(
        audio.with_framerate(Rational { num: 30, den: 1 }),
        Err(PipelineError::WrongEncoderKind)
    );

    let video = Encoder::new(27)
        .unwrap()
        .with_framerate(Rational { num: 30, den: 1 })
        .unwrap();
    assert_eq!(video.time_base, Rational { num: 1, den: 30 });
    assert_eq!(video.with_sample_rate(44_100), Err(PipelineError::WrongEncoderKind));
}

/// Produced units get the encoder's timebase, a minimum duration of one
/// tick, and the destination stream index when one is set.
#[test]
fn encoder_finalize_packet() {
    let enc = Encoder::new(27)
        .unwrap()
        .with_framerate(Rational { num: 30, den: 1 })
        .unwrap()
        .with_stream_index(5);
    let pkt = AvPacket {
        stream_index: 0,
        pts: 10,
        dts: 9,
        duration: 0,
        time_base: Rational { num: 1, den: 1 },
        data: vec![1, 2, 3],
    };
    let out = enc.finalize_packet(pkt);
    assert_eq!(out.stream_index, 5);
    assert_eq!(out.duration, 1);
    assert_eq!(out.time_base, Rational { num: 1, den: 30 });
    assert_eq!(out.pts, 10);
    assert_eq!(out.data, vec![1, 2, 3]);

    let enc2 = Encoder::new(27).unwrap();
    let pkt2 = AvPacket {
        stream_index: 2,
        pts: 0,
        dts: 0,
        duration: 7,
        time_base: Rational { num: 1, den: 1 },
        data: vec![],
    };
    let out2 = enc2.finalize_packet(pkt2);
    assert_eq!(out2.stream_index, 2);
    assert_eq!(out2.duration, 7);
}

/// The frame handed to the engine has the decoder-assigned picture type
/// cleared and nothing else touched.
#[test]
fn encoder_prepare_frame() {
    let enc = Encoder::new(27).unwrap();
    let mut rec = audio_frame(100, 42).ptr().clone();
    rec.pict_type = 3;
    let prepared = enc.prepare_frame(&AvFrameRef::new(rec));
    assert_eq!(prepared.ptr().pict_type, 0);
    assert_eq!(prepared.ptr().pts, 42);
    assert_eq!(prepared.ptr().nb_samples, 100);
}

/// The send/receive loop taxonomy: output, the two transient codes, and
/// hard failures.
#[test]
fn codec_signal_taxonomy() {
    assert_eq!(classify_receive(0), CodecSignal::Produced);
    assert_eq!(classify_receive(17), CodecSignal::Produced);
    assert_eq!(classify_receive(AVERROR_EOF), CodecSignal::Exhausted);
    assert_eq!(classify_receive(AVERROR_EAGAIN), CodecSignal::Exhausted);
    assert_eq!(classify_receive(-22), CodecSignal::Failed);
    assert!(send_frame_accepted(0));
    assert!(send_frame_accepted(AVERROR_EAGAIN));
    assert!(!send_frame_accepted(AVERROR_EOF));
    assert!(!send_frame_accepted(-22));
}

/// Scaling converts geometry and format, keeps timing, and refuses
/// hardware frames.
#[test]
fn scaler_converts_and_guards() {
    let mut scaler = Scaler::new();
    let src = AvFrameRef::new(AvFrame {
        pts: 11,
        duration: 1,
        width: 1024,
        height: 1024,
        format: 2,
        sample_rate: 0,
        nb_samples: 0,
        channels: 0,
        pict_type: 0,
        hw_frames: false,
    });
    let out = scaler.process_frame(&src, 128, 128, 0).unwrap();
    assert_eq!(out.ptr().width, 128);
    assert_eq!(out.ptr().height, 128);
    assert_eq!(out.ptr().format, 0);
    assert_eq!(out.ptr().pts, 11);

    let up = scaler.process_frame(&src, 1024, 1024, 0).unwrap();
    assert_eq!(up.ptr().width, 1024);
    assert_eq!(up.ptr().height, 1024);

    let mut hw = src.ptr().clone();
    hw.hw_frames = true;
    assert_eq!(
        scaler.process_frame(&AvFrameRef::new(hw), 64, 64, 0),
        Err(PipelineError::HardwareFramesUnsupported)
    );
}

/// The conversion context is rebuilt only when the target changes.
#[test]
fn scaler_setup_caching() {
    let mut scaler = Scaler::new();
    assert!(scaler.setup_scaler(128, 128, 0));
    assert!(!scaler.setup_scaler(128, 128, 0));
    assert!(scaler.setup_scaler(256, 128, 0));
    assert!(!scaler.setup_scaler(256, 128, 0));
}

/// Resampling stamps the output layout, keeps timing, and refuses
/// hardware frames.
#[test]
fn resampler_converts_and_guards() {
    let mut rs = Resample::new(1, 44_100, 1);
    let src = audio_frame(4800, 33);
    let out = rs.process_frame(&src).unwrap();
    assert_eq!(out.ptr().format, 1);
    assert_eq!(out.ptr().sample_rate, 44_100);
    assert_eq!(out.ptr().channels, 1);
    assert_eq!(out.ptr().pts, 33);

    let mut hw = src.ptr().clone();
    hw.hw_frames = true;
    assert_eq!(
        rs.process_frame(&AvFrameRef::new(hw)),
        Err(PipelineError::HardwareFramesUnsupported)
    );
}

/// Timestamp rescaling rounds to nearest with ties away from zero, on
/// both signs.
#[test]
fn rescale_rounding() {
    assert_eq!(rescale_rnd(1, 1, 2), 1);
    assert_eq!(rescale_rnd(-1, 1, 2), -1);
    assert_eq!(rescale_rnd(1, 1, 3), 0);
    assert_eq!(rescale_rnd(-1, 1, 3), 0);
    assert_eq!(rescale_rnd(5, 3, 2), 8);
    let ms = Rational { num: 1, den: 1000 };
    let tv = Rational { num: 1, den: 90_000 };
    assert_eq!(rescale_q(1000, ms, tv), 90_000);
    assert_eq!(rescale_q(90_000, tv, ms), 1000);
    assert_eq!(rescale_q(1, Rational { num: 1, den: 2 }, Rational { num: 1, den: 1 }), 1);
}

/// The pull reply compresses errors and empty reads into the
/// end-of-stream sentinel and reports byte counts otherwise.
#[test]
fn bridge_read_replies() {
    assert_eq!(map_read_outcome(None), AVERROR_EOF);
    assert_eq!(map_read_outcome(Some(0)), AVERROR_EOF);
    assert_eq!(map_read_outcome(Some(4096)), 4096);
    assert!(oversized_read_request(isize::MAX as i64));
    assert!(!oversized_read_request(4096));
    assert_eq!(map_write_outcome(true, 512), 512);
    assert_eq!(map_write_outcome(false, 512), AVERROR_EOF);
}

/// Seek requests map onto the three supported positioning modes and
/// nothing else.
#[test]
fn bridge_seek_targets() {
    assert_eq!(seek_target(SEEK_WHENCE_SET, 10), Some(SeekTarget::Start(10)));
    assert_eq!(seek_target(SEEK_WHENCE_CUR, -5), Some(SeekTarget::Current(-5)));
    assert_eq!(seek_target(SEEK_WHENCE_END, -1), Some(SeekTarget::End(-1)));
    assert_eq!(seek_target(99, 0), None);
}

/// The adapted object crosses the boundary exactly once in each
/// direction: the first reclaim returns it, every later one nothing.
#[test]
fn bridge_slot_reclaims_once() {
    let mut slot = AdapterSlot::new(String::from("reader"));
    assert!(slot.is_engaged());
    assert_eq!(slot.reclaim(), Some(String::from("reader")));
    assert!(!slot.is_engaged());
    assert_eq!(slot.reclaim(), None);
}

/// Opening and closing many bridges in sequence leaks nothing: every
/// slot is empty again after its teardown.
#[test]
fn bridge_lifetime_many_cycles() {
    for n in 0..200 {
        let mut slot = AdapterSlot::new(vec![0u8; 64]);
        assert!(slot.is_engaged());
        let obj = slot.reclaim();
        assert_eq!(obj.map(|v| v.len()), Some(64), "cycle {}", n);
        assert!(!slot.is_engaged());
        assert_eq!(slot.reclaim(), None);
    }
}

/// A hardware frame comes back as a host frame with every other field
/// kept; a host frame passes through.
#[test]
fn hw_frame_download() {
    let mut rec = audio_frame(64, 5).ptr().clone();
    rec.hw_frames = true;
    let down = get_frame_from_hw(AvFrameRef::new(rec.clone())).unwrap();
    assert!(!down.ptr().hw_frames);
    assert_eq!(down.ptr().pts, 5);
    assert_eq!(down.ptr().nb_samples, 64);

    rec.hw_frames = false;
    let same = get_frame_from_hw(AvFrameRef::new(rec.clone())).unwrap();
    assert_eq!(same.ptr(), &rec);
}

/// The duration accessor reads the record's duration field.
#[test]
fn frame_duration_accessor() {
    let mut rec = audio_frame(64, 5).ptr().clone();
    rec.duration = 47;
    assert_eq!(get_frame_duration(&AvFrameRef::new(rec)), 47);
    let unset = AvFrame {
        pts: AV_NOPTS_VALUE,
        duration: 0,
        width: 0,
        height: 0,
        format: 0,
        sample_rate: 0,
        nb_samples: 0,
        channels: 0,
        pict_type: 0,
        hw_frames: false,
    };
    assert_eq!(get_frame_duration(&AvFrameRef::new(unset)), 0);
}
