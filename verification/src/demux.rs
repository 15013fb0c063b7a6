use vstd::prelude::*;
use crate::PipelineError;
use crate::rational::Rational;
use crate::stream_info::{DemuxerInfo, StreamInfo, StreamType};

verus! {

/// The engine's media-type tag for a video stream.
pub const MEDIA_TYPE_VIDEO: i32 = 0;

/// The engine's media-type tag for an audio stream.
pub const MEDIA_TYPE_AUDIO: i32 = 1;

/// The engine's media-type tag for a subtitle stream.
pub const MEDIA_TYPE_SUBTITLE: i32 = 3;

/// The per-stream values the container reader hands over after the
/// engine's stream-analysis pass: plain copies of the codec-parameter
/// and stream fields this layer reads.
#[derive(Clone, Debug, PartialEq)]
pub struct RawStreamParams {
    /// Stream index: stable, dense, zero-based.
    pub index: usize,
    /// The engine's media-type tag.
    pub codec_type: i32,
    /// Codec identifier.
    pub codec_id: i64,
    /// Pixel or sample format identifier.
    pub format: i64,
    /// Average bitrate, bits per second.
    pub bit_rate: i64,
    /// Video width in pixels.
    pub width: u32,
    /// Video height in pixels.
    pub height: u32,
    /// Average video frame rate.
    pub avg_frame_rate: Rational,
    /// Audio sample rate, Hz.
    pub sample_rate: u32,
    /// Number of audio channels.
    pub channels: u8,
    /// Start-time offset, in `time_base` ticks.
    pub start_time: i64,
    /// Language tag from the stream metadata; empty when absent.
    pub language: String,
    /// Stream timebase.
    pub time_base: Rational,
    /// Codec level.
    pub level: i64,
    /// Codec profile.
    pub profile: i64,
    /// Color space of video frames.
    pub color_space: i64,
    /// Color range of video frames.
    pub color_range: i64,
}

impl RawStreamParams {
    /// The frame-rate fields stay within what the engine's signed
    /// 32-bit rationals can carry; a reader hands an absent frame rate
    /// over as 0/1.
    pub open spec fn wf(self) -> bool {
        self.avg_frame_rate.num >= 0 && self.avg_frame_rate.den >= 1
    }
}

/// The stream kind a media-type tag stands for; `None` for the kinds
/// this layer skips (attachments, data streams, unknown types).
pub open spec fn media_kind(codec_type: int) -> Option<StreamType> {
    if codec_type == MEDIA_TYPE_VIDEO as int {
        Some(StreamType::Video)
    } else if codec_type == MEDIA_TYPE_AUDIO as int {
        Some(StreamType::Audio)
    } else if codec_type == MEDIA_TYPE_SUBTITLE as int {
        Some(StreamType::Subtitle)
    } else {
        None
    }
}

/// The stream description built from one raw stream of a supported
/// kind: video keeps geometry, frame rate and color metadata, audio
/// keeps the sample layout, subtitles keep only identity and timing.
pub open spec fn stream_info_of(raw: RawStreamParams) -> StreamInfo
    recommends
        media_kind(raw.codec_type as int) is Some,
{
    match media_kind(raw.codec_type as int) {
        Some(StreamType::Video) => StreamInfo {
            index: raw.index,
            stream_type: StreamType::Video,
            codec: raw.codec_id,
            format: raw.format,
            bitrate: raw.bit_rate,
            width: raw.width,
            height: raw.height,
            fps: raw.avg_frame_rate,
            start_time: raw.start_time,
            profile: raw.profile,
            level: raw.level,
            color_space: raw.color_space,
            color_range: raw.color_range,
            sample_rate: 0,
            language: raw.language,
            channels: 0,
            timebase: raw.time_base,
        },
        Some(StreamType::Audio) => StreamInfo {
            index: raw.index,
            stream_type: StreamType::Audio,
            codec: raw.codec_id,
            format: raw.format,
            bitrate: raw.bit_rate,
            width: 0,
            height: 0,
            fps: Rational { num: 0, den: 1 },
            start_time: raw.start_time,
            profile: 0,
            level: 0,
            color_space: 0,
            color_range: 0,
            sample_rate: raw.sample_rate,
            language: raw.language,
            channels: raw.channels,
            timebase: raw.time_base,
        },
        _ => StreamInfo {
            index: raw.index,
            stream_type: StreamType::Subtitle,
            codec: raw.codec_id,
            format: 0,
            bitrate: 0,
            width: 0,
            height: 0,
            fps: Rational { num: 0, den: 1 },
            start_time: raw.start_time,
            profile: 0,
            level: 0,
            color_space: 0,
            color_range: 0,
            sample_rate: 0,
            language: raw.language,
            channels: 0,
            timebase: raw.time_base,
        },
    }
}

/// The manifest rows a sequence of raw streams yields: one row per raw
/// stream of a supported kind, in container order.
pub open spec fn manifest_streams(raws: Seq<RawStreamParams>) -> Seq<StreamInfo>
    decreases raws.len(),
{
    if raws.len() == 0 {
        Seq::empty()
    } else {
        let rest = manifest_streams(raws.drop_last());
        if media_kind(raws.last().codec_type as int) is Some {
            rest.push(stream_info_of(raws.last()))
        } else {
            rest
        }
    }
}

/// The raw streams of a supported kind, in container order.
pub open spec fn elementary_streams(raws: Seq<RawStreamParams>) -> Seq<RawStreamParams>
    decreases raws.len(),
{
    if raws.len() == 0 {
        Seq::empty()
    } else {
        let rest = elementary_streams(raws.drop_last());
        if media_kind(raws.last().codec_type as int) is Some {
            rest.push(raws.last())
        } else {
            rest
        }
    }
}

/// Probing is faithful to the container: the manifest holds exactly one
/// row per elementary stream, in order, and each row keeps the stream's
/// kind and index.
pub proof fn lemma_probe_round_trip(raws: Seq<RawStreamParams>)
    ensures
        manifest_streams(raws).len() == elementary_streams(raws).len(),
        forall|k: int|
            0 <= k < manifest_streams(raws).len() ==> #[trigger] manifest_streams(raws)[k]
                == stream_info_of(elementary_streams(raws)[k]),
        forall|k: int|
            0 <= k < manifest_streams(raws).len() ==> Some(
                #[trigger] manifest_streams(raws)[k].stream_type,
            ) == media_kind(elementary_streams(raws)[k].codec_type as int)
                && manifest_streams(raws)[k].index == elementary_streams(raws)[k].index,
    decreases raws.len(),
{
    if raws.len() > 0 {
        lemma_probe_round_trip(raws.drop_last());
        let raw = raws.last();
        if media_kind(raw.codec_type as int) is Some {
            match media_kind(raw.codec_type as int) {
                Some(StreamType::Video) => {},
                Some(StreamType::Audio) => {},
                _ => {},
            }
        }
    }
}

/// The container-level values the reader hands over after probing.
#[derive(Clone, Debug, PartialEq)]
pub struct RawContainerInfo {
    /// Average bitrate of the whole media, bits per second.
    pub bit_rate: i64,
    /// Duration of the media, in microseconds.
    pub duration: i64,
    /// Comma-separated names of the matched container format.
    pub format: String,
    /// Comma-separated mime types used during probing.
    pub mime_types: String,
}

/// Where a container reader pulls its bytes from.
#[derive(Clone, Debug, PartialEq)]
pub enum DemuxerInput {
    /// A path or URL the engine opens itself.
    Url(String),
    /// An application byte source behind the pull-callback bridge,
    /// with an optional URL hint for format detection.
    Reader(Option<String>),
}

/// The container reader: holds the input choice and probing
/// configuration, and turns the engine's stream-analysis results into a
/// [`DemuxerInfo`].
#[derive(Debug)]
pub struct Demuxer {
    opened: bool,
    input: DemuxerInput,
    buffer_size: usize,
    format: Option<String>,
}

impl Demuxer {
    /// Which input the reader pulls from.
    pub closed spec fn spec_input(self) -> DemuxerInput {
        self.input
    }

    /// Whether the container has been opened by a probe.
    pub closed spec fn spec_opened(self) -> bool {
        self.opened
    }

    /// The backing-buffer size used for callback-driven input.
    pub closed spec fn spec_buffer_size(self) -> usize {
        self.buffer_size
    }

    /// The format hint, if one was set.
    pub closed spec fn spec_format(self) -> Option<String> {
        self.format
    }

    /// A reader for a file path or URL.
    pub fn new(input: &str) -> (r: Demuxer)
        ensures
            r.spec_input() matches DemuxerInput::Url(u) && u@ == input@,
            !r.spec_opened(),
            r.spec_buffer_size() == 4096,
            r.spec_format() is None,
    {
        Demuxer {
            opened: false,
            input: DemuxerInput::Url(input.to_string()),
            buffer_size: 4096,
            format: None,
        }
    }

    /// A reader for an application byte source, with an optional URL
    /// hint for format detection. The source object itself stays with
    /// the caller-side bridge.
    pub fn new_custom_io(url: Option<String>) -> (r: Demuxer)
        ensures
            r.spec_input() == DemuxerInput::Reader(url),
            !r.spec_opened(),
            r.spec_buffer_size() == 16384,
            r.spec_format() is None,
    {
        Demuxer { opened: false, input: DemuxerInput::Reader(url), buffer_size: 16384, format: None }
    }

    /// Configure the backing-buffer size for callback-driven input.
    pub fn with_buffer_size(self, buffer_size: usize) -> (r: Demuxer)
        ensures
            r.spec_buffer_size() == buffer_size,
            r.spec_input() == self.spec_input(),
            r.spec_opened() == self.spec_opened(),
            r.spec_format() == self.spec_format(),
    {
        Demuxer { buffer_size, ..self }
    }

    /// Configure the backing-buffer size for callback-driven input.
    pub fn set_buffer_size(&mut self, buffer_size: usize)
        ensures
            final(self).spec_buffer_size() == buffer_size,
            final(self).spec_input() == old(self).spec_input(),
            final(self).spec_opened() == old(self).spec_opened(),
            final(self).spec_format() == old(self).spec_format(),
    {
        self.buffer_size = buffer_size;
    }

    /// Configure a format hint for probing.
    pub fn with_format(self, format: &str) -> (r: Demuxer)
        ensures
            r.spec_format() matches Some(f) && f@ == format@,
            r.spec_input() == self.spec_input(),
            r.spec_opened() == self.spec_opened(),
            r.spec_buffer_size() == self.spec_buffer_size(),
    {
        Demuxer { format: Some(format.to_string()), ..self }
    }

    /// Configure a format hint for probing.
    pub fn set_format(&mut self, format: &str)
        ensures
            final(self).spec_format() matches Some(f) && f@ == format@,
            final(self).spec_input() == old(self).spec_input(),
            final(self).spec_opened() == old(self).spec_opened(),
            final(self).spec_buffer_size() == old(self).spec_buffer_size(),
    {
        self.format = Some(format.to_string());
    }

    /// Build the manifest from what the engine's stream-analysis pass
    /// found. Errs exactly when the container is already open; on
    /// success the reader counts as open, and the manifest holds one
    /// row per elementary stream, in container order.
    pub fn probe_input(&mut self, container: RawContainerInfo, raws: Vec<RawStreamParams>) -> (r:
        Result<DemuxerInfo, PipelineError>)
        requires
            forall|i: int| 0 <= i < raws@.len() ==> raws@[i].wf(),
        ensures
            old(self).spec_opened() ==> r == Result::<DemuxerInfo, PipelineError>::Err(
                PipelineError::ContextAlreadyOpen,
            ) && *final(self) == *old(self),
            !old(self).spec_opened() ==> {
                &&& r matches Ok(info)
                &&& info.streams@ == manifest_streams(raws@)
                &&& info.bitrate == container.bit_rate
                &&& info.duration == container.duration
                &&& info.format == container.format
                &&& info.mime_types == container.mime_types
                &&& info.groups@.len() == 0
                &&& info.wf()
                &&& final(self).spec_opened()
                &&& final(self).spec_input() == old(self).spec_input()
                &&& final(self).spec_buffer_size() == old(self).spec_buffer_size()
                &&& final(self).spec_format() == old(self).spec_format()
            },
    {
        if self.opened {
            return Err(PipelineError::ContextAlreadyOpen);
        }
        self.opened = true;
        let ghost all = raws@;
        let mut raws = raws;
        let mut streams: Vec<StreamInfo> = Vec::new();
        let ghost consumed = 0int;
        while raws.len() > 0
            invariant
                0 <= consumed <= all.len(),
                raws@ == all.subrange(consumed, all.len() as int),
                streams@ == manifest_streams(all.subrange(0, consumed)),
                forall|i: int| 0 <= i < all.len() ==> all[i].wf(),
                forall|i: int|
                    0 <= i < streams@.len() ==> #[trigger] streams@[i].fps.num >= 0
                        && streams@[i].fps.den >= 1,
            decreases raws@.len(),
        {
            let raw = raws.remove(0);
            let ghost prefix = all.subrange(0, consumed);
            let ghost prefix1 = all.subrange(0, consumed + 1);
            proof {
                assert(raw == all[consumed]);
                assert(prefix1.drop_last() =~= prefix);
                assert(prefix1.last() == raw);
                assert(raws@ =~= all.subrange(consumed + 1, all.len() as int));
            }
            if raw.codec_type == MEDIA_TYPE_VIDEO {
                streams.push(StreamInfo {
                    index: raw.index,
                    stream_type: StreamType::Video,
                    codec: raw.codec_id,
                    format: raw.format,
                    bitrate: raw.bit_rate,
                    width: raw.width,
                    height: raw.height,
                    fps: raw.avg_frame_rate,
                    start_time: raw.start_time,
                    profile: raw.profile,
                    level: raw.level,
                    color_space: raw.color_space,
                    color_range: raw.color_range,
                    sample_rate: 0,
                    language: raw.language,
                    channels: 0,
                    timebase: raw.time_base,
                });
            } else if raw.codec_type == MEDIA_TYPE_AUDIO {
                streams.push(StreamInfo {
                    index: raw.index,
                    stream_type: StreamType::Audio,
                    codec: raw.codec_id,
                    format: raw.format,
                    bitrate: raw.bit_rate,
                    width: 0,
                    height: 0,
                    fps: Rational { num: 0, den: 1 },
                    start_time: raw.start_time,
                    profile: 0,
                    level: 0,
                    color_space: 0,
                    color_range: 0,
                    sample_rate: raw.sample_rate,
                    language: raw.language,
                    channels: raw.channels,
                    timebase: raw.time_base,
                });
            } else if raw.codec_type == MEDIA_TYPE_SUBTITLE {
                streams.push(StreamInfo {
                    index: raw.index,
                    stream_type: StreamType::Subtitle,
                    codec: raw.codec_id,
                    format: 0,
                    bitrate: 0,
                    width: 0,
                    height: 0,
                    fps: Rational { num: 0, den: 1 },
                    start_time: raw.start_time,
                    profile: 0,
                    level: 0,
                    color_space: 0,
                    color_range: 0,
                    sample_rate: 0,
                    language: raw.language,
                    channels: 0,
                    timebase: raw.time_base,
                });
            }
            proof {
                consumed = consumed + 1;
            }
        }
        proof {
            assert(all.subrange(0, all.len() as int) =~= all);
        }
        Ok(
            DemuxerInfo {
                bitrate: container.bit_rate,
                duration: container.duration,
                format: container.format,
                mime_types: container.mime_types,
                streams,
                groups: Vec::new(),
            },
        )
    }
}

} // verus!
