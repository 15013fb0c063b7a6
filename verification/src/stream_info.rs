use vstd::prelude::*;
use crate::rational::Rational;

verus! {

/// The kind of an elementary stream.
#[derive(Clone, Copy, Debug, PartialEq, Eq, Structural)]
pub enum StreamType {
    Unknown,
    Video,
    Audio,
    Subtitle,
}

/// Per-stream description extracted once by the prober; immutable
/// afterward.
#[derive(Clone, Debug, PartialEq)]
pub struct StreamInfo {
    /// Stream index: stable, dense, zero-based.
    pub index: usize,
    /// Stream kind.
    pub stream_type: StreamType,
    /// Codec identifier.
    pub codec: i64,
    /// Pixel format (video) or sample format (audio) identifier.
    pub format: i64,
    /// Average bitrate of the stream, bits per second.
    pub bitrate: i64,
    /// Video width in pixels.
    pub width: u32,
    /// Video height in pixels.
    pub height: u32,
    /// Average video frame rate.
    pub fps: Rational,
    /// Start-time offset, in `timebase` ticks.
    pub start_time: i64,
    /// Codec profile.
    pub profile: i64,
    /// Codec level.
    pub level: i64,
    /// Color space of video frames.
    pub color_space: i64,
    /// Color range of video frames.
    pub color_range: i64,
    /// Audio sample rate, Hz.
    pub sample_rate: u32,
    /// Subtitle or audio language tag; empty when the container names none.
    pub language: String,
    /// Number of audio channels.
    pub channels: u8,
    /// Stream timebase.
    pub timebase: Rational,
}

impl StreamInfo {
    /// The frame-rate fields stay within what the engine's signed
    /// 32-bit rationals can carry.
    pub open spec fn wf(self) -> bool {
        self.fps.num >= 0 && self.fps.den >= 1
    }
}

/// Numerator of the ranking metric: video ranks by width * height * fps,
/// audio by sample rate, subtitles by reverse index so the lowest index
/// wins.
pub open spec fn metric_num(s: StreamInfo) -> int {
    match s.stream_type {
        StreamType::Unknown => 0,
        StreamType::Video => (s.width as int) * (s.height as int) * (s.fps.num as int),
        StreamType::Audio => s.sample_rate as int,
        StreamType::Subtitle => 999 - (s.index as int),
    }
}

/// Denominator of the ranking metric.
pub open spec fn metric_den(s: StreamInfo) -> int {
    match s.stream_type {
        StreamType::Video => s.fps.den as int,
        _ => 1,
    }
}

/// Whether `a` ranks strictly higher than `b`, compared as the exact
/// rationals `metric_num / metric_den`.
pub open spec fn metric_gt(a: StreamInfo, b: StreamInfo) -> bool {
    metric_num(a) * metric_den(b) > metric_num(b) * metric_den(a)
}

/// `metric_num` stays below 2^95 in magnitude and `metric_den` within
/// [1, 2^31], so cross-multiplied comparisons fit a signed 128-bit
/// integer.
proof fn lemma_metric_bounds(s: StreamInfo)
    requires
        s.wf(),
    ensures
        -0x8000_0000_0000_0000_0000_0000 <= metric_num(s) <= 0x8000_0000_0000_0000_0000_0000,
        1 <= metric_den(s) <= 0x8000_0000,
{
    match s.stream_type {
        StreamType::Video => {
            assert((s.width as int) * (s.height as int) * (s.fps.num as int)
                <= 0x8000_0000_0000_0000_0000_0000int && (s.width as int) * (s.height as int) * (
            s.fps.num as int) >= 0) by (nonlinear_arith)
                requires
                    0 <= s.width <= 0xffff_ffffu64,
                    0 <= s.height <= 0xffff_ffffu64,
                    0 <= s.fps.num <= 0x7fff_ffff,
            ;
        },
        _ => {},
    }
}

impl StreamInfo {
    /// Whether this stream ranks strictly higher than `other`.
    pub fn has_better_metric(&self, other: &StreamInfo) -> (r: bool)
        requires
            self.wf(),
            other.wf(),
        ensures
            r == metric_gt(*self, *other),
    {
        let an: i128 = metric_num_exec(self);
        let ad: i128 = metric_den_exec(self);
        let bn: i128 = metric_num_exec(other);
        let bd: i128 = metric_den_exec(other);
        proof {
            lemma_metric_bounds(*self);
            lemma_metric_bounds(*other);
            assert(an * bd <= 0x4000_0000_0000_0000_0000_0000_0000_0000int && an * bd
                >= -0x4000_0000_0000_0000_0000_0000_0000_0000int && bn * ad
                <= 0x4000_0000_0000_0000_0000_0000_0000_0000int && bn * ad
                >= -0x4000_0000_0000_0000_0000_0000_0000_0000int) by (nonlinear_arith)
                requires
                    -0x8000_0000_0000_0000_0000_0000 <= an <= 0x8000_0000_0000_0000_0000_0000,
                    -0x8000_0000_0000_0000_0000_0000 <= bn <= 0x8000_0000_0000_0000_0000_0000,
                    1 <= ad <= 0x8000_0000,
                    1 <= bd <= 0x8000_0000,
            ;
        }
        an * bd > bn * ad
    }
}

/// The ranking numerator, computed exactly.
fn metric_num_exec(s: &StreamInfo) -> (r: i128)
    requires
        s.wf(),
    ensures
        r == metric_num(*s),
{
    match s.stream_type {
        StreamType::Unknown => 0,
        StreamType::Video => {
            proof {
                assert((s.width as int) * (s.height as int) <= 0xffff_ffff_ffff_ffff_int
                    && (s.width as int) * (s.height as int) >= 0) by (nonlinear_arith)
                    requires
                        0 <= s.width <= 0xffff_ffffu64,
                        0 <= s.height <= 0xffff_ffffu64,
                ;
                assert((s.width as int) * (s.height as int) * (s.fps.num as int)
                    <= 0x8000_0000_0000_0000_0000_0000int && (s.width as int) * (s.height as int)
                    * (s.fps.num as int) >= 0) by (nonlinear_arith)
                    requires
                        0 <= (s.width as int) * (s.height as int) <= 0xffff_ffff_ffff_ffff_int,
                        0 <= s.fps.num <= 0x7fff_ffff,
                ;
            }
            (s.width as i128) * (s.height as i128) * (s.fps.num as i128)
        },
        StreamType::Audio => s.sample_rate as i128,
        StreamType::Subtitle => 999 - (s.index as i128),
    }
}

/// The ranking denominator, computed exactly.
fn metric_den_exec(s: &StreamInfo) -> (r: i128)
    requires
        s.wf(),
    ensures
        r == metric_den(*s),
{
    match s.stream_type {
        StreamType::Video => s.fps.den as i128,
        _ => 1,
    }
}

/// The index, within the first `n` entries of `streams`, of the stream
/// the selection heuristic keeps for kind `t`: the earliest entry of
/// that kind whose metric no later entry strictly exceeds.
pub open spec fn best_idx_prefix(streams: Seq<StreamInfo>, t: StreamType, n: int) -> Option<int>
    recommends
        0 <= n <= streams.len(),
    decreases n,
{
    if n <= 0 {
        None
    } else {
        let prev = best_idx_prefix(streams, t, n - 1);
        if streams[n - 1].stream_type != t {
            prev
        } else {
            match prev {
                None => Some(n - 1),
                Some(j) => if metric_gt(streams[n - 1], streams[j]) {
                    Some(n - 1)
                } else {
                    Some(j)
                },
            }
        }
    }
}

/// Strict rational order carries over weak order: if `a` outranks `b`
/// and `b` is ranked at least as high as `c`, then `a` outranks `c`.
proof fn lemma_metric_gt_trans(a: StreamInfo, b: StreamInfo, c: StreamInfo)
    requires
        metric_den(a) >= 1,
        metric_den(b) >= 1,
        metric_den(c) >= 1,
        metric_gt(a, b),
        !metric_gt(c, b),
    ensures
        metric_gt(a, c),
{
    let an = metric_num(a);
    let ad = metric_den(a);
    let bn = metric_num(b);
    let bd = metric_den(b);
    let cn = metric_num(c);
    let cd = metric_den(c);
    assert(an * cd > cn * ad) by (nonlinear_arith)
        requires
            ad >= 1,
            bd >= 1,
            cd >= 1,
            an * bd > bn * ad,
            cn * bd <= bn * cd,
    ;
}

/// What the selection heuristic guarantees: the kept entry is of the
/// requested kind, no entry of that kind strictly outranks it, and it
/// strictly outranks every earlier entry of that kind; no entry of the
/// kind exists exactly when nothing is kept.
pub proof fn lemma_best_idx_properties(streams: Seq<StreamInfo>, t: StreamType, n: int)
    requires
        0 <= n <= streams.len(),
        forall|i: int| 0 <= i < streams.len() ==> streams[i].wf(),
    ensures
        match best_idx_prefix(streams, t, n) {
            None => forall|i: int| 0 <= i < n ==> streams[i].stream_type != t,
            Some(j) => {
                &&& 0 <= j < n
                &&& streams[j].stream_type == t
                &&& forall|i: int|
                    0 <= i < n && streams[i].stream_type == t ==> !metric_gt(
                        streams[i],
                        #[trigger] streams[j],
                    )
                &&& forall|i: int|
                    0 <= i < j && streams[i].stream_type == t ==> metric_gt(
                        streams[j],
                        #[trigger] streams[i],
                    )
            },
        },
    decreases n,
{
    if n > 0 {
        lemma_best_idx_properties(streams, t, n - 1);
        let prev = best_idx_prefix(streams, t, n - 1);
        let cur = best_idx_prefix(streams, t, n);
        if streams[n - 1].stream_type == t {
            match prev {
                None => {},
                Some(j) => {
                    lemma_metric_bounds(streams[j]);
                    lemma_metric_bounds(streams[n - 1]);
                    if metric_gt(streams[n - 1], streams[j]) {
                        assert forall|i: int| 0 <= i < n && streams[i].stream_type == t implies
                            !metric_gt(streams[i], #[trigger] streams[n - 1]) by {
                            if i < n - 1 {
                                lemma_metric_bounds(streams[i]);
                                if metric_gt(streams[i], streams[n - 1]) {
                                    lemma_metric_gt_trans(streams[i], streams[n - 1], streams[j]);
                                }
                            } else {
                                assert(!metric_gt(streams[i], streams[i])) by (nonlinear_arith);
                            }
                        }
                        assert forall|i: int| 0 <= i < n - 1 && streams[i].stream_type == t
                            implies metric_gt(streams[n - 1], #[trigger] streams[i]) by {
                            lemma_metric_bounds(streams[i]);
                            lemma_metric_gt_trans(streams[n - 1], streams[j], streams[i]);
                        }
                    }
                },
            }
        }
    }
}

/// Aggregate description of one probed container.
#[derive(Clone, Debug, PartialEq)]
pub struct DemuxerInfo {
    /// Average bitrate of the whole media, bits per second.
    pub bitrate: i64,
    /// Duration of the media, in microseconds.
    pub duration: i64,
    /// Comma-separated list of names of the matched container format.
    pub format: String,
    /// Comma-separated list of mime types used during probing.
    pub mime_types: String,
    /// The elementary streams the container holds, in container order.
    pub streams: Vec<StreamInfo>,
    /// The stream groups the container holds.
    pub groups: Vec<StreamGroupInfo>,
}

impl DemuxerInfo {
    /// Every stream description stays within the engine's field ranges.
    pub open spec fn wf(self) -> bool {
        forall|i: int| 0 <= i < self.streams@.len() ==> self.streams@[i].wf()
    }

    /// The stream the selection heuristic keeps for kind `t`, if the
    /// container has any stream of that kind.
    pub fn best_stream(&self, t: StreamType) -> (r: Option<&StreamInfo>)
        requires
            self.wf(),
        ensures
            match r {
                None => best_idx_prefix(self.streams@, t, self.streams@.len() as int) is None,
                Some(s) => {
                    &&& best_idx_prefix(self.streams@, t, self.streams@.len() as int) matches
                        Some(j) && *s == self.streams@[j]
                },
            },
    {
        let ghost sseq = self.streams@;
        let mut best: Option<usize> = None;
        let n = self.streams.len();
        let mut i: usize = 0;
        while i < n
            invariant
                n == sseq.len(),
                0 <= i <= n,
                sseq == self.streams@,
                self.wf(),
                match best {
                    None => best_idx_prefix(sseq, t, i as int) is None,
                    Some(j) => best_idx_prefix(sseq, t, i as int) == Some(j as int) && j < i,
                },
            decreases n - i,
        {
            let s = &self.streams[i];
            if s.stream_type == t {
                match best {
                    None => {
                        best = Some(i);
                    },
                    Some(j) => {
                        if s.has_better_metric(&self.streams[j]) {
                            best = Some(i);
                        }
                    },
                }
            }
            i = i + 1;
        }
        match best {
            None => None,
            Some(j) => Some(&self.streams[j]),
        }
    }

    /// The highest-ranked video stream.
    pub fn best_video(&self) -> (r: Option<&StreamInfo>)
        requires
            self.wf(),
        ensures
            match r {
                None => best_idx_prefix(self.streams@, StreamType::Video, self.streams@.len() as int)
                    is None,
                Some(s) => {
                    &&& best_idx_prefix(self.streams@, StreamType::Video, self.streams@.len() as int)
                        matches Some(j) && *s == self.streams@[j]
                },
            },
    {
        self.best_stream(StreamType::Video)
    }

    /// The highest-ranked audio stream.
    pub fn best_audio(&self) -> (r: Option<&StreamInfo>)
        requires
            self.wf(),
        ensures
            match r {
                None => best_idx_prefix(self.streams@, StreamType::Audio, self.streams@.len() as int)
                    is None,
                Some(s) => {
                    &&& best_idx_prefix(self.streams@, StreamType::Audio, self.streams@.len() as int)
                        matches Some(j) && *s == self.streams@[j]
                },
            },
    {
        self.best_stream(StreamType::Audio)
    }

    /// The highest-ranked subtitle stream: the one with the lowest index.
    pub fn best_subtitle(&self) -> (r: Option<&StreamInfo>)
        requires
            self.wf(),
        ensures
            match r {
                None => best_idx_prefix(
                    self.streams@,
                    StreamType::Subtitle,
                    self.streams@.len() as int,
                ) is None,
                Some(s) => {
                    &&& best_idx_prefix(
                        self.streams@,
                        StreamType::Subtitle,
                        self.streams@.len() as int,
                    ) matches Some(j) && *s == self.streams@[j]
                },
            },
    {
        self.best_stream(StreamType::Subtitle)
    }

    /// Whether `stream` is the one the heuristic keeps for its own kind.
    pub fn is_best_stream(&self, stream: &StreamInfo) -> (r: bool)
        requires
            self.wf(),
        ensures
            r == (match best_idx_prefix(
                self.streams@,
                stream.stream_type,
                self.streams@.len() as int,
            ) {
                None => false,
                Some(j) => stream.stream_type != StreamType::Unknown && self.streams@[j].index
                    == stream.index,
            }),
    {
        match stream.stream_type {
            StreamType::Unknown => false,
            _ => {
                match self.best_stream(stream.stream_type) {
                    None => false,
                    Some(b) => b.index == stream.index,
                }
            },
        }
    }
}

/// The kind of a stream group.
#[derive(Clone, Debug, PartialEq)]
pub enum StreamGroupType {
    /// A grid of image tiles forming one picture.
    TileGrid { tiles: usize, width: usize, height: usize, codec: i64, format: i64 },
}

/// Description of one stream group in a container.
#[derive(Clone, Debug, PartialEq)]
pub struct StreamGroupInfo {
    /// Group index within the container.
    pub index: usize,
    /// What the group is.
    pub group_type: StreamGroupType,
}

} // verus!
