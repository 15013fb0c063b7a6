use vstd::prelude::*;
use crate::PipelineError;
use crate::stream_info::StreamInfo;

verus! {

/// The engine's flag for a hardware configuration that attaches through
/// a device context.
pub const HW_CONFIG_METHOD_HW_DEVICE_CTX: u32 = 1;

/// One hardware configuration a codec advertises.
#[derive(Clone, Copy, Debug, PartialEq, Eq, Structural)]
pub struct HwConfig {
    /// The accelerator device type.
    pub device_type: i64,
    /// Bit set of supported attachment methods.
    pub methods: u32,
}

/// One stream's codec state: the codec it decodes, the stream it is
/// bound to, and the negotiated accelerator, if any.
#[derive(Clone, Copy, Debug, PartialEq, Eq, Structural)]
pub struct DecoderCodecContext {
    /// Codec identifier.
    pub codec_id: i64,
    /// The stream index this context is bound to.
    pub stream_index: i32,
    /// The accelerator device type attached, or `None` for the pure
    /// software path.
    pub hw_device_type: Option<i64>,
}

/// Whether some registered context is bound to `idx`.
pub open spec fn has_index(codecs: Seq<DecoderCodecContext>, idx: i32) -> bool {
    exists|i: int| 0 <= i < codecs.len() && codecs[i].stream_index == idx
}

/// What one registration does: a context for an already-bound stream
/// index is refused and the registry kept, any other is appended.
pub open spec fn register_outcome(codecs: Seq<DecoderCodecContext>, e: DecoderCodecContext) -> (
    Seq<DecoderCodecContext>,
    bool,
) {
    if has_index(codecs, e.stream_index) {
        (codecs, false)
    } else {
        (codecs.push(e), true)
    }
}

/// The idempotence guard: on a registry without `e1`'s index, the first
/// registration is accepted; a second one for the same index, whatever
/// else it carries, is refused and leaves the registry — the first
/// registration included — exactly as it was.
pub proof fn lemma_decoder_idempotence_guard(
    codecs: Seq<DecoderCodecContext>,
    e1: DecoderCodecContext,
    e2: DecoderCodecContext,
)
    requires
        e1.stream_index == e2.stream_index,
        !has_index(codecs, e1.stream_index),
    ensures
        register_outcome(codecs, e1).1,
        !register_outcome(register_outcome(codecs, e1).0, e2).1,
        register_outcome(register_outcome(codecs, e1).0, e2).0 == register_outcome(codecs, e1).0,
        register_outcome(codecs, e1).0.last() == e1,
{
    let after = register_outcome(codecs, e1).0;
    assert(after[codecs.len() as int].stream_index == e2.stream_index);
    assert(has_index(after, e2.stream_index));
}

/// The decoder: a per-stream collection of codec state machines and
/// the set of accelerator types the caller has enabled.
#[derive(Debug)]
pub struct Decoder {
    codecs: Vec<DecoderCodecContext>,
    hw_decoder_types: Option<Vec<i64>>,
}

impl Decoder {
    /// The registered contexts, in registration order.
    pub closed spec fn spec_codecs(self) -> Seq<DecoderCodecContext> {
        self.codecs@
    }

    /// The enabled accelerator types; `None` while hardware decoding
    /// was never enabled.
    pub closed spec fn spec_hw_types(self) -> Option<Seq<i64>> {
        match self.hw_decoder_types {
            None => None,
            Some(v) => Some(v@),
        }
    }

    /// Whether accelerator type `t` is enabled.
    pub open spec fn hw_enabled(self, t: i64) -> bool {
        match self.spec_hw_types() {
            None => false,
            Some(s) => s.contains(t),
        }
    }

    /// At most one context per stream index.
    pub open spec fn wf(self) -> bool {
        forall|i: int, j: int|
            0 <= i < j < self.spec_codecs().len() ==> #[trigger] self.spec_codecs()[i].stream_index
                != #[trigger] self.spec_codecs()[j].stream_index
    }

    /// An empty decoder with hardware decoding disabled.
    pub fn new() -> (r: Decoder)
        ensures
            r.spec_codecs().len() == 0,
            r.spec_hw_types() is None,
            r.wf(),
    {
        Decoder { codecs: Vec::new(), hw_decoder_types: None }
    }

    /// Enable one accelerator type, keeping those already enabled.
    pub fn enable_hw_decoder(&mut self, hw_type: i64)
        ensures
            match old(self).spec_hw_types() {
                None => final(self).spec_hw_types() == Some(seq![hw_type]),
                Some(o) => final(self).spec_hw_types() == Some(
                    if o.contains(hw_type) {
                        o
                    } else {
                        o.push(hw_type)
                    },
                ),
            },
            final(self).spec_codecs() == old(self).spec_codecs(),
            final(self).wf() == old(self).wf(),
    {
        let cur = self.hw_decoder_types.take();
        match cur {
            Some(mut v) => {
                let ghost orig = v@;
                let mut present = false;
                let mut i: usize = 0;
                let n = v.len();
                while i < n
                    invariant
                        0 <= i <= n,
                        n == v@.len(),
                        v@ == orig,
                        present <==> exists|k: int| 0 <= k < i && v@[k] == hw_type,
                    decreases n - i,
                {
                    if v[i] == hw_type {
                        present = true;
                    }
                    i = i + 1;
                }
                if !present {
                    v.push(hw_type);
                } else {
                    proof {
                        assert(orig.contains(hw_type));
                    }
                }
                self.hw_decoder_types = Some(v);
            },
            None => {
                let mut v: Vec<i64> = Vec::new();
                v.push(hw_type);
                proof {
                    assert(v@ =~= seq![hw_type]);
                }
                self.hw_decoder_types = Some(v);
            },
        }
    }

    /// Enable every accelerator type the engine's enumeration listed.
    pub fn enable_hw_decoder_any(&mut self, available: Vec<i64>)
        ensures
            forall|t: i64| final(self).hw_enabled(t) <==> available@.contains(t),
            final(self).spec_codecs() == old(self).spec_codecs(),
            final(self).wf() == old(self).wf(),
    {
        self.hw_decoder_types = Some(available);
    }

    /// The hardware configurations worth attempting for a codec, in the
    /// engine's order: those of an enabled device type that support
    /// device-context attachment. A caller attempts each in turn and
    /// falls back to software decode when every attempt fails.
    pub fn hw_candidates(&self, configs: &Vec<HwConfig>) -> (r: Vec<HwConfig>)
        ensures
            r@ == hw_candidates_spec(*self, configs@),
    {
        let mut out: Vec<HwConfig> = Vec::new();
        let n = configs.len();
        let mut i: usize = 0;
        while i < n
            invariant
                0 <= i <= n,
                n == configs@.len(),
                out@ == hw_candidates_spec(*self, configs@.subrange(0, i as int)),
            decreases n - i,
        {
            let c = configs[i];
            proof {
                assert(configs@.subrange(0, i + 1 as int).drop_last() =~= configs@.subrange(
                    0,
                    i as int,
                ));
            }
            let mut enabled = false;
            match &self.hw_decoder_types {
                None => {},
                Some(v) => {
                    let m = v.len();
                    let mut j: usize = 0;
                    while j < m
                        invariant
                            0 <= j <= m,
                            m == v@.len(),
                            enabled <==> exists|k: int| 0 <= k < j && v@[k] == c.device_type,
                        decreases m - j,
                    {
                        if v[j] == c.device_type {
                            enabled = true;
                        }
                        j = j + 1;
                    }
                    proof {
                        assert(enabled <==> v@.contains(c.device_type));
                    }
                },
            }
            if enabled && c.methods & HW_CONFIG_METHOD_HW_DEVICE_CTX
                == HW_CONFIG_METHOD_HW_DEVICE_CTX {
                out.push(c);
            }
            i = i + 1;
        }
        proof {
            assert(configs@.subrange(0, n as int) =~= configs@);
        }
        out
    }

    /// Register a context manually. Errs, changing nothing, exactly
    /// when the stream index is already bound — the idempotence guard —
    /// and appends the context otherwise.
    pub fn add_decoder(&mut self, ctx: DecoderCodecContext) -> (r: Result<(), PipelineError>)
        ensures
            (final(self).spec_codecs(), r is Ok) == register_outcome(old(self).spec_codecs(), ctx),
            r is Err ==> r == Result::<(), PipelineError>::Err(PipelineError::DecoderAlreadySetup)
                && *final(self) == *old(self),
            final(self).spec_hw_types() == old(self).spec_hw_types(),
            old(self).wf() ==> final(self).wf(),
    {
        let n = self.codecs.len();
        let mut i: usize = 0;
        while i < n
            invariant
                0 <= i <= n,
                n == self.codecs@.len(),
                forall|k: int| 0 <= k < i ==> #[trigger] self.codecs@[k].stream_index
                    != ctx.stream_index,
            decreases n - i,
        {
            if self.codecs[i].stream_index == ctx.stream_index {
                return Err(PipelineError::DecoderAlreadySetup);
            }
            i = i + 1;
        }
        self.codecs.push(ctx);
        Ok(())
    }

    /// Register a decoder for a probed stream, with the accelerator the
    /// negotiation settled on. Errs, changing nothing, exactly when the
    /// stream index is already bound.
    pub fn setup_decoder(&mut self, channel: &StreamInfo, hw_device_type: Option<i64>) -> (r:
        Result<(), PipelineError>)
        requires
            channel.index <= 0x7fff_ffff,
        ensures
            (final(self).spec_codecs(), r is Ok) == register_outcome(
                old(self).spec_codecs(),
                DecoderCodecContext {
                    codec_id: channel.codec,
                    stream_index: channel.index as i32,
                    hw_device_type,
                },
            ),
            r is Err ==> r == Result::<(), PipelineError>::Err(PipelineError::DecoderAlreadySetup)
                && *final(self) == *old(self),
            final(self).spec_hw_types() == old(self).spec_hw_types(),
            old(self).wf() ==> final(self).wf(),
    {
        self.add_decoder(
            DecoderCodecContext {
                codec_id: channel.codec,
                stream_index: channel.index as i32,
                hw_device_type,
            },
        )
    }

    /// The context bound to `stream`, if one is registered.
    pub fn get_decoder(&self, stream: i32) -> (r: Option<&DecoderCodecContext>)
        requires
            self.wf(),
        ensures
            match r {
                None => !has_index(self.spec_codecs(), stream),
                Some(c) => has_index(self.spec_codecs(), stream) && self.spec_codecs().contains(*c)
                    && c.stream_index == stream,
            },
    {
        let n = self.codecs.len();
        let mut i: usize = 0;
        while i < n
            invariant
                0 <= i <= n,
                n == self.codecs@.len(),
                forall|k: int| 0 <= k < i ==> #[trigger] self.codecs@[k].stream_index != stream,
            decreases n - i,
        {
            if self.codecs[i].stream_index == stream {
                return Some(&self.codecs[i]);
            }
            i = i + 1;
        }
        None
    }

    /// The stream indexes a full flush drains, in registration order:
    /// decode called with no input drains each of these in turn.
    pub fn flush_order(&self) -> (r: Vec<i32>)
        ensures
            r@.len() == self.spec_codecs().len(),
            forall|i: int| 0 <= i < r@.len() ==> r@[i] == self.spec_codecs()[i].stream_index,
    {
        let mut out: Vec<i32> = Vec::new();
        let n = self.codecs.len();
        let mut i: usize = 0;
        while i < n
            invariant
                0 <= i <= n,
                n == self.codecs@.len(),
                out@.len() == i,
                forall|k: int| 0 <= k < i ==> out@[k] == self.codecs@[k].stream_index,
            decreases n - i,
        {
            out.push(self.codecs[i].stream_index);
            i = i + 1;
        }
        out
    }
}

/// The hardware configurations `hw_candidates` keeps, in order.
pub open spec fn hw_candidates_spec(d: Decoder, configs: Seq<HwConfig>) -> Seq<HwConfig>
    decreases configs.len(),
{
    if configs.len() == 0 {
        Seq::empty()
    } else {
        let rest = hw_candidates_spec(d, configs.drop_last());
        let c = configs.last();
        if d.hw_enabled(c.device_type) && c.methods & HW_CONFIG_METHOD_HW_DEVICE_CTX
            == HW_CONFIG_METHOD_HW_DEVICE_CTX {
            rest.push(c)
        } else {
            rest
        }
    }
}

} // verus!
