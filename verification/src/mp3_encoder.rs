//! The frame encoder: cuts a finished audio container into the fixed-size
//! left/right blocks a frame codec consumes, and keeps the encoded stream.
//!
//! The codec itself is driven by the caller. [`Mp3Encoder`] says which call to
//! make next and takes the codec's reply; it never touches the codec.

use vstd::prelude::*;
use crate::audio::{AudioContainer, ContainerView, SampleFormat, WavHeader};
use crate::error::ConvertError;

verus! {

/// Samples per channel that one encode call consumes.
pub const FRAME: usize = 1152;

/// Bit rate of the encoded stream, in kbit/s.
pub const BITRATE: u32 = 192;

/// The codec's quality setting; zero is its best.
pub const QUALITY: u32 = 0;

/// Size in bytes of the buffer the codec writes one reply into.
pub const SCRATCH_CAPACITY: usize = 8640;

/// What the codec session is opened with.
#[derive(Clone, Copy, Debug, PartialEq, Eq, Structural)]
pub struct CodecSettings {
    /// Input and output sample rate, as the container's header gives it.
    pub sample_rate: u32,
    /// Channel count, as the container's header gives it.
    pub channels: u16,
    /// Bit rate in kbit/s.
    pub bitrate: u32,
    /// Quality setting.
    pub quality: u32,
}

/// A container the encoder accepts: 16-bit integer samples, mono or stereo.
pub open spec fn supported(header: WavHeader) -> bool {
    &&& header.sample_format == SampleFormat::Int
    &&& header.bits_per_sample == 16
    &&& (header.channels == 1 || header.channels == 2)
}

/// The least number of parts of size `d` that cover `n`.
pub open spec fn ceil_div(n: nat, d: nat) -> nat {
    if n % d == 0 {
        n / d
    } else {
        n / d + 1
    }
}

/// The container holds a sample of every channel for frame `frame`.
pub open spec fn holds_frame(c: ContainerView, frame: int) -> bool {
    0 <= frame && (frame + 1) * c.header.channels <= c.samples.len()
}

/// The sample of channel `ch` in frame `frame`, or silence where the container
/// holds no complete frame at that position.
pub open spec fn frame_sample(c: ContainerView, frame: int, ch: int) -> i16 {
    if holds_frame(c, frame) {
        c.samples[frame * c.header.channels + ch]
    } else {
        0
    }
}

/// Number of encode calls that the container's samples take.
pub open spec fn block_count(c: ContainerView) -> nat {
    ceil_div(c.samples.len(), (FRAME * c.header.channels) as nat)
}

/// The left input of encode call `k`: the first channel of frames
/// `k * FRAME ..`, padded with silence to `FRAME` samples.
pub open spec fn left_block(c: ContainerView, k: int) -> Seq<i16> {
    Seq::new(FRAME as nat, |i: int| frame_sample(c, k * FRAME + i, 0))
}

/// The right input of encode call `k`: the last channel of the same frames,
/// which for a mono container is the left input again.
pub open spec fn right_block(c: ContainerView, k: int) -> Seq<i16> {
    Seq::new(FRAME as nat, |i: int| frame_sample(c, k * FRAME + i, c.header.channels - 1))
}

/// `ceil_div(n, d)` parts of size `d` cover `n`, and one part fewer does not.
pub proof fn lemma_ceil_div_covers(n: nat, d: nat)
    requires
        d > 0,
    ensures
        ceil_div(n, d) * d >= n,
        n > 0 ==> ceil_div(n, d) >= 1 && (ceil_div(n, d) - 1) * d < n,
        n == 0 ==> ceil_div(n, d) == 0,
{
    let q0 = n / d;
    let r = n % d;
    assert(n == q0 * d + r && 0 <= r < d) by {
        vstd::arithmetic::div_mod::lemma_fundamental_div_mod(n as int, d as int);
        vstd::arithmetic::div_mod::lemma_mod_bound(n as int, d as int);
        assert(d * q0 == q0 * d) by (nonlinear_arith);
    }
    assert((q0 + 1) * d == q0 * d + d) by (nonlinear_arith);
    assert((q0 - 1) * d == q0 * d - d) by (nonlinear_arith);
    if n > 0 && q0 == 0 {
        assert(q0 * d == 0) by (nonlinear_arith)
            requires
                q0 == 0,
        ;
    }
    if n == 0 {
        assert(q0 == 0) by (nonlinear_arith)
            requires
                q0 * d + r == 0,
                q0 >= 0,
                r >= 0,
                d > 0,
        ;
    }
}

/// No number of parts smaller than `ceil_div(n, d)` covers `n`.
pub proof fn lemma_ceil_div_least(n: nat, d: nat, q: nat)
    requires
        d > 0,
        q * d >= n,
    ensures
        q >= ceil_div(n, d),
{
    lemma_ceil_div_covers(n, d);
    let c = ceil_div(n, d);
    if q < c {
        assert(q * d <= (c - 1) * d) by (nonlinear_arith)
            requires
                q <= c - 1,
                d > 0,
        ;
    }
}

/// The call the encoder asks its driver to make next.
#[derive(Debug)]
pub enum EncodeAction {
    /// Submit one block of `FRAME` samples per channel to the codec.
    Encode { left: Vec<i16>, right: Vec<i16> },
    /// Drain the codec: the one flush call that ends the stream.
    Flush,
    /// Nothing is left to do; the job has finished or failed.
    Done,
}

/// The mathematical content of an [`EncodeAction`].
pub enum ActionView {
    Encode { left: Seq<i16>, right: Seq<i16> },
    Flush,
    Done,
}

impl View for EncodeAction {
    type V = ActionView;

    open spec fn view(&self) -> ActionView {
        match self {
            EncodeAction::Encode { left, right } => ActionView::Encode {
                left: left@,
                right: right@,
            },
            EncodeAction::Flush => ActionView::Flush,
            EncodeAction::Done => ActionView::Done,
        }
    }
}

/// The mathematical content of an [`Mp3Encoder`].
pub struct EncoderView {
    /// The container being encoded.
    pub container: ContainerView,
    /// Encode calls whose reply has been taken.
    pub submitted: nat,
    /// Whether the flush call's reply has been taken.
    pub flushed: bool,
    /// Whether a codec reply ended the job.
    pub failed: bool,
    /// The encoded stream so far.
    pub output: Seq<u8>,
}

impl EncoderView {
    /// The state before any codec call.
    pub open spec fn initial(container: ContainerView) -> EncoderView {
        EncoderView {
            container,
            submitted: 0,
            flushed: false,
            failed: false,
            output: Seq::<u8>::empty(),
        }
    }

    /// The state invariant: only supported containers are encoded, blocks are
    /// submitted in order, and the flush comes after the last block.
    pub open spec fn wf(self) -> bool {
        &&& supported(self.container.header)
        &&& self.submitted <= block_count(self.container)
        &&& self.flushed ==> self.submitted == block_count(self.container) && !self.failed
    }

    /// The job takes no further codec call.
    pub open spec fn finished(self) -> bool {
        self.flushed || self.failed
    }

    /// The call to make in this state.
    pub open spec fn pending(self) -> ActionView {
        if self.finished() {
            ActionView::Done
        } else if self.submitted < block_count(self.container) {
            ActionView::Encode {
                left: left_block(self.container, self.submitted as int),
                right: right_block(self.container, self.submitted as int),
            }
        } else {
            ActionView::Flush
        }
    }

    /// Whether a codec return value with this scratch buffer is a failure: a
    /// negative value, or a count of bytes that the buffer cannot hold.
    pub open spec fn reply_fails(code: int, scratch: Seq<u8>) -> bool {
        code < 0 || code > scratch.len()
    }

    /// The state after the codec answered the pending call with `code`, having
    /// written into `scratch`. A finished job ignores replies. A failing reply
    /// ends the job. Any other reply appends the first `code` bytes of
    /// `scratch` to the stream (none when `code` is zero) and moves on to the
    /// next block, or completes the job if the call was the flush.
    pub open spec fn after_reply(self, code: int, scratch: Seq<u8>) -> EncoderView {
        if self.finished() {
            self
        } else if Self::reply_fails(code, scratch) {
            EncoderView { failed: true, ..self }
        } else if self.submitted < block_count(self.container) {
            EncoderView {
                submitted: self.submitted + 1,
                output: self.output + scratch.take(code),
                ..self
            }
        } else {
            EncoderView { flushed: true, output: self.output + scratch.take(code), ..self }
        }
    }
}

/// One encoding job: a supported container, how far the codec has come
/// through its blocks, and the encoded stream so far.
pub struct Mp3Encoder {
    container: AudioContainer,
    submitted: usize,
    flushed: bool,
    failed: bool,
    output: Vec<u8>,
}

impl View for Mp3Encoder {
    type V = EncoderView;

    closed spec fn view(&self) -> EncoderView {
        EncoderView {
            container: self.container@,
            submitted: self.submitted as nat,
            flushed: self.flushed,
            failed: self.failed,
            output: self.output@,
        }
    }
}

impl Mp3Encoder {
    /// Whether the encoder takes a container with this header.
    pub fn check_format(header: &WavHeader) -> (r: Result<(), ConvertError>)
        ensures
            r is Ok <==> supported(*header),
            r is Err ==> r == Err::<(), ConvertError>(ConvertError::UnsupportedFormat),
    {
        let is_int = match header.sample_format {
            SampleFormat::Int => true,
            SampleFormat::Float => false,
        };
        if is_int && header.bits_per_sample == 16 && (header.channels == 1 || header.channels
            == 2) {
            Ok(())
        } else {
            Err(ConvertError::UnsupportedFormat)
        }
    }

    /// Starts encoding `container`. Fails with `UnsupportedFormat`, before any
    /// codec call, unless the container holds 16-bit integer samples in one or
    /// two channels.
    pub fn convert_wav_to_mp3(container: AudioContainer) -> (r: Result<Mp3Encoder, ConvertError>)
        ensures
            match r {
                Ok(job) => supported(container@.header) && job@ == EncoderView::initial(
                    container@,
                ) && job@.wf(),
                Err(e) => !supported(container@.header) && e == ConvertError::UnsupportedFormat,
            },
    {
        let header = container.header();
        match Self::check_format(&header) {
            Ok(()) => Ok(
                Mp3Encoder {
                    container,
                    submitted: 0,
                    flushed: false,
                    failed: false,
                    output: Vec::new(),
                },
            ),
            Err(e) => Err(e),
        }
    }

    /// Number of encode calls the container takes.
    pub fn total_blocks(&self) -> (n: usize)
        requires
            self@.wf(),
        ensures
            n == block_count(self@.container),
    {
        let stride: usize = FRAME * (self.container.header().channels as usize);
        let len: usize = self.container.len();
        if len % stride == 0 {
            len / stride
        } else {
            assert(len / stride < len) by {
                if len == 0 {
                    vstd::arithmetic::div_mod::lemma_small_mod(0, stride as nat);
                }
                vstd::arithmetic::div_mod::lemma_div_decreases(len as int, stride as int);
            }
            len / stride + 1
        }
    }

    /// One channel of block `k`, padded with silence to `FRAME` samples.
    fn channel_block(&self, k: usize, ch: usize) -> (block: Vec<i16>)
        requires
            self@.wf(),
            k < block_count(self@.container),
            ch < self@.container.header.channels,
        ensures
            block@ == Seq::new(
                FRAME as nat,
                |i: int| frame_sample(self@.container, k * FRAME + i, ch as int),
            ),
    {
        let channels: usize = self.container.header().channels as usize;
        let stride: usize = FRAME * channels;
        let samples = self.container.samples();
        let len: usize = samples.len();
        proof {
            let count = block_count(self@.container);
            lemma_ceil_div_covers(len as nat, stride as nat);
            assert(k * stride <= (count - 1) * stride) by (nonlinear_arith)
                requires
                    k <= count - 1,
                    stride > 0,
            ;
        }
        let base: usize = k * stride;
        let room: usize = len - base;
        let mut block: Vec<i16> = Vec::new();
        let mut i: usize = 0;
        while i < FRAME
            invariant
                i <= FRAME,
                1 <= channels <= 2,
                channels == self@.container.header.channels,
                ch < channels,
                stride == FRAME * channels,
                base == k * stride,
                base <= len,
                room == len - base,
                len == samples@.len(),
                samples@ == self@.container.samples,
                block@.len() == i,
                forall|j: int|
                    0 <= j < i ==> block@[j] == frame_sample(
                        self@.container,
                        k * FRAME + j,
                        ch as int,
                    ),
            decreases FRAME - i,
        {
            assert((i + 1) * channels <= 2 * FRAME && i * channels + ch < (i + 1) * channels)
                by (nonlinear_arith)
                requires
                    i < FRAME,
                    1 <= channels <= 2,
                    ch < channels,
            ;
            let need: usize = (i + 1) * channels;
            assert((k * FRAME + i + 1) * channels == base + need) by (nonlinear_arith)
                requires
                    base == k * (FRAME * channels),
                    need == (i + 1) * channels,
            ;
            assert((k * FRAME + i) * channels + ch == base + i * channels + ch)
                by (nonlinear_arith)
                requires
                    base == k * (FRAME * channels),
            ;
            if need <= room {
                block.push(samples[base + i * channels + ch]);
            } else {
                block.push(0);
            }
            i = i + 1;
        }
        assert(block@ =~= Seq::new(
            FRAME as nat,
            |i: int| frame_sample(self@.container, k * FRAME + i, ch as int),
        ));
        block
    }

    /// The call to make next: the next block in order, then one flush, then
    /// nothing.
    pub fn next_action(&self) -> (action: EncodeAction)
        requires
            self@.wf(),
        ensures
            action@ == self@.pending(),
    {
        if self.flushed || self.failed {
            EncodeAction::Done
        } else if self.submitted < self.total_blocks() {
            let channels: usize = self.container.header().channels as usize;
            let left = self.channel_block(self.submitted, 0);
            let right = self.channel_block(self.submitted, channels - 1);
            EncodeAction::Encode { left, right }
        } else {
            EncodeAction::Flush
        }
    }

    /// Takes the codec's reply to the pending call: its return value and the
    /// scratch buffer it wrote into. A negative value, or one larger than the
    /// buffer, ends the job with `CodecFailure`; zero appends nothing; a
    /// positive value appends that many bytes from the start of the buffer.
    pub fn codec_returned(&mut self, code: i32, scratch: &[u8]) -> (r: Result<(), ConvertError>)
        requires
            old(self)@.wf(),
        ensures
            final(self)@.wf(),
            final(self)@ == old(self)@.after_reply(code as int, scratch@),
            r is Err <==> final(self)@.failed,
            r is Err ==> r == Err::<(), ConvertError>(ConvertError::CodecFailure),
    {
        if self.failed {
            return Err(ConvertError::CodecFailure);
        }
        if self.flushed {
            return Ok(());
        }
        if code < 0 || code as usize > scratch.len() {
            self.failed = true;
            return Err(ConvertError::CodecFailure);
        }
        let count: usize = code as usize;
        let total: usize = self.total_blocks();
        let mut i: usize = 0;
        while i < count
            invariant
                i <= count,
                count <= scratch@.len(),
                self.container == old(self).container,
                self.submitted == old(self).submitted,
                self.flushed == old(self).flushed,
                self.failed == old(self).failed,
                self.output@ == old(self).output@ + scratch@.take(i as int),
            decreases count - i,
        {
            self.output.push(scratch[i]);
            assert(scratch@.take(i + 1) =~= scratch@.take(i as int).push(scratch@[i as int]));
            i = i + 1;
        }
        if self.submitted < total {
            self.submitted = self.submitted + 1;
        } else {
            self.flushed = true;
        }
        Ok(())
    }

    /// A zeroed buffer of `SCRATCH_CAPACITY` bytes for the codec to write one
    /// reply into.
    pub fn scratch_buffer() -> (buffer: Vec<u8>)
        ensures
            buffer@ == Seq::new(SCRATCH_CAPACITY as nat, |i: int| 0u8),
    {
        let mut buffer: Vec<u8> = Vec::new();
        let mut i: usize = 0;
        while i < SCRATCH_CAPACITY
            invariant
                i <= SCRATCH_CAPACITY,
                buffer@ == Seq::new(i as nat, |j: int| 0u8),
            decreases SCRATCH_CAPACITY - i,
        {
            buffer.push(0);
            assert(buffer@ =~= Seq::new((i + 1) as nat, |j: int| 0u8));
            i = i + 1;
        }
        buffer
    }

    /// How the job stands: `None` while codec calls remain, `Some(Ok(()))`
    /// once the flush reply is in, `Some(Err(CodecFailure))` once a reply
    /// failed.
    pub fn outcome(&self) -> (r: Option<Result<(), ConvertError>>)
        ensures
            r == (if self@.failed {
                Some(Err::<(), ConvertError>(ConvertError::CodecFailure))
            } else if self@.flushed {
                Some(Ok::<(), ConvertError>(()))
            } else {
                None
            }),
    {
        if self.failed {
            Some(Err(ConvertError::CodecFailure))
        } else if self.flushed {
            Some(Ok(()))
        } else {
            None
        }
    }

    /// The encoded stream so far.
    pub fn output(&self) -> (bytes: &Vec<u8>)
        ensures
            bytes@ == self@.output,
    {
        &self.output
    }

    /// Number of encode calls whose reply has been taken.
    pub fn submitted(&self) -> (n: usize)
        ensures
            n == self@.submitted,
    {
        self.submitted
    }

    /// What to open the codec session with: rate and channel count as the
    /// container gives them, the fixed bit rate and the best quality.
    pub fn codec_settings(&self) -> (s: CodecSettings)
        ensures
            s == (CodecSettings {
                sample_rate: self@.container.header.sample_rate,
                channels: self@.container.header.channels,
                bitrate: BITRATE,
                quality: QUALITY,
            }),
    {
        let header = self.container.header();
        CodecSettings {
            sample_rate: header.sample_rate,
            channels: header.channels,
            bitrate: BITRATE,
            quality: QUALITY,
        }
    }
}

/// The scratch buffer holds the most that one codec call can produce for a
/// block of `FRAME` samples: one and a quarter bytes per sample and 7200
/// bytes more.
pub proof fn lemma_scratch_capacity()
    ensures
        4 * SCRATCH_CAPACITY >= 5 * FRAME + 4 * 7200,
{
}

/// `s` followed by silence up to `n` samples.
pub open spec fn padded(s: Seq<i16>, n: nat) -> Seq<i16> {
    s + Seq::new((n - s.len()) as nat, |i: int| 0i16)
}

/// Channel `ch` of the container's complete frames, de-interleaved.
pub open spec fn channel(c: ContainerView, ch: int) -> Seq<i16> {
    Seq::new(
        c.samples.len() / (c.header.channels as nat),
        |f: int| c.samples[f * c.header.channels + ch],
    )
}

/// The smaller of two integers.
pub open spec fn min_int(a: int, b: int) -> int {
    if a <= b {
        a
    } else {
        b
    }
}

/// The state after the codec answered a run of calls, oldest reply first.
pub open spec fn run(start: EncoderView, replies: Seq<(int, Seq<u8>)>) -> EncoderView
    decreases replies.len(),
{
    if replies.len() == 0 {
        start
    } else {
        run(start, replies.drop_last()).after_reply(replies.last().0, replies.last().1)
    }
}

/// The bytes that a run of good replies contributes: of each reply, as many
/// bytes from the start of its scratch buffer as its return value says.
pub open spec fn stream(replies: Seq<(int, Seq<u8>)>) -> Seq<u8>
    decreases replies.len(),
{
    if replies.len() == 0 {
        Seq::<u8>::empty()
    } else {
        stream(replies.drop_last()) + replies.last().1.take(replies.last().0)
    }
}

/// A container of whole frames takes `ceil(samples per channel / FRAME)`
/// encode calls, mono or stereo.
pub proof fn lemma_block_count_per_channel(c: ContainerView)
    requires
        c.header.channels == 1 || c.header.channels == 2,
        c.samples.len() % (c.header.channels as nat) == 0,
    ensures
        block_count(c) == ceil_div(c.samples.len() / (c.header.channels as nat), FRAME as nat),
{
    let len = c.samples.len();
    if c.header.channels == 1 {
        assert((FRAME * c.header.channels) as nat == 1152);
        assert(len / 1 == len);
    } else {
        assert((FRAME * c.header.channels) as nat == 2304);
        let m = len / 2;
        assert(len == 2 * m);
        assert(len / 2304 == m / 1152);
        assert(len % 2304 == 2 * (m % 1152));
    }
}

/// Each input of an encode call is a window of `FRAME` samples of one
/// de-interleaved channel: block `k` starts at frame `k * FRAME`, and silence
/// is added only where the channel has ended. The left input is the first
/// channel and the right input the last, so a mono container feeds the same
/// block to both.
pub proof fn lemma_block_is_padded_window(c: ContainerView, k: int)
    requires
        c.header.channels == 1 || c.header.channels == 2,
        0 <= k < block_count(c),
    ensures
        left_block(c, k) == padded(
            channel(c, 0).subrange(
                min_int(k * FRAME, channel(c, 0).len() as int),
                min_int((k + 1) * FRAME, channel(c, 0).len() as int),
            ),
            FRAME as nat,
        ),
        right_block(c, k) == padded(
            channel(c, c.header.channels - 1).subrange(
                min_int(k * FRAME, channel(c, 0).len() as int),
                min_int((k + 1) * FRAME, channel(c, 0).len() as int),
            ),
            FRAME as nat,
        ),
        c.header.channels == 1 ==> right_block(c, k) == left_block(c, k),
{
    let n = c.header.channels as int;
    let frames = channel(c, 0).len() as int;
    assert(channel(c, n - 1).len() == frames);
    assert(frames * n <= c.samples.len() < (frames + 1) * n) by {
        if n == 1 {
            assert(c.samples.len() / 1 == c.samples.len());
        } else {
            assert(frames == c.samples.len() / 2);
        }
    }
    let lo = min_int(k * FRAME, frames);
    let hi = min_int((k + 1) * FRAME, frames);
    assert forall|f: int| 0 <= f implies (#[trigger] holds_frame(c, f) <==> f < frames) by {
        assert((f + 1) * n == f * n + n) by (nonlinear_arith);
        if f < frames {
            assert((f + 1) * n <= frames * n) by (nonlinear_arith)
                requires
                    f + 1 <= frames,
                    n > 0,
            ;
        } else {
            assert((f + 1) * n >= (frames + 1) * n) by (nonlinear_arith)
                requires
                    f + 1 >= frames + 1,
                    n > 0,
            ;
        }
    }
    assert(left_block(c, k) =~= padded(channel(c, 0).subrange(lo, hi), FRAME as nat));
    assert(right_block(c, k) =~= padded(channel(c, n - 1).subrange(lo, hi), FRAME as nat));
}

/// Where a mono container holds a whole number of blocks, no block is
/// padded: block `k` is exactly the samples `k * FRAME .. (k + 1) * FRAME`,
/// and there are `len / FRAME` blocks.
pub proof fn lemma_mono_exact_blocks(c: ContainerView, k: int)
    requires
        c.header.channels == 1,
        c.samples.len() % (FRAME as nat) == 0,
        0 <= k < block_count(c),
    ensures
        block_count(c) == c.samples.len() / (FRAME as nat),
        left_block(c, k) == c.samples.subrange(k * FRAME, (k + 1) * FRAME),
        right_block(c, k) == left_block(c, k),
{
    assert(left_block(c, k) =~= c.samples.subrange(k * FRAME, (k + 1) * FRAME));
    assert(right_block(c, k) =~= left_block(c, k));
}

/// A container that holds only silence is cut into blocks of silence.
pub proof fn lemma_silent_blocks(c: ContainerView, k: int)
    requires
        c.header.channels == 1 || c.header.channels == 2,
        forall|i: int| 0 <= i < c.samples.len() ==> c.samples[i] == 0,
        0 <= k,
    ensures
        left_block(c, k) == Seq::new(FRAME as nat, |i: int| 0i16),
        right_block(c, k) == Seq::new(FRAME as nat, |i: int| 0i16),
{
    let n = c.header.channels as int;
    assert forall|f: int, ch: int| 0 <= f && 0 <= ch < n implies #[trigger] frame_sample(
        c,
        f,
        ch,
    ) == 0 by {
        if (f + 1) * n <= c.samples.len() {
            assert(0 <= f * n + ch < (f + 1) * n) by (nonlinear_arith)
                requires
                    0 <= f,
                    0 <= ch < n,
            ;
        }
    }
    assert(left_block(c, k) =~= Seq::new(FRAME as nat, |i: int| 0i16));
    assert(right_block(c, k) =~= Seq::new(FRAME as nat, |i: int| 0i16));
}

/// Every reply keeps the state invariant, never loses a byte of the stream,
/// and a finished job stays as it is.
pub proof fn lemma_after_reply_wf(s: EncoderView, code: int, scratch: Seq<u8>)
    requires
        s.wf(),
    ensures
        s.after_reply(code, scratch).wf(),
        s.after_reply(code, scratch).container == s.container,
        s.output.is_prefix_of(s.after_reply(code, scratch).output),
        s.finished() ==> s.after_reply(code, scratch) == s,
        s.after_reply(code, scratch).failed <==> s.failed || (!s.flushed
            && EncoderView::reply_fails(code, scratch)),
{
}

/// The schedule of a job whose codec never fails: after `j` replies the
/// encoder has asked for blocks `0 .. j` in order; once all
/// `block_count` blocks are answered it asks for the flush, once and only
/// once; after that it is done. The stream is what the replies contributed,
/// in order.
pub proof fn lemma_run_schedule(c: ContainerView, replies: Seq<(int, Seq<u8>)>, j: int)
    requires
        supported(c.header),
        0 <= j <= replies.len(),
        j <= block_count(c) + 1,
        forall|i: int|
            0 <= i < replies.len() ==> !EncoderView::reply_fails(
                (#[trigger] replies[i]).0,
                replies[i].1,
            ),
    ensures
        run(EncoderView::initial(c), replies.take(j)).wf(),
        !run(EncoderView::initial(c), replies.take(j)).failed,
        run(EncoderView::initial(c), replies.take(j)).container == c,
        run(EncoderView::initial(c), replies.take(j)).output == stream(replies.take(j)),
        j < block_count(c) ==> run(EncoderView::initial(c), replies.take(j)).pending() == (
        ActionView::Encode { left: left_block(c, j), right: right_block(c, j) }),
        j == block_count(c) ==> run(EncoderView::initial(c), replies.take(j)).pending()
            == ActionView::Flush,
        j == block_count(c) + 1 ==> run(EncoderView::initial(c), replies.take(j)).pending()
            == ActionView::Done && run(EncoderView::initial(c), replies.take(j)).flushed,
        j <= block_count(c) ==> run(EncoderView::initial(c), replies.take(j)).submitted == j,
    decreases j,
{
    let start = EncoderView::initial(c);
    if j == 0 {
        assert(replies.take(0).len() == 0);
    } else {
        lemma_run_schedule(c, replies, j - 1);
        let before = replies.take(j - 1);
        let upto = replies.take(j);
        assert(upto.drop_last() =~= before);
        assert(upto.last() == replies[j - 1]);
        lemma_after_reply_wf(run(start, before), replies[j - 1].0, replies[j - 1].1);
    }
}

/// Encoding silence, as far as the encoder decides it: a job on a container
/// that holds only silence asks the codec for nothing but blocks of silence
/// and one flush, and it does not fail unless a reply of the codec does.
pub proof fn lemma_silent_job(c: ContainerView, replies: Seq<(int, Seq<u8>)>, j: int)
    requires
        supported(c.header),
        forall|i: int| 0 <= i < c.samples.len() ==> c.samples[i] == 0,
        0 <= j <= replies.len(),
        j <= block_count(c) + 1,
        forall|i: int|
            0 <= i < replies.len() ==> !EncoderView::reply_fails(
                (#[trigger] replies[i]).0,
                replies[i].1,
            ),
    ensures
        !run(EncoderView::initial(c), replies.take(j)).failed,
        j < block_count(c) ==> run(EncoderView::initial(c), replies.take(j)).pending() == (
        ActionView::Encode {
            left: Seq::new(FRAME as nat, |i: int| 0i16),
            right: Seq::new(FRAME as nat, |i: int| 0i16),
        }),
        j == block_count(c) ==> run(EncoderView::initial(c), replies.take(j)).pending()
            == ActionView::Flush,
        j == block_count(c) + 1 ==> run(EncoderView::initial(c), replies.take(j)).pending()
            == ActionView::Done && run(EncoderView::initial(c), replies.take(j)).flushed,
{
    lemma_run_schedule(c, replies, j);
    lemma_silent_blocks(c, j);
}

/// A failing reply ends the job at once: whatever the state, the job is
/// failed afterwards unless it had already been flushed, and no byte is added.
pub proof fn lemma_failing_reply(s: EncoderView, code: int, scratch: Seq<u8>)
    requires
        s.wf(),
        EncoderView::reply_fails(code, scratch),
    ensures
        s.after_reply(code, scratch).output == s.output,
        s.after_reply(code, scratch).submitted == s.submitted,
        !s.flushed ==> s.after_reply(code, scratch).failed,
        s.after_reply(code, scratch).pending() == ActionView::Done,
{
}

} // verus!
