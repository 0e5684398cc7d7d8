//! The PCM synthesizer: a session with a synthesis engine, and the loop that
//! drives the engine through one event stream.
//!
//! The engine is run by the caller. This module holds what the session
//! decides: what each engine reply means, which call comes next, and which
//! samples go into the audio container, in which order.

use vstd::prelude::*;
use crate::audio::{interleave, interleaved, SampleFormat, WavHeader};
use crate::error::ConvertError;

verus! {

/// Samples per channel that one synthesis call is asked for.
pub const BUFFER_SIZE: usize = 4096;

/// The return value by which the engine reports success.
pub const ENGINE_OK: i32 = 0;

/// The return value by which the engine reports failure; as a bank
/// identifier it means that no bank was loaded.
pub const ENGINE_FAILED: i32 = -1;

/// The player status that means the event stream is still playing.
pub const PLAYER_PLAYING: i32 = 1;

/// The largest instrument program number.
pub const MAX_PROGRAM: u8 = 127;

/// How the synthesis engine is configured.
#[derive(Clone, Copy, Debug, PartialEq, Eq, Structural)]
pub struct SynthSettings {
    /// Output sample rate in Hz.
    pub sample_rate: u32,
    /// Output channels.
    pub channels: u16,
    /// Most voices that sound at once.
    pub polyphony: u32,
    /// Whether reverb is applied.
    pub reverb: bool,
    /// Whether chorus is applied.
    pub chorus: bool,
    /// Output gain in hundredths.
    pub gain_percent: u32,
}

impl SynthSettings {
    /// The settings every session runs with.
    pub open spec fn spec_standard() -> SynthSettings {
        SynthSettings {
            sample_rate: 44100,
            channels: 2,
            polyphony: 256,
            reverb: true,
            chorus: true,
            gain_percent: 100,
        }
    }

    /// The settings every session runs with: 44.1 kHz stereo, 256 voices,
    /// reverb and chorus on, unit gain.
    #[verifier::when_used_as_spec(spec_standard)]
    pub fn standard() -> (s: SynthSettings)
        ensures
            s == Self::spec_standard(),
    {
        SynthSettings {
            sample_rate: 44100,
            channels: 2,
            polyphony: 256,
            reverb: true,
            chorus: true,
            gain_percent: 100,
        }
    }

    /// The header of the container that a session with these settings fills.
    pub open spec fn spec_container_header(self) -> WavHeader {
        WavHeader {
            channels: self.channels,
            sample_rate: self.sample_rate,
            bits_per_sample: 16,
            sample_format: SampleFormat::Int,
        }
    }

    /// The header of the container that a session with these settings fills:
    /// 16-bit integer samples at the session's rate and channel count.
    #[verifier::when_used_as_spec(spec_container_header)]
    pub fn container_header(self) -> (h: WavHeader)
        ensures
            h == self.spec_container_header(),
    {
        WavHeader {
            channels: self.channels,
            sample_rate: self.sample_rate,
            bits_per_sample: 16,
            sample_format: SampleFormat::Int,
        }
    }
}

/// The pair of sample buffers that one synthesis call fills, one per channel.
/// The same pair is filled again on every call.
pub struct PcmFrameBuffer {
    /// Samples of the left channel.
    pub left: Vec<i16>,
    /// Samples of the right channel.
    pub right: Vec<i16>,
}

impl PcmFrameBuffer {
    /// Both buffers hold exactly `BUFFER_SIZE` samples.
    pub open spec fn wf(&self) -> bool {
        self.left@.len() == BUFFER_SIZE && self.right@.len() == BUFFER_SIZE
    }

    /// A pair of silent buffers of `BUFFER_SIZE` samples each.
    pub fn new() -> (b: PcmFrameBuffer)
        ensures
            b.wf(),
            b.left@ == Seq::new(BUFFER_SIZE as nat, |i: int| 0i16),
            b.right@ == Seq::new(BUFFER_SIZE as nat, |i: int| 0i16),
    {
        let mut left: Vec<i16> = Vec::new();
        let mut right: Vec<i16> = Vec::new();
        let mut i: usize = 0;
        while i < BUFFER_SIZE
            invariant
                i <= BUFFER_SIZE,
                left@ == Seq::new(i as nat, |j: int| 0i16),
                right@ == Seq::new(i as nat, |j: int| 0i16),
            decreases BUFFER_SIZE - i,
        {
            left.push(0);
            right.push(0);
            assert(left@ =~= Seq::new((i + 1) as nat, |j: int| 0i16));
            assert(right@ =~= Seq::new((i + 1) as nat, |j: int| 0i16));
            i = i + 1;
        }
        PcmFrameBuffer { left, right }
    }
}

/// The engine call that a synthesis run waits for.
#[derive(Clone, Copy, Debug, PartialEq, Eq, Structural)]
pub enum SynthPhase {
    /// Creating the audio container.
    Opening,
    /// Creating a player bound to the session.
    CreatingPlayer,
    /// Queueing the event stream into the player.
    Queueing,
    /// Starting playback.
    Starting,
    /// Asking the player whether it is still playing.
    Polling,
    /// Asking the engine for the next buffer of samples.
    Rendering,
    /// Appending the last buffer to the container.
    Appending,
    /// Destroying the player.
    Releasing,
    /// Closing the container.
    Finalizing,
    /// The run has ended.
    Done,
}

/// What a synthesis run asks its driver to do next.
#[derive(Debug)]
pub enum SynthAction {
    /// Create the audio container with this header.
    CreateContainer { header: WavHeader },
    /// Create a player bound to the session.
    CreatePlayer,
    /// Queue the event stream into the player.
    QueueEvents,
    /// Start playback.
    StartPlayback,
    /// Report the player's status.
    PollStatus,
    /// Ask the engine for `frames` samples per channel.
    Render { frames: usize },
    /// Append these interleaved samples to the container, in order.
    Append { samples: Vec<i16> },
    /// Destroy the player.
    ReleasePlayer,
    /// Close the container so that it is well formed.
    Finalize,
    /// Stop: the run has ended with this result.
    Done { result: Result<(), ConvertError> },
}

/// The mathematical content of a [`SynthAction`].
pub enum SynthActionView {
    CreateContainer { header: WavHeader },
    CreatePlayer,
    QueueEvents,
    StartPlayback,
    PollStatus,
    Render { frames: nat },
    Append { samples: Seq<i16> },
    ReleasePlayer,
    Finalize,
    Done { result: Result<(), ConvertError> },
}

impl View for SynthAction {
    type V = SynthActionView;

    open spec fn view(&self) -> SynthActionView {
        match self {
            SynthAction::CreateContainer { header } => SynthActionView::CreateContainer {
                header: *header,
            },
            SynthAction::CreatePlayer => SynthActionView::CreatePlayer,
            SynthAction::QueueEvents => SynthActionView::QueueEvents,
            SynthAction::StartPlayback => SynthActionView::StartPlayback,
            SynthAction::PollStatus => SynthActionView::PollStatus,
            SynthAction::Render { frames } => SynthActionView::Render { frames: *frames as nat },
            SynthAction::Append { samples } => SynthActionView::Append { samples: samples@ },
            SynthAction::ReleasePlayer => SynthActionView::ReleasePlayer,
            SynthAction::Finalize => SynthActionView::Finalize,
            SynthAction::Done { result } => SynthActionView::Done { result: *result },
        }
    }
}

/// The mathematical content of a [`Synthesis`].
pub struct SynthView {
    /// The header of the container being filled.
    pub header: WavHeader,
    /// The engine call the run waits for.
    pub phase: SynthPhase,
    /// The first failure of the run, if any.
    pub failure: Option<ConvertError>,
    /// Whether the container has been created.
    pub opened: bool,
    /// Whether closing the container has been attempted.
    pub finalized: bool,
    /// The samples appended to the container so far.
    pub written: Seq<i16>,
    /// The samples handed out for appending and not yet confirmed.
    pub staged: Seq<i16>,
}

/// Whether a player exists while the run waits in `phase`.
pub open spec fn player_live(phase: SynthPhase) -> bool {
    match phase {
        SynthPhase::Queueing
        | SynthPhase::Starting
        | SynthPhase::Polling
        | SynthPhase::Rendering
        | SynthPhase::Appending
        | SynthPhase::Releasing => true,
        _ => false,
    }
}

impl SynthView {
    /// The state of a run that has not made any engine call.
    pub open spec fn initial(header: WavHeader) -> SynthView {
        SynthView {
            header,
            phase: SynthPhase::Opening,
            failure: None,
            opened: false,
            finalized: false,
            written: Seq::<i16>::empty(),
            staged: Seq::<i16>::empty(),
        }
    }

    /// The state invariant. The container holds whole buffers; samples are
    /// staged only while an append is pending; a failure is on record only
    /// once the loop has been left; and a run that created its container
    /// never ends without trying to close it.
    pub open spec fn wf(self) -> bool {
        &&& self.written.len() % (2 * BUFFER_SIZE) as nat == 0
        &&& (self.phase == SynthPhase::Appending ==> self.staged.len() == 2 * BUFFER_SIZE)
        &&& (self.phase != SynthPhase::Appending ==> self.staged.len() == 0)
        &&& (self.phase == SynthPhase::Opening ==> !self.opened && !self.finalized
            && self.written.len() == 0)
        &&& (self.phase != SynthPhase::Opening && self.phase != SynthPhase::Done
            ==> self.opened && !self.finalized)
        &&& (self.phase == SynthPhase::Done ==> (self.opened <==> self.finalized))
        &&& (self.phase == SynthPhase::Done && !self.opened ==> self.failure == Some(
            ConvertError::WriteFailed,
        ) && self.written.len() == 0)
        &&& (self.phase != SynthPhase::Releasing && self.phase != SynthPhase::Finalizing
            && self.phase != SynthPhase::Done ==> self.failure is None)
    }

    /// The failure on record once `e` has happened: the first one stays.
    pub open spec fn fail(self, e: ConvertError) -> Option<ConvertError> {
        if self.failure is Some {
            self.failure
        } else {
            Some(e)
        }
    }

    /// The result a run in this state ends with.
    pub open spec fn result(self) -> Result<(), ConvertError> {
        match self.failure {
            Some(e) => Err(e),
            None => Ok(()),
        }
    }

    /// The action that the run asks for while in this state.
    pub open spec fn pending(self) -> SynthActionView {
        match self.phase {
            SynthPhase::Opening => SynthActionView::CreateContainer { header: self.header },
            SynthPhase::CreatingPlayer => SynthActionView::CreatePlayer,
            SynthPhase::Queueing => SynthActionView::QueueEvents,
            SynthPhase::Starting => SynthActionView::StartPlayback,
            SynthPhase::Polling => SynthActionView::PollStatus,
            SynthPhase::Rendering => SynthActionView::Render { frames: BUFFER_SIZE as nat },
            SynthPhase::Appending => SynthActionView::Append { samples: self.staged },
            SynthPhase::Releasing => SynthActionView::ReleasePlayer,
            SynthPhase::Finalizing => SynthActionView::Finalize,
            SynthPhase::Done => SynthActionView::Done { result: self.result() },
        }
    }

    /// The state after the driver performed the pending action and reports
    /// `code`, and for a synthesis call the two buffers that the engine
    /// filled.
    ///
    /// A code other than `ENGINE_OK` fails the step. Failing to create the
    /// container ends the run with `WriteFailed`; failing to create the
    /// player ends it with `PlayerCreateFailed`, to queue the events with
    /// `EventQueueFailed`, to append with `WriteFailed`. The reply to starting
    /// playback is not looked at. The loop goes on while the player's status
    /// is `PLAYER_PLAYING`; a failed synthesis call only ends the loop, and
    /// what has been written stays. After the loop the player is destroyed
    /// and the container closed; failing to close it gives `FinalizeFailed`
    /// unless a failure is already on record.
    pub open spec fn after(self, code: int, buffers: Option<(Seq<i16>, Seq<i16>)>) -> SynthView {
        match self.phase {
            SynthPhase::Opening => if code == ENGINE_OK {
                SynthView { phase: SynthPhase::CreatingPlayer, opened: true, ..self }
            } else {
                SynthView {
                    phase: SynthPhase::Done,
                    failure: self.fail(ConvertError::WriteFailed),
                    ..self
                }
            },
            SynthPhase::CreatingPlayer => if code == ENGINE_OK {
                SynthView { phase: SynthPhase::Queueing, ..self }
            } else {
                SynthView {
                    phase: SynthPhase::Finalizing,
                    failure: self.fail(ConvertError::PlayerCreateFailed),
                    ..self
                }
            },
            SynthPhase::Queueing => if code == ENGINE_OK {
                SynthView { phase: SynthPhase::Starting, ..self }
            } else {
                SynthView {
                    phase: SynthPhase::Releasing,
                    failure: self.fail(ConvertError::EventQueueFailed),
                    ..self
                }
            },
            SynthPhase::Starting => SynthView { phase: SynthPhase::Polling, ..self },
            SynthPhase::Polling => if code == PLAYER_PLAYING {
                SynthView { phase: SynthPhase::Rendering, ..self }
            } else {
                SynthView { phase: SynthPhase::Releasing, ..self }
            },
            SynthPhase::Rendering => match buffers {
                Some((left, right)) if code == ENGINE_OK => SynthView {
                    phase: SynthPhase::Appending,
                    staged: interleaved(left, right),
                    ..self
                },
                _ => SynthView { phase: SynthPhase::Releasing, ..self },
            },
            SynthPhase::Appending => if code == ENGINE_OK {
                SynthView {
                    phase: SynthPhase::Polling,
                    written: self.written + self.staged,
                    staged: Seq::<i16>::empty(),
                    ..self
                }
            } else {
                SynthView {
                    phase: SynthPhase::Releasing,
                    failure: self.fail(ConvertError::WriteFailed),
                    staged: Seq::<i16>::empty(),
                    ..self
                }
            },
            SynthPhase::Releasing => SynthView { phase: SynthPhase::Finalizing, ..self },
            SynthPhase::Finalizing => if code == ENGINE_OK {
                SynthView { phase: SynthPhase::Done, finalized: true, ..self }
            } else {
                SynthView {
                    phase: SynthPhase::Done,
                    finalized: true,
                    failure: self.fail(ConvertError::FinalizeFailed),
                    ..self
                }
            },
            SynthPhase::Done => self,
        }
    }
}

/// Every step keeps the state invariant; the container only grows, and only
/// by a whole buffer that was staged; a failure on record is never replaced;
/// the player is destroyed before the container is closed, and the run ends
/// only from closing the container or from failing to create it.
pub proof fn lemma_step(s: SynthView, code: int, buffers: Option<(Seq<i16>, Seq<i16>)>)
    requires
        s.wf(),
        buffers matches Some((left, right)) ==> left.len() == BUFFER_SIZE && right.len()
            == BUFFER_SIZE,
    ensures
        s.after(code, buffers).wf(),
        s.after(code, buffers).header == s.header,
        s.written.is_prefix_of(s.after(code, buffers).written),
        s.after(code, buffers).written == s.written || (s.phase == SynthPhase::Appending
            && code == ENGINE_OK && s.after(code, buffers).written == s.written + s.staged),
        s.failure is Some ==> s.after(code, buffers).failure == s.failure,
        player_live(s.phase) && !player_live(s.after(code, buffers).phase) ==> s.phase
            == SynthPhase::Releasing && s.after(code, buffers).phase == SynthPhase::Finalizing,
        s.phase != SynthPhase::Done && s.after(code, buffers).phase == SynthPhase::Done
            ==> s.phase == SynthPhase::Finalizing || s.phase == SynthPhase::Opening,
{
    let t = s.after(code, buffers);
    if s.phase == SynthPhase::Appending && code == ENGINE_OK {
        assert((s.written + s.staged).len() == s.written.len() + 8192);
        assert((2 * BUFFER_SIZE) as nat == 8192);
        assert(s.written.len() % 8192 == 0);
        assert((s.written.len() + 8192) % 8192 == 0) by {
            vstd::arithmetic::div_mod::lemma_mod_add_multiples_vanish(
                s.written.len() as int,
                8192,
            );
        }
    }
    if s.phase == SynthPhase::Rendering {
        if let Some((left, right)) = buffers {
            assert(interleaved(left, right).len() == 2 * BUFFER_SIZE);
        }
    }
}

/// One round of the loop: while the player reports that it is playing, the
/// run asks for exactly `BUFFER_SIZE` samples per channel, hands them out
/// interleaved, and once they are appended the container has grown by
/// `left[0], right[0], left[1], right[1], ...` and the run polls again.
pub proof fn lemma_loop_round(s: SynthView, left: Seq<i16>, right: Seq<i16>)
    requires
        s.wf(),
        s.phase == SynthPhase::Polling,
        left.len() == BUFFER_SIZE,
        right.len() == BUFFER_SIZE,
    ensures
        s.after(PLAYER_PLAYING as int, None).pending() == (SynthActionView::Render {
            frames: BUFFER_SIZE as nat,
        }),
        s.after(PLAYER_PLAYING as int, None).after(
            ENGINE_OK as int,
            Some((left, right)),
        ).pending() == (SynthActionView::Append { samples: interleaved(left, right) }),
        s.after(PLAYER_PLAYING as int, None).after(ENGINE_OK as int, Some((left, right))).after(
            ENGINE_OK as int,
            None,
        ) == (SynthView { written: s.written + interleaved(left, right), ..s }),
{
    let t = s.after(PLAYER_PLAYING as int, None).after(ENGINE_OK as int, Some((left, right)));
    assert(t.after(ENGINE_OK as int, None).staged =~= s.staged);
}

/// Leaving the loop: when the player no longer plays, or a synthesis call
/// fails, nothing more is written; the player is destroyed, the container is
/// closed, and the run ends well if closing did, else with `FinalizeFailed`.
pub proof fn lemma_loop_end(
    s: SynthView,
    code: int,
    buffers: Option<(Seq<i16>, Seq<i16>)>,
    released: int,
    closed: int,
)
    requires
        s.wf(),
        (s.phase == SynthPhase::Polling && code != PLAYER_PLAYING) || (s.phase
            == SynthPhase::Rendering && code != ENGINE_OK),
    ensures
        s.after(code, buffers).pending() == SynthActionView::ReleasePlayer,
        s.after(code, buffers).after(released, None).pending() == SynthActionView::Finalize,
        s.after(code, buffers).after(released, None).after(closed, None).pending() == (
        SynthActionView::Done {
            result: if closed == ENGINE_OK {
                Ok(())
            } else {
                Err(ConvertError::FinalizeFailed)
            },
        }),
        s.after(code, buffers).after(released, None).after(closed, None).written == s.written,
{
}

/// A failed append ends the loop with `WriteFailed`, whatever closing the
/// container then gives; the samples that were not appended are dropped and
/// what was written before stays.
pub proof fn lemma_append_failure(s: SynthView, code: int, released: int, closed: int)
    requires
        s.wf(),
        s.phase == SynthPhase::Appending,
        code != ENGINE_OK,
    ensures
        s.after(code, None).pending() == SynthActionView::ReleasePlayer,
        s.after(code, None).after(released, None).pending() == SynthActionView::Finalize,
        s.after(code, None).after(released, None).after(closed, None).pending() == (
        SynthActionView::Done { result: Err(ConvertError::WriteFailed) }),
        s.after(code, None).after(released, None).after(closed, None).written == s.written,
{
}

/// One run of the synthesis loop over one event stream.
pub struct Synthesis {
    header: WavHeader,
    phase: SynthPhase,
    failure: Option<ConvertError>,
    opened: bool,
    finalized: bool,
    written: Ghost<Seq<i16>>,
    staged: Vec<i16>,
}

impl View for Synthesis {
    type V = SynthView;

    closed spec fn view(&self) -> SynthView {
        SynthView {
            header: self.header,
            phase: self.phase,
            failure: self.failure,
            opened: self.opened,
            finalized: self.finalized,
            written: self.written@,
            staged: self.staged@,
        }
    }
}

impl Synthesis {
    /// The engine call the run waits for.
    pub fn phase(&self) -> (p: SynthPhase)
        ensures
            p == self@.phase,
    {
        self.phase
    }

    /// How the run stands: `None` until it has ended, then its result.
    pub fn outcome(&self) -> (r: Option<Result<(), ConvertError>>)
        ensures
            r == (if self@.phase == SynthPhase::Done {
                Some(self@.result())
            } else {
                None
            }),
    {
        match self.phase {
            SynthPhase::Done => match self.failure {
                Some(e) => Some(Err(e)),
                None => Some(Ok(())),
            },
            _ => None,
        }
    }

    /// The action to perform next.
    pub fn next_action(&self) -> (action: SynthAction)
        ensures
            action@ == self@.pending(),
    {
        match self.phase {
            SynthPhase::Opening => SynthAction::CreateContainer { header: self.header },
            SynthPhase::CreatingPlayer => SynthAction::CreatePlayer,
            SynthPhase::Queueing => SynthAction::QueueEvents,
            SynthPhase::Starting => SynthAction::StartPlayback,
            SynthPhase::Polling => SynthAction::PollStatus,
            SynthPhase::Rendering => SynthAction::Render { frames: BUFFER_SIZE },
            SynthPhase::Appending => {
                let samples = self.staged.clone();
                assert(samples@ =~= self.staged@);
                SynthAction::Append { samples }
            },
            SynthPhase::Releasing => SynthAction::ReleasePlayer,
            SynthPhase::Finalizing => SynthAction::Finalize,
            SynthPhase::Done => SynthAction::Done {
                result: match self.failure {
                    Some(e) => Err(e),
                    None => Ok(()),
                },
            },
        }
    }

    /// Records `e` unless a failure is already on record.
    fn record(&mut self, e: ConvertError)
        ensures
            final(self).failure == old(self)@.fail(e),
            final(self).header == old(self).header,
            final(self).phase == old(self).phase,
            final(self).opened == old(self).opened,
            final(self).finalized == old(self).finalized,
            final(self).written == old(self).written,
            final(self).staged == old(self).staged,
    {
        if self.failure.is_none() {
            self.failure = Some(e);
        }
    }

    /// Takes the reply to the pending action, where that action was not a
    /// synthesis call. `code` is the engine's return value, the player's
    /// status for a poll, and `ENGINE_OK` or `ENGINE_FAILED` for a step on
    /// the container. Given for a synthesis call, it ends the loop: no
    /// samples came with it.
    pub fn advance(&mut self, code: i32)
        requires
            old(self)@.wf(),
        ensures
            final(self)@ == old(self)@.after(code as int, None),
            final(self)@.wf(),
    {
        proof {
            lemma_step(self@, code as int, None);
        }
        match self.phase {
            SynthPhase::Opening => {
                if code == ENGINE_OK {
                    self.phase = SynthPhase::CreatingPlayer;
                    self.opened = true;
                } else {
                    self.record(ConvertError::WriteFailed);
                    self.phase = SynthPhase::Done;
                }
            },
            SynthPhase::CreatingPlayer => {
                if code == ENGINE_OK {
                    self.phase = SynthPhase::Queueing;
                } else {
                    self.record(ConvertError::PlayerCreateFailed);
                    self.phase = SynthPhase::Finalizing;
                }
            },
            SynthPhase::Queueing => {
                if code == ENGINE_OK {
                    self.phase = SynthPhase::Starting;
                } else {
                    self.record(ConvertError::EventQueueFailed);
                    self.phase = SynthPhase::Releasing;
                }
            },
            SynthPhase::Starting => {
                self.phase = SynthPhase::Polling;
            },
            SynthPhase::Polling => {
                if code == PLAYER_PLAYING {
                    self.phase = SynthPhase::Rendering;
                } else {
                    self.phase = SynthPhase::Releasing;
                }
            },
            SynthPhase::Rendering => {
                self.phase = SynthPhase::Releasing;
            },
            SynthPhase::Appending => {
                if code == ENGINE_OK {
                    self.written = Ghost(self.written@ + self.staged@);
                    self.phase = SynthPhase::Polling;
                } else {
                    self.record(ConvertError::WriteFailed);
                    self.phase = SynthPhase::Releasing;
                }
                self.staged = Vec::new();
            },
            SynthPhase::Releasing => {
                self.phase = SynthPhase::Finalizing;
            },
            SynthPhase::Finalizing => {
                if code != ENGINE_OK {
                    self.record(ConvertError::FinalizeFailed);
                }
                self.finalized = true;
                self.phase = SynthPhase::Done;
            },
            SynthPhase::Done => {},
        }
    }

    /// Takes the reply to a synthesis call: the engine's return value and the
    /// buffers it filled. On success the buffers' samples are staged for
    /// appending, interleaved left before right, sample by sample; on failure
    /// the loop ends. In any other phase the buffers are not looked at.
    pub fn rendered(&mut self, code: i32, buffer: &PcmFrameBuffer)
        requires
            old(self)@.wf(),
            buffer.wf(),
        ensures
            final(self)@ == old(self)@.after(
                code as int,
                Some((buffer.left@, buffer.right@)),
            ),
            final(self)@.wf(),
    {
        proof {
            lemma_step(self@, code as int, Some((buffer.left@, buffer.right@)));
        }
        match self.phase {
            SynthPhase::Rendering => {
                if code == ENGINE_OK {
                    self.staged = interleave(buffer.left.as_slice(), buffer.right.as_slice());
                    self.phase = SynthPhase::Appending;
                } else {
                    self.phase = SynthPhase::Releasing;
                }
            },
            _ => {
                self.advance(code);
            },
        }
    }
}

/// The mathematical content of a [`MidiConverter`].
pub struct SessionView {
    /// The settings the engine was created with.
    pub settings: SynthSettings,
    /// Whether an instrument bank has been loaded.
    pub bank_loaded: bool,
}

/// A session with the synthesis engine: its settings, and whether an
/// instrument bank is loaded.
pub struct MidiConverter {
    settings: SynthSettings,
    bank_loaded: bool,
}

impl View for MidiConverter {
    type V = SessionView;

    closed spec fn view(&self) -> SessionView {
        SessionView { settings: self.settings, bank_loaded: self.bank_loaded }
    }
}

impl MidiConverter {
    /// Opens a session on an engine that the caller tried to create with the
    /// standard settings. `engine_ready` says whether the engine exists;
    /// without one the session fails with `EngineInitFailed`.
    pub fn new(engine_ready: bool) -> (r: Result<MidiConverter, ConvertError>)
        ensures
            match r {
                Ok(session) => engine_ready && session@ == (SessionView {
                    settings: SynthSettings::standard(),
                    bank_loaded: false,
                }),
                Err(e) => !engine_ready && e == ConvertError::EngineInitFailed,
            },
    {
        if engine_ready {
            Ok(MidiConverter { settings: SynthSettings::standard(), bank_loaded: false })
        } else {
            Err(ConvertError::EngineInitFailed)
        }
    }

    /// The settings of the session's engine.
    pub fn settings(&self) -> (s: SynthSettings)
        ensures
            s == self@.settings,
    {
        self.settings
    }

    /// Whether an instrument bank has been loaded.
    pub fn bank_loaded(&self) -> (b: bool)
        ensures
            b == self@.bank_loaded,
    {
        self.bank_loaded
    }

    /// Takes the engine's reply to loading an instrument bank: the bank's
    /// identifier, or `ENGINE_FAILED`. A failed load gives `InvalidBank` and
    /// leaves the session as it was.
    pub fn load_soundfont(&mut self, font_id: i32) -> (r: Result<(), ConvertError>)
        ensures
            r is Err <==> font_id == ENGINE_FAILED,
            r is Err ==> r == Err::<(), ConvertError>(ConvertError::InvalidBank) && final(self)@
                == old(self)@,
            r is Ok ==> final(self)@ == (SessionView { bank_loaded: true, ..old(self)@ }),
    {
        if font_id == ENGINE_FAILED {
            Err(ConvertError::InvalidBank)
        } else {
            self.bank_loaded = true;
            Ok(())
        }
    }

    /// Takes the engine's reply to selecting `program` on the first channel.
    /// The selection stands when the program is at most `MAX_PROGRAM` and the
    /// engine returned `ENGINE_OK`; otherwise it fails with
    /// `ProgramChangeFailed`.
    pub fn set_instrument(&self, program: u8, status: i32) -> (r: Result<(), ConvertError>)
        ensures
            r is Ok <==> program <= MAX_PROGRAM && status == ENGINE_OK,
            r is Err ==> r == Err::<(), ConvertError>(ConvertError::ProgramChangeFailed),
    {
        if program <= MAX_PROGRAM && status == ENGINE_OK {
            Ok(())
        } else {
            Err(ConvertError::ProgramChangeFailed)
        }
    }

    /// Starts synthesising one event stream into a new container of 16-bit
    /// integer samples at the session's rate and channel count. A session
    /// without an instrument bank refuses with `InvalidBank`: the bank comes
    /// before any event stream.
    pub fn convert_midi_to_wav(&self) -> (r: Result<Synthesis, ConvertError>)
        ensures
            match r {
                Ok(run) => self@.bank_loaded && run@ == SynthView::initial(
                    self@.settings.container_header(),
                ) && run@.wf(),
                Err(e) => !self@.bank_loaded && e == ConvertError::InvalidBank,
            },
    {
        if !self.bank_loaded {
            return Err(ConvertError::InvalidBank);
        }
        let run = Synthesis {
            header: self.settings.container_header(),
            phase: SynthPhase::Opening,
            failure: None,
            opened: false,
            finalized: false,
            written: Ghost(Seq::<i16>::empty()),
            staged: Vec::new(),
        };
        assert(run@.staged =~= Seq::<i16>::empty());
        assert(0nat % ((2 * BUFFER_SIZE) as nat) == 0) by {
            assert((2 * BUFFER_SIZE) as nat == 8192);
        }
        Ok(run)
    }
}

} // verus!
