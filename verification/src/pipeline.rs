//! The pipeline orchestrator: runs compiling, synthesis and encoding in
//! order for one conversion, and sees to it that every temporary artifact of
//! the run is removed, however the run ends.
//!
//! The stages are carried out by the caller. A [`PipelineRun`] names the next
//! stage, takes its result, and decides what follows.

use vstd::prelude::*;
use crate::audio::ContainerView;
use crate::error::ConvertError;
use crate::midi_converter::{SynthSettings, SynthView, MAX_PROGRAM};
use crate::mml_converter::{conversion, has_command, MmlConverter};
use crate::mp3_encoder::{block_count, ceil_div, supported, FRAME};
use crate::source::{describe, info_of, ConversionInfo};

verus! {

/// A temporary file that a run creates and removes.
#[derive(Clone, Copy, Debug, PartialEq, Eq, Structural)]
pub enum Artifact {
    /// The compiled event stream.
    EventFile,
    /// The audio container between synthesis and encoding.
    Container,
}

/// What a run knows of one temporary artifact.
#[derive(Clone, Copy, Debug, PartialEq, Eq, Structural)]
pub enum ArtifactState {
    /// The run has not come to the stage that creates it.
    Absent,
    /// The stage that creates it has been started: it may exist.
    Present,
    /// Its removal has been attempted.
    Cleared,
}

/// The event stream that synthesis reads.
#[derive(Clone, Copy, Debug, PartialEq, Eq, Structural)]
pub enum EventSource {
    /// The temporary event file that the run wrote.
    Temporary,
    /// The source file itself, which already is an event stream.
    Supplied,
}

/// The step that a run waits for.
#[derive(Clone, Copy, Debug, PartialEq, Eq, Structural)]
pub enum Stage {
    /// Creating the synthesis session and loading the instrument bank.
    Preparing,
    /// Writing the compiled event stream to its temporary file.
    WritingEvents,
    /// Synthesising the event stream into the temporary container.
    Synthesizing,
    /// Encoding the container into the output file.
    Encoding,
    /// Removing a temporary artifact.
    Cleaning,
    /// The run has ended.
    Finished,
}

/// What a run asks its driver to do next.
#[derive(Debug)]
pub enum PipelineAction {
    /// Create the synthesis session and load the instrument bank at `bank`.
    Prepare { bank: String },
    /// Write `events` to the temporary event file.
    WriteEvents { events: Vec<u8> },
    /// Synthesise the events of `source` into the temporary container.
    Synthesize { source: EventSource },
    /// Encode the temporary container into the output file.
    Encode,
    /// Remove `artifact` if it exists.
    Remove { artifact: Artifact },
    /// Stop: the run has ended with this result.
    Finish { result: Result<(), ConvertError> },
}

/// The mathematical content of a [`PipelineAction`].
pub enum PipelineActionView {
    Prepare { bank: Seq<char> },
    WriteEvents { events: Seq<u8> },
    Synthesize { source: EventSource },
    Encode,
    Remove { artifact: Artifact },
    Finish { result: Result<(), ConvertError> },
}

impl View for PipelineAction {
    type V = PipelineActionView;

    open spec fn view(&self) -> PipelineActionView {
        match self {
            PipelineAction::Prepare { bank } => PipelineActionView::Prepare { bank: bank@ },
            PipelineAction::WriteEvents { events } => PipelineActionView::WriteEvents {
                events: events@,
            },
            PipelineAction::Synthesize { source } => PipelineActionView::Synthesize {
                source: *source,
            },
            PipelineAction::Encode => PipelineActionView::Encode,
            PipelineAction::Remove { artifact } => PipelineActionView::Remove {
                artifact: *artifact,
            },
            PipelineAction::Finish { result } => PipelineActionView::Finish { result: *result },
        }
    }
}

/// The mathematical content of a [`PipelineRun`].
pub struct RunView {
    /// The step the run waits for.
    pub stage: Stage,
    /// The path of the instrument bank.
    pub bank: Seq<char>,
    /// The compiled event stream of a notation source; `None` where the
    /// source is an event stream itself.
    pub events: Option<Seq<u8>>,
    /// The first failure of the run, if any.
    pub failure: Option<ConvertError>,
    /// The temporary event file.
    pub event_file: ArtifactState,
    /// The temporary audio container.
    pub container: ArtifactState,
    /// Removals that failed.
    pub warnings: nat,
}

impl RunView {
    /// The state of a run before its first step.
    pub open spec fn initial(bank: Seq<char>, events: Option<Seq<u8>>) -> RunView {
        RunView {
            stage: Stage::Preparing,
            bank,
            events,
            failure: None,
            event_file: ArtifactState::Absent,
            container: ArtifactState::Absent,
            warnings: 0,
        }
    }

    /// The artifact to remove next: the event file before the container.
    pub open spec fn next_removal(self) -> Option<Artifact> {
        if self.event_file == ArtifactState::Present {
            Some(Artifact::EventFile)
        } else if self.container == ArtifactState::Present {
            Some(Artifact::Container)
        } else {
            None
        }
    }

    /// The state invariant. Artifacts come into being in stage order, only
    /// a notation source has an event file, no stage runs after a failure,
    /// and a finished run has tried to remove every artifact it created.
    pub open spec fn wf(self) -> bool {
        &&& (self.stage == Stage::Preparing ==> self.event_file == ArtifactState::Absent
            && self.container == ArtifactState::Absent)
        &&& (self.stage == Stage::WritingEvents ==> self.events is Some && self.event_file
            == ArtifactState::Present && self.container == ArtifactState::Absent)
        &&& (self.stage == Stage::Synthesizing || self.stage == Stage::Encoding
            ==> self.container == ArtifactState::Present && (if self.events is Some {
            self.event_file == ArtifactState::Present
        } else {
            self.event_file == ArtifactState::Absent
        }))
        &&& (self.stage == Stage::Cleaning ==> self.next_removal() is Some)
        &&& (self.stage == Stage::Finished ==> self.next_removal() is None)
        &&& (self.stage != Stage::Cleaning && self.stage != Stage::Finished
            ==> self.failure is None && self.warnings == 0)
        &&& (self.events is None ==> self.event_file == ArtifactState::Absent)
        &&& self.warnings <= self.cleared()
    }

    /// The number of artifacts whose removal has been attempted.
    pub open spec fn cleared(self) -> nat {
        let a: nat = if self.event_file == ArtifactState::Cleared {
            1
        } else {
            0
        };
        let b: nat = if self.container == ArtifactState::Cleared {
            1
        } else {
            0
        };
        a + b
    }

    /// The result a run in this state ends with.
    pub open spec fn result(self) -> Result<(), ConvertError> {
        match self.failure {
            Some(e) => Err(e),
            None => Ok(()),
        }
    }

    /// The state once no further stage is to run: cleaning while an artifact
    /// is left, else finished.
    pub open spec fn wind_down(self) -> RunView {
        RunView {
            stage: if self.next_removal() is Some {
                Stage::Cleaning
            } else {
                Stage::Finished
            },
            ..self
        }
    }

    /// The action that the run asks for while in this state.
    pub open spec fn pending(self) -> PipelineActionView {
        match self.stage {
            Stage::Preparing => PipelineActionView::Prepare { bank: self.bank },
            Stage::WritingEvents => PipelineActionView::WriteEvents { events: self.events->0 },
            Stage::Synthesizing => PipelineActionView::Synthesize {
                source: if self.events is Some {
                    EventSource::Temporary
                } else {
                    EventSource::Supplied
                },
            },
            Stage::Encoding => PipelineActionView::Encode,
            Stage::Cleaning => PipelineActionView::Remove { artifact: self.next_removal()->0 },
            Stage::Finished => PipelineActionView::Finish { result: self.result() },
        }
    }

    /// The state after the driver performed the pending action and reports
    /// how it went.
    ///
    /// A stage that went well is followed by the next one: writing the
    /// events, for a notation source only, then synthesis, then encoding. An
    /// artifact counts as present from the moment the stage that creates it
    /// is started. The first stage that fails ends the run with its error,
    /// and no later stage is started. Then, as after encoding, every artifact
    /// that is present is removed, the event file first; a removal that fails
    /// is counted and changes nothing else.
    pub open spec fn after(self, reply: Result<(), ConvertError>) -> RunView {
        match self.stage {
            Stage::Preparing => match reply {
                Ok(_) => if self.events is Some {
                    RunView {
                        stage: Stage::WritingEvents,
                        event_file: ArtifactState::Present,
                        ..self
                    }
                } else {
                    RunView {
                        stage: Stage::Synthesizing,
                        container: ArtifactState::Present,
                        ..self
                    }
                },
                Err(e) => RunView { failure: Some(e), ..self }.wind_down(),
            },
            Stage::WritingEvents => match reply {
                Ok(_) => RunView {
                    stage: Stage::Synthesizing,
                    container: ArtifactState::Present,
                    ..self
                },
                Err(e) => RunView { failure: Some(e), ..self }.wind_down(),
            },
            Stage::Synthesizing => match reply {
                Ok(_) => RunView { stage: Stage::Encoding, ..self },
                Err(e) => RunView { failure: Some(e), ..self }.wind_down(),
            },
            Stage::Encoding => match reply {
                Ok(_) => self.wind_down(),
                Err(e) => RunView { failure: Some(e), ..self }.wind_down(),
            },
            Stage::Cleaning => {
                let warnings = if reply is Err {
                    self.warnings + 1
                } else {
                    self.warnings
                };
                if self.event_file == ArtifactState::Present {
                    RunView { event_file: ArtifactState::Cleared, warnings, ..self }.wind_down()
                } else {
                    RunView { container: ArtifactState::Cleared, warnings, ..self }.wind_down()
                }
            },
            Stage::Finished => self,
        }
    }
}

/// Every step keeps the state invariant and the run's inputs. An artifact
/// that is present stays so until its removal is attempted, and one whose
/// removal was attempted is not created again. A failure on record is never
/// replaced, and a finished run stays as it is.
pub proof fn lemma_run_step(s: RunView, reply: Result<(), ConvertError>)
    requires
        s.wf(),
    ensures
        s.after(reply).wf(),
        s.after(reply).bank == s.bank,
        s.after(reply).events == s.events,
        s.event_file != ArtifactState::Absent ==> s.after(reply).event_file
            != ArtifactState::Absent,
        s.container != ArtifactState::Absent ==> s.after(reply).container
            != ArtifactState::Absent,
        s.event_file == ArtifactState::Cleared ==> s.after(reply).event_file
            == ArtifactState::Cleared,
        s.container == ArtifactState::Cleared ==> s.after(reply).container
            == ArtifactState::Cleared,
        s.failure is Some ==> s.after(reply).failure == s.failure,
        s.stage == Stage::Finished ==> s.after(reply) == s,
{
}

/// A run never ends with a temporary artifact left behind: when it is
/// finished, whether it went well or failed at any stage, the removal of
/// every artifact that a stage may have created has been attempted.
pub proof fn lemma_finished_clean(s: RunView)
    requires
        s.wf(),
        s.stage == Stage::Finished,
    ensures
        s.event_file != ArtifactState::Present,
        s.container != ArtifactState::Present,
        s.pending() == (PipelineActionView::Finish { result: s.result() }),
{
}

/// The first failing stage decides the run: its error is the run's result,
/// no later stage is started, and what follows is only the removal of the
/// artifacts created so far.
pub proof fn lemma_failure_ends_run(s: RunView, e: ConvertError)
    requires
        s.wf(),
        s.stage != Stage::Cleaning,
        s.stage != Stage::Finished,
    ensures
        s.after(Err(e)).failure == Some(e),
        s.after(Err(e)).result() == Err::<(), ConvertError>(e),
        s.after(Err(e)).event_file == s.event_file,
        s.after(Err(e)).container == s.container,
        s.after(Err(e)).stage == Stage::Cleaning || s.after(Err(e)).stage == Stage::Finished,
        s.stage == Stage::Preparing ==> s.after(Err(e)).pending() == (
        PipelineActionView::Finish { result: Err(e) }),
{
}

/// Cleaning never changes the result of a run: a removal that fails is
/// counted as a warning and nothing more.
pub proof fn lemma_cleaning_keeps_result(s: RunView, reply: Result<(), ConvertError>)
    requires
        s.wf(),
        s.stage == Stage::Cleaning,
    ensures
        s.after(reply).failure == s.failure,
        s.after(reply).warnings == s.warnings + (if reply is Err {
            1nat
        } else {
            0nat
        }),
        s.after(reply).stage == Stage::Cleaning || s.after(reply).stage == Stage::Finished,
        s.after(reply).cleared() == s.cleared() + 1,
{
}

/// The whole of a run on a notation source where every stage goes well: the
/// bank is loaded, the events are written, synthesised from the temporary
/// file and encoded; then the event file and the container are removed, in
/// that order, and the run ends well whatever the removals gave.
pub proof fn lemma_notation_run(
    bank: Seq<char>,
    events: Seq<u8>,
    first: Result<(), ConvertError>,
    second: Result<(), ConvertError>,
)
    ensures
        ({
            let s0 = RunView::initial(bank, Some(events));
            let s1 = s0.after(Ok(()));
            let s2 = s1.after(Ok(()));
            let s3 = s2.after(Ok(()));
            let s4 = s3.after(Ok(()));
            let s5 = s4.after(first);
            let s6 = s5.after(second);
            &&& s0.wf()
            &&& s0.pending() == (PipelineActionView::Prepare { bank })
            &&& s1.pending() == (PipelineActionView::WriteEvents { events })
            &&& s2.pending() == (PipelineActionView::Synthesize { source: EventSource::Temporary })
            &&& s3.pending() == PipelineActionView::Encode
            &&& s4.pending() == (PipelineActionView::Remove { artifact: Artifact::EventFile })
            &&& s5.pending() == (PipelineActionView::Remove { artifact: Artifact::Container })
            &&& s6.pending() == (PipelineActionView::Finish { result: Ok(()) })
        }),
{
}

/// The whole of a run on an event-stream source where every stage goes
/// well: no event file is written or removed; synthesis reads the source
/// itself, and only the container is removed.
pub proof fn lemma_event_stream_run(bank: Seq<char>, removal: Result<(), ConvertError>)
    ensures
        ({
            let s0 = RunView::initial(bank, None);
            let s1 = s0.after(Ok(()));
            let s2 = s1.after(Ok(()));
            let s3 = s2.after(Ok(()));
            let s4 = s3.after(removal);
            &&& s0.wf()
            &&& s0.pending() == (PipelineActionView::Prepare { bank })
            &&& s1.pending() == (PipelineActionView::Synthesize { source: EventSource::Supplied })
            &&& s2.pending() == PipelineActionView::Encode
            &&& s3.pending() == (PipelineActionView::Remove { artifact: Artifact::Container })
            &&& s4.pending() == (PipelineActionView::Finish { result: Ok(()) })
        }),
{
}

/// What synthesis hands over, encoding takes: the container that a run of the
/// synthesizer with the standard settings has filled is one the encoder
/// supports, it holds whole stereo frames, and it takes
/// `ceil(frames / FRAME)` encode calls.
pub proof fn lemma_synthesized_container_is_encodable(s: SynthView)
    requires
        s.wf(),
        s.header == SynthSettings::standard().container_header(),
    ensures
        supported(s.header),
        s.written.len() % 2 == 0,
        block_count(ContainerView { header: s.header, samples: s.written }) == ceil_div(
            s.written.len() / 2,
            FRAME as nat,
        ),
{
    let c = ContainerView { header: s.header, samples: s.written };
    assert(s.written.len() % 8192 == 0);
    crate::mp3_encoder::lemma_block_count_per_channel(c);
}

/// One conversion under way: the stage it waits for, the artifacts it has
/// created, and its first failure.
pub struct PipelineRun {
    stage: Stage,
    bank: String,
    events: Option<Vec<u8>>,
    failure: Option<ConvertError>,
    event_file: ArtifactState,
    container: ArtifactState,
    warnings: u8,
}

impl View for PipelineRun {
    type V = RunView;

    closed spec fn view(&self) -> RunView {
        RunView {
            stage: self.stage,
            bank: self.bank@,
            events: match self.events {
                Some(events) => Some(events@),
                None => None,
            },
            failure: self.failure,
            event_file: self.event_file,
            container: self.container,
            warnings: self.warnings as nat,
        }
    }
}

impl PipelineRun {
    /// The step the run waits for.
    pub fn stage(&self) -> (stage: Stage)
        ensures
            stage == self@.stage,
    {
        self.stage
    }

    /// Removals that failed so far.
    pub fn warnings(&self) -> (n: u8)
        ensures
            n == self@.warnings,
    {
        self.warnings
    }

    /// How the run stands: `None` until it has finished, then its result.
    pub fn outcome(&self) -> (r: Option<Result<(), ConvertError>>)
        ensures
            r == (if self@.stage == Stage::Finished {
                Some(self@.result())
            } else {
                None
            }),
    {
        match self.stage {
            Stage::Finished => match self.failure {
                Some(e) => Some(Err(e)),
                None => Some(Ok(())),
            },
            _ => None,
        }
    }

    /// The action to perform next.
    pub fn next_action(&self) -> (action: PipelineAction)
        requires
            self@.wf(),
        ensures
            action@ == self@.pending(),
    {
        match self.stage {
            Stage::Preparing => PipelineAction::Prepare { bank: self.bank.clone() },
            Stage::WritingEvents => match &self.events {
                Some(events) => {
                    let copy = events.clone();
                    assert(copy@ =~= events@);
                    PipelineAction::WriteEvents { events: copy }
                },
                None => PipelineAction::WriteEvents { events: Vec::new() },
            },
            Stage::Synthesizing => PipelineAction::Synthesize {
                source: if self.events.is_some() {
                    EventSource::Temporary
                } else {
                    EventSource::Supplied
                },
            },
            Stage::Encoding => PipelineAction::Encode,
            Stage::Cleaning => PipelineAction::Remove {
                artifact: match self.event_file {
                    ArtifactState::Present => Artifact::EventFile,
                    _ => Artifact::Container,
                },
            },
            Stage::Finished => PipelineAction::Finish {
                result: match self.failure {
                    Some(e) => Err(e),
                    None => Ok(()),
                },
            },
        }
    }

    /// Moves on to cleaning, or ends the run if nothing is left to remove.
    fn wind_down(&mut self)
        ensures
            final(self)@ == old(self)@.wind_down(),
    {
        let event_file_left = match self.event_file {
            ArtifactState::Present => true,
            _ => false,
        };
        let container_left = match self.container {
            ArtifactState::Present => true,
            _ => false,
        };
        if event_file_left || container_left {
            self.stage = Stage::Cleaning;
        } else {
            self.stage = Stage::Finished;
        }
    }

    /// Takes the driver's report on the pending action: how the stage went,
    /// or whether the artifact could be removed.
    pub fn advance(&mut self, reply: Result<(), ConvertError>)
        requires
            old(self)@.wf(),
        ensures
            final(self)@ == old(self)@.after(reply),
            final(self)@.wf(),
    {
        proof {
            lemma_run_step(self@, reply);
        }
        match self.stage {
            Stage::Preparing => match reply {
                Ok(_) => {
                    if self.events.is_some() {
                        self.event_file = ArtifactState::Present;
                        self.stage = Stage::WritingEvents;
                    } else {
                        self.container = ArtifactState::Present;
                        self.stage = Stage::Synthesizing;
                    }
                },
                Err(e) => {
                    self.failure = Some(e);
                    self.wind_down();
                },
            },
            Stage::WritingEvents => match reply {
                Ok(_) => {
                    self.container = ArtifactState::Present;
                    self.stage = Stage::Synthesizing;
                },
                Err(e) => {
                    self.failure = Some(e);
                    self.wind_down();
                },
            },
            Stage::Synthesizing => match reply {
                Ok(_) => {
                    self.stage = Stage::Encoding;
                },
                Err(e) => {
                    self.failure = Some(e);
                    self.wind_down();
                },
            },
            Stage::Encoding => match reply {
                Ok(_) => {
                    self.wind_down();
                },
                Err(e) => {
                    self.failure = Some(e);
                    self.wind_down();
                },
            },
            Stage::Cleaning => {
                if reply.is_err() {
                    self.warnings = self.warnings + 1;
                }
                let event_file_left = match self.event_file {
                    ArtifactState::Present => true,
                    _ => false,
                };
                if event_file_left {
                    self.event_file = ArtifactState::Cleared;
                } else {
                    self.container = ArtifactState::Cleared;
                }
                self.wind_down();
            },
            Stage::Finished => {},
        }
    }
}

impl Artifact {
    /// The name of the artifact's file in the working directory.
    pub fn file_name(self) -> (name: &'static str)
        ensures
            name@ == (match self {
                Artifact::EventFile => "temp_conversion.mid"@,
                Artifact::Container => "temp_conversion.wav"@,
            }),
    {
        match self {
            Artifact::EventFile => "temp_conversion.mid",
            Artifact::Container => "temp_conversion.wav",
        }
    }
}

/// The mathematical content of a [`ConversionPipeline`].
pub struct PipelineView {
    /// The instrument program that notation is compiled for.
    pub instrument: u8,
    /// The path of the instrument bank, once one has been chosen.
    pub soundfont: Option<Seq<char>>,
}

impl PipelineView {
    /// The run that a source starts, given its compiled event stream where
    /// it is notation: none without an instrument bank.
    pub open spec fn start(self, events: Option<Seq<u8>>) -> Result<RunView, ConvertError> {
        match self.soundfont {
            Some(bank) => Ok(RunView::initial(bank, events)),
            None => Err(ConvertError::InvalidBank),
        }
    }

    /// What converting notation text starts. Without an instrument bank:
    /// `InvalidBank`. A text without a command character:
    /// `ValidationFailed`. A text that does not compile: `CompileFailed`.
    /// Else a run on the compiled events.
    pub open spec fn text_run(self, text: Seq<char>) -> Result<RunView, ConvertError> {
        if self.soundfont is None {
            Err(ConvertError::InvalidBank)
        } else if !has_command(text) {
            Err(ConvertError::ValidationFailed)
        } else {
            match conversion(text, self.instrument) {
                Ok(events) => self.start(Some(events)),
                Err(e) => Err(e),
            }
        }
    }

    /// What converting a notation file starts, given its content. Without
    /// an instrument bank: `InvalidBank`. A file that is missing or cannot
    /// be read: `SourceNotFound`. A content that does not compile:
    /// `CompileFailed`. Else a run on the compiled events.
    pub open spec fn file_run(self, source: Option<Seq<char>>) -> Result<RunView, ConvertError> {
        if self.soundfont is None {
            Err(ConvertError::InvalidBank)
        } else {
            match source {
                None => Err(ConvertError::SourceNotFound),
                Some(text) => match conversion(text, self.instrument) {
                    Ok(events) => self.start(Some(events)),
                    Err(e) => Err(e),
                },
            }
        }
    }
}

/// The mathematical content of what starting a run gives.
pub open spec fn run_view(r: Result<PipelineRun, ConvertError>) -> Result<RunView, ConvertError> {
    match r {
        Ok(run) => Ok(run@),
        Err(e) => Err(e),
    }
}

/// What a conversion is set up with: the instrument that notation is
/// compiled for, and the instrument bank that synthesis plays with.
pub struct ConversionPipeline {
    mml_converter: MmlConverter,
    soundfont: Option<String>,
}

impl View for ConversionPipeline {
    type V = PipelineView;

    closed spec fn view(&self) -> PipelineView {
        PipelineView {
            instrument: self.mml_converter@,
            soundfont: match self.soundfont {
                Some(path) => Some(path@),
                None => None,
            },
        }
    }
}

impl ConversionPipeline {
    /// A pipeline for instrument program 0, with no instrument bank yet.
    pub fn new() -> (p: ConversionPipeline)
        ensures
            p@ == (PipelineView { instrument: 0, soundfont: None }),
    {
        ConversionPipeline { mml_converter: MmlConverter::new(), soundfont: None }
    }

    /// Chooses the instrument bank that runs load. The path is taken as it
    /// is; whether a bank can be loaded from it shows when a run prepares.
    pub fn load_soundfont(&mut self, soundfont_path: &str)
        ensures
            final(self)@ == (PipelineView { soundfont: Some(soundfont_path@), ..old(self)@ }),
    {
        self.soundfont = Some(soundfont_path.to_owned());
    }

    /// Chooses the instrument program that notation is compiled for. A
    /// program above `MAX_PROGRAM` is rejected with `ValidationFailed` and
    /// changes nothing.
    pub fn set_instrument(&mut self, program: u8) -> (r: Result<(), ConvertError>)
        ensures
            r is Ok <==> program <= MAX_PROGRAM,
            r is Ok ==> final(self)@ == (PipelineView { instrument: program, ..old(self)@ }),
            r is Err ==> r == Err::<(), ConvertError>(ConvertError::ValidationFailed)
                && final(self)@ == old(self)@,
    {
        if program > MAX_PROGRAM {
            return Err(ConvertError::ValidationFailed);
        }
        self.mml_converter.set_instrument(program);
        Ok(())
    }

    /// Checks the content of a notation file, where `source` is `None` if the
    /// file does not exist or cannot be read.
    pub fn validate_mml_file(&self, source: Option<&str>) -> (r: Result<(), ConvertError>)
        ensures
            match source {
                None => r == Err::<(), ConvertError>(ConvertError::SourceNotFound),
                Some(text) => if has_command(text@) {
                    r is Ok
                } else {
                    r == Err::<(), ConvertError>(ConvertError::ValidationFailed)
                },
            },
    {
        match source {
            None => Err(ConvertError::SourceNotFound),
            Some(text) => self.mml_converter.validate_mml(text),
        }
    }

    /// Describes a notation file of `file_size` bytes, given its content;
    /// `source` is `None` if the file does not exist or cannot be read, which
    /// gives `SourceNotFound`.
    pub fn get_conversion_info(&self, file_size: u64, source: Option<&str>) -> (r: Result<
        ConversionInfo,
        ConvertError,
    >)
        ensures
            r == (match source {
                Some(text) => Ok::<ConversionInfo, ConvertError>(info_of(file_size, text@)),
                None => Err(ConvertError::SourceNotFound),
            }),
    {
        match source {
            Some(text) => Ok(describe(file_size, text)),
            None => Err(ConvertError::SourceNotFound),
        }
    }

    /// Starts a run, on compiled events where the source is notation.
    fn start(&self, events: Option<Vec<u8>>) -> (r: Result<PipelineRun, ConvertError>)
        ensures
            run_view(r) == self@.start(
                match events {
                    Some(e) => Some(e@),
                    None => None,
                },
            ),
            r matches Ok(run) ==> run@.wf(),
    {
        match &self.soundfont {
            Some(bank) => Ok(
                PipelineRun {
                    stage: Stage::Preparing,
                    bank: bank.clone(),
                    events,
                    failure: None,
                    event_file: ArtifactState::Absent,
                    container: ArtifactState::Absent,
                    warnings: 0,
                },
            ),
            None => Err(ConvertError::InvalidBank),
        }
    }

    /// Starts converting a notation file, given its content; `source` is
    /// `None` if the file does not exist or cannot be read. Nothing has run
    /// when this fails.
    pub fn convert_mml_to_mp3(&self, source: Option<&str>) -> (r: Result<
        PipelineRun,
        ConvertError,
    >)
        ensures
            run_view(r) == self@.file_run(
                match source {
                    Some(text) => Some(text@),
                    None => None,
                },
            ),
            r matches Ok(run) ==> run@.wf(),
    {
        if self.soundfont.is_none() {
            return Err(ConvertError::InvalidBank);
        }
        match self.mml_converter.convert_mml_file_to_midi(source) {
            Ok(events) => self.start(Some(events)),
            Err(e) => Err(e),
        }
    }

    /// Starts converting notation text. Nothing has run when this fails.
    pub fn convert_mml_text_to_mp3(&self, mml_text: &str) -> (r: Result<
        PipelineRun,
        ConvertError,
    >)
        ensures
            run_view(r) == self@.text_run(mml_text@),
            r matches Ok(run) ==> run@.wf(),
    {
        if self.soundfont.is_none() {
            return Err(ConvertError::InvalidBank);
        }
        match self.mml_converter.validate_mml(mml_text) {
            Ok(_) => {},
            Err(e) => {
                return Err(e);
            },
        }
        match self.mml_converter.convert_mml_to_midi(mml_text) {
            Ok(events) => self.start(Some(events)),
            Err(e) => Err(e),
        }
    }

    /// Starts converting a source file that already is an event stream: the
    /// run skips compiling and synthesises the file itself.
    pub fn convert_midi_to_mp3(&self) -> (r: Result<PipelineRun, ConvertError>)
        ensures
            run_view(r) == self@.start(None),
            r matches Ok(run) ==> run@.wf(),
    {
        self.start(None)
    }
}

impl Default for ConversionPipeline {
    fn default() -> (p: ConversionPipeline)
        ensures
            p@ == (PipelineView { instrument: 0, soundfont: None }),
    {
        ConversionPipeline::new()
    }
}

} // verus!
