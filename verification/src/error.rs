//! The failures a conversion can end with, and the component each belongs to.

use vstd::prelude::*;

verus! {

/// The component of the pipeline that reports a failure.
#[derive(Clone, Copy, Debug, PartialEq, Eq, Structural)]
pub enum Component {
    /// Notation compiling and the orchestration around it.
    Compiler,
    /// The PCM synthesizer.
    Synthesizer,
    /// The frame encoder.
    Encoder,
}

/// Every way a run can fail. Each failure ends the run; none is retried.
#[derive(Clone, Copy, Debug, PartialEq, Eq, Structural)]
pub enum ConvertError {
    /// The synthesis engine could not be created.
    EngineInitFailed,
    /// The engine could not open or parse the instrument bank.
    InvalidBank,
    /// The engine refused the program selection.
    ProgramChangeFailed,
    /// The engine could not create a player for the session.
    PlayerCreateFailed,
    /// The engine could not queue the event stream.
    EventQueueFailed,
    /// Samples could not be appended to the audio container.
    WriteFailed,
    /// The audio container could not be closed as a well-formed container.
    FinalizeFailed,
    /// The container is not 16-bit integer PCM with one or two channels.
    UnsupportedFormat,
    /// The codec reported a failure, or returned more than its buffer holds.
    CodecFailure,
    /// Reading the container or writing the encoded stream failed.
    IoFailure,
    /// The notation source could not be compiled into an event stream.
    CompileFailed,
    /// The notation source does not exist or cannot be read.
    SourceNotFound,
    /// The request was rejected before any stage ran.
    ValidationFailed,
}

impl ConvertError {
    /// The component that `self` is reported by.
    pub open spec fn spec_component(self) -> Component {
        match self {
            ConvertError::EngineInitFailed
            | ConvertError::InvalidBank
            | ConvertError::ProgramChangeFailed
            | ConvertError::PlayerCreateFailed
            | ConvertError::EventQueueFailed
            | ConvertError::WriteFailed
            | ConvertError::FinalizeFailed => Component::Synthesizer,
            ConvertError::UnsupportedFormat
            | ConvertError::CodecFailure
            | ConvertError::IoFailure => Component::Encoder,
            ConvertError::CompileFailed
            | ConvertError::SourceNotFound
            | ConvertError::ValidationFailed => Component::Compiler,
        }
    }

    /// The component that reports this failure.
    #[verifier::when_used_as_spec(spec_component)]
    pub fn component(self) -> (c: Component)
        ensures
            c == self.spec_component(),
    {
        match self {
            ConvertError::EngineInitFailed => Component::Synthesizer,
            ConvertError::InvalidBank => Component::Synthesizer,
            ConvertError::ProgramChangeFailed => Component::Synthesizer,
            ConvertError::PlayerCreateFailed => Component::Synthesizer,
            ConvertError::EventQueueFailed => Component::Synthesizer,
            ConvertError::WriteFailed => Component::Synthesizer,
            ConvertError::FinalizeFailed => Component::Synthesizer,
            ConvertError::UnsupportedFormat => Component::Encoder,
            ConvertError::CodecFailure => Component::Encoder,
            ConvertError::IoFailure => Component::Encoder,
            ConvertError::CompileFailed => Component::Compiler,
            ConvertError::SourceNotFound => Component::Compiler,
            ConvertError::ValidationFailed => Component::Compiler,
        }
    }
}

} // verus!
