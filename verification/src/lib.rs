//! Staged transcoding of music notation into compressed audio.
//!
//! The crate holds the decisions of a three-stage pipeline: compiling a
//! notation source into an event stream, synthesising that stream into
//! interleaved 16-bit PCM, and cutting the PCM into the fixed-size blocks a
//! frame codec consumes. The engines that make sound and compress it are
//! driven by the caller; every stage here is a state machine that says what
//! to do next and what each engine reply means.
//!
//! - [`source`] tells notation files from event-stream files.
//! - [`mml_converter`] checks and compiles notation.
//! - [`midi_converter`] is the synthesizer session and its synthesis loop.
//! - [`audio`] is the container between synthesis and encoding.
//! - [`mp3_encoder`] cuts a container into codec blocks and keeps the stream.
//! - [`pipeline`] runs the stages in order and cleans up after them.
//! - [`error`] lists the failures.

pub mod audio;
pub mod error;
pub mod midi_converter;
pub mod mml_converter;
pub mod mp3_encoder;
pub mod pipeline;
pub mod source;
