use yks_converter_example::audio::{SampleFormat, WavHeader};
use yks_converter_example::error::ConvertError;
use yks_converter_example::midi_converter::{
    MidiConverter, PcmFrameBuffer, SynthAction, SynthPhase, SynthSettings, Synthesis, BUFFER_SIZE,
    ENGINE_FAILED, ENGINE_OK, PLAYER_PLAYING,
};

fn session() -> MidiConverter {
    let mut session = MidiConverter::new(true).expect("the engine is ready");
    session.load_soundfont(1).expect("the bank loads");
    session
}

fn run() -> Synthesis {
    session().convert_midi_to_wav().expect("a bank is loaded")
}

/// Brings a fresh run to its first poll.
fn playing() -> Synthesis {
    let mut run = run();
    assert!(matches!(run.next_action(), SynthAction::CreateContainer { .. }));
    run.advance(ENGINE_OK);
    assert!(matches!(run.next_action(), SynthAction::CreatePlayer));
    run.advance(ENGINE_OK);
    assert!(matches!(run.next_action(), SynthAction::QueueEvents));
    run.advance(ENGINE_OK);
    assert!(matches!(run.next_action(), SynthAction::StartPlayback));
    run.advance(ENGINE_OK);
    assert!(matches!(run.next_action(), SynthAction::PollStatus));
    run
}

fn filled(seed: i16) -> PcmFrameBuffer {
    let mut buffer = PcmFrameBuffer::new();
    for i in 0..BUFFER_SIZE {
        buffer.left[i] = seed.wrapping_add(i as i16);
        buffer.right[i] = seed.wrapping_sub(i as i16);
    }
    buffer
}

#[test]
fn standard_settings() {
    let s = SynthSettings::standard();
    assert_eq!(s.sample_rate, 44100);
    assert_eq!(s.channels, 2);
    assert_eq!(s.polyphony, 256);
    assert!(s.reverb);
    assert!(s.chorus);
    assert_eq!(s.gain_percent, 100);
    assert_eq!(
        s.container_header(),
        WavHeader {
            channels: 2,
            sample_rate: 44100,
            bits_per_sample: 16,
            sample_format: SampleFormat::Int
        }
    );
}

#[test]
fn frame_buffer_holds_buffer_size_samples_per_channel() {
    let b = PcmFrameBuffer::new();
    assert_eq!(BUFFER_SIZE, 4096);
    assert_eq!(b.left.len(), 4096);
    assert_eq!(b.right.len(), 4096);
    assert!(b.left.iter().chain(b.right.iter()).all(|s| *s == 0));
}

#[test]
fn session_without_engine_fails_with_engine_init_failed() {
    assert!(matches!(MidiConverter::new(false), Err(ConvertError::EngineInitFailed)));
    let session = MidiConverter::new(true).expect("the engine is ready");
    assert_eq!(session.settings(), SynthSettings::standard());
    assert!(!session.bank_loaded());
}

#[test]
fn failed_bank_load_is_invalid_bank() {
    let mut session = MidiConverter::new(true).expect("the engine is ready");
    assert_eq!(session.load_soundfont(ENGINE_FAILED), Err(ConvertError::InvalidBank));
    assert!(!session.bank_loaded());
    assert!(matches!(session.convert_midi_to_wav(), Err(ConvertError::InvalidBank)));
    assert_eq!(session.load_soundfont(0), Ok(()));
    assert!(session.bank_loaded());
    assert!(session.convert_midi_to_wav().is_ok());
}

#[test]
fn later_failed_bank_load_keeps_the_loaded_bank() {
    let mut session = session();
    assert_eq!(session.load_soundfont(-1), Err(ConvertError::InvalidBank));
    assert!(session.bank_loaded());
}

#[test]
fn program_change_needs_a_program_in_range_and_a_willing_engine() {
    let session = session();
    assert_eq!(session.set_instrument(0, ENGINE_OK), Ok(()));
    assert_eq!(session.set_instrument(127, ENGINE_OK), Ok(()));
    assert_eq!(session.set_instrument(128, ENGINE_OK), Err(ConvertError::ProgramChangeFailed));
    assert_eq!(session.set_instrument(5, ENGINE_FAILED), Err(ConvertError::ProgramChangeFailed));
    assert_eq!(session.set_instrument(5, 3), Err(ConvertError::ProgramChangeFailed));
}

#[test]
fn run_opens_a_stereo_16_bit_container_first() {
    let run = run();
    assert_eq!(run.phase(), SynthPhase::Opening);
    assert_eq!(run.outcome(), None);
    match run.next_action() {
        SynthAction::CreateContainer { header } => {
            assert_eq!(header.channels, 2);
            assert_eq!(header.sample_rate, 44100);
            assert_eq!(header.bits_per_sample, 16);
            assert_eq!(header.sample_format, SampleFormat::Int);
        }
        other => panic!("unexpected first action {:?}", other),
    }
}

#[test]
fn stream_without_events_gives_an_empty_container_and_no_error() {
    let mut run = playing();
    run.advance(0);
    assert!(matches!(run.next_action(), SynthAction::ReleasePlayer));
    run.advance(ENGINE_OK);
    assert!(matches!(run.next_action(), SynthAction::Finalize));
    run.advance(ENGINE_OK);
    assert!(matches!(run.next_action(), SynthAction::Done { result: Ok(()) }));
    assert_eq!(run.outcome(), Some(Ok(())));
}

#[test]
fn each_round_appends_the_buffers_interleaved() {
    let mut run = playing();
    for round in 0..3i16 {
        run.advance(PLAYER_PLAYING);
        match run.next_action() {
            SynthAction::Render { frames } => assert_eq!(frames, 4096),
            other => panic!("render expected, got {:?}", other),
        }
        let buffer = filled(round * 100);
        run.rendered(ENGINE_OK, &buffer);
        match run.next_action() {
            SynthAction::Append { samples } => {
                assert_eq!(samples.len(), 2 * BUFFER_SIZE);
                for i in 0..BUFFER_SIZE {
                    assert_eq!(samples[2 * i], buffer.left[i]);
                    assert_eq!(samples[2 * i + 1], buffer.right[i]);
                }
            }
            other => panic!("append expected, got {:?}", other),
        }
        run.advance(ENGINE_OK);
        assert!(matches!(run.next_action(), SynthAction::PollStatus));
    }
    run.advance(0);
    run.advance(ENGINE_OK);
    run.advance(ENGINE_OK);
    assert_eq!(run.outcome(), Some(Ok(())));
}

#[test]
fn failed_synthesis_call_ends_the_loop_without_error() {
    let mut run = playing();
    run.advance(PLAYER_PLAYING);
    run.rendered(ENGINE_FAILED, &filled(1));
    assert!(matches!(run.next_action(), SynthAction::ReleasePlayer));
    run.advance(ENGINE_OK);
    assert!(matches!(run.next_action(), SynthAction::Finalize));
    run.advance(ENGINE_OK);
    assert_eq!(run.outcome(), Some(Ok(())));
}

#[test]
fn reply_without_buffers_to_a_synthesis_call_ends_the_loop() {
    let mut run = playing();
    run.advance(PLAYER_PLAYING);
    run.advance(ENGINE_OK);
    assert!(matches!(run.next_action(), SynthAction::ReleasePlayer));
}

#[test]
fn container_that_cannot_be_created_is_a_write_failure() {
    let mut run = run();
    run.advance(ENGINE_FAILED);
    assert!(matches!(
        run.next_action(),
        SynthAction::Done { result: Err(ConvertError::WriteFailed) }
    ));
    assert_eq!(run.outcome(), Some(Err(ConvertError::WriteFailed)));
}

#[test]
fn player_that_cannot_be_created_closes_the_container_and_fails() {
    let mut run = run();
    run.advance(ENGINE_OK);
    run.advance(ENGINE_FAILED);
    assert!(matches!(run.next_action(), SynthAction::Finalize));
    run.advance(ENGINE_OK);
    assert_eq!(run.outcome(), Some(Err(ConvertError::PlayerCreateFailed)));
}

#[test]
fn events_that_cannot_be_queued_release_the_player_and_fail() {
    let mut run = run();
    run.advance(ENGINE_OK);
    run.advance(ENGINE_OK);
    run.advance(ENGINE_FAILED);
    assert!(matches!(run.next_action(), SynthAction::ReleasePlayer));
    run.advance(ENGINE_OK);
    assert!(matches!(run.next_action(), SynthAction::Finalize));
    run.advance(ENGINE_OK);
    assert_eq!(run.outcome(), Some(Err(ConvertError::EventQueueFailed)));
}

#[test]
fn failed_append_is_a_write_failure_after_release_and_close() {
    let mut run = playing();
    run.advance(PLAYER_PLAYING);
    run.rendered(ENGINE_OK, &filled(3));
    run.advance(ENGINE_FAILED);
    assert!(matches!(run.next_action(), SynthAction::ReleasePlayer));
    run.advance(ENGINE_OK);
    assert!(matches!(run.next_action(), SynthAction::Finalize));
    run.advance(ENGINE_FAILED);
    assert_eq!(run.outcome(), Some(Err(ConvertError::WriteFailed)));
}

#[test]
fn failed_close_is_reported_though_the_loop_went_well() {
    let mut run = playing();
    run.advance(PLAYER_PLAYING);
    run.rendered(ENGINE_OK, &filled(3));
    run.advance(ENGINE_OK);
    run.advance(0);
    run.advance(ENGINE_OK);
    assert!(matches!(run.next_action(), SynthAction::Finalize));
    run.advance(ENGINE_FAILED);
    assert!(matches!(
        run.next_action(),
        SynthAction::Done { result: Err(ConvertError::FinalizeFailed) }
    ));
}

#[test]
fn reply_to_starting_playback_is_not_looked_at() {
    let mut run = run();
    run.advance(ENGINE_OK);
    run.advance(ENGINE_OK);
    run.advance(ENGINE_OK);
    run.advance(ENGINE_FAILED);
    assert!(matches!(run.next_action(), SynthAction::PollStatus));
}

#[test]
fn ended_run_stays_ended() {
    let mut run = playing();
    run.advance(0);
    run.advance(ENGINE_OK);
    run.advance(ENGINE_OK);
    assert_eq!(run.phase(), SynthPhase::Done);
    run.advance(PLAYER_PLAYING);
    run.rendered(ENGINE_OK, &filled(0));
    assert_eq!(run.phase(), SynthPhase::Done);
    assert_eq!(run.outcome(), Some(Ok(())));
}
