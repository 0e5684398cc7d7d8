use yks_converter_example::audio::{AudioContainer, SampleFormat, WavHeader};
use yks_converter_example::error::ConvertError;
use yks_converter_example::mp3_encoder::{
    CodecSettings, EncodeAction, Mp3Encoder, BITRATE, FRAME, QUALITY, SCRATCH_CAPACITY,
};

fn header(channels: u16) -> WavHeader {
    WavHeader { channels, sample_rate: 44100, bits_per_sample: 16, sample_format: SampleFormat::Int }
}

fn ramp(len: usize) -> Vec<i16> {
    (0..len).map(|i| (i % 30000) as i16 + 1).collect()
}

fn job(channels: u16, samples: Vec<i16>) -> Mp3Encoder {
    match Mp3Encoder::convert_wav_to_mp3(AudioContainer::from_samples(header(channels), samples)) {
        Ok(job) => job,
        Err(e) => panic!("a supported container was refused: {:?}", e),
    }
}

/// Runs a job with a codec that returns `reply` bytes for every call and
/// gives the number of encode calls and of flush calls it was asked for.
fn drive(job: &mut Mp3Encoder, reply: i32) -> (usize, usize) {
    let scratch = Mp3Encoder::scratch_buffer();
    let mut encodes = 0;
    let mut flushes = 0;
    loop {
        match job.next_action() {
            EncodeAction::Encode { left, right } => {
                assert_eq!(left.len(), FRAME);
                assert_eq!(right.len(), FRAME);
                encodes += 1;
            }
            EncodeAction::Flush => flushes += 1,
            EncodeAction::Done => return (encodes, flushes),
        }
        assert!(job.codec_returned(reply, &scratch).is_ok());
    }
}

#[test]
fn stereo_three_blocks_and_ten_frames_take_four_encodes_and_one_flush() {
    let frames = 1152 * 3 + 10;
    let mut job = job(2, ramp(frames * 2));
    assert_eq!(job.total_blocks(), 4);
    assert_eq!(drive(&mut job, 0), (4, 1));
    assert_eq!(job.outcome(), Some(Ok(())));
}

#[test]
fn stereo_last_block_is_padded_on_both_channels() {
    let frames = 1152 * 3 + 10;
    let samples = ramp(frames * 2);
    let mut job = job(2, samples.clone());
    let scratch = Mp3Encoder::scratch_buffer();
    for k in 0..4 {
        match job.next_action() {
            EncodeAction::Encode { left, right } => {
                for i in 0..FRAME {
                    let frame = k * FRAME + i;
                    if frame < frames {
                        assert_eq!(left[i], samples[2 * frame]);
                        assert_eq!(right[i], samples[2 * frame + 1]);
                    } else {
                        assert_eq!(left[i], 0);
                        assert_eq!(right[i], 0);
                    }
                }
            }
            other => panic!("block {} expected, got {:?}", k, other),
        }
        assert!(job.codec_returned(0, &scratch).is_ok());
    }
    assert!(matches!(job.next_action(), EncodeAction::Flush));
}

#[test]
fn stereo_block_count_is_the_ceiling_of_frames_over_frame_size() {
    for frames in [0usize, 1, 2, 1151, 1152, 1153, 2303, 2304, 2305, 5000] {
        let mut job = job(2, ramp(frames * 2));
        let expected = (frames + 1151) / 1152;
        assert_eq!(job.total_blocks(), expected);
        assert_eq!(drive(&mut job, 7), (expected, 1));
    }
}

#[test]
fn mono_whole_blocks_are_not_padded() {
    let samples = ramp(2 * 1152);
    let mut job = job(1, samples.clone());
    assert_eq!(job.total_blocks(), 2);
    let scratch = Mp3Encoder::scratch_buffer();
    for k in 0..2 {
        match job.next_action() {
            EncodeAction::Encode { left, right } => {
                assert_eq!(&left[..], &samples[k * 1152..(k + 1) * 1152]);
                assert_eq!(left, right);
            }
            other => panic!("block {} expected, got {:?}", k, other),
        }
        assert!(job.codec_returned(0, &scratch).is_ok());
    }
    assert!(matches!(job.next_action(), EncodeAction::Flush));
}

#[test]
fn mono_single_sample_gives_one_padded_block() {
    let mut job = job(1, vec![1234]);
    assert_eq!(job.total_blocks(), 1);
    match job.next_action() {
        EncodeAction::Encode { left, right } => {
            assert_eq!(left.len(), 1152);
            assert_eq!(left[0], 1234);
            assert!(left[1..].iter().all(|s| *s == 0));
            assert_eq!(left, right);
        }
        other => panic!("one block expected, got {:?}", other),
    }
    assert_eq!(drive(&mut job, 0), (1, 1));
}

#[test]
fn mono_partial_last_block_is_padded() {
    let samples = ramp(1152 + 100);
    let mut job = job(1, samples.clone());
    let scratch = Mp3Encoder::scratch_buffer();
    assert!(job.codec_returned(0, &scratch).is_ok());
    match job.next_action() {
        EncodeAction::Encode { left, right } => {
            assert_eq!(&left[..100], &samples[1152..]);
            assert!(left[100..].iter().all(|s| *s == 0));
            assert_eq!(left, right);
        }
        other => panic!("second block expected, got {:?}", other),
    }
}

#[test]
fn stereo_with_a_lone_last_sample_drops_it_into_a_silent_block() {
    let mut samples = ramp(2 * 1152);
    samples.push(77);
    let mut job = job(2, samples);
    assert_eq!(job.total_blocks(), 2);
    let scratch = Mp3Encoder::scratch_buffer();
    assert!(job.codec_returned(0, &scratch).is_ok());
    match job.next_action() {
        EncodeAction::Encode { left, right } => {
            assert!(left.iter().all(|s| *s == 0));
            assert!(right.iter().all(|s| *s == 0));
        }
        other => panic!("second block expected, got {:?}", other),
    }
}

#[test]
fn empty_container_is_flushed_only() {
    let mut job = job(2, Vec::new());
    assert_eq!(job.total_blocks(), 0);
    assert!(matches!(job.next_action(), EncodeAction::Flush));
    let mut scratch = Mp3Encoder::scratch_buffer();
    scratch[0] = 0xff;
    scratch[1] = 0xfb;
    scratch[2] = 0x90;
    assert!(job.codec_returned(3, &scratch).is_ok());
    assert!(matches!(job.next_action(), EncodeAction::Done));
    assert_eq!(job.output(), &vec![0xff, 0xfb, 0x90]);
    assert_eq!(job.outcome(), Some(Ok(())));
}

#[test]
fn other_bit_depths_are_unsupported() {
    for bits in [8u16, 24, 32, 0] {
        let h = WavHeader { bits_per_sample: bits, ..header(2) };
        assert_eq!(Mp3Encoder::check_format(&h), Err(ConvertError::UnsupportedFormat));
        let r = Mp3Encoder::convert_wav_to_mp3(AudioContainer::from_samples(h, vec![0; 8]));
        assert!(matches!(r, Err(ConvertError::UnsupportedFormat)));
    }
}

#[test]
fn float_samples_are_unsupported() {
    let h = WavHeader { sample_format: SampleFormat::Float, ..header(1) };
    assert_eq!(Mp3Encoder::check_format(&h), Err(ConvertError::UnsupportedFormat));
    let r = Mp3Encoder::convert_wav_to_mp3(AudioContainer::from_samples(h, vec![0; 8]));
    assert!(matches!(r, Err(ConvertError::UnsupportedFormat)));
}

#[test]
fn other_channel_counts_are_unsupported() {
    for channels in [0u16, 3, 6, 65535] {
        assert_eq!(
            Mp3Encoder::check_format(&header(channels)),
            Err(ConvertError::UnsupportedFormat)
        );
        let r =
            Mp3Encoder::convert_wav_to_mp3(AudioContainer::from_samples(header(channels), vec![0; 12]));
        assert!(matches!(r, Err(ConvertError::UnsupportedFormat)));
    }
    assert_eq!(Mp3Encoder::check_format(&header(1)), Ok(()));
    assert_eq!(Mp3Encoder::check_format(&header(2)), Ok(()));
}

#[test]
fn negative_codec_return_is_a_codec_failure() {
    let mut job = job(2, ramp(4000));
    let scratch = Mp3Encoder::scratch_buffer();
    assert_eq!(job.codec_returned(5, &scratch), Ok(()));
    assert_eq!(job.codec_returned(-1, &scratch), Err(ConvertError::CodecFailure));
    assert!(matches!(job.next_action(), EncodeAction::Done));
    assert_eq!(job.outcome(), Some(Err(ConvertError::CodecFailure)));
    assert_eq!(job.submitted(), 1);
    assert_eq!(job.output().len(), 5);
    assert_eq!(job.codec_returned(3, &scratch), Err(ConvertError::CodecFailure));
    assert_eq!(job.output().len(), 5);
}

#[test]
fn zero_codec_return_appends_nothing_and_is_no_error() {
    let mut job = job(1, ramp(3000));
    let scratch = Mp3Encoder::scratch_buffer();
    assert_eq!(job.codec_returned(0, &scratch), Ok(()));
    assert_eq!(job.output().len(), 0);
    assert_eq!(job.submitted(), 1);
    assert_eq!(job.outcome(), None);
}

#[test]
fn positive_codec_return_appends_that_many_bytes_from_the_start() {
    let mut job = job(1, ramp(3000));
    let mut scratch = Mp3Encoder::scratch_buffer();
    for (i, b) in scratch.iter_mut().enumerate() {
        *b = (i % 251) as u8;
    }
    assert_eq!(job.codec_returned(4, &scratch), Ok(()));
    assert_eq!(job.output(), &vec![0, 1, 2, 3]);
    assert_eq!(job.codec_returned(2, &scratch), Ok(()));
    assert_eq!(job.output(), &vec![0, 1, 2, 3, 0, 1]);
    assert_eq!(job.codec_returned(SCRATCH_CAPACITY as i32, &scratch), Ok(()));
    assert_eq!(job.output().len(), 6 + SCRATCH_CAPACITY);
    assert_eq!(job.codec_returned(1, &scratch), Ok(()));
    assert_eq!(job.outcome(), Some(Ok(())));
}

#[test]
fn codec_return_beyond_the_buffer_is_a_codec_failure() {
    let mut job = job(1, ramp(3000));
    let scratch = Mp3Encoder::scratch_buffer();
    assert_eq!(
        job.codec_returned(SCRATCH_CAPACITY as i32 + 1, &scratch),
        Err(ConvertError::CodecFailure)
    );
    assert_eq!(job.output().len(), 0);
    assert_eq!(job.outcome(), Some(Err(ConvertError::CodecFailure)));
}

#[test]
fn silent_container_is_cut_into_silent_blocks_and_never_fails_by_itself() {
    for (channels, len) in [(1u16, 1usize), (1, 1152), (1, 5000), (2, 2), (2, 2304), (2, 7000)] {
        let mut job = job(channels, vec![0; len]);
        let scratch = Mp3Encoder::scratch_buffer();
        loop {
            match job.next_action() {
                EncodeAction::Encode { left, right } => {
                    assert!(left.iter().all(|s| *s == 0));
                    assert!(right.iter().all(|s| *s == 0));
                }
                EncodeAction::Flush => {}
                EncodeAction::Done => break,
            }
            assert_eq!(job.codec_returned(0, &scratch), Ok(()));
        }
        assert_eq!(job.outcome(), Some(Ok(())));
    }
}

#[test]
fn finished_job_ignores_replies() {
    let mut job = job(2, Vec::new());
    let scratch = Mp3Encoder::scratch_buffer();
    assert_eq!(job.codec_returned(2, &scratch), Ok(()));
    assert_eq!(job.outcome(), Some(Ok(())));
    assert_eq!(job.codec_returned(9, &scratch), Ok(()));
    assert_eq!(job.codec_returned(-4, &scratch), Ok(()));
    assert_eq!(job.output().len(), 2);
    assert_eq!(job.outcome(), Some(Ok(())));
}

#[test]
fn codec_session_takes_rate_and_channels_from_the_container() {
    let h = WavHeader { sample_rate: 22050, ..header(1) };
    let job = match Mp3Encoder::convert_wav_to_mp3(AudioContainer::from_samples(h, vec![1, 2, 3])) {
        Ok(job) => job,
        Err(e) => panic!("refused: {:?}", e),
    };
    assert_eq!(
        job.codec_settings(),
        CodecSettings { sample_rate: 22050, channels: 1, bitrate: 192, quality: 0 }
    );
    assert_eq!(BITRATE, 192);
    assert_eq!(QUALITY, 0);
}

#[test]
fn scratch_buffer_holds_the_worst_case_of_one_call() {
    let scratch = Mp3Encoder::scratch_buffer();
    assert_eq!(scratch.len(), 8640);
    assert_eq!(SCRATCH_CAPACITY, 8640);
    assert!(4 * scratch.len() >= 5 * FRAME + 4 * 7200);
    assert!(scratch.iter().all(|b| *b == 0));
}
