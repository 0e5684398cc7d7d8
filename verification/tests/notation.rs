use yks_converter_example::error::ConvertError;
use yks_converter_example::mml_converter::{
    MmlConverter, MAX_NUMBER, MAX_OCTAVE, MAX_TRACK_NOTES,
};

const SONG: &str = "MML@t190l8cdefgab>c4.,l8<cdefgab>c4.,l8>cdefgab>c4.;";

const SONG_EVENTS: &str = "4d546864000000060001000300604d54726b0000009000ff0120596f6b6f736f2050726f6a6563742868747470733a2f2f796f6b6f2e736f2f2900ff510307a12000f00a4110421240007f0041f78140c00101b00a40015b00813eff510304d18d00903c4030803c0000903e4030803e000090404030804000009041403080410000904340308043000090454030804500009047403080470000904840811080480030ff2f004d54726b000000518140c00101b00a40015b00813e903040308030000090324030803200009034403080340000903540308035000090374030803700009039403080390000903b4030803b0000903c408110803c0030ff2f004d54726b000000518140c00101b00a40015b00813e9048403080480000904a4030804a0000904c4030804c0000904d4030804d0000904f4030804f000090514030805100009053403080530000905440811080540030ff2f00";

const SILENT_EVENTS: &str = "4d546864000000060001000300604d54726b0000004800ff0120596f6b6f736f2050726f6a6563742868747470733a2f2f796f6b6f2e736f2f2900ff510307a12000f00a4110421240007f0041f78140c00001b00a40015b00813fff2f004d54726b000000108140c00001b00a40015b00813fff2f004d54726b000000108140c00001b00a40015b00813fff2f00";

fn hex(bytes: &[u8]) -> String {
    bytes.iter().map(|b| format!("{:02x}", b)).collect()
}

#[test]
fn new_converter_uses_program_zero() {
    assert_eq!(MmlConverter::new().instrument(), 0);
    assert_eq!(MmlConverter::default().instrument(), 0);
}

#[test]
fn set_instrument_is_kept() {
    let mut c = MmlConverter::new();
    c.set_instrument(25);
    assert_eq!(c.instrument(), 25);
    c.set_instrument(200);
    assert_eq!(c.instrument(), 200);
}

#[test]
fn validation_wants_a_command_character() {
    let c = MmlConverter::new();
    assert_eq!(c.validate_mml(SONG), Ok(()));
    assert_eq!(c.validate_mml("c"), Ok(()));
    assert_eq!(c.validate_mml("N"), Ok(()));
    assert_eq!(c.validate_mml("  7 "), Ok(()));
    assert_eq!(c.validate_mml("xyz V"), Ok(()));
    assert_eq!(c.validate_mml(""), Err(ConvertError::ValidationFailed));
    assert_eq!(c.validate_mml("   \n\t "), Err(ConvertError::ValidationFailed));
    assert_eq!(c.validate_mml("n"), Err(ConvertError::ValidationFailed));
    assert_eq!(c.validate_mml("@#<>;,. h H z"), Err(ConvertError::ValidationFailed));
    assert_eq!(c.validate_mml("\u{e9}\u{4e2d}"), Err(ConvertError::ValidationFailed));
}

#[test]
fn song_compiles_into_a_three_track_event_stream() {
    let mut c = MmlConverter::new();
    c.set_instrument(1);
    let events = c.convert_mml_to_midi(SONG).expect("the song compiles");
    assert_eq!(hex(&events), SONG_EVENTS);
    let head: [u8; 18] = [
        0x4d, 0x54, 0x68, 0x64, 0x00, 0x00, 0x00, 0x06, 0x00, 0x01, 0x00, 0x03, 0x00, 0x60, 0x4d,
        0x54, 0x72, 0x6b,
    ];
    assert_eq!(&events[..18], &head[..]);
    assert_eq!(events.iter().filter(|b| **b == 0x4d).count() >= 4, true);
    assert_eq!(&events[events.len() - 3..], &[0xff, 0x2f, 0x00]);
    assert_ne!(events, SONG.as_bytes().to_vec());
}

#[test]
fn compiled_stream_selects_the_converters_instrument() {
    let mut one = MmlConverter::new();
    one.set_instrument(1);
    let mut forty = MmlConverter::new();
    forty.set_instrument(40);
    let a = one.convert_mml_to_midi(SONG).expect("the song compiles");
    let b = forty.convert_mml_to_midi(SONG).expect("the song compiles");
    assert_eq!(a.len(), b.len());
    assert_ne!(a, b);
    let differing: Vec<usize> = (0..a.len()).filter(|i| a[*i] != b[*i]).collect();
    assert!(differing.iter().all(|i| a[*i] == 1 && b[*i] == 40));
    assert_eq!(one.convert_mml_to_midi(SONG).expect("the song compiles"), a);
}

#[test]
fn source_without_tracks_compiles_into_a_stream_without_notes() {
    let c = MmlConverter::new();
    let events = c.convert_mml_to_midi("MML@,,;").expect("empty tracks compile");
    assert_eq!(hex(&events), SILENT_EVENTS);
    assert_eq!(&events[..4], b"MThd");
    assert!(!events.iter().any(|b| *b & 0xf0 == 0x90));
}

#[test]
fn text_that_is_no_notation_fails_to_compile() {
    let c = MmlConverter::new();
    assert_eq!(c.convert_mml_to_midi("cdefg"), Err(ConvertError::CompileFailed));
    assert_eq!(c.convert_mml_to_midi(""), Err(ConvertError::CompileFailed));
    assert_eq!(c.convert_mml_to_midi("MML@cde"), Err(ConvertError::CompileFailed));
}

#[test]
fn octaves_beyond_the_largest_are_refused() {
    let c = MmlConverter::new();
    assert_eq!(MAX_OCTAVE, 178_956_969);
    assert_eq!(MAX_NUMBER, 2_147_483_647);
    assert!(MmlConverter::is_compilable("MML@o4c,,;"));
    assert!(MmlConverter::is_compilable("MML@o12345678c,,;"));
    assert!(MmlConverter::is_compilable("MML@o178956969c,,;"));
    assert!(MmlConverter::is_compilable("MML@O178956969c,,;"));
    assert!(!MmlConverter::is_compilable("MML@o178956970c,,;"));
    assert!(!MmlConverter::is_compilable("MML@O178956970c,,;"));
    assert!(!MmlConverter::is_compilable("MML@o999999999c,,;"));
    assert!(!MmlConverter::is_compilable("MML@o2147483647c,,;"));
    assert!(!MmlConverter::is_compilable("MML@o999999999"));
    assert!(!MmlConverter::is_compilable("MML@cde,o999999999,;"));
    assert_eq!(c.convert_mml_to_midi("MML@o999999999c,,;"), Err(ConvertError::CompileFailed));
    assert_eq!(c.convert_mml_to_midi("MML@o2147483647c,,;"), Err(ConvertError::CompileFailed));
}

#[test]
fn white_space_inside_an_octave_number_is_dropped() {
    assert!(!MmlConverter::is_compilable("MML@o 999 999 999c,,;"));
    assert!(!MmlConverter::is_compilable("MML@o9999\u{3000}99999c,,;"));
    assert!(!MmlConverter::is_compilable("MML@o\n999999999\tc,,;"));
    assert!(MmlConverter::is_compilable("MML@o9999c99999,,;"));
    assert!(MmlConverter::is_compilable("MML@o9999,99999,;"));
}

#[test]
fn numbers_that_are_no_octave_are_not_limited() {
    let c = MmlConverter::new();
    assert!(MmlConverter::is_compilable("MML@c000000004,,;"));
    assert!(MmlConverter::is_compilable("1705312800 MML@cde,,;"));
    assert!(MmlConverter::is_compilable("MML@l999999999c999999999t999999999v999999999,,;"));
    assert!(MmlConverter::is_compilable("MML@n999999999r999999999,,;"));
    assert!(MmlConverter::is_compilable("999999999999999999999999"));
    let plain = c.convert_mml_to_midi("MML@c4,,;").expect("a quarter note compiles");
    assert_eq!(c.convert_mml_to_midi("MML@c000000004,,;"), Ok(plain));
    let tune = c.convert_mml_to_midi("MML@cde,,;").expect("three notes compile");
    assert_eq!(c.convert_mml_to_midi("1705312800 MML@cde,,;"), Ok(tune));
    assert!(c.convert_mml_to_midi("MML@l999999999c999999999t999999999v999999999,,;").is_ok());
}

#[test]
fn octave_numbers_that_the_compiler_takes_for_zero_are_accepted() {
    let c = MmlConverter::new();
    let lowest = c.convert_mml_to_midi("MML@o0c,,;").expect("octave 0 compiles");
    for source in [
        "MML@o2147483648c,,;",
        "MML@o99999999999999999999c,,;",
        "MML@o0999999999c,,;",
        "MML@o+999999999c,,;",
    ] {
        assert!(MmlConverter::is_compilable(source), "{}", source);
        assert_eq!(c.convert_mml_to_midi(source), Ok(lowest.clone()), "{}", source);
    }
    assert_ne!(c.convert_mml_to_midi("MML@o5c,,;"), Ok(lowest));
}

#[test]
fn tracks_of_more_notes_than_can_be_timed_are_refused() {
    assert_eq!(MAX_TRACK_NOTES, 4_971_025);
    assert!(384 + 864 * (MAX_TRACK_NOTES as u64) + 576 <= u32::MAX as u64);
    assert!(384 + 864 * (MAX_TRACK_NOTES as u64 + 1) + 576 > u32::MAX as u64);
    let full = "c".repeat(MAX_TRACK_NOTES);
    let beyond = "r".repeat(MAX_TRACK_NOTES + 1);
    assert!(MmlConverter::is_compilable(&full));
    assert!(!MmlConverter::is_compilable(&beyond));
    assert_eq!(
        MmlConverter::new().convert_mml_to_midi(&beyond),
        Err(ConvertError::CompileFailed)
    );
}

#[test]
fn notes_are_counted_track_by_track() {
    let full = "N".repeat(MAX_TRACK_NOTES);
    let two = format!("MML@{},{},;", full, full);
    assert!(MmlConverter::is_compilable(&two));
    let spaced = format!("MML@{} {},,;", full, "g");
    assert!(!MmlConverter::is_compilable(&spaced));
    let commands = "l8 o4 t120 v15 < > . & + - # 0123456789 ".repeat(200_000);
    assert!(MmlConverter::is_compilable(&commands.replace('o', "l")));
}

#[test]
fn missing_compiler_output_is_compile_failed() {
    assert_eq!(MmlConverter::event_stream(None), Err(ConvertError::CompileFailed));
    assert_eq!(MmlConverter::event_stream(Some(vec![1, 2, 3])), Ok(vec![1, 2, 3]));
    assert_eq!(MmlConverter::event_stream(Some(Vec::new())), Ok(Vec::new()));
}

#[test]
fn missing_notation_file_is_source_not_found() {
    let c = MmlConverter::new();
    assert_eq!(c.convert_mml_file_to_midi(None), Err(ConvertError::SourceNotFound));
    assert_eq!(c.convert_mml_file_to_midi(Some("not notation")), Err(ConvertError::CompileFailed));
    assert_eq!(c.convert_mml_file_to_midi(Some(SONG)), c.convert_mml_to_midi(SONG));
}
