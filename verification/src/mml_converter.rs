//! The notation front end: checks a notation source and compiles it into an
//! event stream.

use vstd::prelude::*;
use crate::error::ConvertError;

verus! {

/// Whether `c` is one of the characters that notation commands are written
/// with: the note names and `R`, `L`, `T`, `V` in either case, `N`, and the
/// digits.
pub open spec fn is_command(c: char) -> bool {
    ||| 'A' <= c <= 'G'
    ||| 'a' <= c <= 'g'
    ||| '0' <= c <= '9'
    ||| c == 'R' || c == 'L' || c == 'T' || c == 'V'
    ||| c == 'r' || c == 'l' || c == 't' || c == 'v'
    ||| c == 'N'
}

/// Whether a source holds at least one command character. A source without
/// one, such as an empty or blank one, is not notation.
pub open spec fn has_command(text: Seq<char>) -> bool {
    exists|i: int| 0 <= i < text.len() && is_command(#[trigger] text[i])
}

/// The largest octave that the compiler can turn into a note number: twelve
/// times the octave, a note of the scale and a sharp still fit 32 bits.
pub const MAX_OCTAVE: u32 = 178_956_969;

/// The largest number that the compiler reads; it takes a larger one for 0.
pub const MAX_NUMBER: u32 = 2_147_483_647;

/// The most notes and rests that the compiler can time in one track: each
/// moves the track's time on by at most 864 ticks, and the time has 32 bits.
pub const MAX_TRACK_NOTES: usize = 4_971_025;

/// Whether `c` is a decimal digit.
pub open spec fn is_digit(c: char) -> bool {
    '0' <= c <= '9'
}

/// The value of the digit `c`.
pub open spec fn digit_value(c: char) -> nat {
    (c as u32 - 48) as nat
}

/// Whether `c` ends a number: a visible ASCII character that is no digit.
/// Any other character, blank or not, may stand inside a number, as the
/// compiler drops white space before it reads numbers.
pub open spec fn ends_number(c: char) -> bool {
    '!' <= c <= '~' && !is_digit(c)
}

/// Whether `c` is the octave command.
pub open spec fn is_octave_command(c: char) -> bool {
    c == 'o' || c == 'O'
}

/// The octave that the digits from position `i` on spell, where `started`
/// says whether a digit has been read and `value` is what the digits read so
/// far spell. The number ends at the first character that ends a number; one
/// that begins with `0` is 0.
pub open spec fn octave_from(text: Seq<char>, i: int, started: bool, value: nat) -> nat
    decreases text.len() - i,
{
    if i < 0 || i >= text.len() {
        value
    } else if is_digit(text[i]) {
        if !started && text[i] == '0' {
            0
        } else {
            octave_from(text, i + 1, true, value * 10 + digit_value(text[i]))
        }
    } else if ends_number(text[i]) {
        value
    } else {
        octave_from(text, i + 1, started, value)
    }
}

/// The octave that the command at position `p` asks for: the number that
/// follows it directly, or 0 where none does.
pub open spec fn octave_after(text: Seq<char>, p: int) -> nat {
    octave_from(text, p + 1, false, 0)
}

/// Whether the compiler can work with the octave number `n`: it is at most
/// `MAX_OCTAVE`, or so large that the compiler takes it for 0.
pub open spec fn octave_fits(n: nat) -> bool {
    n <= MAX_OCTAVE || n > MAX_NUMBER
}

/// Whether `c` begins a note or a rest: a note name or `N` or `R`, in either
/// case.
pub open spec fn is_timed(c: char) -> bool {
    ||| 'a' <= c <= 'g'
    ||| 'A' <= c <= 'G'
    ||| c == 'n' || c == 'N' || c == 'r' || c == 'R'
}

/// Whether `c` cannot stand in a track, so that a track ends before it.
pub open spec fn ends_track(c: char) -> bool {
    c == ',' || c == ';' || c == '@'
}

/// The number of notes and rests among the first `i` characters of `text`
/// that stand after the last character that ends a track.
pub open spec fn notes_before(text: Seq<char>, i: int) -> nat
    decreases i,
{
    if i <= 0 {
        0
    } else if ends_track(text[i - 1]) {
        0
    } else if is_timed(text[i - 1]) {
        notes_before(text, i - 1) + 1
    } else {
        notes_before(text, i - 1)
    }
}

/// Whether a source is within the compiler's limits: every octave command
/// asks for an octave the compiler can work with, and no stretch between two
/// characters that end a track holds more than `MAX_TRACK_NOTES` notes and
/// rests.
///
/// The limits are held against the whole text as it stands, without a look
/// at what the compiler makes of it. A source is therefore also refused for
/// an octave beyond the largest that no note is played in, for such an
/// octave command outside the notation part or parted from its number by a
/// character that is neither visible nor white space, and for a track of
/// more notes than the limit that are all short enough to be timed.
pub open spec fn compilable(text: Seq<char>) -> bool {
    &&& forall|p: int|
        0 <= p < text.len() && is_octave_command(text[p]) ==> octave_fits(
            #[trigger] octave_after(text, p),
        )
    &&& forall|i: int| 0 <= i <= text.len() ==> #[trigger] notes_before(text, i) <= MAX_TRACK_NOTES
}

/// A stretch of text holds no more notes and rests than characters, so a
/// source of at most `MAX_TRACK_NOTES` characters is within the limit on
/// notes whatever it holds.
pub proof fn lemma_notes_within_length(text: Seq<char>, i: int)
    requires
        0 <= i <= text.len(),
    ensures
        notes_before(text, i) <= i,
    decreases i,
{
    if i > 0 {
        lemma_notes_within_length(text, i - 1);
    }
}

/// The digits that follow can only make a number larger.
proof fn lemma_octave_grows(text: Seq<char>, i: int, value: nat)
    ensures
        octave_from(text, i, true, value) >= value,
    decreases text.len() - i,
{
    if 0 <= i < text.len() {
        if is_digit(text[i]) {
            lemma_octave_grows(text, i + 1, value * 10 + digit_value(text[i]));
        } else if !ends_number(text[i]) {
            lemma_octave_grows(text, i + 1, value);
        }
    }
}

/// The limits leave the compiler's arithmetic in range: the largest octave
/// gives a note number of 32 bits, and the most notes of the longest kind,
/// after the track's lead of 384 ticks and before its tail of 576, give a
/// time of 32 bits.
pub proof fn lemma_limits_fit()
    ensures
        12 * MAX_OCTAVE + 11 + 1 <= i32::MAX,
        384 + 864 * MAX_TRACK_NOTES + 576 <= u32::MAX,
        MAX_NUMBER == i32::MAX,
{
}

/// The event stream that the notation compiler makes of a source for an
/// instrument program, or `None` where it does not accept the source.
pub uninterp spec fn compiled_events(text: Seq<char>, instrument: u8) -> Option<Seq<u8>>;

/// What compiling a source for an instrument gives: the compiler's event
/// stream, or `CompileFailed` where the source is beyond the compiler's
/// limits or the compiler does not accept it.
pub open spec fn conversion(text: Seq<char>, instrument: u8) -> Result<Seq<u8>, ConvertError> {
    if !compilable(text) {
        Err(ConvertError::CompileFailed)
    } else {
        match compiled_events(text, instrument) {
            Some(events) => Ok(events),
            None => Err(ConvertError::CompileFailed),
        }
    }
}

/// The mathematical content of a conversion result.
pub open spec fn stream_view(r: Result<Vec<u8>, ConvertError>) -> Result<Seq<u8>, ConvertError> {
    match r {
        Ok(events) => Ok(events@),
        Err(e) => Err(e),
    }
}

/// Runs the notation compiler of the `yks_converter` crate: builds a
/// `YksConverter` for one source and one instrument program and calls its
/// `to_buffer`. What that gives depends on the source and the program alone
/// and is named `compiled_events`; where it gives nothing, the compiler has
/// also written a line to standard error.
///
/// The compiler computes with 32-bit numbers and stops on overflow, in two
/// places. It multiplies the octave by twelve; the octave is the number
/// that follows an octave command directly, white space dropped, and is 0
/// where that number begins with `0` or is beyond `MAX_NUMBER`. And it adds
/// up the time of a track, by at most 864 ticks for each note or rest.
/// `compilable` keeps both in range.
#[verifier::external_body]
fn compile_events(text: &str, instrument: u8) -> (r: Option<Vec<u8>>)
    requires
        compilable(text@),
    ensures
        match r {
            Some(events) => compiled_events(text@, instrument) == Some(events@),
            None => compiled_events(text@, instrument) is None,
        },
{
    match yks_converter::YksConverter::new(text.to_string(), instrument).to_buffer() {
        Some(buffer) => Some(buffer.to_vec()),
        None => None,
    }
}

/// Compiles notation sources into event streams for one instrument.
pub struct MmlConverter {
    instrument: u8,
}

impl View for MmlConverter {
    type V = u8;

    /// The instrument program that compiled streams select.
    closed spec fn view(&self) -> u8 {
        self.instrument
    }
}

impl MmlConverter {
    /// A converter for instrument program 0.
    pub fn new() -> (c: MmlConverter)
        ensures
            c@ == 0,
    {
        MmlConverter { instrument: 0 }
    }

    /// Selects the instrument program that compiled streams use.
    pub fn set_instrument(&mut self, instrument: u8)
        ensures
            final(self)@ == instrument,
    {
        self.instrument = instrument;
    }

    /// The instrument program that compiled streams use.
    pub fn instrument(&self) -> (i: u8)
        ensures
            i == self@,
    {
        self.instrument
    }

    /// Decides whether `c` is a command character.
    fn command_char(c: char) -> (b: bool)
        ensures
            b == is_command(c),
    {
        ('A' <= c && c <= 'G') || ('a' <= c && c <= 'g') || ('0' <= c && c <= '9') || c == 'R'
            || c == 'L' || c == 'T' || c == 'V' || c == 'r' || c == 'l' || c == 't' || c == 'v'
            || c == 'N'
    }

    /// Checks a source before it is compiled: it passes if and only if it
    /// holds a command character.
    pub fn validate_mml(&self, mml_text: &str) -> (r: Result<(), ConvertError>)
        ensures
            r is Ok <==> has_command(mml_text@),
            r is Err ==> r == Err::<(), ConvertError>(ConvertError::ValidationFailed),
    {
        let mut found = false;
        for c in it: mml_text.chars()
            invariant
                it.seq() == mml_text@,
                found <==> exists|i: int| 0 <= i < it.index() && is_command(#[trigger] it.seq()[i]),
        {
            if Self::command_char(c) {
                found = true;
            }
        }
        if found {
            Ok(())
        } else {
            Err(ConvertError::ValidationFailed)
        }
    }

    /// Decides whether a source is within the compiler's limits.
    pub fn is_compilable(mml_text: &str) -> (b: bool)
        ensures
            b == compilable(mml_text@),
    {
        let mut notes: usize = 0;
        let mut reading = false;
        let mut started = false;
        let mut value: u32 = 0;
        let ghost mut command: int = 0;
        for c in it: mml_text.chars()
            invariant
                it.seq() == mml_text@,
                notes == notes_before(mml_text@, it.index() as int),
                forall|i: int|
                    0 <= i <= it.index() ==> #[trigger] notes_before(mml_text@, i)
                        <= MAX_TRACK_NOTES,
                forall|p: int|
                    0 <= p < it.index() && is_octave_command(mml_text@[p]) && !(reading && p
                        == command) ==> octave_fits(#[trigger] octave_after(mml_text@, p)),
                reading ==> 0 <= command < it.index() && is_octave_command(mml_text@[command])
                    && octave_after(mml_text@, command) == octave_from(
                    mml_text@,
                    it.index() as int,
                    started,
                    value as nat,
                ) && value <= MAX_NUMBER && (!started ==> value == 0),
        {
            if c == ',' || c == ';' || c == '@' {
                notes = 0;
            } else if ('a' <= c && c <= 'g') || ('A' <= c && c <= 'G') || c == 'n' || c == 'N'
                || c == 'r' || c == 'R' {
                if notes >= MAX_TRACK_NOTES {
                    assert(notes_before(mml_text@, it.index() + 1) == notes + 1);
                    return false;
                }
                notes = notes + 1;
            }
            if reading {
                if '0' <= c && c <= '9' {
                    if !started && c == '0' {
                        reading = false;
                    } else {
                        let digit: u64 = (c as u32 - 48) as u64;
                        let next: u64 = value as u64 * 10 + digit;
                        if next > MAX_NUMBER as u64 {
                            proof {
                                lemma_octave_grows(mml_text@, it.index() + 1, next as nat);
                            }
                            reading = false;
                        } else {
                            value = next as u32;
                            started = true;
                        }
                    }
                } else if '!' <= c && c <= '~' {
                    if value > MAX_OCTAVE {
                        return false;
                    }
                    reading = false;
                }
            }
            if c == 'o' || c == 'O' {
                reading = true;
                started = false;
                value = 0;
                proof {
                    command = it.index() as int;
                }
            }
        }
        if reading && value > MAX_OCTAVE {
            return false;
        }
        true
    }

    /// What a run of the compiler means: its event stream, or
    /// `CompileFailed` where it gave none.
    pub fn event_stream(compiled: Option<Vec<u8>>) -> (r: Result<Vec<u8>, ConvertError>)
        ensures
            match compiled {
                Some(events) => r is Ok && r->Ok_0@ == events@,
                None => r == Err::<Vec<u8>, ConvertError>(ConvertError::CompileFailed),
            },
    {
        match compiled {
            Some(events) => Ok(events),
            None => Err(ConvertError::CompileFailed),
        }
    }

    /// Compiles a notation source into an event stream for the converter's
    /// instrument: the compiler's stream wherever the source is within the
    /// compiler's limits. A source beyond them is refused with
    /// `CompileFailed` and not compiled.
    pub fn convert_mml_to_midi(&self, mml_text: &str) -> (r: Result<Vec<u8>, ConvertError>)
        ensures
            stream_view(r) == conversion(mml_text@, self@),
    {
        if !Self::is_compilable(mml_text) {
            return Err(ConvertError::CompileFailed);
        }
        Self::event_stream(compile_events(mml_text, self.instrument))
    }

    /// Compiles the content of a notation file, where `source` is `None` if
    /// the file does not exist or cannot be read: that gives `SourceNotFound`.
    pub fn convert_mml_file_to_midi(&self, source: Option<&str>) -> (r: Result<
        Vec<u8>,
        ConvertError,
    >)
        ensures
            stream_view(r) == (match source {
                Some(text) => conversion(text@, self@),
                None => Err(ConvertError::SourceNotFound),
            }),
    {
        match source {
            Some(text) => self.convert_mml_to_midi(text),
            None => Err(ConvertError::SourceNotFound),
        }
    }
}

impl Default for MmlConverter {
    fn default() -> (c: MmlConverter)
        ensures
            c@ == 0,
    {
        MmlConverter::new()
    }
}

} // verus!
