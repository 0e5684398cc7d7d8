//! What a source file is taken for, and what is known of it before it is
//! converted.

use vstd::prelude::*;
use crate::error::ConvertError;

verus! {

/// What a source file holds, as its name says.
#[derive(Clone, Copy, Debug, PartialEq, Eq, Structural)]
pub enum SourceKind {
    /// Notation text, to be compiled.
    Notation,
    /// An event stream, ready for synthesis.
    EventStream,
}

/// Whether `c` is the letter `lower`, in either case. `lower` is a lower-case
/// ASCII letter.
pub open spec fn is_letter(c: char, lower: char) -> bool {
    c == lower || ('A' <= c <= 'Z' && c as u32 + 32 == lower as u32)
}

/// Whether an extension of `n` characters ends `path`: a dot stands `n`
/// characters before the end, and a file name of at least one character
/// stands before the dot.
pub open spec fn extension_starts(path: Seq<char>, n: int) -> bool {
    &&& path.len() >= n + 2
    &&& path[path.len() - n - 1] == '.'
    &&& path[path.len() - n - 2] != '/'
}

/// Whether `path` ends in the extension `mml`, in any case.
pub open spec fn is_notation_path(path: Seq<char>) -> bool {
    &&& extension_starts(path, 3)
    &&& is_letter(path[path.len() - 3], 'm')
    &&& is_letter(path[path.len() - 2], 'm')
    &&& is_letter(path[path.len() - 1], 'l')
}

/// Whether `path` ends in the extension `mid` or `midi`, in any case.
pub open spec fn is_event_path(path: Seq<char>) -> bool {
    ||| {
        &&& extension_starts(path, 3)
        &&& is_letter(path[path.len() - 3], 'm')
        &&& is_letter(path[path.len() - 2], 'i')
        &&& is_letter(path[path.len() - 1], 'd')
    }
    ||| {
        &&& extension_starts(path, 4)
        &&& is_letter(path[path.len() - 4], 'm')
        &&& is_letter(path[path.len() - 3], 'i')
        &&& is_letter(path[path.len() - 2], 'd')
        &&& is_letter(path[path.len() - 1], 'i')
    }
}

/// The characters of a string, in order.
fn chars_of(text: &str) -> (v: Vec<char>)
    ensures
        v@ == text@,
{
    let mut v: Vec<char> = Vec::new();
    for c in it: text.chars()
        invariant
            it.seq() == text@,
            v@ == it.seq().take(it.index() as int),
    {
        v.push(c);
        assert(it.seq().take(it.index() + 1) =~= it.seq().take(it.index() as int).push(c));
    }
    assert(text@.take(text@.len() as int) =~= text@);
    v
}

/// Decides whether `c` is the letter `lower` in either case.
fn letter(c: char, lower: char) -> (b: bool)
    requires
        'a' <= lower <= 'z',
    ensures
        b == is_letter(c, lower),
{
    c == lower || ('A' <= c && c <= 'Z' && c as u32 + 32 == lower as u32)
}

/// Decides whether an extension of `n` characters ends `path`.
fn extension_at(path: &Vec<char>, n: usize) -> (b: bool)
    requires
        n <= 4,
    ensures
        b == extension_starts(path@, n as int),
{
    let len: usize = path.len();
    len >= 2 && len - 2 >= n && path[len - n - 1] == '.' && path[len - n - 2] != '/'
}

/// Tells notation files from event-stream files by the extension of their
/// name. Any other name is rejected with `ValidationFailed`.
pub fn classify_source(path: &str) -> (r: Result<SourceKind, ConvertError>)
    ensures
        r == (if is_notation_path(path@) {
            Ok::<SourceKind, ConvertError>(SourceKind::Notation)
        } else if is_event_path(path@) {
            Ok(SourceKind::EventStream)
        } else {
            Err(ConvertError::ValidationFailed)
        }),
{
    let p = chars_of(path);
    let len: usize = p.len();
    if extension_at(&p, 3) {
        if letter(p[len - 3], 'm') && letter(p[len - 2], 'm') && letter(p[len - 1], 'l') {
            return Ok(SourceKind::Notation);
        }
        if letter(p[len - 3], 'm') && letter(p[len - 2], 'i') && letter(p[len - 1], 'd') {
            return Ok(SourceKind::EventStream);
        }
    }
    if extension_at(&p, 4) {
        if letter(p[len - 4], 'm') && letter(p[len - 3], 'i') && letter(p[len - 2], 'd')
            && letter(p[len - 1], 'i') {
            return Ok(SourceKind::EventStream);
        }
    }
    Err(ConvertError::ValidationFailed)
}

/// A rough measure of how much work a notation source is.
#[derive(Clone, Copy, Debug, PartialEq, Eq, Structural)]
pub enum Complexity {
    /// At most 500 characters.
    Low,
    /// More than 500 and at most 1000 characters.
    Medium,
    /// More than 1000 characters.
    High,
}

/// What is known of a notation file before it is converted.
#[derive(Clone, Copy, Debug, PartialEq, Eq, Structural)]
pub struct ConversionInfo {
    /// Size of the file in bytes.
    pub file_size: u64,
    /// Number of lines.
    pub lines: usize,
    /// Number of characters.
    pub characters: usize,
    /// Estimated complexity.
    pub complexity: Complexity,
}

/// The number of line feeds among the first `i` characters of `text`.
pub open spec fn line_feeds(text: Seq<char>, i: int) -> nat
    decreases i,
{
    if i <= 0 {
        0
    } else if text[i - 1] == '\n' {
        line_feeds(text, i - 1) + 1
    } else {
        line_feeds(text, i - 1)
    }
}

/// The number of lines of `text`: one per line feed, and one more for a last
/// line that no line feed ends.
pub open spec fn line_count(text: Seq<char>) -> nat {
    if text.len() > 0 && text.last() != '\n' {
        line_feeds(text, text.len() as int) + 1
    } else {
        line_feeds(text, text.len() as int)
    }
}

/// The complexity of a source of `characters` characters.
pub open spec fn complexity_of(characters: nat) -> Complexity {
    if characters > 1000 {
        Complexity::High
    } else if characters > 500 {
        Complexity::Medium
    } else {
        Complexity::Low
    }
}

/// What is known of a notation file of `file_size` bytes that holds `text`.
pub open spec fn info_of(file_size: u64, text: Seq<char>) -> ConversionInfo {
    ConversionInfo {
        file_size,
        lines: line_count(text) as usize,
        characters: text.len() as usize,
        complexity: complexity_of(text.len()),
    }
}

/// A text has no more line feeds than characters.
proof fn lemma_line_feeds_bound(text: Seq<char>, i: int)
    requires
        0 <= i <= text.len(),
    ensures
        line_feeds(text, i) <= i,
    decreases i,
{
    if i > 0 {
        lemma_line_feeds_bound(text, i - 1);
    }
}

/// Describes a notation file of `file_size` bytes that holds `text`.
pub fn describe(file_size: u64, text: &str) -> (info: ConversionInfo)
    ensures
        info == info_of(file_size, text@),
{
    let characters: usize = text.unicode_len();
    let mut feeds: usize = 0;
    let mut open_line = false;
    for c in it: text.chars()
        invariant
            it.seq() == text@,
            characters == text@.len(),
            feeds == line_feeds(text@, it.index() as int),
            feeds <= it.index() <= characters,
            open_line <==> it.index() > 0 && text@[it.index() - 1] != '\n',
    {
        if c == '\n' {
            feeds = feeds + 1;
            open_line = false;
        } else {
            open_line = true;
        }
    }
    proof {
        if open_line {
            lemma_line_feeds_bound(text@, text@.len() - 1);
        }
    }
    let lines: usize = if open_line {
        feeds + 1
    } else {
        feeds
    };
    let complexity = if characters > 1000 {
        Complexity::High
    } else if characters > 500 {
        Complexity::Medium
    } else {
        Complexity::Low
    };
    ConversionInfo { file_size, lines, characters, complexity }
}

} // verus!
