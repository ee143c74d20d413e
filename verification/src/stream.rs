//! Stream state and the factory that creates one falling stream per
//! terminal column, with randomized characters and speed.

use vstd::prelude::*;

verus! {

/// The rendering color of a stream; a single static color in current
/// behavior.
#[derive(Clone, Copy, Debug, PartialEq, Eq)]
pub enum StreamColor {
    Green,
}

/// One falling column of characters.
pub struct TextStream {
    /// The symbols of the stream, fixed at creation.
    pub characters: Vec<char>,
    /// Vertical offset, advanced every frame modulo the terminal height.
    pub position: usize,
    /// Horizontal coordinate (the terminal column), fixed at creation.
    pub x: u16,
    /// How many rows the stream falls per frame, drawn from 1..=3 at
    /// creation.
    pub speed: usize,
    /// Rendering color, fixed at creation.
    pub color: StreamColor,
}

/// A symbol the character generator can produce: an ASCII digit or letter.
pub open spec fn is_matrix_char(c: char) -> bool {
    ||| '0' as int <= c as int <= '9' as int
    ||| 'A' as int <= c as int <= 'Z' as int
    ||| 'a' as int <= c as int <= 'z' as int
}

/// What the factory guarantees of the stream it makes for column `col`
/// with character length `len`.
pub open spec fn is_fresh_stream(s: TextStream, col: int, len: int) -> bool {
    &&& s.x as int == col
    &&& s.position == 0
    &&& s.characters@.len() == len
    &&& (forall|j: int| 0 <= j < len ==> is_matrix_char(s.characters@[j]))
    &&& 1 <= s.speed <= 3
    &&& s.color == StreamColor::Green
}

/// Relies on rand's `Alphanumeric` distribution: sampling it yields a byte
/// drawn uniformly from the ASCII set a-z, A-Z, 0-9.
#[verifier::external_body]
fn sample_alphanumeric_byte() -> (b: u8)
    ensures
        (48 <= b <= 57) || (65 <= b <= 90) || (97 <= b <= 122),
{
    rand::Rng::sample(&mut rand::thread_rng(), rand::distributions::Alphanumeric)
}

/// Relies on rand's `Rng::gen_range`: the result lies within the given
/// range, which must be non-empty (an empty range panics).
#[verifier::external_body]
fn sample_in_range(lo: usize, hi: usize) -> (n: usize)
    requires
        lo <= hi,
    ensures
        lo <= n <= hi,
{
    rand::Rng::gen_range(&mut rand::thread_rng(), lo..=hi)
}

/// Generate one random symbol for a stream.
pub fn random_matrix_char() -> (c: char)
    ensures
        is_matrix_char(c),
{
    let b = sample_alphanumeric_byte();
    b as char
}

/// Generate the character sequence of one stream: `length` independently
/// drawn alphanumeric symbols.
pub fn create_text_stream(length: usize) -> (chars: Vec<char>)
    ensures
        chars@.len() == length,
        forall|j: int| 0 <= j < length ==> is_matrix_char(chars@[j]),
{
    let mut chars: Vec<char> = Vec::new();
    let mut i: usize = 0;
    while i < length
        invariant
            i <= length,
            chars@.len() == i,
            forall|j: int| 0 <= j < i ==> is_matrix_char(chars@[j]),
        decreases length - i,
    {
        let c = random_matrix_char();
        chars.push(c);
        i = i + 1;
    }
    chars
}

/// The stream factory: one stream per column `0..width`, each with `length`
/// random characters, position zero, a random speed in 1..=3, and the
/// default color. A width of zero yields an empty set.
pub fn create_streams(width: u16, length: usize) -> (streams: Vec<TextStream>)
    ensures
        streams@.len() == width as int,
        forall|i: int| 0 <= i < width as int ==> is_fresh_stream(streams@[i], i, length as int),
{
    let mut streams: Vec<TextStream> = Vec::new();
    let mut x: u16 = 0;
    while x < width
        invariant
            x <= width,
            streams@.len() == x as int,
            forall|i: int| 0 <= i < x as int ==> is_fresh_stream(streams@[i], i, length as int),
        decreases width - x,
    {
        let characters = create_text_stream(length);
        let speed = sample_in_range(1, 3);
        streams.push(TextStream { characters, position: 0, x, speed, color: StreamColor::Green });
        x = x + 1;
    }
    streams
}

/// In a factory-produced set the column coordinates are pairwise distinct:
/// stream `i` sits in column `i`.
pub proof fn lemma_columns_unique(streams: Seq<TextStream>, len: int)
    requires
        forall|i: int| 0 <= i < streams.len() ==> is_fresh_stream(streams[i], i, len),
    ensures
        forall|i: int, j: int|
            0 <= i < streams.len() && 0 <= j < streams.len() && i != j
                ==> streams[i].x != streams[j].x,
{
}

} // verus!
