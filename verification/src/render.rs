//! The frame renderer's verified core: advancing every stream one step and
//! computing the terminal cell of every character it draws.
//!
//! A render pass clears the screen, advances each stream's vertical offset
//! modulo the terminal height, and draws character `i` of each stream at
//! row `(position + i) mod height` of the stream's column. The clearing and
//! drawing are terminal I/O and live outside the library; this module
//! computes the exact sequence of cells a pass draws.

use vstd::prelude::*;
use crate::stream::StreamColor;
use crate::stream::TextStream;

verus! {

/// One styled character placed at a terminal cell.
#[derive(Clone, Copy, Debug, PartialEq, Eq)]
pub struct Cell {
    /// Terminal column.
    pub x: u16,
    /// Terminal row.
    pub y: u16,
    /// The character drawn there.
    pub ch: char,
    /// Its foreground color.
    pub color: StreamColor,
}

/// The vertical offset after one frame: fall by `speed` rows, wrapping at
/// the terminal height.
pub open spec fn next_position(pos: int, speed: int, height: int) -> int {
    (pos + speed) % height
}

/// Applying the frame update to any offset lands in `[0, height)`, so
/// repeated updates never leave that range.
pub proof fn lemma_next_position_in_range(pos: int, speed: int, height: int)
    requires
        pos >= 0,
        speed >= 0,
        height > 0,
    ensures
        0 <= next_position(pos, speed, height) < height,
{
}

/// How a render pass changes one stream: the offset advances modulo the
/// height and every other field is untouched.
pub open spec fn stream_updated(before: TextStream, after: TextStream, height: int) -> bool {
    &&& after.position == next_position(before.position as int, before.speed as int, height)
    &&& after.characters@ == before.characters@
    &&& after.x == before.x
    &&& after.speed == before.speed
    &&& after.color == before.color
}

/// The cell where character `i` of a stream lands, given the stream's
/// state before the pass: row `(position' + i) mod height` of the stream's
/// column, where `position'` is the advanced offset.
pub open spec fn stream_cell(s: TextStream, height: int, i: int) -> Cell {
    Cell {
        x: s.x,
        y: ((next_position(s.position as int, s.speed as int, height) + i) % height) as u16,
        ch: s.characters@[i],
        color: s.color,
    }
}

/// The cells one stream draws in a pass, given its state before the pass.
pub open spec fn stream_cells(s: TextStream, height: int) -> Seq<Cell> {
    Seq::new(s.characters@.len(), |i: int| stream_cell(s, height, i))
}

/// All cells one render pass draws: the cells of each stream in order.
pub open spec fn frame_cells(streams: Seq<TextStream>, height: int) -> Seq<Cell>
    decreases streams.len(),
{
    if streams.len() == 0 {
        Seq::empty()
    } else {
        frame_cells(streams.drop_last(), height) + stream_cells(streams.last(), height)
    }
}

/// Advance one stream's vertical offset by its speed, wrapping at the
/// terminal height.
pub fn advance_stream(s: &mut TextStream, height: u16)
    requires
        height > 0,
        old(s).position + old(s).speed <= usize::MAX,
    ensures
        stream_updated(*old(s), *final(s), height as int),
        final(s).position < height as usize,
{
    s.position = (s.position + s.speed) % (height as usize);
}

/// One render pass over the stream set: advance every stream and return
/// the cells to draw, in stream order. The caller clears the screen and
/// draws the returned cells.
pub fn update_and_render(streams: &mut Vec<TextStream>, height: u16) -> (cells: Vec<Cell>)
    requires
        height > 0,
        forall|i: int| 0 <= i < old(streams)@.len()
            ==> #[trigger] old(streams)@[i].position + old(streams)@[i].speed <= usize::MAX,
    ensures
        final(streams)@.len() == old(streams)@.len(),
        forall|i: int| 0 <= i < old(streams)@.len()
            ==> stream_updated(old(streams)@[i], #[trigger] final(streams)@[i], height as int),
        cells@ == frame_cells(old(streams)@, height as int),
{
    let ghost orig: Seq<TextStream> = streams@;
    let height_us: usize = height as usize;
    let mut cells: Vec<Cell> = Vec::new();
    let n: usize = streams.len();
    let mut si: usize = 0;
    while si < n
        invariant
            n == orig.len(),
            streams@.len() == n,
            si <= n,
            height > 0,
            height_us == height as usize,
            forall|i: int| si <= i < n ==> streams@[i] == orig[i],
            forall|i: int| 0 <= i < si
                ==> stream_updated(orig[i], #[trigger] streams@[i], height as int),
            forall|i: int| si <= i < n
                ==> #[trigger] orig[i].position + orig[i].speed <= usize::MAX,
            cells@ == frame_cells(orig.take(si as int), height as int),
        decreases n - si,
    {
        proof {
            assert(streams@[si as int] == orig[si as int]);
            assert(orig[si as int].position + orig[si as int].speed <= usize::MAX);
        }
        advance_stream(&mut streams[si], height);
        let base: usize = streams[si].position;
        let sx: u16 = streams[si].x;
        let color: StreamColor = streams[si].color;
        let count: usize = streams[si].characters.len();
        let ghost before_cells: Seq<Cell> = cells@;
        let mut ci: usize = 0;
        while ci < count
            invariant
                ci <= count,
                si < n,
                n == orig.len(),
                streams@.len() == n,
                height > 0,
                height_us == height as usize,
                stream_updated(orig[si as int], streams@[si as int], height as int),
                count == streams@[si as int].characters@.len(),
                count == orig[si as int].characters@.len(),
                base == streams@[si as int].position,
                base < height_us,
                sx == streams@[si as int].x,
                color == streams@[si as int].color,
                cells@ == before_cells + stream_cells(orig[si as int], height as int).take(ci as int),
            decreases count - ci,
        {
            let ch: char = streams[si].characters[ci];
            let y: usize = (base + ci % height_us) % height_us;
            proof {
                vstd::arithmetic::div_mod::lemma_add_mod_noop_right(
                    base as int,
                    ci as int,
                    height as int,
                );
                assert(y as int == (next_position(
                    orig[si as int].position as int,
                    orig[si as int].speed as int,
                    height as int,
                ) + ci as int) % (height as int));
            }
            cells.push(Cell { x: sx, y: y as u16, ch, color });
            proof {
                let sc = stream_cells(orig[si as int], height as int);
                assert(sc.len() == count);
                assert(sc[ci as int] == (Cell { x: sx, y: y as u16, ch, color }));
                assert(cells@ =~= before_cells + sc.take(ci as int + 1));
            }
            ci = ci + 1;
        }
        proof {
            let sc = stream_cells(orig[si as int], height as int);
            assert(sc.len() == count);
            assert(sc.take(count as int) =~= sc);
            assert(orig.take(si as int + 1).drop_last() =~= orig.take(si as int));
            assert(orig.take(si as int + 1).last() == orig[si as int]);
            assert(cells@ =~= frame_cells(orig.take(si as int + 1), height as int));
        }
        si = si + 1;
    }
    proof {
        assert(orig.take(n as int) =~= orig);
    }
    cells
}

} // verus!
