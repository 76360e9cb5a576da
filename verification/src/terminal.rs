//! The terminal as the canvas: the operations that paint it, a model of
//! what the screen shows after them, and the entering and leaving of the
//! drawing mode.

use crate::colour::{palette, resolve_colour, PixelColour, TerminalColour};
use crate::model::{Pixel, Room};
use vstd::prelude::*;

verus! {

/// One operation on the terminal.
#[derive(Clone, Copy, Debug, PartialEq, Eq, Structural, Hash)]
pub enum TermOp {
    /// Puts the cursor on a cell.
    MoveTo { column: u16, row: u16 },
    /// Sets the background colour of what is written next.
    SetBackground(TerminalColour),
    /// Writes one blank at the cursor.
    PrintBlank,
    /// Sets the colours back to the terminal's defaults.
    ResetColour,
    /// Clears every cell.
    ClearAll,
    EnableRawMode,
    DisableRawMode,
    EnableMouseCapture,
    DisableMouseCapture,
    HideCursor,
    ShowCursor,
}

/// What the terminal shows and which modes it is in.
pub struct Screen {
    /// The cells written since the screen was last cleared.
    pub cells: Map<(int, int), TerminalColour>,
    /// The colour of every other cell.
    pub cleared_to: TerminalColour,
    /// The cell under the cursor, as far as it is known: where a written
    /// blank leaves the cursor depends on the terminal's width.
    pub cursor: Option<(int, int)>,
    /// The background colour of what is written next.
    pub background: TerminalColour,
    pub raw_mode: bool,
    pub mouse_capture: bool,
    pub cursor_hidden: bool,
}

impl Screen {
    /// The colour that a cell shows.
    pub open spec fn colour_at(self, column: int, row: int) -> TerminalColour {
        if self.cells.contains_key((column, row)) {
            self.cells[(column, row)]
        } else {
            self.cleared_to
        }
    }

    /// The screen after one operation.
    pub open spec fn apply(self, op: TermOp) -> Screen {
        match op {
            TermOp::MoveTo { column, row } => Screen {
                cursor: Some((column as int, row as int)),
                ..self
            },
            TermOp::SetBackground(colour) => Screen { background: colour, ..self },
            TermOp::PrintBlank => match self.cursor {
                Some(cell) => Screen {
                    cells: self.cells.insert(cell, self.background),
                    cursor: None,
                    ..self
                },
                None => self,
            },
            TermOp::ResetColour => Screen { background: TerminalColour::Reset, ..self },
            TermOp::ClearAll => Screen {
                cells: Map::empty(),
                cleared_to: self.background,
                ..self
            },
            TermOp::EnableRawMode => Screen { raw_mode: true, ..self },
            TermOp::DisableRawMode => Screen { raw_mode: false, ..self },
            TermOp::EnableMouseCapture => Screen { mouse_capture: true, ..self },
            TermOp::DisableMouseCapture => Screen { mouse_capture: false, ..self },
            TermOp::HideCursor => Screen { cursor_hidden: true, ..self },
            TermOp::ShowCursor => Screen { cursor_hidden: false, ..self },
        }
    }

    /// The screen after a sequence of operations, in their order.
    pub open spec fn run(self, ops: Seq<TermOp>) -> Screen
        decreases ops.len(),
    {
        if ops.len() == 0 {
            self
        } else {
            self.run(ops.drop_last()).apply(ops.last())
        }
    }
}

/// Running two sequences one after the other is running their
/// concatenation.
pub proof fn run_concatenation(screen: Screen, first: Seq<TermOp>, second: Seq<TermOp>)
    ensures
        screen.run(first + second) == screen.run(first).run(second),
    decreases second.len(),
{
    if second.len() == 0 {
        assert(first + second =~= first);
    } else {
        assert((first + second).drop_last() =~= first + second.drop_last());
        assert((first + second).last() == second.last());
        run_concatenation(screen, first, second.drop_last());
    }
}

/// Whether the terminal can address the cell of a pixel: it addresses its
/// cells with sixteen bits a coordinate.
pub open spec fn addressable(pixel: Pixel) -> bool {
    pixel.x <= 0xffff && pixel.y <= 0xffff
}

/// The cell of a pixel: the one at its own coordinates.
pub open spec fn pixel_cell(pixel: Pixel) -> (int, int) {
    (pixel.x as int, pixel.y as int)
}

/// The operations that paint a pixel: to its cell, the background set to
/// its colour, one blank, and the colours set back. A pixel whose cell the
/// terminal cannot address is not painted, on no cell.
pub open spec fn pixel_ops(pixel: Pixel) -> Seq<TermOp> {
    if addressable(pixel) {
        seq![
            TermOp::MoveTo { column: pixel.x as u16, row: pixel.y as u16 },
            TermOp::SetBackground(palette(pixel.colour)),
            TermOp::PrintBlank,
            TermOp::ResetColour,
        ]
    } else {
        Seq::empty()
    }
}

/// The operations that clear the canvas to the terminal's default colour.
pub open spec fn clear_ops() -> Seq<TermOp> {
    seq![TermOp::ResetColour, TermOp::ClearAll]
}

/// The operations that paint a sequence of pixels, in its order.
pub open spec fn snapshot_ops(pixels: Seq<Pixel>) -> Seq<TermOp>
    decreases pixels.len(),
{
    if pixels.len() == 0 {
        Seq::empty()
    } else {
        snapshot_ops(pixels.drop_last()) + pixel_ops(pixels.last())
    }
}

/// The colour of the last pixel of a sequence that lies on a cell which
/// the terminal can address.
pub open spec fn last_painted(pixels: Seq<Pixel>, column: int, row: int) -> Option<PixelColour>
    decreases pixels.len(),
{
    if pixels.len() == 0 {
        None
    } else if addressable(pixels.last()) && pixel_cell(pixels.last()) == (column, row) {
        Some(pixels.last().colour)
    } else {
        last_painted(pixels.drop_last(), column, row)
    }
}

/// The operations that paint a pixel: none for a pixel whose cell the
/// terminal cannot address.
pub fn render_pixel(pixel: &Pixel) -> (ops: Vec<TermOp>)
    ensures
        ops@ == pixel_ops(*pixel),
{
    let mut ops: Vec<TermOp> = Vec::new();
    if pixel.x <= 0xffff && pixel.y <= 0xffff {
        ops.push(TermOp::MoveTo { column: pixel.x as u16, row: pixel.y as u16 });
        ops.push(TermOp::SetBackground(resolve_colour(&pixel.colour)));
        ops.push(TermOp::PrintBlank);
        ops.push(TermOp::ResetColour);
    }
    assert(ops@ =~= pixel_ops(*pixel));
    ops
}

/// The operations that clear the canvas.
pub fn clear_canvas() -> (ops: Vec<TermOp>)
    ensures
        ops@ == clear_ops(),
{
    let mut ops: Vec<TermOp> = Vec::new();
    ops.push(TermOp::ResetColour);
    ops.push(TermOp::ClearAll);
    assert(ops@ =~= clear_ops());
    ops
}

/// The operations of the first paint of a room: the canvas is cleared and
/// the pixels of the snapshot are painted in their order.
pub fn paint_room(room: &Room) -> (ops: Vec<TermOp>)
    ensures
        ops@ == clear_ops() + snapshot_ops(room.pixels@),
{
    let mut ops = clear_canvas();
    let mut i: usize = 0;
    while i < room.pixels.len()
        invariant
            i <= room.pixels.len(),
            ops@ == clear_ops() + snapshot_ops(room.pixels@.take(i as int)),
        decreases room.pixels.len() - i,
    {
        let mut painted = render_pixel(&room.pixels[i]);
        proof {
            let next = room.pixels@.take(i + 1);
            assert(next.drop_last() =~= room.pixels@.take(i as int));
            assert(next.last() == room.pixels@[i as int]);
            assert(ops@ + painted@ =~= clear_ops() + snapshot_ops(next));
        }
        ops.append(&mut painted);
        i += 1;
    }
    assert(room.pixels@.take(i as int) =~= room.pixels@);
    ops
}

proof fn run_two(screen: Screen, a: TermOp, b: TermOp)
    ensures
        screen.run(seq![a, b]) == screen.apply(a).apply(b),
{
    reveal_with_fuel(Screen::run, 3);
    assert(seq![a, b].drop_last() =~= seq![a]);
    assert(seq![a].drop_last() =~= Seq::<TermOp>::empty());
}

proof fn run_four(screen: Screen, a: TermOp, b: TermOp, c: TermOp, d: TermOp)
    ensures
        screen.run(seq![a, b, c, d]) == screen.apply(a).apply(b).apply(c).apply(d),
{
    assert(seq![a, b, c, d] =~= seq![a, b] + seq![c, d]);
    run_concatenation(screen, seq![a, b], seq![c, d]);
    run_two(screen, a, b);
    run_two(screen.apply(a).apply(b), c, d);
}

/// Painting a pixel gives its cell the colour of the palette, changes no
/// other cell, leaves the colours set back and the modes as they were. A
/// pixel whose cell the terminal cannot address leaves the screen as it
/// was.
pub proof fn painting_sets_one_cell(screen: Screen, pixel: Pixel)
    ensures
        forall|column: int, row: int|
            #[trigger] screen.run(pixel_ops(pixel)).colour_at(column, row) == if addressable(pixel)
                && (column, row) == pixel_cell(pixel) {
                palette(pixel.colour)
            } else {
                screen.colour_at(column, row)
            },
        addressable(pixel) ==> screen.run(pixel_ops(pixel)).background == TerminalColour::Reset,
        !addressable(pixel) ==> screen.run(pixel_ops(pixel)) == screen,
        screen.run(pixel_ops(pixel)).raw_mode == screen.raw_mode,
        screen.run(pixel_ops(pixel)).mouse_capture == screen.mouse_capture,
        screen.run(pixel_ops(pixel)).cursor_hidden == screen.cursor_hidden,
{
    if addressable(pixel) {
        let ops = pixel_ops(pixel);
        run_four(screen, ops[0], ops[1], ops[2], ops[3]);
        assert(ops =~= seq![ops[0], ops[1], ops[2], ops[3]]);
    }
}

/// Clearing the canvas gives every cell the terminal's default colour.
pub proof fn clearing_resets_every_cell(screen: Screen)
    ensures
        forall|column: int, row: int|
            #[trigger] screen.run(clear_ops()).colour_at(column, row) == TerminalColour::Reset,
        screen.run(clear_ops()).background == TerminalColour::Reset,
        screen.run(clear_ops()).raw_mode == screen.raw_mode,
        screen.run(clear_ops()).mouse_capture == screen.mouse_capture,
        screen.run(clear_ops()).cursor_hidden == screen.cursor_hidden,
{
    run_two(screen, TermOp::ResetColour, TermOp::ClearAll);
}

/// After a sequence of pixels is painted in its order, a cell shows the
/// colour of the last pixel that lies on it, and what it showed before
/// where none does.
pub proof fn replay_shows_last_write(screen: Screen, pixels: Seq<Pixel>, column: int, row: int)
    ensures
        screen.run(snapshot_ops(pixels)).colour_at(column, row) == match last_painted(
            pixels,
            column,
            row,
        ) {
            Some(colour) => palette(colour),
            None => screen.colour_at(column, row),
        },
    decreases pixels.len(),
{
    if pixels.len() > 0 {
        let before = screen.run(snapshot_ops(pixels.drop_last()));
        run_concatenation(screen, snapshot_ops(pixels.drop_last()), pixel_ops(pixels.last()));
        replay_shows_last_write(screen, pixels.drop_last(), column, row);
        painting_sets_one_cell(before, pixels.last());
        assert(before.run(pixel_ops(pixels.last())).colour_at(column, row) == if addressable(
            pixels.last(),
        ) && (column, row) == pixel_cell(pixels.last()) {
            palette(pixels.last().colour)
        } else {
            before.colour_at(column, row)
        });
    }
}

/// After the first paint of a room, a cell shows the colour of the last
/// pixel of the snapshot that lies on it, and the terminal's default colour
/// where none does.
pub proof fn first_paint_shows_snapshot(screen: Screen, pixels: Seq<Pixel>, column: int, row: int)
    ensures
        screen.run(clear_ops() + snapshot_ops(pixels)).colour_at(column, row) == match last_painted(
            pixels,
            column,
            row,
        ) {
            Some(colour) => palette(colour),
            None => TerminalColour::Reset,
        },
{
    run_concatenation(screen, clear_ops(), snapshot_ops(pixels));
    clearing_resets_every_cell(screen);
    replay_shows_last_write(screen.run(clear_ops()), pixels, column, row);
    assert(screen.run(clear_ops()).colour_at(column, row) == TerminalColour::Reset);
}

/// The operations that put the terminal into the drawing mode.
pub open spec fn enter_ops() -> Seq<TermOp> {
    seq![TermOp::EnableRawMode, TermOp::EnableMouseCapture, TermOp::HideCursor]
}

/// The operations that give the terminal back as it was found.
pub open spec fn leave_ops() -> Seq<TermOp> {
    seq![
        TermOp::DisableMouseCapture,
        TermOp::ResetColour,
        TermOp::ClearAll,
        TermOp::ShowCursor,
        TermOp::DisableRawMode,
    ]
}

/// Leaving ends the raw mode and the mouse capture, shows the cursor and
/// clears the screen to the terminal's default colour.
pub proof fn leaving_restores_the_terminal(screen: Screen)
    ensures
        !screen.run(leave_ops()).raw_mode,
        !screen.run(leave_ops()).mouse_capture,
        !screen.run(leave_ops()).cursor_hidden,
        screen.run(leave_ops()).background == TerminalColour::Reset,
        forall|column: int, row: int|
            #[trigger] screen.run(leave_ops()).colour_at(column, row) == TerminalColour::Reset,
{
    let ops = leave_ops();
    assert(ops =~= seq![ops[0]] + seq![ops[1], ops[2], ops[3], ops[4]]);
    run_concatenation(screen, seq![ops[0]], seq![ops[1], ops[2], ops[3], ops[4]]);
    reveal_with_fuel(Screen::run, 2);
    assert(seq![ops[0]].drop_last() =~= Seq::<TermOp>::empty());
    run_four(screen.apply(ops[0]), ops[1], ops[2], ops[3], ops[4]);
}

/// Whether the terminal is in the drawing mode. Entering and leaving hand
/// out their operations only where they change that, so that the terminal
/// is given back once, however often `leave` is called.
#[derive(Clone, Copy, Debug, PartialEq, Eq, Structural)]
pub struct TerminalGuard {
    pub active: bool,
}

impl TerminalGuard {
    /// A guard for a terminal that is not in the drawing mode.
    pub fn new() -> (guard: TerminalGuard)
        ensures
            !guard.active,
    {
        TerminalGuard { active: false }
    }

    /// The operations that put the terminal into the drawing mode: none
    /// where it is in it already.
    pub fn enter(&mut self) -> (ops: Vec<TermOp>)
        ensures
            final(self).active,
            ops@ == if old(self).active {
                Seq::<TermOp>::empty()
            } else {
                enter_ops()
            },
    {
        let mut ops: Vec<TermOp> = Vec::new();
        if !self.active {
            ops.push(TermOp::EnableRawMode);
            ops.push(TermOp::EnableMouseCapture);
            ops.push(TermOp::HideCursor);
            self.active = true;
        }
        assert(ops@ =~= if old(self).active {
            Seq::<TermOp>::empty()
        } else {
            enter_ops()
        });
        ops
    }

    /// The operations that give the terminal back: none where it is not
    /// in the drawing mode.
    pub fn leave(&mut self) -> (ops: Vec<TermOp>)
        ensures
            !final(self).active,
            ops@ == if old(self).active {
                leave_ops()
            } else {
                Seq::<TermOp>::empty()
            },
    {
        let mut ops: Vec<TermOp> = Vec::new();
        if self.active {
            ops.push(TermOp::DisableMouseCapture);
            ops.push(TermOp::ResetColour);
            ops.push(TermOp::ClearAll);
            ops.push(TermOp::ShowCursor);
            ops.push(TermOp::DisableRawMode);
            self.active = false;
        }
        assert(ops@ =~= if old(self).active {
            leave_ops()
        } else {
            Seq::<TermOp>::empty()
        });
        ops
    }
}

} // verus!
